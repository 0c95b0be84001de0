use hush::frontend::{
    clean_label, confirm_outcome, non_empty, pin_outcome, strip_accel, char_classes, ConfirmOutcome,
    DialogKind, DialogResult, DialogState, Effect, Finish, LayerShell, Message, PinOutcome,
    PinentrySettings,
};

fn empty_settings() -> PinentrySettings {
    PinentrySettings {
        title: None,
        description: None,
        error: None,
        prompt: None,
        default_prompt: None,
        ok_label: None,
        default_ok: None,
        cancel_label: None,
        default_cancel: None,
        not_ok_label: None,
        repeat: None,
        repeat_error: None,
        quality_bar: false,
    }
}

fn s(v: &str) -> Option<String> {
    Some(v.to_string())
}

#[test]
fn defaults_fill_an_empty_request() {
    let pin = LayerShell::config(&empty_settings(), DialogKind::Pin);
    assert_eq!(pin.heading, "Unlock your key");
    assert_eq!(pin.placeholder, "Enter PIN");
    assert_eq!(pin.ok_label, "Unlock");
    assert_eq!(pin.cancel_label, "Cancel");
    assert!(pin.description.is_none() && pin.error.is_none());
    assert!(pin.not_ok_label.is_none() && pin.repeat_label.is_none());
    assert_eq!(pin.repeat_error, "");
    assert!(!pin.quality_bar);
    let confirm = LayerShell::config(&empty_settings(), DialogKind::Confirm { one_button: true });
    assert_eq!(confirm.heading, "Please confirm");
    assert_eq!(confirm.ok_label, "OK");
    let message = LayerShell::config(&empty_settings(), DialogKind::Message);
    assert_eq!(message.heading, "Notice");
}

#[test]
fn request_settings_are_cleaned() {
    let mut settings = empty_settings();
    settings.title = s("_Unlock _card");
    settings.description = s("  ");
    settings.error = s("Bad PIN");
    settings.prompt = s("   ");
    settings.default_prompt = s("P_IN::");
    settings.ok_label = s("   ");
    settings.default_ok = s("_Go");
    settings.cancel_label = None;
    settings.default_cancel = s("_Abort");
    settings.not_ok_label = s("_No");
    settings.repeat = s("");
    settings.repeat_error = s("Differ");
    settings.quality_bar = true;
    let c = LayerShell::config(&settings, DialogKind::Pin);
    assert_eq!(c.heading, "Unlock card");
    assert!(c.description.is_none());
    assert_eq!(c.error.as_deref(), Some("Bad PIN"));
    assert_eq!(c.placeholder, "PIN");
    // A blank label still wins over the default one and then falls back.
    assert_eq!(c.ok_label, "Unlock");
    assert_eq!(c.cancel_label, "Abort");
    assert_eq!(c.not_ok_label.as_deref(), Some("No"));
    assert_eq!(c.repeat_label.as_deref(), Some(""));
    assert_eq!(c.repeat_error, "Differ");
    assert!(c.quality_bar);
}

#[test]
fn label_helpers() {
    assert_eq!(strip_accel("_OK"), "OK");
    assert_eq!(non_empty(s(" \t")), None);
    assert_eq!(non_empty(s(" x ")), s(" x "));
    assert_eq!(non_empty(None), None);
    assert_eq!(clean_label(s("_Yes"), "OK"), "Yes");
    assert_eq!(clean_label(s(""), "OK"), "OK");
    assert_eq!(clean_label(s("_"), "OK"), "");
}

#[test]
fn outcomes_follow_the_ending() {
    assert!(matches!(pin_outcome(DialogResult::Pin("42".into())), PinOutcome::Entered(p) if p == "42"));
    assert!(matches!(pin_outcome(DialogResult::Confirmed), PinOutcome::Cancelled));
    assert!(matches!(pin_outcome(DialogResult::Declined), PinOutcome::Cancelled));
    assert_eq!(confirm_outcome(&DialogResult::Confirmed), ConfirmOutcome::Yes);
    assert_eq!(confirm_outcome(&DialogResult::Declined), ConfirmOutcome::No);
    assert_eq!(confirm_outcome(&DialogResult::Cancelled), ConfirmOutcome::Cancelled);
    assert_eq!(confirm_outcome(&DialogResult::Pin("x".into())), ConfirmOutcome::Cancelled);
}

#[test]
fn pinentry_dialog_steps() {
    let mut settings = empty_settings();
    settings.repeat = s("Again");
    let mut state = DialogState::new(LayerShell::config(&settings, DialogKind::Pin));
    assert_eq!(state.update(Message::ToggleReveal, "", ""), Effect::Nothing);
    assert!(state.reveal);
    assert_eq!(state.update(Message::Confirm, "a", "b"), Effect::Nothing);
    assert!(state.mismatch);
    assert_eq!(state.update(Message::PinChanged, "b", "b"), Effect::StorePin);
    assert!(!state.mismatch);
    assert_eq!(state.update(Message::Confirm, "b", "b"), Effect::Finish(Finish::Pin));
    assert_eq!(state.update(Message::Cancel, "b", "b"), Effect::Nothing);
}

#[test]
fn character_classes_are_counted() {
    assert_eq!(char_classes(""), 0);
    assert_eq!(char_classes("abc"), 1);
    assert_eq!(char_classes("aB3"), 3);
    assert_eq!(char_classes("aB3!"), 4);
    assert_eq!(char_classes("ü Ü"), 3);
    assert_eq!(hush::frontend::namespace(), "pinentry");
}
