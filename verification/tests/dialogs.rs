use hush::dialog::{
    self, footer_buttons, hints, key_message, shows_choice, DialogConfig, DialogKind, DialogState,
    Effect, Finish, Key, Message,
};

fn config(kind: DialogKind, repeat: Option<&str>) -> DialogConfig {
    DialogConfig {
        kind,
        heading: "Unlock".to_string(),
        description: None,
        error: None,
        placeholder: "PIN".to_string(),
        ok_label: "OK".to_string(),
        cancel_label: "Cancel".to_string(),
        not_ok_label: Some("No".to_string()),
        repeat_label: repeat.map(String::from),
        repeat_error: String::new(),
        quality_bar: false,
        choice_label: Some("Remember".to_string()),
        choice: true,
    }
}

#[test]
fn pin_dialog_finishes_with_choice() {
    let mut state = DialogState::new(config(DialogKind::Pin, None));
    assert!(state.choice);
    assert_eq!(state.update(Message::PinChanged, "1234", ""), Effect::StorePin);
    assert_eq!(state.update(Message::ToggleChoice(false), "1234", ""), Effect::Nothing);
    assert_eq!(
        state.update(Message::Confirm, "1234", ""),
        Effect::Finish(Finish::Pin { choice: false })
    );
    assert!(state.done);
}

#[test]
fn repeated_pin_must_match() {
    let mut state = DialogState::new(config(DialogKind::Pin, Some("Repeat")));
    assert_eq!(state.update(Message::Confirm, "1234", "1243"), Effect::Nothing);
    assert!(state.mismatch);
    assert!(!state.done);
    assert_eq!(state.update(Message::RepeatChanged, "1234", "1234"), Effect::StoreRepeat);
    assert!(!state.mismatch);
    assert_eq!(
        state.update(Message::Confirm, "1234", "1234"),
        Effect::Finish(Finish::Pin { choice: true })
    );
}

#[test]
fn ended_dialog_ignores_everything() {
    let mut state = DialogState::new(config(DialogKind::Confirm { one_button: false }, None));
    assert_eq!(state.update(Message::Decline, "", ""), Effect::Finish(Finish::Declined));
    for message in [
        Message::Confirm,
        Message::Cancel,
        Message::PinChanged,
        Message::Reveal(true),
        Message::FocusNext,
        Message::Tick,
    ] {
        assert_eq!(state.update(message, "", ""), Effect::Nothing);
    }
    assert!(!state.reveal);
}

#[test]
fn confirm_and_message_dialogs_confirm() {
    let mut state = DialogState::new(config(DialogKind::Message, Some("x")));
    assert_eq!(
        state.update(Message::Confirm, "a", "b"),
        Effect::Finish(Finish::Confirmed { choice: true })
    );
    let mut state = DialogState::new(config(DialogKind::Confirm { one_button: true }, None));
    assert_eq!(state.update(Message::Cancel, "", ""), Effect::Finish(Finish::Cancelled));
}

#[test]
fn focus_reveal_and_ticks() {
    let mut state = DialogState::new(config(DialogKind::Pin, None));
    assert_eq!(state.update(Message::FocusNext, "", ""), Effect::FocusNext);
    assert_eq!(state.update(Message::FocusPrevious, "", ""), Effect::FocusPrevious);
    assert_eq!(state.update(Message::Reveal(true), "", ""), Effect::Nothing);
    assert!(state.reveal);
    assert_eq!(state.update(Message::Tick, "", ""), Effect::Animate);
    assert_eq!(state.update(Message::Other, "", ""), Effect::Nothing);
}

#[test]
fn keys_map_to_messages() {
    assert_eq!(key_message(Key::Escape, false), Some(Message::Cancel));
    assert_eq!(key_message(Key::Enter, true), Some(Message::Confirm));
    assert_eq!(key_message(Key::Tab, false), Some(Message::FocusNext));
    assert_eq!(key_message(Key::Tab, true), Some(Message::FocusPrevious));
    assert_eq!(key_message(Key::Other, false), None);
}

#[test]
fn footer_follows_the_kind() {
    let pin = footer_buttons(&config(DialogKind::Pin, None));
    assert!(pin.cancel && !pin.decline);
    let two = footer_buttons(&config(DialogKind::Confirm { one_button: false }, None));
    assert!(two.cancel && two.decline);
    let one = footer_buttons(&config(DialogKind::Confirm { one_button: true }, None));
    assert!(!one.cancel && !one.decline);
    let msg = footer_buttons(&config(DialogKind::Message, None));
    assert!(!msg.cancel && !msg.decline);
    let mut no_label = config(DialogKind::Confirm { one_button: false }, None);
    no_label.not_ok_label = None;
    assert!(!footer_buttons(&no_label).decline);
}

#[test]
fn hints_and_choice_row() {
    let words: Vec<(&str, &str)> = hints(DialogKind::Pin).iter().map(|h| (h.key, h.word)).collect();
    assert_eq!(words, vec![("\u{21B5}", "unlock"), ("esc", "cancel")]);
    let words: Vec<(&str, &str)> =
        hints(DialogKind::Message).iter().map(|h| (h.key, h.word)).collect();
    assert_eq!(words, vec![("\u{21B5}", "dismiss")]);
    assert!(shows_choice(&config(DialogKind::Pin, None)));
    assert!(shows_choice(&config(DialogKind::Message, None)));
    let mut unlabelled = config(DialogKind::Pin, None);
    unlabelled.choice_label = None;
    assert!(!shows_choice(&unlabelled));
    assert_eq!(dialog::namespace(), "pinentry");
}
