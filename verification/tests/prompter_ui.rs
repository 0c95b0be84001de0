use hush::conversation::{Applied, Conversation, Submitted, Update};
use hush::fade::Fade;
use hush::info::InfoLine;
use hush::prompt::{Cancel, PromptKind};
use hush::ui::{
    footer_buttons, hints, next_focus, shows_choice, strength_level, Dialog, DialogConfig,
    DialogKind, StrengthLevel, Submission,
};

fn config(kind: DialogKind, repeat: Option<&str>) -> DialogConfig {
    DialogConfig {
        kind,
        heading: "Unlock keyring".to_string(),
        description: None,
        error: None,
        placeholder: "Password".to_string(),
        ok_label: "Unlock".to_string(),
        cancel_label: "Cancel".to_string(),
        not_ok_label: None,
        repeat_label: repeat.map(String::from),
        repeat_error: String::new(),
        quality_bar: true,
        choice_label: Some("Unlock on login".to_string()),
        choice: false,
    }
}

#[test]
fn focus_wraps_around() {
    assert_eq!(next_focus(Some(0), 1, 2), Some(1));
    assert_eq!(next_focus(Some(1), 1, 2), Some(0));
    assert_eq!(next_focus(Some(0), -1, 2), Some(1));
    assert_eq!(next_focus(None, -1, 2), Some(0));
    assert_eq!(next_focus(Some(0), 1, 0), None);
    assert_eq!(next_focus(Some(2), -7, 5), Some(0));
    assert_eq!(next_focus(Some(3), isize::MIN, 7), Some((3 + isize::MIN).rem_euclid(7) as usize));
    assert_eq!(next_focus(Some(3), isize::MAX, 7), Some(((3i128 + isize::MAX as i128) % 7) as usize));
    for len in 1usize..6 {
        for i in 0..len {
            let j = next_focus(Some(i), 1, len).unwrap();
            assert_eq!(next_focus(Some(j), -1, len), Some(i));
        }
    }
}

#[test]
fn prompter_dialog_fields_and_submission() {
    let mut d = Dialog::new(config(DialogKind::Pin, Some("")));
    assert!(d.has_pin_field() && d.has_repeat_field());
    assert_eq!(d.field_count(), 2);
    assert_eq!(d.submit("one", "two"), Submission::Mismatch);
    assert!(d.mismatch);
    d.field_changed();
    assert!(!d.mismatch);
    d.toggle_choice();
    assert_eq!(d.submit("same", "same"), Submission::Pin { choice: true });
    let mut c = Dialog::new(config(DialogKind::Confirm { one_button: false }, Some("x")));
    assert_eq!(c.field_count(), 0);
    assert_eq!(c.submit("a", "b"), Submission::Confirmed { choice: false });
}

#[test]
fn reveal_reports_changes() {
    let mut d = Dialog::new(config(DialogKind::Pin, None));
    assert_eq!(d.field_count(), 1);
    assert!(d.set_reveal(true));
    assert!(!d.set_reveal(true));
    assert!(d.set_reveal(false));
}

#[test]
fn prompter_footer_hints_and_choice() {
    let words: Vec<(&str, &str)> = hints(DialogKind::Pin).iter().map(|h| (h.key, h.word)).collect();
    assert_eq!(words, vec![("\u{21B5}", "unlock"), ("Esc", "cancel")]);
    let words: Vec<(&str, &str)> = hints(DialogKind::Confirm { one_button: false })
        .iter()
        .map(|h| (h.key, h.word))
        .collect();
    assert_eq!(words, vec![("\u{21B5}", "confirm"), ("esc", "cancel")]);
    assert!(footer_buttons(&config(DialogKind::Pin, None)).cancel);
    assert!(shows_choice(&config(DialogKind::Confirm { one_button: true }, None)));
}

#[test]
fn strength_bands() {
    assert_eq!(strength_level(0), StrengthLevel::Weak);
    assert_eq!(strength_level(7), StrengthLevel::Weak);
    assert_eq!(strength_level(8), StrengthLevel::Medium);
    assert_eq!(strength_level(14), StrengthLevel::Medium);
    assert_eq!(strength_level(15), StrengthLevel::Strong);
    assert_eq!(strength_level(400), StrengthLevel::Strong);
    for n in 0usize..40 {
        let value = (n as f32 / 20.0).clamp(0.0, 1.0);
        let expected = if value < 0.4 {
            StrengthLevel::Weak
        } else if value < 0.75 {
            StrengthLevel::Medium
        } else {
            StrengthLevel::Strong
        };
        assert_eq!(strength_level(n), expected);
    }
}

#[test]
fn fade_restarts_once_after_a_pause() {
    let mut fade = Fade::new();
    assert_eq!(fade.elapsed(1_000), 0);
    assert_eq!(fade.elapsed(100_000_000), 0);
    assert_eq!(fade.elapsed(400_000_000), 300_000_000);
    assert_eq!(fade.elapsed(900_000_000), 800_000_000);
    let mut quick = Fade::new();
    assert_eq!(quick.elapsed(0), 0);
    assert_eq!(quick.elapsed(16_000_000), 16_000_000);
    assert_eq!(quick.elapsed(32_000_000), 32_000_000);
}

#[test]
fn conversation_answers_each_prompt_once() {
    let mut c = Conversation::new();
    assert_eq!(
        c.apply(Update::Start { title: "Auth".into(), message: "Action: mount\n\n".into() }),
        Applied::Redraw
    );
    assert_eq!(c.apply(Update::Info { text: "  fingerprint ready ".into() }), Applied::Redraw);
    assert_eq!(c.apply(Update::Error { text: "Wrong".into() }), Applied::Redraw);
    assert_eq!(c.submit(), Submitted::Ignored);
    assert_eq!(
        c.apply(Update::Prompt { echo_on: false, label: "Password: ".into() }),
        Applied::NewField
    );
    assert!(c.field.as_ref().unwrap().masked);
    assert!(c.take_pending_focus());
    assert!(!c.take_pending_focus());
    let words: Vec<(&str, &str)> = c.hints().iter().map(|h| (h.key, h.word)).collect();
    assert_eq!(words, vec![("\u{21B5}", "authenticate"), ("Esc", "cancel")]);
    assert_eq!(c.submit(), Submitted::Respond { from_field: true });
    assert!(c.field.is_none() && c.error.is_none() && !c.prompting);
    assert_eq!(c.submit(), Submitted::Ignored);
    let lines: Vec<String> = c
        .info_lines()
        .iter()
        .map(|l| match l {
            InfoLine::Labeled { label, value } => format!("{label}={value}"),
            InfoLine::Plain { text } => text.clone(),
        })
        .collect();
    assert_eq!(lines, vec!["Action=mount", "fingerprint ready"]);
    assert_eq!(c.apply(Update::Done { success: true }), Applied::Quit);
}

#[test]
fn cancel_flag_is_shared() {
    let cancel = Cancel::new();
    let other = cancel.clone();
    assert!(!cancel.is_cancelled());
    other.trigger();
    assert!(cancel.is_cancelled());
    assert!(!Cancel::default().is_cancelled());
    assert_eq!(PromptKind::Password { confirm: true }, PromptKind::Password { confirm: true });
}
