//! The standalone PIN dialog: what it shows, how each key and click moves
//! it on, and how it ends.

use vstd::prelude::*;
use crate::labels::{hint_list, hint_views, Hint};
use crate::text::same_text;

verus! {

/// Which dialog is shown.
#[derive(Clone, Copy, Debug, PartialEq, Eq, Structural)]
pub enum DialogKind {
    /// Ask for a PIN or passphrase.
    Pin,
    /// Ask for a confirmation, with one button or with several.
    Confirm { one_button: bool },
    /// Show a message.
    Message,
}

/// What the dialog shows.
#[derive(Clone, Debug)]
pub struct DialogConfig {
    pub kind: DialogKind,
    pub heading: String,
    pub description: Option<String>,
    pub error: Option<String>,
    pub placeholder: String,
    pub ok_label: String,
    pub cancel_label: String,
    pub not_ok_label: Option<String>,
    pub repeat_label: Option<String>,
    pub repeat_error: String,
    pub quality_bar: bool,
    /// When set, a checkbox with this label is shown (e.g. "Automatically
    /// unlock this keyring whenever I'm logged in").
    pub choice_label: Option<String>,
    /// The checkbox's initial state.
    pub choice: bool,
}

/// What the user did in the dialog.
#[derive(Clone, Copy, Debug, PartialEq, Eq, Structural)]
pub enum Message {
    /// The PIN field was edited.
    PinChanged,
    /// The repeat field was edited.
    RepeatChanged,
    /// The eye button was pressed (`true`) or released (`false`).
    Reveal(bool),
    /// The checkbox was set to this state.
    ToggleChoice(bool),
    /// Enter, or the confirming button.
    Confirm,
    /// The declining button.
    Decline,
    /// Escape, or the cancelling button.
    Cancel,
    /// Tab.
    FocusNext,
    /// Shift-Tab.
    FocusPrevious,
    /// An animation frame.
    Tick,
    /// Any other event of the surface.
    Other,
}

/// A key that the dialog listens to.
#[derive(Clone, Copy, Debug, PartialEq, Eq, Structural)]
pub enum Key {
    Escape,
    Enter,
    Tab,
    Other,
}

/// The message that a key press sends: Escape cancels, Enter confirms, Tab
/// moves the focus forward and Shift-Tab back; other keys send none.
pub fn key_message(key: Key, shift: bool) -> (r: Option<Message>)
    ensures
        r == match key {
            Key::Escape => Some(Message::Cancel),
            Key::Enter => Some(Message::Confirm),
            Key::Tab => if shift {
                Some(Message::FocusPrevious)
            } else {
                Some(Message::FocusNext)
            },
            Key::Other => None::<Message>,
        },
{
    match key {
        Key::Escape => Some(Message::Cancel),
        Key::Enter => Some(Message::Confirm),
        Key::Tab => if shift {
            Some(Message::FocusPrevious)
        } else {
            Some(Message::FocusNext)
        },
        Key::Other => None,
    }
}

/// How the dialog ends.
#[derive(Clone, Copy, Debug, PartialEq, Eq, Structural)]
pub enum Finish {
    /// With the PIN that the field holds, and the checkbox state.
    Pin { choice: bool },
    /// Confirmed, with the checkbox state.
    Confirmed { choice: bool },
    Declined,
    Cancelled,
}

/// What the surface has to do after a message.
#[derive(Clone, Copy, Debug, PartialEq, Eq, Structural)]
pub enum Effect {
    Nothing,
    /// Keep the new text of the PIN field.
    StorePin,
    /// Keep the new text of the repeat field.
    StoreRepeat,
    /// Move the keyboard focus to the next field.
    FocusNext,
    /// Move the keyboard focus to the previous field.
    FocusPrevious,
    /// Advance the fade-in.
    Animate,
    /// Close the dialog with this ending.
    Finish(Finish),
}

/// The state of a shown dialog; the field texts stay with the surface.
pub struct DialogState {
    pub config: DialogConfig,
    /// Whether the PIN is shown in clear.
    pub reveal: bool,
    /// The checkbox state.
    pub choice: bool,
    /// Whether the two PINs differed at the last confirmation.
    pub mismatch: bool,
    /// Whether the dialog has ended.
    pub done: bool,
}

/// Whether a confirmation in a PIN dialog is refused because the repeated
/// PIN differs.
pub open spec fn pins_differ(config: DialogConfig, pin: Seq<char>, repeat: Seq<char>) -> bool {
    config.repeat_label is Some && pin != repeat
}

/// The state `s` with the mismatch flag set to `m`.
pub open spec fn with_mismatch(s: DialogState, m: bool) -> DialogState {
    DialogState { mismatch: m, ..s }
}

/// The state `s`, ended.
pub open spec fn ended(s: DialogState) -> DialogState {
    DialogState { done: true, ..s }
}

/// One step of the dialog: the state after `message` and what the surface
/// has to do, when the PIN field holds `pin` and the repeat field `repeat`.
pub open spec fn step(s: DialogState, message: Message, pin: Seq<char>, repeat: Seq<char>) -> (
    DialogState,
    Effect,
) {
    if s.done {
        (s, Effect::Nothing)
    } else {
        match message {
            Message::PinChanged => (with_mismatch(s, false), Effect::StorePin),
            Message::RepeatChanged => (with_mismatch(s, false), Effect::StoreRepeat),
            Message::Reveal(r) => (DialogState { reveal: r, ..s }, Effect::Nothing),
            Message::ToggleChoice(c) => (DialogState { choice: c, ..s }, Effect::Nothing),
            Message::Confirm => match s.config.kind {
                DialogKind::Pin => if pins_differ(s.config, pin, repeat) {
                    (with_mismatch(s, true), Effect::Nothing)
                } else {
                    (ended(s), Effect::Finish(Finish::Pin { choice: s.choice }))
                },
                _ => (ended(s), Effect::Finish(Finish::Confirmed { choice: s.choice })),
            },
            Message::Decline => (ended(s), Effect::Finish(Finish::Declined)),
            Message::Cancel => (ended(s), Effect::Finish(Finish::Cancelled)),
            Message::FocusNext => (s, Effect::FocusNext),
            Message::FocusPrevious => (s, Effect::FocusPrevious),
            Message::Tick => (s, Effect::Animate),
            Message::Other => (s, Effect::Nothing),
        }
    }
}

impl DialogState {
    /// A dialog that has just opened: the PIN hidden, the checkbox in its
    /// configured state.
    pub fn new(config: DialogConfig) -> (s: DialogState)
        ensures
            s.config == config,
            s.choice == config.choice,
            !s.reveal,
            !s.mismatch,
            !s.done,
    {
        let choice = config.choice;
        DialogState { config, reveal: false, choice, mismatch: false, done: false }
    }

    /// One step of the dialog. `pin` and `repeat` are the texts of the two
    /// fields.
    pub fn update(&mut self, message: Message, pin: &str, repeat: &str) -> (e: Effect)
        ensures
            (*final(self), e) == step(*old(self), message, pin@, repeat@),
            !old(self).done ==> (message matches Message::Reveal(r) ==> final(self).reveal == r),
            !old(self).done ==> (message matches Message::ToggleChoice(c) ==> final(self).choice
                == c),
    {
        if self.done {
            return Effect::Nothing;
        }
        match message {
            Message::PinChanged => {
                self.mismatch = false;
                Effect::StorePin
            },
            Message::RepeatChanged => {
                self.mismatch = false;
                Effect::StoreRepeat
            },
            Message::Reveal(reveal) => {
                self.reveal = reveal;
                Effect::Nothing
            },
            Message::ToggleChoice(value) => {
                self.choice = value;
                Effect::Nothing
            },
            Message::Confirm => match self.config.kind {
                DialogKind::Pin => {
                    if self.config.repeat_label.is_some() && !same_text(pin, repeat) {
                        self.mismatch = true;
                        Effect::Nothing
                    } else {
                        self.done = true;
                        Effect::Finish(Finish::Pin { choice: self.choice })
                    }
                },
                _ => {
                    self.done = true;
                    Effect::Finish(Finish::Confirmed { choice: self.choice })
                },
            },
            Message::Decline => {
                self.done = true;
                Effect::Finish(Finish::Declined)
            },
            Message::Cancel => {
                self.done = true;
                Effect::Finish(Finish::Cancelled)
            },
            Message::FocusNext => Effect::FocusNext,
            Message::FocusPrevious => Effect::FocusPrevious,
            Message::Tick => Effect::Animate,
            Message::Other => Effect::Nothing,
        }
    }
}

/// Once a dialog has ended, no message changes it or asks anything of the
/// surface.
pub proof fn lemma_ended_dialog_ignores_messages(
    s: DialogState,
    message: Message,
    pin: Seq<char>,
    repeat: Seq<char>,
)
    requires
        s.done,
    ensures
        step(s, message, pin, repeat) == (s, Effect::Nothing),
{
}

/// A step that finishes the dialog leaves it ended, and a step of an open
/// dialog ends it exactly when it asks the surface to finish.
pub proof fn lemma_finish_ends_dialog(
    s: DialogState,
    message: Message,
    pin: Seq<char>,
    repeat: Seq<char>,
)
    requires
        !s.done,
    ensures
        step(s, message, pin, repeat).0.done <==> step(s, message, pin, repeat).1 is Finish,
{
}

/// A PIN dialog with a repeat field finishes with the PIN only when both
/// fields hold the same text; otherwise it stays open and reports the
/// mismatch until a field is edited.
pub proof fn lemma_pin_needs_matching_repeat(s: DialogState, pin: Seq<char>, repeat: Seq<char>)
    requires
        !s.done,
        s.config.kind == DialogKind::Pin,
        s.config.repeat_label is Some,
    ensures
        (step(s, Message::Confirm, pin, repeat).1 is Finish) <==> pin == repeat,
        pin != repeat ==> step(s, Message::Confirm, pin, repeat).0.mismatch,
        pin != repeat ==> !step(
            step(s, Message::Confirm, pin, repeat).0,
            Message::PinChanged,
            pin,
            repeat,
        ).0.mismatch,
{
}

/// In an open dialog the eye button sets the clear view to what it sends,
/// whatever it was: pressing shows the PIN and releasing hides it again.
pub proof fn lemma_reveal_follows_the_button(
    s: DialogState,
    shown: bool,
    pin: Seq<char>,
    repeat: Seq<char>,
)
    requires
        !s.done,
    ensures
        step(s, Message::Reveal(shown), pin, repeat).0.reveal == shown,
        !step(step(s, Message::Reveal(true), pin, repeat).0, Message::Reveal(false), pin, repeat).0.reveal,
        step(s, Message::Reveal(shown), pin, repeat).1 == Effect::Nothing,
{
}

/// Whether the checkbox row is shown: whenever it has a label.
pub fn shows_choice(config: &DialogConfig) -> (r: bool)
    ensures
        r == config.choice_label is Some,
{
    config.choice_label.is_some()
}

/// The keyboard hints of the footer.
pub open spec fn hints_for(kind: DialogKind) -> Seq<(Seq<char>, Seq<char>)> {
    match kind {
        DialogKind::Pin => seq![("\u{21B5}"@, "unlock"@), ("esc"@, "cancel"@)],
        DialogKind::Confirm { one_button: false } => seq![
            ("\u{21B5}"@, "confirm"@),
            ("esc"@, "cancel"@),
        ],
        _ => seq![("\u{21B5}"@, "dismiss"@)],
    }
}

/// The keyboard hints shown in the footer of a dialog of `kind`.
pub fn hints(kind: DialogKind) -> (r: Vec<Hint>)
    ensures
        hint_views(r@) == hints_for(kind),
{
    let r = match kind {
        DialogKind::Pin => hint_list(&[("\u{21B5}", "unlock"), ("esc", "cancel")]),
        DialogKind::Confirm { one_button: false } => hint_list(
            &[("\u{21B5}", "confirm"), ("esc", "cancel")],
        ),
        _ => hint_list(&[("\u{21B5}", "dismiss")]),
    };
    assert(hint_views(r@) =~= hints_for(kind));
    r
}

/// Which buttons the footer shows besides the confirming one.
#[derive(Clone, Copy, Debug, PartialEq, Eq, Structural)]
pub struct FooterButtons {
    pub cancel: bool,
    pub decline: bool,
}

/// The footer buttons: cancel for PIN dialogs and two-button confirmations,
/// decline for two-button confirmations that have a decline label.
pub fn footer_buttons(config: &DialogConfig) -> (r: FooterButtons)
    ensures
        r.cancel == (config.kind == DialogKind::Pin || config.kind == (DialogKind::Confirm {
            one_button: false,
        })),
        r.decline == (config.kind == (DialogKind::Confirm { one_button: false })
            && config.not_ok_label is Some),
{
    let two_buttons = match config.kind {
        DialogKind::Confirm { one_button } => !one_button,
        _ => false,
    };
    let pin = match config.kind {
        DialogKind::Pin => true,
        _ => false,
    };
    FooterButtons { cancel: pin || two_buttons, decline: two_buttons && config.not_ok_label.is_some() }
}

/// The layer-shell namespace of the dialog surface.
pub fn namespace() -> (r: String)
    ensures
        r@ == "pinentry"@,
{
    "pinentry".to_owned()
}

} // verus!
