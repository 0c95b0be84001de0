//! The layer-shell dialog of the keyring prompter: which fields it has, how
//! the keyboard focus cycles through them, how a submission is judged, and
//! the wording and quality levels it shows.

use vstd::prelude::*;
use vstd::arithmetic::div_mod::{
    lemma_add_mod_noop, lemma_add_mod_noop_right, lemma_mod_add_multiples_vanish,
    lemma_mod_sub_multiples_vanish, lemma_small_mod, lemma_sub_mod_noop,
};
use crate::labels::{hint_list, hint_views, Hint};
use crate::text::same_text;

verus! {

/// Which dialog is shown.
#[derive(Clone, Copy, Debug, PartialEq, Eq, Structural)]
pub enum DialogKind {
    /// Ask for a PIN or passphrase.
    Pin,
    /// Ask for a confirmation, with one button or with several.
    Confirm { one_button: bool },
    /// Show a message.
    Message,
}

/// What the dialog shows.
#[derive(Clone, Debug)]
pub struct DialogConfig {
    pub kind: DialogKind,
    pub heading: String,
    pub description: Option<String>,
    pub error: Option<String>,
    pub placeholder: String,
    pub ok_label: String,
    pub cancel_label: String,
    pub not_ok_label: Option<String>,
    pub repeat_label: Option<String>,
    pub repeat_error: String,
    pub quality_bar: bool,
    pub choice_label: Option<String>,
    pub choice: bool,
}

/// How a submission is judged.
#[derive(Clone, Copy, Debug, PartialEq, Eq, Structural)]
pub enum Submission {
    /// The two PINs differ: the dialog stays open and says so.
    Mismatch,
    /// The dialog ends with the PIN that the field holds, and the checkbox
    /// state; the repeat field is wiped.
    Pin { choice: bool },
    /// The dialog ends confirmed, with the checkbox state.
    Confirmed { choice: bool },
}

/// The state of a shown dialog; the field texts stay with the surface.
pub struct Dialog {
    pub config: DialogConfig,
    /// Whether the PINs are shown in clear.
    pub reveal: bool,
    /// The checkbox state.
    pub choice: bool,
    /// Whether the two PINs differed at the last submission.
    pub mismatch: bool,
}

/// Whether the dialog has a PIN field.
pub open spec fn has_pin_field(config: DialogConfig) -> bool {
    config.kind == DialogKind::Pin
}

/// Whether the dialog has a field to repeat the PIN.
pub open spec fn has_repeat_field(config: DialogConfig) -> bool {
    config.kind == DialogKind::Pin && config.repeat_label is Some
}

/// Only a PIN dialog has fields: confirmations and messages have neither a
/// PIN field nor a repeat field.
pub proof fn lemma_only_pin_dialogs_have_fields(config: DialogConfig)
    ensures
        has_pin_field(config) <==> config.kind == DialogKind::Pin,
        has_repeat_field(config) ==> has_pin_field(config),
        config.kind != DialogKind::Pin ==> !has_pin_field(config) && !has_repeat_field(config),
{
}

/// The focus position after moving `delta` fields from `current` among
/// `len` fields, wrapping around; the first field when nothing has the
/// focus; none when there are no fields.
pub open spec fn focus_after(current: Option<usize>, delta: int, len: nat) -> Option<int> {
    if len == 0 {
        None
    } else {
        match current {
            Some(i) => Some((i + delta) % (len as int)),
            None => Some(0),
        }
    }
}

/// The focus position after moving `delta` fields from `current` among
/// `len` fields.
pub fn next_focus(current: Option<usize>, delta: isize, len: usize) -> (r: Option<usize>)
    ensures
        r is None <==> focus_after(current, delta as int, len as nat) is None,
        r matches Some(k) ==> focus_after(current, delta as int, len as nat) == Some(k as int)
            && k < len,
{
    if len == 0 {
        return None;
    }
    match current {
        None => Some(0),
        Some(i) => {
            let i0 = i % len;
            proof {
                lemma_add_mod_noop(i as int, delta as int, len as int);
                lemma_sub_mod_noop(i as int, -(delta as int), len as int);
                lemma_small_mod(i0 as nat, len as nat);
            }
            if delta >= 0 {
                let d = (delta as usize) % len;
                let k = if i0 < len - d {
                    i0 + d
                } else {
                    i0 - (len - d)
                };
                proof {
                    assert((i + delta) % (len as int) == (i0 + d) % (len as int));
                    if i0 + d < len {
                        lemma_small_mod((i0 + d) as nat, len as nat);
                    } else {
                        lemma_mod_sub_multiples_vanish((i0 + d) as int, len as int);
                        lemma_small_mod((i0 + d - len) as nat, len as nat);
                    }
                }
                Some(k)
            } else {
                let a = (-(delta + 1)) as usize;
                let d = (a % len + 1) % len;
                let k = if i0 >= d {
                    i0 - d
                } else {
                    i0 + (len - d)
                };
                proof {
                    lemma_add_mod_noop_right(1, a as int, len as int);
                    assert(d == (a + 1) % (len as int));
                    assert(-(delta as int) == a + 1);
                    assert((i + delta) % (len as int) == (i0 - d) % (len as int));
                    if i0 >= d {
                        lemma_small_mod((i0 - d) as nat, len as nat);
                    } else {
                        lemma_mod_add_multiples_vanish(i0 - d, len as int);
                        lemma_small_mod((i0 - d + len) as nat, len as nat);
                    }
                }
                Some(k)
            }
        },
    }
}

/// Moving the focus forward and then back returns it where it was.
pub proof fn lemma_focus_back_and_forth(i: usize, len: usize)
    requires
        i < len,
    ensures
        focus_after(Some(i), 1, len as nat) matches Some(j) && 0 <= j < len && focus_after(
            Some(j as usize),
            -1,
            len as nat,
        ) == Some(i as int),
{
    let j = (i + 1) % (len as int);
    vstd::arithmetic::div_mod::lemma_mod_bound(i + 1, len as int);
    if i + 1 < len {
        lemma_small_mod((i + 1) as nat, len as nat);
        lemma_small_mod(i as nat, len as nat);
    } else {
        lemma_mod_sub_multiples_vanish(i + 1, len as int);
        lemma_small_mod(0, len as nat);
        assert(j == 0);
        lemma_mod_add_multiples_vanish(-1, len as int);
        lemma_small_mod((len - 1) as nat, len as nat);
    }
}

impl Dialog {
    /// A dialog that has just opened: PINs hidden, the checkbox in its
    /// configured state.
    pub fn new(config: DialogConfig) -> (d: Dialog)
        ensures
            d.config == config,
            d.choice == config.choice,
            !d.reveal,
            !d.mismatch,
    {
        let choice = config.choice;
        Dialog { config, reveal: false, choice, mismatch: false }
    }

    /// Whether the dialog has a PIN field.
    pub fn has_pin_field(&self) -> (r: bool)
        ensures
            r == has_pin_field(self.config),
            r == (self.config.kind == DialogKind::Pin),
    {
        match self.config.kind {
            DialogKind::Pin => true,
            _ => false,
        }
    }

    /// Whether the dialog has a field to repeat the PIN.
    pub fn has_repeat_field(&self) -> (r: bool)
        ensures
            r == has_repeat_field(self.config),
            r == (self.config.kind == DialogKind::Pin && self.config.repeat_label is Some),
    {
        self.has_pin_field() && self.config.repeat_label.is_some()
    }

    /// How many fields take the keyboard focus in turn.
    pub fn field_count(&self) -> (n: usize)
        ensures
            self.config.kind != DialogKind::Pin ==> n == 0,
            self.config.kind == DialogKind::Pin ==> n == (if self.config.repeat_label is Some {
                2nat
            } else {
                1nat
            }),
            n == (if has_pin_field(self.config) { 1nat } else { 0nat }) + (if has_repeat_field(
                self.config,
            ) {
                1nat
            } else {
                0nat
            }),
    {
        let mut n: usize = 0;
        if self.has_pin_field() {
            n = n + 1;
        }
        if self.has_repeat_field() {
            n = n + 1;
        }
        n
    }

    /// Shows or hides the PINs; reports whether anything changed.
    pub fn set_reveal(&mut self, reveal: bool) -> (changed: bool)
        ensures
            changed == (old(self).reveal != reveal),
            final(self).reveal == reveal,
            final(self).config == old(self).config,
            final(self).choice == old(self).choice,
            final(self).mismatch == old(self).mismatch,
    {
        if self.reveal == reveal {
            return false;
        }
        self.reveal = reveal;
        true
    }

    /// A field was edited: a reported mismatch is withdrawn.
    pub fn field_changed(&mut self)
        ensures
            *final(self) == (Dialog { mismatch: false, ..*old(self) }),
    {
        self.mismatch = false;
    }

    /// The checkbox was clicked.
    pub fn toggle_choice(&mut self)
        ensures
            *final(self) == (Dialog { choice: !old(self).choice, ..*old(self) }),
    {
        self.choice = !self.choice;
    }

    /// Judges a submission; `pin` and `repeat` are the texts of the two
    /// fields (the repeat text is read only when the dialog has that field).
    pub fn submit(&mut self, pin: &str, repeat: &str) -> (r: Submission)
        ensures
            old(self).config.kind != DialogKind::Pin ==> r == (Submission::Confirmed {
                choice: old(self).choice,
            }) && *final(self) == *old(self),
            r == (if has_pin_field(old(self).config) {
                if has_repeat_field(old(self).config) && pin@ != repeat@ {
                    Submission::Mismatch
                } else {
                    Submission::Pin { choice: old(self).choice }
                }
            } else {
                Submission::Confirmed { choice: old(self).choice }
            }),
            *final(self) == (if r == Submission::Mismatch {
                Dialog { mismatch: true, ..*old(self) }
            } else {
                *old(self)
            }),
    {
        if self.has_pin_field() {
            if self.has_repeat_field() && !same_text(pin, repeat) {
                self.mismatch = true;
                return Submission::Mismatch;
            }
            Submission::Pin { choice: self.choice }
        } else {
            Submission::Confirmed { choice: self.choice }
        }
    }
}

/// Whether the checkbox row is shown: when it has a label and the dialog is
/// not a message.
pub fn shows_choice(config: &DialogConfig) -> (r: bool)
    ensures
        r == (config.choice_label is Some && config.kind != DialogKind::Message),
{
    let message = match config.kind {
        DialogKind::Message => true,
        _ => false,
    };
    config.choice_label.is_some() && !message
}

/// The keyboard hints of the footer.
pub open spec fn hints_for(kind: DialogKind) -> Seq<(Seq<char>, Seq<char>)> {
    match kind {
        DialogKind::Pin => seq![("\u{21B5}"@, "unlock"@), ("Esc"@, "cancel"@)],
        DialogKind::Confirm { one_button: false } => seq![
            ("\u{21B5}"@, "confirm"@),
            ("esc"@, "cancel"@),
        ],
        _ => seq![("\u{21B5}"@, "dismiss"@)],
    }
}

/// The keyboard hints shown in the footer of a dialog of `kind`.
pub fn hints(kind: DialogKind) -> (r: Vec<Hint>)
    ensures
        hint_views(r@) == hints_for(kind),
{
    let r = match kind {
        DialogKind::Pin => hint_list(&[("\u{21B5}", "unlock"), ("Esc", "cancel")]),
        DialogKind::Confirm { one_button: false } => hint_list(
            &[("\u{21B5}", "confirm"), ("esc", "cancel")],
        ),
        _ => hint_list(&[("\u{21B5}", "dismiss")]),
    };
    assert(hint_views(r@) =~= hints_for(kind));
    r
}

/// Which buttons the footer shows besides the confirming one.
#[derive(Clone, Copy, Debug, PartialEq, Eq, Structural)]
pub struct FooterButtons {
    pub cancel: bool,
    pub decline: bool,
}

/// The footer buttons: cancel for PIN dialogs and two-button confirmations,
/// decline for two-button confirmations that have a decline label.
pub fn footer_buttons(config: &DialogConfig) -> (r: FooterButtons)
    ensures
        r.cancel == (config.kind == DialogKind::Pin || config.kind == (DialogKind::Confirm {
            one_button: false,
        })),
        r.decline == (config.kind == (DialogKind::Confirm { one_button: false })
            && config.not_ok_label is Some),
{
    let two_buttons = match config.kind {
        DialogKind::Confirm { one_button } => !one_button,
        _ => false,
    };
    let pin = match config.kind {
        DialogKind::Pin => true,
        _ => false,
    };
    FooterButtons { cancel: pin || two_buttons, decline: two_buttons && config.not_ok_label.is_some() }
}

/// The colour band of the PIN quality bar.
#[derive(Clone, Copy, Debug, PartialEq, Eq, Structural)]
pub enum StrengthLevel {
    Weak,
    Medium,
    Strong,
}

/// The quality band of a PIN of `char_count` characters: the bar fills
/// `char_count / 20` of its width (at most all of it); below two fifths it is
/// weak, below three quarters medium, strong from there.
pub open spec fn band_of(char_count: nat) -> StrengthLevel {
    if char_count < 8 {
        StrengthLevel::Weak
    } else if char_count < 15 {
        StrengthLevel::Medium
    } else {
        StrengthLevel::Strong
    }
}

/// The order of the bands, weakest first.
pub open spec fn rank(level: StrengthLevel) -> int {
    match level {
        StrengthLevel::Weak => 0,
        StrengthLevel::Medium => 1,
        StrengthLevel::Strong => 2,
    }
}

/// The quality band of a PIN of `char_count` characters.
pub fn strength_level(char_count: usize) -> (r: StrengthLevel)
    ensures
        r == band_of(char_count as nat),
{
    if char_count < 8 {
        StrengthLevel::Weak
    } else if char_count < 15 {
        StrengthLevel::Medium
    } else {
        StrengthLevel::Strong
    }
}

/// A longer PIN never falls in a weaker band.
pub proof fn lemma_strength_monotone(a: nat, b: nat)
    requires
        a <= b,
    ensures
        rank(band_of(a)) <= rank(band_of(b)),
{
}

} // verus!
