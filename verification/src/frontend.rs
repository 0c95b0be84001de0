//! The pinentry front end: turns the settings of a pinentry request into
//! what the layer-shell dialog shows, decides each step of the dialog, and
//! maps how the dialog ended onto the pinentry answer.

use vstd::prelude::*;
use crate::labels::{hint_list, hint_views, Hint};
use crate::text::{
    chars_of, is_blank, same_text, string_of, trim_end_char, trim_end_char_bound,
    without_underscores,
};

verus! {

/// Which dialog is shown.
#[derive(Clone, Copy, Debug, PartialEq, Eq, Structural)]
pub enum DialogKind {
    /// Ask for a PIN or passphrase.
    Pin,
    /// Ask for a confirmation, with one button or with several.
    Confirm { one_button: bool },
    /// Show a message.
    Message,
}

/// What the dialog shows.
#[derive(Clone, Debug)]
pub struct DialogConfig {
    pub kind: DialogKind,
    pub heading: String,
    pub description: Option<String>,
    pub error: Option<String>,
    pub placeholder: String,
    pub ok_label: String,
    pub cancel_label: String,
    pub not_ok_label: Option<String>,
    pub repeat_label: Option<String>,
    pub repeat_error: String,
    pub quality_bar: bool,
}

/// The settings of a pinentry request that the dialog reads, as the
/// pinentry protocol delivered them.
#[derive(Clone, Debug)]
pub struct PinentrySettings {
    pub title: Option<String>,
    pub description: Option<String>,
    pub error: Option<String>,
    pub prompt: Option<String>,
    pub default_prompt: Option<String>,
    pub ok_label: Option<String>,
    pub default_ok: Option<String>,
    pub cancel_label: Option<String>,
    pub default_cancel: Option<String>,
    pub not_ok_label: Option<String>,
    pub repeat: Option<String>,
    pub repeat_error: Option<String>,
    /// Whether a quality bar was asked for.
    pub quality_bar: bool,
}

/// The character sequence held by an optional string.
pub open spec fn opt_view(o: Option<String>) -> Option<Seq<char>> {
    match o {
        Some(s) => Some(s@),
        None => None,
    }
}

/// The value, unless it is absent or blank.
pub open spec fn present(o: Option<Seq<char>>) -> Option<Seq<char>> {
    match o {
        Some(s) => if is_blank(s) {
            None
        } else {
            Some(s)
        },
        None => None,
    }
}

/// The first value if there is one, else the second.
pub open spec fn either(a: Option<Seq<char>>, b: Option<Seq<char>>) -> Option<Seq<char>> {
    if a is Some {
        a
    } else {
        b
    }
}

/// A button label: the given label without `_` accelerator marks when it is
/// present and not blank, the default otherwise.
pub open spec fn label_or(label: Option<Seq<char>>, default: Seq<char>) -> Seq<char> {
    match present(label) {
        Some(l) => without_underscores(l),
        None => default,
    }
}

/// The heading shown when the request gives no title.
pub open spec fn default_heading(kind: DialogKind) -> Seq<char> {
    match kind {
        DialogKind::Pin => "Unlock your key"@,
        DialogKind::Confirm { .. } => "Please confirm"@,
        DialogKind::Message => "Notice"@,
    }
}

/// The label of the confirming button when the request gives none.
pub open spec fn default_ok(kind: DialogKind) -> Seq<char> {
    match kind {
        DialogKind::Pin => "Unlock"@,
        _ => "OK"@,
    }
}

/// The placeholder of the PIN field: the prompt (or else the default
/// prompt), without trailing `:` and accelerator marks, or `Enter PIN`.
pub open spec fn placeholder_of(settings: PinentrySettings) -> Seq<char> {
    match either(present(opt_view(settings.prompt)), present(opt_view(settings.default_prompt))) {
        Some(p) => without_underscores(trim_end_char(p, ':')),
        None => "Enter PIN"@,
    }
}

/// `value.filter(|s| !s.trim().is_empty())`.
pub fn non_empty(value: Option<String>) -> (r: Option<String>)
    ensures
        opt_view(r) == present(opt_view(value)),
{
    match value {
        Some(s) => {
            if crate::text::str_blank(s.as_str()) {
                None
            } else {
                Some(s)
            }
        },
        None => None,
    }
}

/// The label without its `_` accelerator marks.
pub fn strip_accel(label: &str) -> (r: String)
    ensures
        r@ == without_underscores(label@),
{
    crate::text::remove_underscores(label)
}

/// A button label: the given label, stripped of accelerator marks, when it
/// is present and not blank; the default otherwise.
pub fn clean_label(label: Option<String>, default: &str) -> (r: String)
    ensures
        r@ == label_or(opt_view(label), default@),
{
    match non_empty(label) {
        Some(label) => strip_accel(label.as_str()),
        None => default.to_owned(),
    }
}

/// `a.or_else(|| b)` on optional strings.
fn or_else(a: Option<String>, b: Option<String>) -> (r: Option<String>)
    ensures
        opt_view(r) == either(opt_view(a), opt_view(b)),
{
    match a {
        Some(a) => Some(a),
        None => b,
    }
}

/// Strips accelerator marks from an optional label.
fn strip_opt(label: Option<String>) -> (r: Option<String>)
    ensures
        opt_view(r) == match opt_view(label) {
            Some(l) => Some(without_underscores(l)),
            None => None,
        },
{
    match label {
        Some(l) => Some(strip_accel(l.as_str())),
        None => None,
    }
}

/// The pinentry front end that shows its dialogs on a layer-shell surface.
pub struct LayerShell;

impl LayerShell {
    /// What the dialog of `kind` shows for a request with `settings`.
    pub fn config(settings: &PinentrySettings, kind: DialogKind) -> (c: DialogConfig)
        ensures
            c.kind == kind,
            c.heading@ == match present(opt_view(settings.title)) {
                Some(t) => without_underscores(t),
                None => default_heading(kind),
            },
            opt_view(c.description) == present(opt_view(settings.description)),
            opt_view(c.error) == present(opt_view(settings.error)),
            c.placeholder@ == placeholder_of(*settings),
            present(opt_view(settings.prompt)) matches Some(p) ==> c.placeholder@
                == without_underscores(trim_end_char(p, ':')),
            present(opt_view(settings.prompt)) is None ==> (present(
                opt_view(settings.default_prompt),
            ) matches Some(d) ==> c.placeholder@ == without_underscores(trim_end_char(d, ':'))),
            c.ok_label@ == label_or(
                either(opt_view(settings.ok_label), opt_view(settings.default_ok)),
                default_ok(kind),
            ),
            c.cancel_label@ == label_or(
                either(opt_view(settings.cancel_label), opt_view(settings.default_cancel)),
                "Cancel"@,
            ),
            opt_view(c.not_ok_label) == match present(opt_view(settings.not_ok_label)) {
                Some(l) => Some(without_underscores(l)),
                None => None,
            },
            opt_view(c.repeat_label) == match opt_view(settings.repeat) {
                Some(l) => Some(without_underscores(l)),
                None => None,
            },
            c.repeat_error@ == match opt_view(settings.repeat_error) {
                Some(e) => e,
                None => Seq::<char>::empty(),
            },
            c.quality_bar == settings.quality_bar,
    {
        let default_heading: &str = match kind {
            DialogKind::Pin => "Unlock your key",
            DialogKind::Confirm { .. } => "Please confirm",
            DialogKind::Message => "Notice",
        };
        let heading = match non_empty(settings.title.clone()) {
            Some(t) => strip_accel(t.as_str()),
            None => default_heading.to_owned(),
        };
        let placeholder = match or_else(
            non_empty(settings.prompt.clone()),
            non_empty(settings.default_prompt.clone()),
        ) {
            Some(p) => {
                let v = chars_of(p.as_str());
                let end = trim_end_char_bound(v.as_slice(), ':');
                let trimmed = string_of(v.as_slice(), 0, end);
                strip_accel(trimmed.as_str())
            },
            None => "Enter PIN".to_owned(),
        };
        let ok_default: &str = match kind {
            DialogKind::Pin => "Unlock",
            _ => "OK",
        };
        let ok_label = clean_label(
            or_else(settings.ok_label.clone(), settings.default_ok.clone()),
            ok_default,
        );
        let cancel_label = clean_label(
            or_else(settings.cancel_label.clone(), settings.default_cancel.clone()),
            "Cancel",
        );
        let not_ok_label = strip_opt(non_empty(settings.not_ok_label.clone()));
        let repeat_label = strip_opt(settings.repeat.clone());
        let repeat_error = match settings.repeat_error.clone() {
            Some(e) => e,
            None => String::new(),
        };
        DialogConfig {
            heading,
            description: non_empty(settings.description.clone()),
            error: non_empty(settings.error.clone()),
            placeholder,
            ok_label,
            cancel_label,
            not_ok_label,
            repeat_label,
            repeat_error,
            quality_bar: settings.quality_bar,
            kind,
        }
    }
}

/// How a dialog ended.
pub enum DialogResult {
    /// A PIN was entered.
    Pin(String),
    Confirmed,
    Declined,
    Cancelled,
}

/// The answer to a PIN request.
pub enum PinOutcome {
    Entered(String),
    Cancelled,
}

/// The answer to a confirmation request.
#[derive(Clone, Copy, Debug, PartialEq, Eq, Structural)]
pub enum ConfirmOutcome {
    Yes,
    No,
    Cancelled,
}

/// The answer to a PIN request: the entered PIN, or cancelled for every
/// other ending.
pub fn pin_outcome(result: DialogResult) -> (r: PinOutcome)
    ensures
        match result {
            DialogResult::Pin(p) => r matches PinOutcome::Entered(q) && q == p,
            _ => r is Cancelled,
        },
{
    match result {
        DialogResult::Pin(pin) => PinOutcome::Entered(pin),
        _ => PinOutcome::Cancelled,
    }
}

/// The answer to a confirmation request: yes when confirmed, no when
/// declined, cancelled otherwise.
pub fn confirm_outcome(result: &DialogResult) -> (r: ConfirmOutcome)
    ensures
        r == match result {
            DialogResult::Confirmed => ConfirmOutcome::Yes,
            DialogResult::Declined => ConfirmOutcome::No,
            _ => ConfirmOutcome::Cancelled,
        },
{
    match result {
        DialogResult::Confirmed => ConfirmOutcome::Yes,
        DialogResult::Declined => ConfirmOutcome::No,
        _ => ConfirmOutcome::Cancelled,
    }
}

/// What the user did in the dialog.
#[derive(Clone, Copy, Debug, PartialEq, Eq, Structural)]
pub enum Message {
    /// The PIN field was edited.
    PinChanged,
    /// The repeat field was edited.
    RepeatChanged,
    /// The Show/Hide button was pressed.
    ToggleReveal,
    /// Enter, or the confirming button.
    Confirm,
    /// The declining button.
    Decline,
    /// Escape, or the cancelling button.
    Cancel,
    /// An animation frame.
    Tick,
    /// Any other event of the surface.
    Other,
}

/// How the dialog ends.
#[derive(Clone, Copy, Debug, PartialEq, Eq, Structural)]
pub enum Finish {
    /// With the PIN that the field holds.
    Pin,
    Confirmed,
    Declined,
    Cancelled,
}

/// What the surface has to do after a message.
#[derive(Clone, Copy, Debug, PartialEq, Eq, Structural)]
pub enum Effect {
    Nothing,
    /// Keep the new text of the PIN field.
    StorePin,
    /// Keep the new text of the repeat field.
    StoreRepeat,
    /// Advance the fade-in.
    Animate,
    /// Close the dialog with this ending.
    Finish(Finish),
}

/// The state of a shown dialog; the field texts stay with the surface.
pub struct DialogState {
    pub config: DialogConfig,
    /// Whether the PIN is shown in clear.
    pub reveal: bool,
    /// Whether the two PINs differed at the last confirmation.
    pub mismatch: bool,
    /// Whether the dialog has ended.
    pub done: bool,
}

/// Whether a confirmation in a PIN dialog is refused because the repeated
/// PIN differs.
pub open spec fn pins_differ(config: DialogConfig, pin: Seq<char>, repeat: Seq<char>) -> bool {
    config.repeat_label is Some && pin != repeat
}

/// The request's own prompt names the PIN field whenever it is present and
/// not blank, whatever the default prompt says; the default prompt is used
/// only in its absence, and `Enter PIN` when neither is given.
pub proof fn lemma_prompt_wins_over_default(settings: PinentrySettings)
    ensures
        present(opt_view(settings.prompt)) matches Some(p) ==> placeholder_of(settings)
            == without_underscores(trim_end_char(p, ':')),
        present(opt_view(settings.prompt)) is None ==> (present(opt_view(settings.default_prompt))
            matches Some(d) ==> placeholder_of(settings) == without_underscores(
            trim_end_char(d, ':'),
        )),
        present(opt_view(settings.prompt)) is None && present(opt_view(settings.default_prompt))
            is None ==> placeholder_of(settings) == "Enter PIN"@,
{
}

/// With a repeat field, a confirmation goes through exactly when the two
/// texts are equal; any difference, an empty repeat included, refuses it.
pub proof fn lemma_confirm_needs_equal_texts(
    config: DialogConfig,
    pin: Seq<char>,
    repeat: Seq<char>,
)
    requires
        config.repeat_label is Some,
    ensures
        !pins_differ(config, pin, repeat) <==> pin == repeat,
        repeat.len() == 0 && pin.len() > 0 ==> pins_differ(config, pin, repeat),
{
}

impl DialogState {
    /// A dialog that has just opened.
    pub fn new(config: DialogConfig) -> (s: DialogState)
        ensures
            s.config == config,
            !s.reveal,
            !s.mismatch,
            !s.done,
    {
        DialogState { config, reveal: false, mismatch: false, done: false }
    }

    /// One step of the dialog. `pin` and `repeat` are the texts of the two
    /// fields. Once the dialog has ended, every message is ignored.
    pub fn update(&mut self, message: Message, pin: &str, repeat: &str) -> (e: Effect)
        ensures
            old(self).done ==> *final(self) == *old(self) && e == Effect::Nothing,
            !old(self).done && message == Message::Confirm && old(self).config.kind == DialogKind::Pin
                && old(self).config.repeat_label is Some ==> (e == Effect::Finish(Finish::Pin)
                <==> pin@ == repeat@) && (pin@ != repeat@ ==> final(self).mismatch
                && !final(self).done && e == Effect::Nothing),
            !old(self).done ==> final(self).config == old(self).config,
            !old(self).done ==> match message {
                Message::PinChanged => e == Effect::StorePin && !final(self).mismatch
                    && final(self).reveal == old(self).reveal && !final(self).done,
                Message::RepeatChanged => e == Effect::StoreRepeat && !final(self).mismatch
                    && final(self).reveal == old(self).reveal && !final(self).done,
                Message::ToggleReveal => e == Effect::Nothing && final(self).reveal
                    == !old(self).reveal && final(self).mismatch == old(self).mismatch
                    && !final(self).done,
                Message::Confirm => match old(self).config.kind {
                    DialogKind::Pin => if pins_differ(old(self).config, pin@, repeat@) {
                        e == Effect::Nothing && final(self).mismatch && !final(self).done
                            && final(self).reveal == old(self).reveal
                    } else {
                        e == Effect::Finish(Finish::Pin) && final(self).done
                            && final(self).mismatch == old(self).mismatch
                            && final(self).reveal == old(self).reveal
                    },
                    _ => e == Effect::Finish(Finish::Confirmed) && final(self).done
                        && final(self).mismatch == old(self).mismatch
                        && final(self).reveal == old(self).reveal,
                },
                Message::Decline => e == Effect::Finish(Finish::Declined) && final(self).done
                    && final(self).mismatch == old(self).mismatch
                    && final(self).reveal == old(self).reveal,
                Message::Cancel => e == Effect::Finish(Finish::Cancelled) && final(self).done
                    && final(self).mismatch == old(self).mismatch
                    && final(self).reveal == old(self).reveal,
                Message::Tick => e == Effect::Animate && *final(self) == *old(self),
                Message::Other => e == Effect::Nothing && *final(self) == *old(self),
            },
    {
        if self.done {
            return Effect::Nothing;
        }
        match message {
            Message::PinChanged => {
                self.mismatch = false;
                Effect::StorePin
            },
            Message::RepeatChanged => {
                self.mismatch = false;
                Effect::StoreRepeat
            },
            Message::ToggleReveal => {
                self.reveal = !self.reveal;
                Effect::Nothing
            },
            Message::Confirm => match self.config.kind {
                DialogKind::Pin => {
                    if self.config.repeat_label.is_some() && !same_text(pin, repeat) {
                        self.mismatch = true;
                        Effect::Nothing
                    } else {
                        self.done = true;
                        Effect::Finish(Finish::Pin)
                    }
                },
                _ => {
                    self.done = true;
                    Effect::Finish(Finish::Confirmed)
                },
            },
            Message::Decline => {
                self.done = true;
                Effect::Finish(Finish::Declined)
            },
            Message::Cancel => {
                self.done = true;
                Effect::Finish(Finish::Cancelled)
            },
            Message::Tick => Effect::Animate,
            Message::Other => Effect::Nothing,
        }
    }
}

/// The keyboard hints of the footer.
pub open spec fn hints_for(kind: DialogKind) -> Seq<(Seq<char>, Seq<char>)> {
    match kind {
        DialogKind::Pin => seq![("\u{21B5}"@, "unlock"@), ("esc"@, "cancel"@)],
        DialogKind::Confirm { one_button: false } => seq![
            ("\u{21B5}"@, "confirm"@),
            ("esc"@, "cancel"@),
        ],
        _ => seq![("\u{21B5}"@, "dismiss"@)],
    }
}

/// The keyboard hints shown in the footer of a dialog of `kind`.
pub fn hints(kind: DialogKind) -> (r: Vec<Hint>)
    ensures
        hint_views(r@) == hints_for(kind),
{
    let r = match kind {
        DialogKind::Pin => hint_list(&[("\u{21B5}", "unlock"), ("esc", "cancel")]),
        DialogKind::Confirm { one_button: false } => hint_list(
            &[("\u{21B5}", "confirm"), ("esc", "cancel")],
        ),
        _ => hint_list(&[("\u{21B5}", "dismiss")]),
    };
    assert(hint_views(r@) =~= hints_for(kind));
    r
}

/// Which buttons the footer shows besides the confirming one.
#[derive(Clone, Copy, Debug, PartialEq, Eq, Structural)]
pub struct FooterButtons {
    pub cancel: bool,
    pub decline: bool,
}

/// The footer buttons: cancel for PIN dialogs and two-button confirmations,
/// decline for two-button confirmations that have a decline label.
pub fn footer_buttons(config: &DialogConfig) -> (r: FooterButtons)
    ensures
        r.cancel == (config.kind == DialogKind::Pin || config.kind == (DialogKind::Confirm {
            one_button: false,
        })),
        r.decline == (config.kind == (DialogKind::Confirm { one_button: false })
            && config.not_ok_label is Some),
{
    let two_buttons = match config.kind {
        DialogKind::Confirm { one_button } => !one_button,
        _ => false,
    };
    let pin = match config.kind {
        DialogKind::Pin => true,
        _ => false,
    };
    FooterButtons { cancel: pin || two_buttons, decline: two_buttons && config.not_ok_label.is_some() }
}

/// Whether `c` has the Unicode `Lowercase` property (`char::is_lowercase`).
pub uninterp spec fn unicode_lowercase(c: char) -> bool;

/// Whether `c` has the Unicode `Uppercase` property (`char::is_uppercase`).
pub uninterp spec fn unicode_uppercase(c: char) -> bool;

/// Whether `c` is numeric in Unicode's sense (`char::is_numeric`).
pub uninterp spec fn unicode_numeric(c: char) -> bool;

/// Whether `c` is alphabetic or numeric in Unicode's sense
/// (`char::is_alphanumeric`).
pub uninterp spec fn unicode_alphanumeric(c: char) -> bool;

/// `char::is_lowercase`: claimed to answer the same for the same character,
/// named `unicode_lowercase`.
#[verifier::external_body]
fn is_lowercase(c: char) -> (r: bool)
    ensures
        r == unicode_lowercase(c),
{
    c.is_lowercase()
}

/// `char::is_uppercase`: claimed to answer the same for the same character,
/// named `unicode_uppercase`.
#[verifier::external_body]
fn is_uppercase(c: char) -> (r: bool)
    ensures
        r == unicode_uppercase(c),
{
    c.is_uppercase()
}

/// `char::is_numeric`: claimed to answer the same for the same character,
/// named `unicode_numeric`.
#[verifier::external_body]
fn is_numeric(c: char) -> (r: bool)
    ensures
        r == unicode_numeric(c),
{
    c.is_numeric()
}

/// `char::is_alphanumeric`: claimed to answer the same for the same
/// character, named `unicode_alphanumeric`.
#[verifier::external_body]
fn is_alphanumeric(c: char) -> (r: bool)
    ensures
        r == unicode_alphanumeric(c),
{
    c.is_alphanumeric()
}

/// Some character of `s` is lowercase.
pub open spec fn has_lowercase(s: Seq<char>) -> bool {
    exists|i: int| 0 <= i < s.len() && unicode_lowercase(#[trigger] s[i])
}

/// Some character of `s` is uppercase.
pub open spec fn has_uppercase(s: Seq<char>) -> bool {
    exists|i: int| 0 <= i < s.len() && unicode_uppercase(#[trigger] s[i])
}

/// Some character of `s` is numeric.
pub open spec fn has_numeric(s: Seq<char>) -> bool {
    exists|i: int| 0 <= i < s.len() && unicode_numeric(#[trigger] s[i])
}

/// Some character of `s` is neither alphabetic nor numeric.
pub open spec fn has_symbol(s: Seq<char>) -> bool {
    exists|i: int| 0 <= i < s.len() && !unicode_alphanumeric(#[trigger] s[i])
}

/// How many of the four character classes (lowercase, uppercase, numeric,
/// other) occur in `s`.
pub open spec fn class_count(s: Seq<char>) -> nat {
    (if has_lowercase(s) { 1nat } else { 0nat }) + (if has_uppercase(s) { 1nat } else { 0nat }) + (
    if has_numeric(s) { 1nat } else { 0nat }) + (if has_symbol(s) { 1nat } else { 0nat })
}

/// How many of the four character classes occur in the PIN; the quality
/// bar weighs this number against the PIN's length.
pub fn char_classes(pin: &str) -> (r: u32)
    ensures
        r == class_count(pin@),
        r <= 4,
{
    let v = chars_of(pin);
    let mut lower = false;
    let mut upper = false;
    let mut numeric = false;
    let mut symbol = false;
    let mut i: usize = 0;
    while i < v.len()
        invariant
            v@ == pin@,
            i <= v@.len(),
            lower == exists|j: int| 0 <= j < i && unicode_lowercase(#[trigger] v@[j]),
            upper == exists|j: int| 0 <= j < i && unicode_uppercase(#[trigger] v@[j]),
            numeric == exists|j: int| 0 <= j < i && unicode_numeric(#[trigger] v@[j]),
            symbol == exists|j: int| 0 <= j < i && !unicode_alphanumeric(#[trigger] v@[j]),
        decreases v.len() - i,
    {
        let c = v[i];
        if is_lowercase(c) {
            lower = true;
        }
        if is_uppercase(c) {
            upper = true;
        }
        if is_numeric(c) {
            numeric = true;
        }
        if !is_alphanumeric(c) {
            symbol = true;
        }
        i = i + 1;
    }
    let mut classes: u32 = 0;
    if lower {
        classes = classes + 1;
    }
    if upper {
        classes = classes + 1;
    }
    if numeric {
        classes = classes + 1;
    }
    if symbol {
        classes = classes + 1;
    }
    classes
}

/// The layer-shell namespace of the dialog surface.
pub fn namespace() -> (r: String)
    ensures
        r@ == "pinentry"@,
{
    "pinentry".to_owned()
}

} // verus!
