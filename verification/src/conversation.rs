//! The polkit conversation window: the authentication agent sends updates
//! line by line, the window shows them and answers prompts.

use vstd::prelude::*;
use crate::info::{info_block, info_views, line_views, InfoLine};
use crate::labels::{hint_list, hint_views, Hint};
use crate::text::{chars_of, lines, split_lines, views};

verus! {

/// A message from the authentication agent.
#[derive(Clone, Debug)]
pub enum Update {
    /// The conversation starts with this title and message.
    Start { title: String, message: String },
    /// A line of information to add.
    Info { text: String },
    /// An error to show.
    Error { text: String },
    /// Ask the user for a response; `echo_on` shows the typed text.
    Prompt { echo_on: bool, label: String },
    /// The conversation is over.
    Done { success: bool },
}

/// The window's answer to the agent.
#[derive(Clone)]
pub enum Reply {
    /// The user's response to the current prompt.
    Response { secret: String },
    /// The user cancelled.
    Cancel,
}

/// The input field of the current prompt.
#[derive(Clone, Debug)]
pub struct PromptField {
    /// Whether the typed text is hidden.
    pub masked: bool,
    pub label: String,
}

/// What the window shows; the text typed into the field stays with the
/// surface.
pub struct Conversation {
    pub title: String,
    pub body: String,
    pub info: Vec<String>,
    pub error: Option<String>,
    /// Whether a prompt waits for an answer.
    pub prompting: bool,
    pub field: Option<PromptField>,
    /// Whether the field still has to take the keyboard focus.
    pub pending_focus: bool,
}

/// What a conversation holds, as plain values.
pub struct ConversationView {
    pub title: Seq<char>,
    pub body: Seq<char>,
    pub info: Seq<Seq<char>>,
    pub error: Option<Seq<char>>,
    pub prompting: bool,
    /// Whether the field hides its text, and its label.
    pub field: Option<(bool, Seq<char>)>,
    pub pending_focus: bool,
}

/// What an update holds, as plain values.
pub enum UpdateView {
    Start(Seq<char>, Seq<char>),
    Info(Seq<char>),
    Error(Seq<char>),
    Prompt(bool, Seq<char>),
    Done(bool),
}

impl View for Update {
    type V = UpdateView;

    open spec fn view(&self) -> UpdateView {
        match self {
            Update::Start { title, message } => UpdateView::Start(title@, message@),
            Update::Info { text } => UpdateView::Info(text@),
            Update::Error { text } => UpdateView::Error(text@),
            Update::Prompt { echo_on, label } => UpdateView::Prompt(*echo_on, label@),
            Update::Done { success } => UpdateView::Done(*success),
        }
    }
}

/// The strings held by a vector of strings.
pub open spec fn string_views(v: Seq<String>) -> Seq<Seq<char>> {
    Seq::new(v.len(), |i: int| v[i]@)
}

impl View for Conversation {
    type V = ConversationView;

    open spec fn view(&self) -> ConversationView {
        ConversationView {
            title: self.title@,
            body: self.body@,
            info: string_views(self.info@),
            error: match self.error {
                Some(e) => Some(e@),
                None => None,
            },
            prompting: self.prompting,
            field: match self.field {
                Some(f) => Some((f.masked, f.label@)),
                None => None,
            },
            pending_focus: self.pending_focus,
        }
    }
}

/// What the window has to do after an update.
#[derive(Clone, Copy, Debug, PartialEq, Eq, Structural)]
pub enum Applied {
    /// Draw again.
    Redraw,
    /// Make a new input field as [`Conversation::field`] describes, then
    /// draw again.
    NewField,
    /// Close the window.
    Quit,
}

/// The conversation after an update, and what the window has to do.
pub open spec fn applied(c: ConversationView, u: UpdateView) -> (ConversationView, Applied) {
    match u {
        UpdateView::Start(title, message) => (
            ConversationView { title, body: message, ..c },
            Applied::Redraw,
        ),
        UpdateView::Info(text) => (ConversationView { info: c.info.push(text), ..c }, Applied::Redraw),
        UpdateView::Error(text) => (ConversationView { error: Some(text), ..c }, Applied::Redraw),
        UpdateView::Prompt(echo_on, label) => (
            ConversationView {
                field: Some((!echo_on, label)),
                prompting: true,
                pending_focus: true,
                ..c
            },
            Applied::NewField,
        ),
        UpdateView::Done(_) => (c, Applied::Quit),
    }
}

/// How a submission is answered.
#[derive(Clone, Copy, Debug, PartialEq, Eq, Structural)]
pub enum Submitted {
    /// No prompt waits: nothing is sent.
    Ignored,
    /// Send a response: the text of the field when there is one
    /// (`from_field`), an empty one otherwise.
    Respond { from_field: bool },
}

/// The conversation after a submission, and how it is answered: a waiting
/// prompt is answered once, and its field and the shown error go away.
pub open spec fn submitted(c: ConversationView) -> (ConversationView, Submitted) {
    if !c.prompting {
        (c, Submitted::Ignored)
    } else {
        (
            ConversationView { prompting: false, field: None, error: None, ..c },
            Submitted::Respond { from_field: c.field is Some },
        )
    }
}

/// The lines of the information block: the lines of the message, then each
/// added line of information.
pub open spec fn block_lines(c: ConversationView) -> Seq<Seq<char>> {
    lines(c.body) + c.info
}

impl Conversation {
    /// A conversation that has received nothing yet.
    pub fn new() -> (c: Conversation)
        ensures
            c@ == (ConversationView {
                title: Seq::empty(),
                body: Seq::empty(),
                info: Seq::empty(),
                error: None,
                prompting: false,
                field: None,
                pending_focus: false,
            }),
    {
        let c = Conversation {
            title: String::new(),
            body: String::new(),
            info: Vec::new(),
            error: None,
            prompting: false,
            field: None,
            pending_focus: false,
        };
        assert(c@.info =~= Seq::<Seq<char>>::empty());
        c
    }

    /// Takes an update from the agent.
    pub fn apply(&mut self, update: Update) -> (r: Applied)
        ensures
            (final(self)@, r) == applied(old(self)@, update@),
            update matches Update::Prompt { echo_on, label } ==> final(self).field matches Some(f)
                && f.masked == !echo_on && f.label@ == label@ && final(self).prompting,
    {
        match update {
            Update::Start { title, message } => {
                self.title = title;
                self.body = message;
                Applied::Redraw
            },
            Update::Info { text } => {
                let ghost old_info = string_views(self.info@);
                let ghost t = text@;
                self.info.push(text);
                assert(string_views(self.info@) =~= old_info.push(t));
                Applied::Redraw
            },
            Update::Error { text } => {
                self.error = Some(text);
                Applied::Redraw
            },
            Update::Prompt { echo_on, label } => {
                self.field = Some(PromptField { masked: !echo_on, label });
                self.prompting = true;
                self.pending_focus = true;
                Applied::NewField
            },
            Update::Done { .. } => Applied::Quit,
        }
    }

    /// The user submitted.
    pub fn submit(&mut self) -> (r: Submitted)
        ensures
            (final(self)@, r) == submitted(old(self)@),
    {
        if !self.prompting {
            return Submitted::Ignored;
        }
        self.prompting = false;
        let from_field = self.field.is_some();
        self.field = None;
        self.error = None;
        Submitted::Respond { from_field }
    }

    /// Whether the field has to take the focus now; asked once per drawing,
    /// it is answered yes at most once per prompt.
    pub fn take_pending_focus(&mut self) -> (r: bool)
        ensures
            r == (old(self)@.pending_focus && old(self)@.field is Some),
            final(self)@ == (ConversationView { pending_focus: false, ..old(self)@ }),
    {
        let r = self.pending_focus && self.field.is_some();
        self.pending_focus = false;
        r
    }

    /// The information block: the message's lines and the added lines,
    /// blank ones left out, each trimmed and classified.
    pub fn info_lines(&self) -> (r: Vec<InfoLine>)
        ensures
            line_views(r@) == info_views(block_lines(self@)),
    {
        let mut all = split_lines(self.body.as_str());
        let mut i: usize = 0;
        while i < self.info.len()
            invariant
                i <= self.info@.len(),
                views(all@) == lines(self.body@) + string_views(self.info@).take(i as int),
            decreases self.info.len() - i,
        {
            let ghost before = views(all@);
            let line = chars_of(self.info[i].as_str());
            all.push(line);
            assert(views(all@) =~= before.push(self.info@[i as int]@));
            assert(string_views(self.info@).take(i + 1) =~= string_views(self.info@).take(
                i as int,
            ).push(self.info@[i as int]@));
            i = i + 1;
        }
        assert(string_views(self.info@).take(self.info@.len() as int) =~= string_views(
            self.info@,
        ));
        info_block(&all)
    }

    /// The keyboard hints of the footer.
    pub fn hints(&self) -> (r: Vec<Hint>)
        ensures
            hint_views(r@) == (if self.prompting {
                seq![("\u{21B5}"@, "authenticate"@), ("Esc"@, "cancel"@)]
            } else {
                seq![("Esc"@, "cancel"@)]
            }),
    {
        let r = if self.prompting {
            hint_list(&[("\u{21B5}", "authenticate"), ("Esc", "cancel")])
        } else {
            hint_list(&[("Esc", "cancel")])
        };
        proof {
            if self.prompting {
                assert(hint_views(r@) =~= seq![("\u{21B5}"@, "authenticate"@), ("Esc"@, "cancel"@)]);
            } else {
                assert(hint_views(r@) =~= seq![("Esc"@, "cancel"@)]);
            }
        }
        r
    }
}

/// A prompt's field hides the typed text exactly when the agent asked for
/// no echo, and carries the prompt's label.
pub proof fn lemma_prompt_field_masks_without_echo(
    c: ConversationView,
    echo_on: bool,
    label: Seq<char>,
)
    ensures
        applied(c, UpdateView::Prompt(echo_on, label)).0.field matches Some(f) && f.0 == !echo_on
            && f.1 == label,
        applied(c, UpdateView::Prompt(echo_on, label)).0.prompting,
{
}

/// A prompt is answered at most once: a second submission right after the
/// first is ignored and changes nothing.
pub proof fn lemma_one_response_per_prompt(c: ConversationView)
    ensures
        submitted(submitted(c).0) == (submitted(c).0, Submitted::Ignored),
{
}

/// A prompt makes the next submission answer it with the field's text.
pub proof fn lemma_prompt_enables_response(c: ConversationView, echo_on: bool, label: Seq<char>)
    ensures
        submitted(applied(c, UpdateView::Prompt(echo_on, label)).0).1 == (Submitted::Respond {
            from_field: true,
        }),
{
}

/// The end of the conversation closes the window and changes nothing else.
pub proof fn lemma_done_quits(c: ConversationView, success: bool)
    ensures
        applied(c, UpdateView::Done(success)) == (c, Applied::Quit),
{
}

} // verus!
