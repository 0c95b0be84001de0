//! What the keyring daemon asks of a prompter, and the flag by which it
//! withdraws a prompt that is still shown.

use std::sync::atomic::{AtomicBool, Ordering};
use std::sync::Arc;
use vstd::prelude::*;

verus! {

/// A cancellation flag shared between the prompter service and a shown
/// prompt: once triggered it stays set.
#[derive(Clone, Default)]
pub struct Cancel(Arc<AtomicBool>);

impl Cancel {
    /// A flag that is not set.
    pub fn new() -> (c: Cancel) {
        Cancel(Arc::new(AtomicBool::new(false)))
    }

    /// Sets the flag, for every holder of a clone of it.
    pub fn trigger(&self) {
        self.0.store(true, Ordering::SeqCst);
    }

    /// Whether the flag is set. Another thread may set it at any time, so
    /// nothing is promised of the answer beyond what it reads.
    pub fn is_cancelled(&self) -> (r: bool) {
        self.0.load(Ordering::SeqCst)
    }
}

/// What the prompt asks for.
#[derive(Clone, Copy, Debug, PartialEq, Eq, Structural)]
pub enum PromptKind {
    /// A password; `confirm` asks for it twice.
    Password { confirm: bool },
    /// A confirmation.
    Confirm,
}

/// A prompt request of the keyring daemon.
#[derive(Clone, Debug)]
pub struct PromptRequest {
    pub kind: PromptKind,
    pub title: Option<String>,
    pub description: Option<String>,
    pub warning: Option<String>,
    pub continue_label: Option<String>,
    pub cancel_label: Option<String>,
    pub choice_label: Option<String>,
    pub choice: bool,
}

} // verus!
