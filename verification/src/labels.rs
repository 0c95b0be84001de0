//! Fixed wording shared by the dialogs: keyboard hints, the placeholder of
//! the repeat field and the message shown when the two PINs differ.

use vstd::prelude::*;

verus! {

/// One keyboard hint of a dialog footer: a key and what it does.
#[derive(Clone, Copy, Debug)]
pub struct Hint {
    pub key: &'static str,
    pub word: &'static str,
}

/// The key and word of each hint.
pub open spec fn hint_views(hints: Seq<Hint>) -> Seq<(Seq<char>, Seq<char>)> {
    Seq::new(hints.len(), |i: int| (hints[i].key@, hints[i].word@))
}

/// Builds the hint list from key/word pairs.
pub fn hint_list(pairs: &[(&'static str, &'static str)]) -> (r: Vec<Hint>)
    ensures
        hint_views(r@) == Seq::new(pairs@.len(), |i: int| (pairs@[i].0@, pairs@[i].1@)),
{
    let mut r: Vec<Hint> = Vec::new();
    let mut i: usize = 0;
    while i < pairs.len()
        invariant
            i <= pairs@.len(),
            r@.len() == i,
            forall|j: int| 0 <= j < i ==> #[trigger] r@[j].key@ == pairs@[j].0@ && r@[j].word@ == pairs@[j].1@,
        decreases pairs.len() - i,
    {
        let (key, word) = pairs[i];
        r.push(Hint { key, word });
        i = i + 1;
    }
    assert(hint_views(r@) =~= Seq::new(pairs@.len(), |i: int| (pairs@[i].0@, pairs@[i].1@)));
    r
}

/// The placeholder of the repeat field: its label, or `Confirm PIN` when the
/// label is empty.
pub fn repeat_placeholder(label: &str) -> (r: &str)
    ensures
        r@ == if label@.len() == 0 {
            "Confirm PIN"@
        } else {
            label@
        },
{
    if label.is_empty() {
        "Confirm PIN"
    } else {
        label
    }
}

/// The message shown when the two PINs differ: the configured one, or
/// `The PINs do not match.` when it is empty.
pub fn mismatch_message(repeat_error: &str) -> (r: &str)
    ensures
        r@ == if repeat_error@.len() == 0 {
            "The PINs do not match."@
        } else {
            repeat_error@
        },
{
    if repeat_error.is_empty() {
        "The PINs do not match."
    } else {
        repeat_error
    }
}

} // verus!
