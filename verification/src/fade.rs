//! The fade-in clock of the dialog surfaces.

use vstd::prelude::*;

verus! {

/// How long a pause between the first two frames has to be for the fade to
/// start over at the second frame: 60 ms, in nanoseconds.
pub const RESTART_GAP_NANOS: u64 = 60_000_000;

/// How long the fade-in lasts: 600 ms, in nanoseconds.
pub const FADE_IN_NANOS: u64 = 600_000_000;

/// When the fade started and when the last frame was drawn, in nanoseconds
/// on the surface's monotonic clock.
///
/// The first frame starts the fade. When the second frame comes more than
/// [`RESTART_GAP_NANOS`] after the first (the surface was not yet on
/// screen), the fade starts over there; after that it runs undisturbed.
pub struct Fade {
    pub start: Option<u64>,
    pub last: Option<u64>,
    pub armed: bool,
}

impl Fade {
    /// A frame has been drawn only if the fade has a start.
    pub open spec fn wf(&self) -> bool {
        self.last is Some ==> self.start is Some
    }

    /// A fade that has drawn no frame yet.
    pub fn new() -> (f: Fade)
        ensures
            f.wf(),
            f.start is None,
            f.last is None,
            !f.armed,
    {
        Fade { start: None, last: None, armed: false }
    }

    /// Records a frame drawn at `now` and returns how long the fade has been
    /// running then (zero when the clock reads earlier than the start). The
    /// surface turns it into an opacity and asks for another frame while it
    /// is below [`FADE_IN_NANOS`].
    pub fn elapsed(&mut self, now: u64) -> (e: u64)
        requires
            old(self).wf(),
        ensures
            final(self).wf(),
            *final(self) == after_frame(*old(self), now),
            final(self).start matches Some(s) && e == (if now >= s {
                now - s
            } else {
                0
            }),
    {
        match self.last {
            None => {
                self.start = Some(now);
            },
            Some(last) => {
                if !self.armed {
                    if now > last && now - last > RESTART_GAP_NANOS {
                        self.start = Some(now);
                    }
                    self.armed = true;
                }
            },
        }
        self.last = Some(now);
        let start = match self.start {
            Some(s) => s,
            None => now,
        };
        if now >= start {
            now - start
        } else {
            0
        }
    }
}

/// The clock after a frame drawn at `now`: the first frame starts the fade,
/// the second restarts it after a long pause and arms the clock.
pub open spec fn after_frame(f: Fade, now: u64) -> Fade {
    match f.last {
        None => Fade { start: Some(now), last: Some(now), armed: f.armed },
        Some(last) => if f.armed {
            Fade { last: Some(now), ..f }
        } else {
            Fade {
                start: if now > last && now - last > RESTART_GAP_NANOS {
                    Some(now)
                } else {
                    f.start
                },
                last: Some(now),
                armed: true,
            }
        },
    }
}

/// After two frames the clock is armed, and from then on no frame moves the
/// start of the fade.
pub proof fn lemma_start_settles(f: Fade, first: u64, second: u64, later: u64)
    requires
        f.wf(),
        f.last is None,
    ensures
        after_frame(after_frame(f, first), second).armed,
        after_frame(after_frame(after_frame(f, first), second), later).start == after_frame(
            after_frame(f, first),
            second,
        ).start,
{
}

} // verus!
