//! Session lifecycle: the decisions of the control loop.
//!
//! The loop around this library polls the clock gate once per iteration,
//! keeps the recognizer and the audio source alive only inside the active
//! hours, and hands every non-empty transcript to the dispatcher. The
//! decisions live here as a state machine over two handle flags; the loop
//! performs what each step directs (create or drop a handle, sleep, read a
//! chunk, deliver an action) and feeds the outcomes back in.

use vstd::prelude::*;
use crate::action::LedAction;
use crate::clock::TimeWindow;
use crate::clock::idle_hour;
use crate::dispatch::KeywordTable;
use crate::dispatch::dispatch_result;

verus! {

/// Which handles the loop currently holds. Both start absent; the clock
/// gate keeps them alive together, while a keyword match drops the
/// recognizer alone to force a fresh utterance boundary.
pub struct Session {
    pub has_recognizer: bool,
    pub has_audio: bool,
}

/// What one poll of the clock gate directs the loop to do.
#[derive(Clone, Copy, Debug, PartialEq, Eq, Structural)]
pub enum GateStep {
    /// Idle hours: both handles were released; sleep out the backoff and
    /// poll again.
    Idle,
    /// Active hours: listen, after creating whichever handles were absent.
    Listen { create_recognizer: bool, create_audio: bool },
}

impl Session {
    /// The loop's initial state: no recognizer, no audio source.
    pub fn new() -> (r: Session)
        ensures
            !r.has_recognizer,
            !r.has_audio,
    {
        Session { has_recognizer: false, has_audio: false }
    }

    /// Poll the clock gate at the given hour. Inside the idle window both
    /// handles are released together; outside it both are held, and the
    /// step says exactly which ones the loop must create because they were
    /// absent.
    pub fn gate_step(&mut self, window: &TimeWindow, hour: u32) -> (r: GateStep)
        ensures
            idle_hour(*window, hour) ==> {
                &&& r == GateStep::Idle
                &&& !final(self).has_recognizer
                &&& !final(self).has_audio
            },
            !idle_hour(*window, hour) ==> {
                &&& r == (GateStep::Listen {
                    create_recognizer: !old(self).has_recognizer,
                    create_audio: !old(self).has_audio,
                })
                &&& final(self).has_recognizer
                &&& final(self).has_audio
            },
    {
        if window.is_idle(hour) {
            self.has_recognizer = false;
            self.has_audio = false;
            GateStep::Idle
        } else {
            let create_recognizer = !self.has_recognizer;
            let create_audio = !self.has_audio;
            self.has_recognizer = true;
            self.has_audio = true;
            GateStep::Listen { create_recognizer, create_audio }
        }
    }

    /// Poll the clock gate at the current local hour. Whatever hour the
    /// wall clock yields, the step and the handle flags agree with
    /// `gate_step` at that hour: an idle step leaves both handles
    /// released, a listening step leaves both held and directs the loop to
    /// create exactly the ones that were absent.
    pub fn gate_step_now(&mut self, window: &TimeWindow) -> (r: GateStep)
        ensures
            r == GateStep::Idle ==> {
                &&& !final(self).has_recognizer
                &&& !final(self).has_audio
                &&& exists|h: u32| h < 24 && idle_hour(*window, h)
            },
            r != GateStep::Idle ==> {
                &&& r == (GateStep::Listen {
                    create_recognizer: !old(self).has_recognizer,
                    create_audio: !old(self).has_audio,
                })
                &&& final(self).has_recognizer
                &&& final(self).has_audio
                &&& exists|h: u32| h < 24 && !idle_hour(*window, h)
            },
    {
        let hour = crate::clock::current_local_hour();
        let r = self.gate_step(window, hour);
        proof {
            if idle_hour(*window, hour) {
                assert(exists|h: u32| h < 24 && idle_hour(*window, h)) by {
                    assert(hour < 24 && idle_hour(*window, hour));
                }
            } else {
                assert(exists|h: u32| h < 24 && !idle_hour(*window, h)) by {
                    assert(hour < 24 && !idle_hour(*window, hour));
                }
            }
        }
        r
    }

    /// Consume one transcript fragment, partial and final alike. An empty
    /// transcript changes nothing; a non-empty one is dispatched against
    /// the table, and on a match the recognizer alone is dropped — the
    /// audio source is kept — so the next iteration starts a fresh
    /// utterance. The returned action, if any, is the loop's to deliver on
    /// a non-blocking path.
    pub fn consume_transcript(&mut self, table: &KeywordTable, text: &Vec<u8>) -> (r: Option<
        LedAction,
    >)
        ensures
            r == dispatch_result(table.entries@, text@),
            final(self).has_audio == old(self).has_audio,
            r.is_some() ==> !final(self).has_recognizer,
            r.is_none() ==> *final(self) == *old(self),
    {
        if text.len() == 0 {
            return None;
        }
        let r = table.dispatch(text);
        if r.is_some() {
            self.has_recognizer = false;
        }
        r
    }
}

} // verus!
