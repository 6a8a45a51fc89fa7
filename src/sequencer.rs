//! The typing sequencer: walks a text one character at a time, each
//! character taking two reports, one with its key held and one with
//! everything released.
//!
//! The text stays with the caller; a state holds the range of it that is
//! still to be typed, as a start and an end position.
use vstd::prelude::*;
use crate::keyboard::{
    press_fails, pressed, KeyStateView, Keyboard, KeyboardError, KeyboardReport,
    report_of,
};

verus! {

/// The phase of a typing session.
#[derive(Clone, Copy, Debug, PartialEq, Eq, Structural)]
pub enum State {
    /// No session is running.
    Idle,
    /// The character at the first position of the range is to be pressed;
    /// an empty range ends the session.
    Keying(usize, usize),
    /// Everything is to be released, after which the first character of the
    /// range counts as typed.
    Releasing(usize, usize),
}

/// What became of the transmission of a report.
#[derive(Clone, Copy, Debug, PartialEq, Eq, Structural)]
pub enum SendOutcome {
    /// The report was handed to the host.
    Sent,
    /// The transport was not ready; the same report is to be sent again.
    WouldBlock,
    /// Any other transport error: the session cannot go on.
    Failed,
}

impl State {
    /// The range is ordered and lies within a text of `len` bytes; a
    /// releasing state always has a character in front.
    pub open spec fn wf(self, len: nat) -> bool {
        match self {
            State::Idle => true,
            State::Keying(p, e) => p <= e && e <= len,
            State::Releasing(p, e) => p < e && e <= len,
        }
    }

    /// The phase that follows this one once its report was sent.
    pub open spec fn successor(self) -> State {
        match self {
            State::Idle => State::Idle,
            State::Keying(p, e) => if p == e {
                State::Idle
            } else {
                State::Releasing(p, e)
            },
            State::Releasing(p, e) => State::Keying((p + 1) as usize, e),
        }
    }

    /// The phase after a transmission with the given outcome; `None` when the
    /// session has to stop.
    pub open spec fn after_outcome(self, outcome: SendOutcome) -> Option<State> {
        match outcome {
            SendOutcome::Sent => Some(self.successor()),
            SendOutcome::WouldBlock => Some(self),
            SendOutcome::Failed => None,
        }
    }

    /// The phase once the button was sampled: a rising edge starts a session
    /// over the whole text when none is running.
    pub open spec fn after_button(self, was_high: bool, is_high: bool, len: nat) -> State {
        if is_high && !was_high && self == State::Idle {
            State::Keying(0, len as usize)
        } else {
            self
        }
    }

    /// The action of this phase is a key press that is refused.
    pub open spec fn action_fails(self, s: KeyStateView, text: Seq<u8>) -> bool {
        match self {
            State::Keying(p, e) => p < e && press_fails(s, text[p as int]),
            _ => false,
        }
    }

    /// The key state after this phase's action, when it is not refused.
    pub open spec fn acted(self, s: KeyStateView, text: Seq<u8>) -> KeyStateView {
        match self {
            State::Idle => s,
            State::Keying(p, e) => if p == e {
                KeyStateView::initial()
            } else {
                pressed(s, text[p as int])
            },
            State::Releasing(_, _) => KeyStateView::initial(),
        }
    }

    /// The key state after this phase's action, refused or not.
    pub open spec fn after_action(self, s: KeyStateView, text: Seq<u8>) -> KeyStateView {
        if self.action_fails(s, text) {
            s
        } else {
            self.acted(s, text)
        }
    }

    /// The phase in which a keyboard starts.
    pub fn idle() -> (r: State)
        ensures
            r == State::Idle,
    {
        State::Idle
    }

    /// The phase that follows this one once its report was sent.
    pub fn next(&self) -> (r: State)
        requires
            self.wf(usize::MAX as nat),
        ensures
            r == self.successor(),
            r.wf(usize::MAX as nat),
    {
        match *self {
            State::Idle => State::Idle,
            State::Keying(p, e) => if p == e {
                State::Idle
            } else {
                State::Releasing(p, e)
            },
            State::Releasing(p, e) => State::Keying(p + 1, e),
        }
    }

    /// Starts a session over `keys`; `None` while another session runs.
    pub fn set_keys(&self, keys: &[u8]) -> (r: Option<State>)
        ensures
            r == (if *self == State::Idle {
                Some(State::Keying(0, keys@.len() as usize))
            } else {
                None
            }),
    {
        match *self {
            State::Idle => Some(State::Keying(0, keys.len())),
            _ => None,
        }
    }

    /// Samples the button: on a rising edge, starts a session over `text`
    /// when none is running; otherwise keeps the phase.
    pub fn on_button(&self, was_high: bool, is_high: bool, text: &[u8]) -> (r: State)
        ensures
            r == self.after_button(was_high, is_high, text@.len()),
    {
        if is_high && !was_high {
            match self.set_keys(text) {
                Some(started) => started,
                None => *self,
            }
        } else {
            *self
        }
    }

    /// Performs this phase's action on the keyboard: press the next
    /// character, or release everything. The phase itself does not move.
    pub fn step(&self, kbd: &mut Keyboard, text: &[u8]) -> (r: Result<(), KeyboardError>)
        requires
            self.wf(text@.len()),
            old(kbd).wf(),
        ensures
            final(kbd).wf(),
            self.action_fails(old(kbd)@, text@) ==> r == Err::<(), KeyboardError>(
                KeyboardError::TooManyKeys,
            ) && final(kbd)@ == old(kbd)@,
            !self.action_fails(old(kbd)@, text@) ==> r == Ok::<(), KeyboardError>(())
                && final(kbd)@ == self.acted(old(kbd)@, text@),
    {
        match *self {
            State::Idle => Ok(()),
            State::Keying(p, e) => if p == e {
                kbd.release_all()
            } else {
                kbd.press(text[p])
            },
            State::Releasing(_, _) => kbd.release_all(),
        }
    }

    /// Performs this phase's action and returns the report to transmit.
    pub fn report(&self, kbd: &mut Keyboard, text: &[u8]) -> (r: Result<KeyboardReport, KeyboardError>)
        requires
            self.wf(text@.len()),
            old(kbd).wf(),
        ensures
            final(kbd).wf(),
            final(kbd)@ == self.after_action(old(kbd)@, text@),
            match r {
                Ok(rep) => !self.action_fails(old(kbd)@, text@) && rep@ == report_of(final(kbd)@),
                Err(e) => self.action_fails(old(kbd)@, text@) && e == KeyboardError::TooManyKeys,
            },
    {
        match self.step(kbd, text) {
            Ok(()) => Ok(kbd.get_report()),
            Err(e) => Err(e),
        }
    }

    /// The phase after a transmission: it advances only once the report was
    /// sent, stays for a retry when the transport would block, and `None`
    /// says the session has to stop.
    pub fn after_send(&self, outcome: SendOutcome) -> (r: Option<State>)
        requires
            self.wf(usize::MAX as nat),
        ensures
            r == self.after_outcome(outcome),
    {
        match outcome {
            SendOutcome::Sent => Some(self.next()),
            SendOutcome::WouldBlock => Some(*self),
            SendOutcome::Failed => None,
        }
    }
}

} // verus!
