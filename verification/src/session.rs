//! The mathematical model of a lighting session: which frames an operation
//! consists of, how far their transmission has come, and whether the
//! transport has refused one.

use vstd::prelude::*;

verus! {

/// The single error of the driver: the device could not be opened, or the
/// transport refused a transfer. The two are not told apart.
#[derive(Clone, Copy, Debug, PartialEq, Eq, Structural)]
pub struct DeviceError {}

/// What the transport reports about the frame it was last given.
#[derive(Clone, Copy, Debug, PartialEq, Eq, Structural)]
pub enum Event {
    /// The device took the frame.
    Accepted,
    /// The device could not be opened, or the transfer was refused.
    Refused,
}

/// A session as contracts see it.
pub struct Session {
    /// The frames of the operation in hand, in the order they go out.
    pub plan: Seq<Seq<u8>>,
    /// How many of them the device has taken.
    pub sent: nat,
    /// Whether the transport has refused a frame of this operation.
    pub failed: bool,
}

impl Session {
    /// The session at the start of an operation that consists of `plan`.
    pub open spec fn start(plan: Seq<Seq<u8>>) -> Session {
        Session { plan, sent: 0, failed: false }
    }

    /// No more frames are counted as taken than the plan holds.
    pub open spec fn wf(self) -> bool {
        self.sent <= self.plan.len()
    }

    /// The session with one more frame at the end of its plan.
    pub open spec fn stage(self, frame: Seq<u8>) -> Session {
        Session { plan: self.plan.push(frame), ..self }
    }

    /// The frame that is due for transmission: the first that the device
    /// has not taken, unless a refusal has ended the operation.
    pub open spec fn pending(self) -> Option<Seq<u8>> {
        if !self.failed && self.sent < self.plan.len() {
            Some(self.plan[self.sent as int])
        } else {
            None
        }
    }

    /// What the operation returns once nothing is pending.
    pub open spec fn result(self) -> Result<(), DeviceError> {
        if self.failed {
            Err(DeviceError {})
        } else {
            Ok(())
        }
    }

    /// The session after the transport has reported `event` about the pending
    /// frame. An acceptance moves on to the next frame; a refusal ends the
    /// operation, and the frames behind the refused one never become pending.
    /// With nothing pending the report changes nothing.
    pub open spec fn step(self, event: Event) -> Session {
        if self.pending() is None {
            self
        } else {
            match event {
                Event::Accepted => Session { sent: self.sent + 1, ..self },
                Event::Refused => Session { failed: true, ..self },
            }
        }
    }

    /// The session after the transport has reported `events`, one by one.
    pub open spec fn run(self, events: Seq<Event>) -> Session
        decreases events.len(),
    {
        if events.len() == 0 {
            self
        } else {
            self.step(events[0]).run(events.skip(1))
        }
    }

    /// The frames handed to the transport while it reports `events`: the
    /// pending frame, and after each report the frame that is pending then.
    pub open spec fn transmitted(self, events: Seq<Event>) -> Seq<Seq<u8>>
        decreases events.len(),
    {
        match self.pending() {
            None => Seq::empty(),
            Some(frame) => if events.len() == 0 {
                seq![frame]
            } else {
                seq![frame] + self.step(events[0]).transmitted(events.skip(1))
            },
        }
    }
}

} // verus!
