//! The lighting session: operations stage their frames, and the caller
//! transmits them one at a time, reporting each transfer's outcome.

use vstd::prelude::*;
use crate::color::Color;
use crate::frame::{
    color_frame, effect_frames, gaming_frames, gradient_frames, mode_frame, normal_frames,
};
use crate::protocol::{Mode, Zone, GRAD, LEAD_0, LEAD_1, MODE, SEGMENT_END, SET};
use crate::session::{DeviceError, Event, Session};

verus! {

/// What the caller has to do next.
#[derive(Clone, Copy, Debug, PartialEq, Eq)]
pub enum Action {
    /// Transmit this frame as one feature report, then report the outcome.
    Send([u8; 8]),
    /// Nothing is left to transmit: the operation returns this.
    Finish(Result<(), DeviceError>),
}

impl Action {
    /// Whether this is the action that the session `s` calls for: sending its
    /// pending frame, or finishing with its result when nothing is pending.
    pub open spec fn answers(self, s: Session) -> bool {
        match self {
            Action::Send(frame) => s.pending() == Some(frame@),
            Action::Finish(result) => s.pending() is None && result == s.result(),
        }
    }
}

/// What a gradient operation accepts for one zone: a single color, or a pair
/// of colors.
pub trait IntoColorTuple: Sized {
    /// The two gradient stops that the value stands for.
    spec fn stops(self) -> (Color, Color);

    /// The two gradient stops that the value stands for.
    fn into(self) -> (stops: (Color, Color))
        ensures
            stops == self.stops(),
    ;
}

/// A single color is the first stop; black is the second.
impl<'a> IntoColorTuple for &'a Color {
    open spec fn stops(self) -> (Color, Color) {
        (*self, Color::black())
    }

    fn into(self) -> (stops: (Color, Color)) {
        (*self, Color::new(0, 0, 0))
    }
}

/// A pair gives both stops, first then second.
impl<'a, 'b> IntoColorTuple for (&'a Color, &'b Color) {
    open spec fn stops(self) -> (Color, Color) {
        (*self.0, *self.1)
    }

    fn into(self) -> (stops: (Color, Color)) {
        (*self.0, *self.1)
    }
}

/// A lighting session with one keyboard.
pub struct Keyboard {
    plan: Vec<[u8; 8]>,
    sent: usize,
    failed: bool,
}

impl View for Keyboard {
    type V = Session;

    closed spec fn view(&self) -> Session {
        Session {
            plan: Seq::new(self.plan@.len(), |i: int| self.plan@[i]@),
            sent: self.sent as nat,
            failed: self.failed,
        }
    }
}

impl Keyboard {
    /// A session in which nothing is staged and nothing has failed.
    pub fn new() -> (keyboard: Keyboard)
        ensures
            keyboard@ == Session::start(Seq::empty()),
    {
        let keyboard = Keyboard { plan: Vec::new(), sent: 0, failed: false };
        assert(keyboard@.plan =~= Seq::empty());
        keyboard
    }

    /// Starts the normal mode: each zone shows its own steady color. Whatever
    /// was staged before is dropped. The frames are the three zone colors,
    /// left to right, then the mode.
    pub fn normal(&mut self, left: &Color, middle: &Color, right: &Color) -> (action: Action)
        ensures
            final(self)@ == Session::start(normal_frames(*left, *middle, *right)),
            action.answers(final(self)@),
    {
        self.begin();
        self.write_color(SET, Zone::Left.index(), left);
        self.write_color(SET, Zone::Middle.index(), middle);
        self.write_color(SET, Zone::Right.index(), right);
        self.write_mode(Mode::Normal);
        assert(self@.plan =~= normal_frames(*left, *middle, *right));
        self.action()
    }

    /// Starts the gaming mode. Only the left zone is addressed; the others
    /// keep the colors that the device last held for them. Whatever was staged
    /// before is dropped. The frames are the left zone's color, then the mode.
    pub fn gaming(&mut self, left: &Color) -> (action: Action)
        ensures
            final(self)@ == Session::start(gaming_frames(*left)),
            action.answers(final(self)@),
    {
        self.begin();
        self.write_color(SET, Zone::Left.index(), left);
        self.write_mode(Mode::Gaming);
        assert(self@.plan =~= gaming_frames(*left));
        self.action()
    }

    /// Starts the breathing effect on the gradients given for the three
    /// zones. Whatever was staged before is dropped. The frames are the
    /// gradient frames of each zone, left to right, then the mode.
    pub fn breathing<T: IntoColorTuple, U: IntoColorTuple, V: IntoColorTuple>(
        &mut self,
        left: T,
        middle: U,
        right: V,
    ) -> (action: Action)
        ensures
            final(self)@ == Session::start(
                effect_frames(Mode::Breathing, left.stops(), middle.stops(), right.stops()),
            ),
            action.answers(final(self)@),
    {
        let l = left.into();
        let m = middle.into();
        let r = right.into();
        self.begin();
        self.write_gradient(Zone::Left, &l.0, &l.1);
        self.write_gradient(Zone::Middle, &m.0, &m.1);
        self.write_gradient(Zone::Right, &r.0, &r.1);
        self.write_mode(Mode::Breathing);
        assert(self@.plan =~= effect_frames(Mode::Breathing, l, m, r));
        self.action()
    }

    /// Starts the wave effect on the gradients given for the three zones.
    /// Whatever was staged before is dropped. The frames are the gradient
    /// frames of each zone, left to right, then the mode.
    pub fn wave<T: IntoColorTuple, U: IntoColorTuple, V: IntoColorTuple>(
        &mut self,
        left: T,
        middle: U,
        right: V,
    ) -> (action: Action)
        ensures
            final(self)@ == Session::start(
                effect_frames(Mode::Wave, left.stops(), middle.stops(), right.stops()),
            ),
            action.answers(final(self)@),
    {
        let l = left.into();
        let m = middle.into();
        let r = right.into();
        self.begin();
        self.write_gradient(Zone::Left, &l.0, &l.1);
        self.write_gradient(Zone::Middle, &m.0, &m.1);
        self.write_gradient(Zone::Right, &r.0, &r.1);
        self.write_mode(Mode::Wave);
        assert(self@.plan =~= effect_frames(Mode::Wave, l, m, r));
        self.action()
    }

    /// Drops whatever is staged and forgets an earlier refusal.
    fn begin(&mut self)
        ensures
            final(self)@ == Session::start(Seq::empty()),
    {
        self.plan = Vec::new();
        self.sent = 0;
        self.failed = false;
        assert(self@.plan =~= Seq::empty());
    }

    /// Stages the frame that writes `color` to position `zone` under
    /// sub-command `function`, behind the frames already staged.
    pub fn write_color(&mut self, function: u8, zone: u8, color: &Color)
        ensures
            final(self)@ == old(self)@.stage(color_frame(function, zone, *color)),
    {
        let frame: [u8; 8] = [LEAD_0, LEAD_1, function, zone, color.r(), color.g(), color.b(), 0x00];
        assert(frame@ =~= color_frame(function, zone, *color));
        self.plan.push(frame);
        assert(self@.plan =~= old(self)@.plan.push(frame@));
    }

    /// Stages the frame that commits `mode`, behind the frames already
    /// staged. The device shows the colors and gradients written before only
    /// once it has taken this frame, so it goes last in every operation.
    pub fn write_mode(&mut self, mode: Mode)
        ensures
            final(self)@ == old(self)@.stage(mode_frame(mode)),
    {
        let frame: [u8; 8] = [LEAD_0, LEAD_1, MODE, mode.code(), 0x00, 0x00, 0x00, 0x00];
        assert(frame@ =~= mode_frame(mode));
        self.plan.push(frame);
        assert(self@.plan =~= old(self)@.plan.push(frame@));
    }

    /// Stages the three gradient frames of `zone`, behind the frames already
    /// staged: `first` and `second` in the zone's first two slots of the
    /// gradient table, the closing color in its third.
    pub fn write_gradient(&mut self, zone: Zone, first: &Color, second: &Color)
        ensures
            final(self)@ == (Session {
                plan: old(self)@.plan + gradient_frames(zone, *first, *second),
                ..old(self)@
            }),
    {
        let index = zone.gradient_base();
        self.write_color(GRAD, index, first);
        self.write_color(GRAD, index + 1, second);
        self.write_color(GRAD, index + 2, &Color::new(SEGMENT_END, SEGMENT_END, SEGMENT_END));
        assert(self@.plan =~= old(self)@.plan + gradient_frames(zone, *first, *second));
    }

    /// The action that the session calls for now.
    pub fn action(&self) -> (action: Action)
        ensures
            action.answers(self@),
    {
        if self.failed {
            Action::Finish(Err(DeviceError {}))
        } else if self.sent < self.plan.len() {
            Action::Send(self.plan[self.sent])
        } else {
            Action::Finish(Ok(()))
        }
    }

    /// Takes the transport's report about the pending frame and says what to
    /// do next.
    pub fn step(&mut self, event: Event) -> (action: Action)
        ensures
            final(self)@ == old(self)@.step(event),
            action.answers(final(self)@),
    {
        if !self.failed && self.sent < self.plan.len() {
            match event {
                Event::Accepted => {
                    self.sent = self.sent + 1;
                },
                Event::Refused => {
                    self.failed = true;
                },
            }
        }
        self.action()
    }
}

} // verus!
