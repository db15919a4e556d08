//! What holds of every session and every operation, proved over the model.

use vstd::prelude::*;
use crate::color::Color;
use crate::frame::{
    color_frame, effect_frames, gaming_frames, gradient_frames, mode_frame, normal_frames,
    segment_end,
};
use crate::keyboard::IntoColorTuple;
use crate::protocol::{Mode, Zone, GRAD, SET};
use crate::session::{DeviceError, Event, Session};

verus! {

/// A direct color frame for a zone is the bytes 1, 2, 0x40, the zone's
/// index, the three channels and 0, where the indices of the left, middle and
/// right zone are 1, 2 and 3.
pub proof fn lemma_set_frame_layout(zone: Zone, color: Color)
    ensures
        color_frame(SET, zone.spec_index(), color) == seq![
            1u8,
            2u8,
            0x40u8,
            zone.spec_index(),
            color.r,
            color.g,
            color.b,
            0u8,
        ],
        Zone::Left.spec_index() == 1,
        Zone::Middle.spec_index() == 2,
        Zone::Right.spec_index() == 3,
{
}

/// A mode frame is the bytes 1, 2, 0x41, the mode's code and four zeros,
/// where the codes of normal, gaming, breathing, audio, wave and dual color
/// are 1 to 6.
pub proof fn lemma_mode_frame_layout(mode: Mode)
    ensures
        mode_frame(mode) == seq![1u8, 2u8, 0x41u8, mode.spec_code(), 0u8, 0u8, 0u8, 0u8],
        Mode::Normal.spec_code() == 1,
        Mode::Gaming.spec_code() == 2,
        Mode::Breathing.spec_code() == 3,
        Mode::Audio.spec_code() == 4,
        Mode::Wave.spec_code() == 5,
        Mode::DualColor.spec_code() == 6,
{
}

/// A zone's gradient is exactly three frames under sub-command 0x44, at the
/// slots `base`, `base + 1` and `base + 2` with `base = (index - 1) * 3 + 1`.
/// They carry the first color, the second color and (3, 3, 3). The slots of
/// all zones lie in 1 to 9.
pub proof fn lemma_gradient_layout(zone: Zone, first: Color, second: Color)
    ensures
        gradient_frames(zone, first, second).len() == 3,
        ({
            let base = (zone.spec_index() - 1) * 3 + 1;
            let frames = gradient_frames(zone, first, second);
            &&& 1 <= base && base + 2 <= 9
            &&& frames[0] == seq![1u8, 2u8, 0x44u8, base as u8, first.r, first.g, first.b, 0u8]
            &&& frames[1] == seq![
                1u8,
                2u8,
                0x44u8,
                (base + 1) as u8,
                second.r,
                second.g,
                second.b,
                0u8,
            ]
            &&& frames[2] == seq![1u8, 2u8, 0x44u8, (base + 2) as u8, 3u8, 3u8, 3u8, 0u8]
        }),
{
}

/// A single color given to a gradient operation stands for the pair of that
/// color and black, in whichever zone it is given.
pub proof fn lemma_single_color_is_pair_with_black(
    mode: Mode,
    color: Color,
    other: (Color, Color),
    another: (Color, Color),
)
    ensures
        (&color).stops() == (color, Color { r: 0, g: 0, b: 0 }),
        (&color).stops() == (&color, &Color::black()).stops(),
        effect_frames(mode, (&color).stops(), other, another) == effect_frames(
            mode,
            (color, Color::black()),
            other,
            another,
        ),
        effect_frames(mode, other, (&color).stops(), another) == effect_frames(
            mode,
            other,
            (color, Color::black()),
            another,
        ),
        effect_frames(mode, other, another, (&color).stops()) == effect_frames(
            mode,
            other,
            another,
            (color, Color::black()),
        ),
{
}

/// Staging a frame and reporting an event keep a session well formed.
pub proof fn lemma_wf_is_kept(s: Session, frame: Seq<u8>, event: Event)
    requires
        s.wf(),
    ensures
        s.stage(frame).wf(),
        s.step(event).wf(),
        Session::start(s.plan).wf(),
{
}

/// Once the transport has refused a frame, nothing is pending and the
/// operation has failed, whatever is reported or staged afterwards.
pub proof fn lemma_refusal_is_final(s: Session, events: Seq<Event>)
    requires
        s.failed,
    ensures
        s.pending() is None,
        s.result() == Err::<(), DeviceError>(DeviceError {}),
        s.run(events) == s,
        s.transmitted(events) == Seq::<Seq<u8>>::empty(),
        forall|frame: Seq<u8>| (#[trigger] s.stage(frame)).pending() is None,
    decreases events.len(),
{
    if events.len() > 0 {
        lemma_refusal_is_final(s, events.skip(1));
    }
}

/// While the transport accepts every frame, the frames go out in the order
/// of the plan, one for each report and the one pending after the last
/// report, until the plan is through. Then nothing is pending and the
/// operation has succeeded.
pub proof fn lemma_accepted_frames_go_out_in_order(s: Session, events: Seq<Event>)
    requires
        s.wf(),
        !s.failed,
        forall|i: int| 0 <= i < events.len() ==> events[i] == Event::Accepted,
    ensures
        ({
            let taken = if s.sent + events.len() <= s.plan.len() {
                (s.sent + events.len()) as int
            } else {
                s.plan.len() as int
            };
            let out = if taken < s.plan.len() {
                taken + 1
            } else {
                taken
            };
            &&& s.run(events) == (Session { sent: taken as nat, ..s })
            &&& s.transmitted(events) == s.plan.subrange(s.sent as int, out)
        }),
        s.sent + events.len() >= s.plan.len() ==> s.run(events).pending() is None && s.run(
            events,
        ).result() == Ok::<(), DeviceError>(()),
    decreases events.len(),
{
    if events.len() == 0 {
        if s.sent < s.plan.len() {
            assert(s.transmitted(events) =~= s.plan.subrange(s.sent as int, s.sent as int + 1));
        } else {
            assert(s.transmitted(events) =~= s.plan.subrange(s.sent as int, s.sent as int));
        }
    } else {
        let rest = events.skip(1);
        let next = s.step(events[0]);
        assert forall|i: int| 0 <= i < rest.len() implies rest[i] == Event::Accepted by {
            assert(rest[i] == events[i + 1]);
        }
        lemma_accepted_frames_go_out_in_order(next, rest);
        if s.sent < s.plan.len() {
            let taken = if next.sent + rest.len() <= s.plan.len() {
                (next.sent + rest.len()) as int
            } else {
                s.plan.len() as int
            };
            let out = if taken < s.plan.len() {
                taken + 1
            } else {
                taken
            };
            assert(s.transmitted(events) =~= s.plan.subrange(s.sent as int, out));
        } else {
            assert(s.transmitted(events) =~= s.plan.subrange(s.sent as int, s.sent as int));
        }
    }
}

/// The first refusal ends the operation: if the transport accepts `k` frames
/// and refuses the next, exactly those `k + 1` frames go out, in the order of
/// the plan, and the operation fails. No frame behind the refused one is
/// handed out, whatever is reported afterwards.
pub proof fn lemma_first_refusal_ends_operation(s: Session, events: Seq<Event>, k: int)
    requires
        s.wf(),
        !s.failed,
        0 <= k < events.len(),
        s.sent + k < s.plan.len(),
        forall|i: int| 0 <= i < k ==> events[i] == Event::Accepted,
        events[k] == Event::Refused,
    ensures
        s.transmitted(events) == s.plan.subrange(s.sent as int, s.sent as int + k + 1),
        s.run(events) == (Session { sent: (s.sent + k) as nat, failed: true, ..s }),
        s.run(events).pending() is None,
        s.run(events).result() == Err::<(), DeviceError>(DeviceError {}),
    decreases k,
{
    let rest = events.skip(1);
    let next = s.step(events[0]);
    if k == 0 {
        lemma_refusal_is_final(next, rest);
        assert(s.transmitted(events) =~= s.plan.subrange(s.sent as int, s.sent as int + 1));
    } else {
        assert forall|i: int| 0 <= i < k - 1 implies rest[i] == Event::Accepted by {
            assert(rest[i] == events[i + 1]);
        }
        assert(rest[k - 1] == events[k]);
        lemma_first_refusal_ends_operation(next, rest, k - 1);
        assert(s.transmitted(events) =~= s.plan.subrange(s.sent as int, s.sent as int + k + 1));
    }
}

/// The normal mode is exactly four frames, in this order: the colors of the
/// left, middle and right zone, then the mode. They all go out when the
/// transport accepts each, and the operation then succeeds.
pub proof fn lemma_normal_sends_four_frames(
    left: Color,
    middle: Color,
    right: Color,
    events: Seq<Event>,
)
    requires
        events.len() >= 4,
        forall|i: int| 0 <= i < events.len() ==> events[i] == Event::Accepted,
    ensures
        Session::start(normal_frames(left, middle, right)).transmitted(events) == seq![
            color_frame(SET, 1, left),
            color_frame(SET, 2, middle),
            color_frame(SET, 3, right),
            mode_frame(Mode::Normal),
        ],
        Session::start(normal_frames(left, middle, right)).run(events).pending() is None,
        Session::start(normal_frames(left, middle, right)).run(events).result() == Ok::<
            (),
            DeviceError,
        >(()),
{
    let s = Session::start(normal_frames(left, middle, right));
    lemma_accepted_frames_go_out_in_order(s, events);
    assert(s.plan.subrange(0, 4) =~= s.plan);
}

/// If the transport refuses one of the three color frames of the normal
/// mode, the frames up to the refused one have gone out, the mode frame is
/// never sent, and the operation fails.
pub proof fn lemma_normal_withholds_mode_after_refusal(
    left: Color,
    middle: Color,
    right: Color,
    events: Seq<Event>,
    k: int,
)
    requires
        0 <= k < 3,
        k < events.len(),
        forall|i: int| 0 <= i < k ==> events[i] == Event::Accepted,
        events[k] == Event::Refused,
    ensures
        Session::start(normal_frames(left, middle, right)).transmitted(events) == normal_frames(
            left,
            middle,
            right,
        ).take(k + 1),
        !Session::start(normal_frames(left, middle, right)).transmitted(events).contains(
            mode_frame(Mode::Normal),
        ),
        Session::start(normal_frames(left, middle, right)).run(events).pending() is None,
        Session::start(normal_frames(left, middle, right)).run(events).result() == Err::<
            (),
            DeviceError,
        >(DeviceError {}),
{
    let plan = normal_frames(left, middle, right);
    let s = Session::start(plan);
    lemma_first_refusal_ends_operation(s, events, k);
    let out = s.transmitted(events);
    assert(out =~= plan.take(k + 1));
    assert forall|i: int| 0 <= i < out.len() implies out[i] != mode_frame(Mode::Normal) by {
        assert(out[i] == plan[i]);
        assert(out[i][2] == SET);
        assert(mode_frame(Mode::Normal)[2] == 0x41u8);
    }
}

/// The gaming mode is exactly two frames, in this order: the color of the
/// left zone, then the mode. Both go out when the transport accepts each, and
/// the operation then succeeds. If the transport refuses the color, the mode
/// frame is never sent.
pub proof fn lemma_gaming_sends_two_frames(left: Color, events: Seq<Event>)
    requires
        events.len() >= 2,
    ensures
        (forall|i: int| 0 <= i < events.len() ==> events[i] == Event::Accepted) ==> {
            &&& Session::start(gaming_frames(left)).transmitted(events) == seq![
                color_frame(SET, 1, left),
                mode_frame(Mode::Gaming),
            ]
            &&& Session::start(gaming_frames(left)).run(events).pending() is None
            &&& Session::start(gaming_frames(left)).run(events).result() == Ok::<(), DeviceError>(
                (),
            )
        },
        events[0] == Event::Refused ==> {
            &&& Session::start(gaming_frames(left)).transmitted(events) == seq![
                color_frame(SET, 1, left),
            ]
            &&& Session::start(gaming_frames(left)).run(events).result() == Err::<
                (),
                DeviceError,
            >(DeviceError {})
        },
{
    let s = Session::start(gaming_frames(left));
    if forall|i: int| 0 <= i < events.len() ==> events[i] == Event::Accepted {
        lemma_accepted_frames_go_out_in_order(s, events);
        assert(s.plan.subrange(0, 2) =~= s.plan);
    }
    if events[0] == Event::Refused {
        lemma_first_refusal_ends_operation(s, events, 0);
        assert(s.plan.subrange(0, 1) =~= seq![color_frame(SET, 1, left)]);
    }
}

/// A gradient effect is exactly ten frames: for the left, middle and right
/// zone in turn the two stops and the closing color, which fill the slots 1
/// to 9 of the gradient table in order, then the mode.
pub proof fn lemma_effect_layout(
    mode: Mode,
    left: (Color, Color),
    middle: (Color, Color),
    right: (Color, Color),
)
    ensures
        effect_frames(mode, left, middle, right) == seq![
            color_frame(GRAD, 1, left.0),
            color_frame(GRAD, 2, left.1),
            color_frame(GRAD, 3, segment_end()),
            color_frame(GRAD, 4, middle.0),
            color_frame(GRAD, 5, middle.1),
            color_frame(GRAD, 6, segment_end()),
            color_frame(GRAD, 7, right.0),
            color_frame(GRAD, 8, right.1),
            color_frame(GRAD, 9, segment_end()),
            mode_frame(mode),
        ],
{
    assert(effect_frames(mode, left, middle, right) =~= seq![
        color_frame(GRAD, 1, left.0),
        color_frame(GRAD, 2, left.1),
        color_frame(GRAD, 3, segment_end()),
        color_frame(GRAD, 4, middle.0),
        color_frame(GRAD, 5, middle.1),
        color_frame(GRAD, 6, segment_end()),
        color_frame(GRAD, 7, right.0),
        color_frame(GRAD, 8, right.1),
        color_frame(GRAD, 9, segment_end()),
        mode_frame(mode),
    ]);
}

} // verus!
