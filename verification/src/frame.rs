//! What the frames of the protocol hold, byte for byte.

use vstd::prelude::*;
use crate::color::Color;
use crate::protocol::{Mode, Zone, GRAD, LEAD_0, LEAD_1, MODE, SEGMENT_END, SET};

verus! {

/// The frame that writes `color` to position `index` under sub-command
/// `function`: the two lead bytes, the sub-command, the position, the three
/// channels, and a closing zero.
pub open spec fn color_frame(function: u8, index: u8, color: Color) -> Seq<u8> {
    seq![LEAD_0, LEAD_1, function, index, color.r, color.g, color.b, 0u8]
}

/// The frame that commits `mode`: the two lead bytes, the mode sub-command,
/// the mode's code, and four zeros.
pub open spec fn mode_frame(mode: Mode) -> Seq<u8> {
    seq![LEAD_0, LEAD_1, MODE, mode.spec_code(), 0u8, 0u8, 0u8, 0u8]
}

/// The color that closes a zone's gradient segment.
pub open spec fn segment_end() -> Color {
    Color { r: SEGMENT_END, g: SEGMENT_END, b: SEGMENT_END }
}

/// The three gradient frames of one zone: `first` and `second` in the zone's
/// first two slots, the closing color in its third.
pub open spec fn gradient_frames(zone: Zone, first: Color, second: Color) -> Seq<Seq<u8>> {
    let base = zone.spec_gradient_base();
    seq![
        color_frame(GRAD, base, first),
        color_frame(GRAD, (base + 1) as u8, second),
        color_frame(GRAD, (base + 2) as u8, segment_end()),
    ]
}

/// The frames of the normal mode: one color per zone, then the mode.
pub open spec fn normal_frames(left: Color, middle: Color, right: Color) -> Seq<Seq<u8>> {
    seq![
        color_frame(SET, Zone::Left.spec_index(), left),
        color_frame(SET, Zone::Middle.spec_index(), middle),
        color_frame(SET, Zone::Right.spec_index(), right),
        mode_frame(Mode::Normal),
    ]
}

/// The frames of the gaming mode: the left zone's color, then the mode.
pub open spec fn gaming_frames(left: Color) -> Seq<Seq<u8>> {
    seq![color_frame(SET, Zone::Left.spec_index(), left), mode_frame(Mode::Gaming)]
}

/// The frames of an effect that runs on gradients: three gradient frames for
/// each zone, left to right, then `mode`.
pub open spec fn effect_frames(
    mode: Mode,
    left: (Color, Color),
    middle: (Color, Color),
    right: (Color, Color),
) -> Seq<Seq<u8>> {
    gradient_frames(Zone::Left, left.0, left.1) + gradient_frames(Zone::Middle, middle.0, middle.1)
        + gradient_frames(Zone::Right, right.0, right.1) + seq![mode_frame(mode)]
}

} // verus!
