//! The wire contract in one place: device identity, frame layout, sub-command
//! codes, zone indices and mode codes.

use vstd::prelude::*;

verus! {

/// USB vendor id of the keyboard.
pub const VENDOR_ID: u16 = 0x1770;

/// USB product id of the keyboard.
pub const PRODUCT_ID: u16 = 0xFF00;

/// Every frame is exactly this many bytes.
pub const FRAME_LEN: usize = 8;

/// First byte of every frame.
pub const LEAD_0: u8 = 0x01;

/// Second byte of every frame.
pub const LEAD_1: u8 = 0x02;

/// Sub-command: set the color of one zone directly.
pub const SET: u8 = 0x40;

/// Sub-command: commit the device-wide mode.
pub const MODE: u8 = 0x41;

/// Sub-command: set one stop of the gradient table.
pub const GRAD: u8 = 0x44;

/// Each zone owns this many consecutive slots of the gradient table.
pub const SLOTS_PER_ZONE: u8 = 3;

/// Channel value of the color that closes a zone's gradient segment.
pub const SEGMENT_END: u8 = 0x03;

/// One of the three independently lit regions of the keyboard.
#[derive(Clone, Copy, Debug, PartialEq, Eq, Structural)]
pub enum Zone {
    Left,
    Middle,
    Right,
}

impl Zone {
    /// The 1-based index by which frames address the zone.
    pub open spec fn spec_index(self) -> u8 {
        match self {
            Zone::Left => 1,
            Zone::Middle => 2,
            Zone::Right => 3,
        }
    }

    /// The first of the zone's three gradient slots: 1, 4 or 7.
    pub open spec fn spec_gradient_base(self) -> u8 {
        ((self.spec_index() - 1) * SLOTS_PER_ZONE + 1) as u8
    }

    #[verifier::when_used_as_spec(spec_index)]
    pub fn index(self) -> (index: u8)
        ensures
            index == self.spec_index(),
            1 <= index <= 3,
    {
        match self {
            Zone::Left => 1,
            Zone::Middle => 2,
            Zone::Right => 3,
        }
    }

    #[verifier::when_used_as_spec(spec_gradient_base)]
    pub fn gradient_base(self) -> (base: u8)
        ensures
            base == self.spec_gradient_base(),
            base == (self.spec_index() - 1) * 3 + 1,
            1 <= base <= 7,
    {
        (self.index() - 1) * SLOTS_PER_ZONE + 1
    }
}

/// The lighting behavior of the whole device. Exactly one is active at a
/// time; committing it makes the colors and gradients written before visible.
#[derive(Clone, Copy, Debug, PartialEq, Eq, Structural)]
pub enum Mode {
    Normal,
    Gaming,
    Breathing,
    Audio,
    Wave,
    DualColor,
}

impl Mode {
    /// The byte that stands for the mode on the wire.
    pub open spec fn spec_code(self) -> u8 {
        match self {
            Mode::Normal => 1,
            Mode::Gaming => 2,
            Mode::Breathing => 3,
            Mode::Audio => 4,
            Mode::Wave => 5,
            Mode::DualColor => 6,
        }
    }

    #[verifier::when_used_as_spec(spec_code)]
    pub fn code(self) -> (code: u8)
        ensures
            code == self.spec_code(),
            1 <= code <= 6,
    {
        match self {
            Mode::Normal => 1,
            Mode::Gaming => 2,
            Mode::Breathing => 3,
            Mode::Audio => 4,
            Mode::Wave => 5,
            Mode::DualColor => 6,
        }
    }
}

} // verus!
