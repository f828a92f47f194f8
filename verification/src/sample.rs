use vstd::prelude::*;

verus! {

use crate::buttons::Attributes;
use crate::buttons::Buttons;
use crate::buttons::L;
use crate::buttons::R;
use crate::style::ControllerStyle;

/// The largest signed axis magnitude a stick reports, and the largest analog
/// trigger magnitude.  Normalized values are raw magnitudes over this.
pub const AXIS_MAX: u32 = 0x7FFF;

/// One stick position in raw signed axis units.  A magnitude of `AXIS_MAX`
/// stands for a fully deflected axis; hosts that need a normalized float
/// divide each coordinate by `AXIS_MAX`.
#[derive(Clone, Copy, Debug, PartialEq, Eq, Structural)]
pub struct StickState {
    pub x: i32,
    pub y: i32,
}

impl Default for StickState {
    /// The default stick position is centered.
    fn default() -> (r: StickState)
        ensures
            r.x == 0 && r.y == 0,
    {
        StickState { x: 0, y: 0 }
    }
}

/// The common raw sample shape: what every standard layout reports.
#[derive(Clone, Copy, Debug, PartialEq, Eq, Structural)]
pub struct CommonSample {
    pub sampling_number: u64,
    pub buttons: Buttons,
    pub stick_l_x: i32,
    pub stick_l_y: i32,
    pub stick_r_x: i32,
    pub stick_r_y: i32,
    pub attributes: Attributes,
}

/// The dual-trigger raw sample shape: the common fields plus two analog
/// trigger magnitudes in `0..=AXIS_MAX`.
#[derive(Clone, Copy, Debug, PartialEq, Eq, Structural)]
pub struct GcSample {
    pub sampling_number: u64,
    pub buttons: Buttons,
    pub stick_l_x: i32,
    pub stick_l_y: i32,
    pub stick_r_x: i32,
    pub stick_r_y: i32,
    pub attributes: Attributes,
    pub left_trigger: u32,
    pub right_trigger: u32,
}

/// What one reconciliation pass consumes: the raw sample in the shape the
/// controller's style selects, or nothing for an unsupported style.
#[derive(Clone, Copy, Debug, PartialEq, Eq, Structural)]
pub enum StyleSample {
    StandardLayout(CommonSample),
    GamecubeLayout(GcSample),
    Unsupported,
}

impl StyleSample {
    /// The sample shape a style selects: standard layouts carry the common
    /// shape, the analog-trigger layout carries the dual-trigger shape, and
    /// unsupported styles carry no sample.
    pub open spec fn layout_matches(self, style: ControllerStyle) -> bool {
        match self {
            StyleSample::StandardLayout(_) => style.is_standard_spec(),
            StyleSample::GamecubeLayout(_) => style.supports_analog_trigger_spec(),
            StyleSample::Unsupported => !style.is_supported_spec(),
        }
    }

    /// The held-button bits the sample reports.
    pub open spec fn held_bits(self) -> u64 {
        match self {
            StyleSample::StandardLayout(c) => c.buttons.bits,
            StyleSample::GamecubeLayout(g) => g.buttons.bits,
            StyleSample::Unsupported => 0,
        }
    }

    /// The attribute flags the sample reports.
    pub open spec fn attributes_of(self) -> Attributes {
        match self {
            StyleSample::StandardLayout(c) => c.attributes,
            StyleSample::GamecubeLayout(g) => g.attributes,
            StyleSample::Unsupported => (Attributes { bits: 0 }),
        }
    }

    /// The left stick position the sample reports, in raw axis units.
    pub open spec fn left_stick_of(self) -> StickState {
        match self {
            StyleSample::StandardLayout(c) => (StickState { x: c.stick_l_x, y: c.stick_l_y }),
            StyleSample::GamecubeLayout(g) => (StickState { x: g.stick_l_x, y: g.stick_l_y }),
            StyleSample::Unsupported => (StickState { x: 0, y: 0 }),
        }
    }

    /// The right stick position the sample reports, in raw axis units.
    pub open spec fn right_stick_of(self) -> StickState {
        match self {
            StyleSample::StandardLayout(c) => (StickState { x: c.stick_r_x, y: c.stick_r_y }),
            StyleSample::GamecubeLayout(g) => (StickState { x: g.stick_r_x, y: g.stick_r_y }),
            StyleSample::Unsupported => (StickState { x: 0, y: 0 }),
        }
    }

    /// The raw left trigger magnitude the reconciled state takes from this
    /// sample.  Standard layouts have no analog trigger hardware, so the
    /// value is a digital stand-in: full scale while the L button is held,
    /// zero otherwise.  The dual-trigger shape passes its magnitude through
    /// unclamped.
    pub open spec fn trigger_l_of(self) -> u32 {
        match self {
            StyleSample::StandardLayout(c) => if c.buttons.bits & L != 0 {
                AXIS_MAX
            } else {
                0u32
            },
            StyleSample::GamecubeLayout(g) => g.left_trigger,
            StyleSample::Unsupported => 0u32,
        }
    }

    /// The raw right trigger magnitude, as `trigger_l_of` but over the R
    /// button and the right trigger.
    pub open spec fn trigger_r_of(self) -> u32 {
        match self {
            StyleSample::StandardLayout(c) => if c.buttons.bits & R != 0 {
                AXIS_MAX
            } else {
                0u32
            },
            StyleSample::GamecubeLayout(g) => g.right_trigger,
            StyleSample::Unsupported => 0u32,
        }
    }
}

} // verus!
