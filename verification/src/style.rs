use vstd::prelude::*;

verus! {

/// The layout classification of a controller, as reported by the backend's
/// style query.  The style decides which raw sample shape applies and whether
/// the reconciler supports the controller at all.
#[derive(Clone, Copy, Debug, PartialEq, Eq, Structural)]
pub enum ControllerStyle {
    Invalid,
    ProController,
    Handheld,
    DualJoycon,
    LeftJoycon,
    RightJoycon,
    GamecubeController,
    Pokeball,
    NES,
    HandheldNES,
    SNES,
    Nintendo64,
    SegaGenesis,
    GenericExternal,
    Generic,
}

impl ControllerStyle {
    /// The styles that expose the full analog control surface.
    pub open spec fn is_full_control_spec(self) -> bool {
        ||| self == ControllerStyle::ProController
        ||| self == ControllerStyle::Handheld
        ||| self == ControllerStyle::DualJoycon
    }

    /// The styles whose raw samples use the common (trigger-less) shape.
    pub open spec fn is_standard_spec(self) -> bool {
        ||| self.is_full_control_spec()
        ||| self == ControllerStyle::LeftJoycon
        ||| self == ControllerStyle::RightJoycon
    }

    /// The one style with true analog triggers.
    pub open spec fn supports_analog_trigger_spec(self) -> bool {
        self == ControllerStyle::GamecubeController
    }

    /// The styles the reconciler accepts: the standard layouts and the
    /// analog-trigger layout.  Every other style short-circuits construction.
    pub open spec fn is_supported_spec(self) -> bool {
        self.is_standard_spec() || self.supports_analog_trigger_spec()
    }

    /// True for the styles with full analog control.
    pub fn is_full_control(&self) -> (r: bool)
        ensures
            r == self.is_full_control_spec(),
    {
        match self {
            ControllerStyle::ProController => true,
            ControllerStyle::Handheld => true,
            ControllerStyle::DualJoycon => true,
            _ => false,
        }
    }

    /// True for the styles sampled through the common (trigger-less) shape.
    pub fn is_standard(&self) -> (r: bool)
        ensures
            r == self.is_standard_spec(),
    {
        match self {
            ControllerStyle::LeftJoycon => true,
            ControllerStyle::RightJoycon => true,
            _ => self.is_full_control(),
        }
    }

    /// True for the one style with analog triggers.
    pub fn supports_analog_trigger(&self) -> (r: bool)
        ensures
            r == self.supports_analog_trigger_spec(),
    {
        match self {
            ControllerStyle::GamecubeController => true,
            _ => false,
        }
    }

    /// True for the styles the reconciler accepts.
    pub fn is_supported(&self) -> (r: bool)
        ensures
            r == self.is_supported_spec(),
    {
        self.is_standard() || self.supports_analog_trigger()
    }
}

} // verus!
