use vstd::prelude::*;

verus! {

// Bit masks of the logical buttons.  The positions are part of the wire
// layout shared with the backend and are never renumbered.
pub const A: u64 = 0x1;
pub const B: u64 = 0x2;
pub const X: u64 = 0x4;
pub const Y: u64 = 0x8;
pub const STICK_L: u64 = 0x10;
pub const STICK_R: u64 = 0x20;
pub const L: u64 = 0x40;
pub const R: u64 = 0x80;
pub const ZL: u64 = 0x100;
pub const ZR: u64 = 0x200;
pub const PLUS: u64 = 0x400;
pub const MINUS: u64 = 0x800;
pub const LEFT: u64 = 0x1000;
pub const UP: u64 = 0x2000;
pub const RIGHT: u64 = 0x4000;
pub const DOWN: u64 = 0x8000;
pub const STICK_L_LEFT: u64 = 0x1_0000;
pub const STICK_L_UP: u64 = 0x2_0000;
pub const STICK_L_RIGHT: u64 = 0x4_0000;
pub const STICK_L_DOWN: u64 = 0x8_0000;
pub const STICK_R_LEFT: u64 = 0x10_0000;
pub const STICK_R_UP: u64 = 0x20_0000;
pub const STICK_R_RIGHT: u64 = 0x40_0000;
pub const STICK_R_DOWN: u64 = 0x80_0000;
pub const LEFT_SL: u64 = 0x100_0000;
pub const LEFT_SR: u64 = 0x200_0000;
pub const RIGHT_SL: u64 = 0x400_0000;
pub const RIGHT_SR: u64 = 0x800_0000;
pub const PALMA: u64 = 0x1000_0000;
pub const VERIFICATION: u64 = 0x2000_0000;
pub const HANDHELD_LEFT_B: u64 = 0x4000_0000;
pub const LAGON_C_LEFT: u64 = 0x8000_0000;
pub const LAGON_C_UP: u64 = 0x1_0000_0000;
pub const LAGON_C_RIGHT: u64 = 0x2_0000_0000;
pub const LAGON_C_DOWN: u64 = 0x4_0000_0000;

/// Union of every defined button bit: the 35 positions above.
pub const ALL_BUTTONS: u64 = 0x7_FFFF_FFFF;

/// How many button bit positions are defined (positions `0..NUM_BUTTONS`).
pub const NUM_BUTTONS: u64 = 35;

/// True when bit `i` of `v` is set; the per-bit reading of a button mask.
pub open spec fn bit_set(v: u64, i: u64) -> bool {
    v & (1u64 << i) != 0
}

/// True when `i` is the position of a defined logical button.
pub open spec fn valid_button(i: int) -> bool {
    0 <= i < NUM_BUTTONS
}

/// A dense set of logical buttons, one bit per button.
#[derive(Clone, Copy, Debug, PartialEq, Eq, Structural)]
pub struct Buttons {
    pub bits: u64,
}

impl Buttons {
    /// The empty button set.
    pub fn empty() -> (r: Buttons)
        ensures
            r.bits == 0,
    {
        Buttons { bits: 0 }
    }

    /// Builds a set from raw bits; rejects bits outside the defined buttons.
    pub fn from_bits(bits: u64) -> (r: Option<Buttons>)
        ensures
            r == (if bits & ALL_BUTTONS == bits {
                Some(Buttons { bits })
            } else {
                None::<Buttons>
            }),
    {
        if bits & ALL_BUTTONS == bits {
            Some(Buttons { bits })
        } else {
            None
        }
    }

    /// Set union.
    pub fn union(self, other: Buttons) -> (r: Buttons)
        ensures
            r.bits == (self.bits | other.bits),
    {
        Buttons { bits: self.bits | other.bits }
    }

    /// Set intersection.
    pub fn intersect(self, other: Buttons) -> (r: Buttons)
        ensures
            r.bits == (self.bits & other.bits),
    {
        Buttons { bits: self.bits & other.bits }
    }

    /// Set difference: the buttons of `self` not in `other`.
    pub fn remove(self, other: Buttons) -> (r: Buttons)
        ensures
            r.bits == (self.bits & !other.bits),
    {
        Buttons { bits: self.bits & !other.bits }
    }

    /// True when the two sets share at least one button.
    pub fn intersects(&self, other: Buttons) -> (r: bool)
        ensures
            r == ((self.bits & other.bits) != 0),
    {
        self.bits & other.bits != 0
    }

    /// True when every button of `other` is in `self`.
    pub fn contains(&self, other: Buttons) -> (r: bool)
        ensures
            r == ((self.bits & other.bits) == other.bits),
    {
        self.bits & other.bits == other.bits
    }

    /// True when no button is in the set.
    pub fn is_empty(&self) -> (r: bool)
        ensures
            r == (self.bits == 0),
    {
        self.bits == 0
    }

    /// True when any upward direction is active: the physical up button or
    /// either stick pushed up.
    pub fn is_up(&self) -> (r: bool)
        ensures
            r == ((self.bits & (UP | STICK_L_UP | STICK_R_UP)) != 0),
    {
        self.bits & (UP | STICK_L_UP | STICK_R_UP) != 0
    }

    /// True when any downward direction is active.
    pub fn is_down(&self) -> (r: bool)
        ensures
            r == ((self.bits & (DOWN | STICK_L_DOWN | STICK_R_DOWN)) != 0),
    {
        self.bits & (DOWN | STICK_L_DOWN | STICK_R_DOWN) != 0
    }

    /// True when any leftward direction is active.
    pub fn is_left(&self) -> (r: bool)
        ensures
            r == ((self.bits & (LEFT | STICK_L_LEFT | STICK_R_LEFT)) != 0),
    {
        self.bits & (LEFT | STICK_L_LEFT | STICK_R_LEFT) != 0
    }

    /// True when any rightward direction is active.
    pub fn is_right(&self) -> (r: bool)
        ensures
            r == ((self.bits & (RIGHT | STICK_L_RIGHT | STICK_R_RIGHT)) != 0),
    {
        self.bits & (RIGHT | STICK_L_RIGHT | STICK_R_RIGHT) != 0
    }

    /// True when either side lever (SL) is active.
    pub fn is_sl(&self) -> (r: bool)
        ensures
            r == ((self.bits & (LEFT_SL | RIGHT_SL)) != 0),
    {
        self.bits & (LEFT_SL | RIGHT_SL) != 0
    }

    /// True when either side lever (SR) is active.
    pub fn is_sr(&self) -> (r: bool)
        ensures
            r == ((self.bits & (LEFT_SR | RIGHT_SR)) != 0),
    {
        self.bits & (LEFT_SR | RIGHT_SR) != 0
    }

    /// True when either rear trigger button (ZL or ZR) is active.
    pub fn is_z(&self) -> (r: bool)
        ensures
            r == ((self.bits & (ZL | ZR)) != 0),
    {
        self.bits & (ZL | ZR) != 0
    }

    /// The composite "any up" set: physical up and both stick-up buttons.
    pub fn up() -> (r: Buttons)
        ensures
            r.bits == (UP | STICK_L_UP | STICK_R_UP),
    {
        Buttons { bits: UP | STICK_L_UP | STICK_R_UP }
    }

    /// The composite "any right" set.
    pub fn right() -> (r: Buttons)
        ensures
            r.bits == (RIGHT | STICK_L_RIGHT | STICK_R_RIGHT),
    {
        Buttons { bits: RIGHT | STICK_L_RIGHT | STICK_R_RIGHT }
    }

    /// The composite "any down" set.
    pub fn down() -> (r: Buttons)
        ensures
            r.bits == (DOWN | STICK_L_DOWN | STICK_R_DOWN),
    {
        Buttons { bits: DOWN | STICK_L_DOWN | STICK_R_DOWN }
    }

    /// The composite "any left" set.
    pub fn left() -> (r: Buttons)
        ensures
            r.bits == (LEFT | STICK_L_LEFT | STICK_R_LEFT),
    {
        Buttons { bits: LEFT | STICK_L_LEFT | STICK_R_LEFT }
    }

    /// The composite rear-trigger set: ZL and ZR.
    pub fn z() -> (r: Buttons)
        ensures
            r.bits == (ZL | ZR),
    {
        Buttons { bits: ZL | ZR }
    }
}

impl Default for Buttons {
    /// The default button set is empty.
    fn default() -> (r: Buttons)
        ensures
            r.bits == 0,
    {
        Buttons { bits: 0 }
    }
}

/// The pressed and released sets computed from one transition never overlap:
/// a button newly active now cannot also be newly inactive now.
pub proof fn lemma_edges_disjoint(prev: Buttons, cur: Buttons)
    ensures
        ((cur.bits & !prev.bits) & (prev.bits & !cur.bits)) == 0,
{
    let p = prev.bits;
    let c = cur.bits;
    assert(((c & !p) & (p & !c)) == 0u64) by (bit_vector);
}

// Bit masks of the connection/wiring attribute flags reported with each
// sample.
pub const IS_CONNECTED: u32 = 0x1;
pub const IS_WIRED: u32 = 0x2;
pub const IS_LEFT_CONNECTED: u32 = 0x4;
pub const IS_LEFT_WIRED: u32 = 0x8;
pub const IS_RIGHT_CONNECTED: u32 = 0x10;
pub const IS_RIGHT_WIRED: u32 = 0x20;

/// Union of every defined attribute bit.
pub const ALL_ATTRIBUTES: u32 = 0x3F;

/// A set of connection/wiring facts about the physical link, supplied by the
/// backend with each sample.
#[derive(Clone, Copy, Debug, PartialEq, Eq, Structural)]
pub struct Attributes {
    pub bits: u32,
}

impl Attributes {
    /// The empty attribute set.
    pub fn empty() -> (r: Attributes)
        ensures
            r.bits == 0,
    {
        Attributes { bits: 0 }
    }

    /// True when the two sets share at least one flag.
    pub fn intersects(&self, other: Attributes) -> (r: bool)
        ensures
            r == ((self.bits & other.bits) != 0),
    {
        self.bits & other.bits != 0
    }

    /// True when every flag of `other` is in `self`.
    pub fn contains(&self, other: Attributes) -> (r: bool)
        ensures
            r == ((self.bits & other.bits) == other.bits),
    {
        self.bits & other.bits == other.bits
    }
}

impl Default for Attributes {
    /// The default attribute set is empty.
    fn default() -> (r: Attributes)
        ensures
            r.bits == 0,
    {
        Attributes { bits: 0 }
    }
}

} // verus!
