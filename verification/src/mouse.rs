//! Pointer button bitfield over the three buttons, with the same
//! mask-on-construction invariant as the modifier bitfield.

use vstd::prelude::*;

verus! {

pub const NONE: u8 = 0;

pub const LEFT: u8 = 1;

pub const MIDDLE: u8 = 2;

pub const RIGHT: u8 = 4;

pub const MASK: u8 = 7;

/// Which of the three pointer buttons are held. Construction masks out
/// undefined bits, so no undefined bit ever survives.
#[derive(Copy, Clone, PartialEq, Eq, Structural, Debug)]
pub struct Buttons {
    fields: u8,
}

impl Buttons {
    /// The raw bits of the field, for specification purposes.
    pub closed spec fn bits(&self) -> u8 {
        self.fields
    }

    /// What construction from an arbitrary byte yields.
    pub closed spec fn spec_new(fields: u8) -> Buttons {
        Buttons { fields: fields & MASK }
    }

    pub fn new(fields: u8) -> (b: Buttons)
        ensures
            b == Buttons::spec_new(fields),
            b.bits() == fields & MASK,
    {
        Buttons { fields: fields & MASK }
    }

    pub fn none() -> (b: Buttons)
        ensures
            b.bits() == NONE,
    {
        Buttons { fields: NONE }
    }

    pub fn left() -> (b: Buttons)
        ensures
            b.bits() == LEFT,
    {
        Buttons { fields: LEFT }
    }

    pub fn middle() -> (b: Buttons)
        ensures
            b.bits() == MIDDLE,
    {
        Buttons { fields: MIDDLE }
    }

    pub fn right() -> (b: Buttons)
        ensures
            b.bits() == RIGHT,
    {
        Buttons { fields: RIGHT }
    }

    pub fn fields(&self) -> (r: u8)
        ensures
            r == self.bits(),
    {
        self.fields
    }

    pub fn is_none(&self) -> (r: bool)
        ensures
            r == (self.bits() == NONE),
    {
        self.fields == NONE
    }

    pub fn is_left(&self) -> (r: bool)
        ensures
            r == (self.bits() == LEFT),
    {
        self.fields == LEFT
    }

    pub fn has_left(&self) -> (r: bool)
        ensures
            r == ((self.bits() & LEFT) != 0),
    {
        (self.fields & LEFT) != 0
    }

    pub fn is_middle(&self) -> (r: bool)
        ensures
            r == (self.bits() == MIDDLE),
    {
        self.fields == MIDDLE
    }

    pub fn has_middle(&self) -> (r: bool)
        ensures
            r == ((self.bits() & MIDDLE) != 0),
    {
        (self.fields & MIDDLE) != 0
    }

    pub fn is_right(&self) -> (r: bool)
        ensures
            r == (self.bits() == RIGHT),
    {
        self.fields == RIGHT
    }

    pub fn has_right(&self) -> (r: bool)
        ensures
            r == ((self.bits() & RIGHT) != 0),
    {
        (self.fields & RIGHT) != 0
    }

    pub fn has_all(&self, fields: u8) -> (r: bool)
        ensures
            r == ((self.bits() & fields) == fields),
    {
        (self.fields & fields) == fields
    }

    pub fn has_any(&self, fields: u8) -> (r: bool)
        ensures
            r == ((self.bits() & fields) != 0),
    {
        (self.fields & fields) != 0
    }

    pub fn has_none(&self, fields: u8) -> (r: bool)
        ensures
            r == ((self.bits() & fields) == 0),
    {
        (self.fields & fields) == 0
    }
}

impl Default for Buttons {
    fn default() -> (b: Buttons)
        ensures
            b.bits() == 0,
    {
        Buttons { fields: 0 }
    }
}

impl vstd::std_specs::ops::BitAndSpecImpl for Buttons {
    open spec fn obeys_bitand_spec() -> bool {
        true
    }

    open spec fn bitand_req(self, rhs: Buttons) -> bool {
        true
    }

    closed spec fn bitand_spec(self, rhs: Buttons) -> Buttons {
        Buttons { fields: self.fields & rhs.fields }
    }
}

impl core::ops::BitAnd for Buttons {
    type Output = Buttons;

    fn bitand(self, rhs: Buttons) -> (r: Buttons)
        ensures
            r.bits() == self.bits() & rhs.bits(),
    {
        Buttons { fields: self.fields & rhs.fields }
    }
}

impl vstd::std_specs::ops::BitOrSpecImpl for Buttons {
    open spec fn obeys_bitor_spec() -> bool {
        true
    }

    open spec fn bitor_req(self, rhs: Buttons) -> bool {
        true
    }

    closed spec fn bitor_spec(self, rhs: Buttons) -> Buttons {
        Buttons { fields: self.fields | rhs.fields }
    }
}

impl core::ops::BitOr for Buttons {
    type Output = Buttons;

    fn bitor(self, rhs: Buttons) -> (r: Buttons)
        ensures
            r.bits() == self.bits() | rhs.bits(),
    {
        Buttons { fields: self.fields | rhs.fields }
    }
}

impl vstd::std_specs::ops::BitXorSpecImpl for Buttons {
    open spec fn obeys_bitxor_spec() -> bool {
        true
    }

    open spec fn bitxor_req(self, rhs: Buttons) -> bool {
        true
    }

    closed spec fn bitxor_spec(self, rhs: Buttons) -> Buttons {
        Buttons { fields: self.fields ^ rhs.fields }
    }
}

impl core::ops::BitXor for Buttons {
    type Output = Buttons;

    fn bitxor(self, rhs: Buttons) -> (r: Buttons)
        ensures
            r.bits() == self.bits() ^ rhs.bits(),
    {
        Buttons { fields: self.fields ^ rhs.fields }
    }
}

/// Construction masks idempotently: a `Buttons` built from a byte equals
/// one built from that byte already masked to the defined bits.
pub proof fn lemma_buttons_new_idempotent(b: u8)
    ensures
        Buttons::spec_new(b) == Buttons::spec_new(b & MASK),
{
    assert((b & 7) & 7 == b & 7) by (bit_vector);
}

} // verus!
