use vstd::prelude::*;

verus! {

/// A set of gestures, stored as the sensor's 16-bit interrupt mask.
///
/// Bit `i` (for `i` in `0..=10`) stands for the `i`-th of `Up`, `Down`,
/// `Left`, `Right`, `Forward`, `Backward`, `Clockwise`, `CounterClockwise`,
/// `Wave`, `Hover`, `Unknown`; bit 14 is continuous clockwise rotation and
/// bit 15 continuous counter-clockwise rotation.
#[derive(Clone, Copy, Debug, PartialEq, Eq, Hash, Structural)]
pub struct Gesture {
    bits: u16,
}

impl View for Gesture {
    type V = u16;

    closed spec fn view(&self) -> u16 {
        self.bits
    }
}

impl Gesture {
    /// The raw mask.
    pub fn bits(&self) -> (b: u16)
        ensures
            b == self@,
    {
        self.bits
    }

    /// The set whose mask is exactly `bits`.
    pub closed spec fn spec_from_bits(bits: u16) -> Gesture {
        Gesture { bits }
    }

    /// The set whose mask is exactly `bits` (every bit is kept).
    #[verifier::when_used_as_spec(spec_from_bits)]
    pub fn from_bits(bits: u16) -> (g: Gesture)
        ensures
            g == Gesture::spec_from_bits(bits),
            g@ == bits,
    {
        Gesture { bits }
    }

    /// The union of two sets.
    pub fn or(self, other: Gesture) -> (g: Gesture)
        ensures
            g@ == self@ | other@,
    {
        Gesture { bits: self.bits | other.bits }
    }

    /// Whether every gesture of `other` is in `self`.
    pub fn contains(&self, other: Gesture) -> (b: bool)
        ensures
            b == (self@ & other@ == other@),
    {
        self.bits & other.bits == other.bits
    }

    /// Whether `self` and `other` share a gesture.
    pub fn intersects(&self, other: Gesture) -> (b: bool)
        ensures
            b == (self@ & other@ != 0),
    {
        self.bits & other.bits != 0
    }

    /// The hand moves up.
    pub fn up() -> (g: Gesture)
        ensures
            g@ == 0x0001,
    {
        Gesture { bits: 0x0001 }
    }

    /// The hand moves down.
    pub fn down() -> (g: Gesture)
        ensures
            g@ == 0x0002,
    {
        Gesture { bits: 0x0002 }
    }

    /// The hand moves left.
    pub fn left() -> (g: Gesture)
        ensures
            g@ == 0x0004,
    {
        Gesture { bits: 0x0004 }
    }

    /// The hand moves right.
    pub fn right() -> (g: Gesture)
        ensures
            g@ == 0x0008,
    {
        Gesture { bits: 0x0008 }
    }

    /// The hand moves towards the sensor.
    pub fn forward() -> (g: Gesture)
        ensures
            g@ == 0x0010,
    {
        Gesture { bits: 0x0010 }
    }

    /// The hand moves away from the sensor.
    pub fn backward() -> (g: Gesture)
        ensures
            g@ == 0x0020,
    {
        Gesture { bits: 0x0020 }
    }

    /// A clockwise turn.
    pub fn clockwise() -> (g: Gesture)
        ensures
            g@ == 0x0040,
    {
        Gesture { bits: 0x0040 }
    }

    /// A counter-clockwise turn.
    pub fn counter_clockwise() -> (g: Gesture)
        ensures
            g@ == 0x0080,
    {
        Gesture { bits: 0x0080 }
    }

    /// A wave.
    pub fn wave() -> (g: Gesture)
        ensures
            g@ == 0x0100,
    {
        Gesture { bits: 0x0100 }
    }

    /// The hand hovers.
    pub fn hover() -> (g: Gesture)
        ensures
            g@ == 0x0200,
    {
        Gesture { bits: 0x0200 }
    }

    /// A movement the sensor could not classify.
    pub fn unknown() -> (g: Gesture)
        ensures
            g@ == 0x0400,
    {
        Gesture { bits: 0x0400 }
    }

    /// Continuous clockwise rotation.
    pub fn clockwise_continuous() -> (g: Gesture)
        ensures
            g@ == 0x4000,
    {
        Gesture { bits: 0x4000 }
    }

    /// Continuous counter-clockwise rotation.
    pub fn counter_clockwise_continuous() -> (g: Gesture)
        ensures
            g@ == 0x8000,
    {
        Gesture { bits: 0x8000 }
    }
}

/// The set built from a mask has exactly that mask, and two sets with the
/// same mask are the same set.
pub proof fn lemma_from_bits_mask(bits: u16, g: Gesture)
    ensures
        Gesture::spec_from_bits(bits)@ == bits,
        g@ == bits ==> g == Gesture::spec_from_bits(bits),
{
}

/// The union of two sets contains each of them.
pub proof fn lemma_union_contains(a: Gesture, b: Gesture)
    ensures
        (a@ | b@) & a@ == a@,
        (a@ | b@) & b@ == b@,
{
    let x = a@;
    let y = b@;
    assert((x | y) & x == x) by (bit_vector);
    assert((x | y) & y == y) by (bit_vector);
}

} // verus!
