//! Small unsigned integers: 2, 3 and 6 bits wide.
use vstd::prelude::*;

verus! {

/// An unsigned 2-bit integer.
#[derive(Debug, Clone, Copy, PartialEq, Eq, Structural)]
pub struct U2(u8);

impl U2 {
    /// One more than the largest value.
    pub const MAX: u8 = 4;

    /// The value held.
    pub closed spec fn value(&self) -> u8 {
        self.0
    }

    #[verifier::type_invariant]
    spec fn inv(&self) -> bool {
        self.0 < 4
    }

    /// The value, if it fits in 2 bits.
    pub fn new(value: u8) -> (r: Option<U2>)
        ensures
            value < 4 ==> (r matches Some(x) && x.value() == value),
            value >= 4 ==> r is None,
    {
        if value < 4 {
            Some(U2(value))
        } else {
            None
        }
    }

    /// The value held.
    pub fn get(&self) -> (r: u8)
        ensures
            r == self.value(),
            r < 4,
    {
        proof {
            use_type_invariant(self);
        }
        self.0
    }
}

/// An unsigned 3-bit integer.
#[derive(Debug, Clone, Copy, PartialEq, Eq, Structural)]
pub struct U3(u8);

impl U3 {
    /// One more than the largest value.
    pub const MAX: u8 = 8;

    /// The value held.
    pub closed spec fn value(&self) -> u8 {
        self.0
    }

    #[verifier::type_invariant]
    spec fn inv(&self) -> bool {
        self.0 < 8
    }

    /// The value, if it fits in 3 bits.
    pub fn new(value: u8) -> (r: Option<U3>)
        ensures
            value < 8 ==> (r matches Some(x) && x.value() == value),
            value >= 8 ==> r is None,
    {
        if value < 8 {
            Some(U3(value))
        } else {
            None
        }
    }

    /// The value held.
    pub fn get(&self) -> (r: u8)
        ensures
            r == self.value(),
            r < 8,
    {
        proof {
            use_type_invariant(self);
        }
        self.0
    }
}

/// An unsigned 6-bit integer.
#[derive(Debug, Clone, Copy, PartialEq, Eq, Structural)]
pub struct U6(u8);

impl U6 {
    /// One more than the largest value.
    pub const MAX: u8 = 64;

    /// The value held.
    pub closed spec fn value(&self) -> u8 {
        self.0
    }

    #[verifier::type_invariant]
    spec fn inv(&self) -> bool {
        self.0 < 64
    }

    /// The value, if it fits in 6 bits.
    pub fn new(value: u8) -> (r: Option<U6>)
        ensures
            value < 64 ==> (r matches Some(x) && x.value() == value),
            value >= 64 ==> r is None,
    {
        if value < 64 {
            Some(U6(value))
        } else {
            None
        }
    }

    /// The value held.
    pub fn get(&self) -> (r: u8)
        ensures
            r == self.value(),
            r < 64,
    {
        proof {
            use_type_invariant(self);
        }
        self.0
    }
}

} // verus!
