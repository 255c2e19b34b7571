//! A zero element for the integer types that freshly allocated buffers are
//! filled with.

use vstd::prelude::*;

verus! {

/// Types with a zero element.
pub trait Zero: Sized {
    /// The zero element.
    spec fn zero_spec() -> Self;

    /// The zero element.
    fn zero() -> (r: Self)
        ensures
            r == Self::zero_spec(),
    ;
}

impl Zero for u8 {
    open spec fn zero_spec() -> u8 {
        0
    }

    fn zero() -> u8 {
        0
    }
}

impl Zero for u16 {
    open spec fn zero_spec() -> u16 {
        0
    }

    fn zero() -> u16 {
        0
    }
}

impl Zero for u32 {
    open spec fn zero_spec() -> u32 {
        0
    }

    fn zero() -> u32 {
        0
    }
}

impl Zero for u64 {
    open spec fn zero_spec() -> u64 {
        0
    }

    fn zero() -> u64 {
        0
    }
}

impl Zero for usize {
    open spec fn zero_spec() -> usize {
        0
    }

    fn zero() -> usize {
        0
    }
}

impl Zero for i8 {
    open spec fn zero_spec() -> i8 {
        0
    }

    fn zero() -> i8 {
        0
    }
}

impl Zero for i16 {
    open spec fn zero_spec() -> i16 {
        0
    }

    fn zero() -> i16 {
        0
    }
}

impl Zero for i32 {
    open spec fn zero_spec() -> i32 {
        0
    }

    fn zero() -> i32 {
        0
    }
}

impl Zero for i64 {
    open spec fn zero_spec() -> i64 {
        0
    }

    fn zero() -> i64 {
        0
    }
}

impl Zero for isize {
    open spec fn zero_spec() -> isize {
        0
    }

    fn zero() -> isize {
        0
    }
}

} // verus!
