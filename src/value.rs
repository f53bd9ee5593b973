use vstd::prelude::*;

verus! {

/// The integer that a sign and a magnitude stand for.
pub open spec fn parts_value(neg: bool, mag: u128) -> int {
    if neg {
        -(mag as int)
    } else {
        mag as int
    }
}

/// An integer as a sign and a magnitude, which holds a value of every
/// integer type.
pub fn parts_of_i64(d: i64) -> (r: (bool, u128))
    ensures
        parts_value(r.0, r.1) == d as int,
{
    if d < 0 {
        (true, (-(d as i128)) as u128)
    } else {
        (false, d as u128)
    }
}

/// Whether two signs and magnitudes stand for the same integer.
pub fn same_value(a: (bool, u128), b: (bool, u128)) -> (r: bool)
    ensures
        r == (parts_value(a.0, a.1) == parts_value(b.0, b.1)),
{
    a.1 == b.1 && (a.0 == b.0 || a.1 == 0)
}

/// An integer type that can be the representation of an enumeration.
///
/// Values cross between types as a sign and a magnitude, which hold every
/// value of every integer type.
pub trait ReprValue: Copy + Sized {
    /// The mathematical value.
    spec fn int_value(self) -> int;

    /// Whether `i` is a value of this type.
    spec fn in_range(i: int) -> bool;

    /// The value as a sign and a magnitude.
    fn to_parts(self) -> (r: (bool, u128))
        ensures
            parts_value(r.0, r.1) == self.int_value(),
    ;

    /// Whether the integer that `neg` and `mag` stand for is a value of this
    /// type.
    fn fits(neg: bool, mag: u128) -> (r: bool)
        ensures
            r == Self::in_range(parts_value(neg, mag)),
    ;

    /// The value of this type that `neg` and `mag` stand for.
    fn from_parts(neg: bool, mag: u128) -> (r: Self)
        requires
            Self::in_range(parts_value(neg, mag)),
        ensures
            r.int_value() == parts_value(neg, mag),
    ;
}

impl ReprValue for u8 {
    open spec fn int_value(self) -> int {
        self as int
    }

    open spec fn in_range(i: int) -> bool {
        u8::MIN <= i <= u8::MAX
    }

    fn to_parts(self) -> (r: (bool, u128)) {
        (false, self as u128)
    }

    fn fits(neg: bool, mag: u128) -> (r: bool) {
        (!neg || mag == 0) && mag <= u8::MAX as u128
    }

    fn from_parts(neg: bool, mag: u128) -> (r: Self) {
        mag as u8
    }
}

impl ReprValue for u16 {
    open spec fn int_value(self) -> int {
        self as int
    }

    open spec fn in_range(i: int) -> bool {
        u16::MIN <= i <= u16::MAX
    }

    fn to_parts(self) -> (r: (bool, u128)) {
        (false, self as u128)
    }

    fn fits(neg: bool, mag: u128) -> (r: bool) {
        (!neg || mag == 0) && mag <= u16::MAX as u128
    }

    fn from_parts(neg: bool, mag: u128) -> (r: Self) {
        mag as u16
    }
}

impl ReprValue for u32 {
    open spec fn int_value(self) -> int {
        self as int
    }

    open spec fn in_range(i: int) -> bool {
        u32::MIN <= i <= u32::MAX
    }

    fn to_parts(self) -> (r: (bool, u128)) {
        (false, self as u128)
    }

    fn fits(neg: bool, mag: u128) -> (r: bool) {
        (!neg || mag == 0) && mag <= u32::MAX as u128
    }

    fn from_parts(neg: bool, mag: u128) -> (r: Self) {
        mag as u32
    }
}

impl ReprValue for u64 {
    open spec fn int_value(self) -> int {
        self as int
    }

    open spec fn in_range(i: int) -> bool {
        u64::MIN <= i <= u64::MAX
    }

    fn to_parts(self) -> (r: (bool, u128)) {
        (false, self as u128)
    }

    fn fits(neg: bool, mag: u128) -> (r: bool) {
        (!neg || mag == 0) && mag <= u64::MAX as u128
    }

    fn from_parts(neg: bool, mag: u128) -> (r: Self) {
        mag as u64
    }
}

impl ReprValue for u128 {
    open spec fn int_value(self) -> int {
        self as int
    }

    open spec fn in_range(i: int) -> bool {
        u128::MIN <= i <= u128::MAX
    }

    fn to_parts(self) -> (r: (bool, u128)) {
        (false, self as u128)
    }

    fn fits(neg: bool, mag: u128) -> (r: bool) {
        (!neg || mag == 0) && mag <= u128::MAX as u128
    }

    fn from_parts(neg: bool, mag: u128) -> (r: Self) {
        mag as u128
    }
}

impl ReprValue for usize {
    open spec fn int_value(self) -> int {
        self as int
    }

    open spec fn in_range(i: int) -> bool {
        usize::MIN <= i <= usize::MAX
    }

    fn to_parts(self) -> (r: (bool, u128)) {
        (false, self as u128)
    }

    fn fits(neg: bool, mag: u128) -> (r: bool) {
        (!neg || mag == 0) && mag <= usize::MAX as u128
    }

    fn from_parts(neg: bool, mag: u128) -> (r: Self) {
        mag as usize
    }
}

impl ReprValue for i8 {
    open spec fn int_value(self) -> int {
        self as int
    }

    open spec fn in_range(i: int) -> bool {
        i8::MIN <= i <= i8::MAX
    }

    fn to_parts(self) -> (r: (bool, u128)) {
        if self < 0 {
            (true, (-(self as i128)) as u128)
        } else {
            (false, self as u128)
        }
    }

    fn fits(neg: bool, mag: u128) -> (r: bool) {
        if neg {
            mag <= (-(i8::MIN as i128)) as u128
        } else {
            mag <= i8::MAX as u128
        }
    }

    fn from_parts(neg: bool, mag: u128) -> (r: Self) {
        if neg {
            (-(mag as i128)) as i8
        } else {
            mag as i8
        }
    }
}

impl ReprValue for i16 {
    open spec fn int_value(self) -> int {
        self as int
    }

    open spec fn in_range(i: int) -> bool {
        i16::MIN <= i <= i16::MAX
    }

    fn to_parts(self) -> (r: (bool, u128)) {
        if self < 0 {
            (true, (-(self as i128)) as u128)
        } else {
            (false, self as u128)
        }
    }

    fn fits(neg: bool, mag: u128) -> (r: bool) {
        if neg {
            mag <= (-(i16::MIN as i128)) as u128
        } else {
            mag <= i16::MAX as u128
        }
    }

    fn from_parts(neg: bool, mag: u128) -> (r: Self) {
        if neg {
            (-(mag as i128)) as i16
        } else {
            mag as i16
        }
    }
}

impl ReprValue for i32 {
    open spec fn int_value(self) -> int {
        self as int
    }

    open spec fn in_range(i: int) -> bool {
        i32::MIN <= i <= i32::MAX
    }

    fn to_parts(self) -> (r: (bool, u128)) {
        if self < 0 {
            (true, (-(self as i128)) as u128)
        } else {
            (false, self as u128)
        }
    }

    fn fits(neg: bool, mag: u128) -> (r: bool) {
        if neg {
            mag <= (-(i32::MIN as i128)) as u128
        } else {
            mag <= i32::MAX as u128
        }
    }

    fn from_parts(neg: bool, mag: u128) -> (r: Self) {
        if neg {
            (-(mag as i128)) as i32
        } else {
            mag as i32
        }
    }
}

impl ReprValue for i64 {
    open spec fn int_value(self) -> int {
        self as int
    }

    open spec fn in_range(i: int) -> bool {
        i64::MIN <= i <= i64::MAX
    }

    fn to_parts(self) -> (r: (bool, u128)) {
        if self < 0 {
            (true, (-(self as i128)) as u128)
        } else {
            (false, self as u128)
        }
    }

    fn fits(neg: bool, mag: u128) -> (r: bool) {
        if neg {
            mag <= (-(i64::MIN as i128)) as u128
        } else {
            mag <= i64::MAX as u128
        }
    }

    fn from_parts(neg: bool, mag: u128) -> (r: Self) {
        if neg {
            (-(mag as i128)) as i64
        } else {
            mag as i64
        }
    }
}

impl ReprValue for isize {
    open spec fn int_value(self) -> int {
        self as int
    }

    open spec fn in_range(i: int) -> bool {
        isize::MIN <= i <= isize::MAX
    }

    fn to_parts(self) -> (r: (bool, u128)) {
        if self < 0 {
            (true, (-(self as i128)) as u128)
        } else {
            (false, self as u128)
        }
    }

    fn fits(neg: bool, mag: u128) -> (r: bool) {
        if neg {
            mag <= (-(isize::MIN as i128)) as u128
        } else {
            mag <= isize::MAX as u128
        }
    }

    fn from_parts(neg: bool, mag: u128) -> (r: Self) {
        if neg {
            (-(mag as i128)) as isize
        } else {
            mag as isize
        }
    }
}

impl ReprValue for i128 {
    open spec fn int_value(self) -> int {
        self as int
    }

    open spec fn in_range(i: int) -> bool {
        i128::MIN <= i <= i128::MAX
    }

    fn to_parts(self) -> (r: (bool, u128)) {
        if self == i128::MIN {
            (true, i128::MAX as u128 + 1)
        } else if self < 0 {
            (true, (-self) as u128)
        } else {
            (false, self as u128)
        }
    }

    fn fits(neg: bool, mag: u128) -> (r: bool) {
        if neg {
            mag <= i128::MAX as u128 + 1
        } else {
            mag <= i128::MAX as u128
        }
    }

    fn from_parts(neg: bool, mag: u128) -> (r: Self) {
        if !neg {
            mag as i128
        } else if mag == i128::MAX as u128 + 1 {
            i128::MIN
        } else {
            -(mag as i128)
        }
    }
}

} // verus!
