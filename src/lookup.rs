use vstd::prelude::*;

use crate::error::TryFromReprError;
use crate::value::{parts_of_i64, parts_value, same_value, ReprValue};

verus! {

/// Whether `i` is the first position of the table whose discriminant is `v`.
pub open spec fn is_first_match(discs: Seq<i64>, v: int, i: int) -> bool {
    &&& 0 <= i < discs.len()
    &&& discs[i] as int == v
    &&& forall|j: int| 0 <= j < i ==> discs[j] as int != v
}

/// Whether some discriminant of the table is `v`.
pub open spec fn has_match(discs: Seq<i64>, v: int) -> bool {
    exists|i: int| 0 <= i < discs.len() && discs[i] as int == v
}

/// Whether every discriminant of the table is a value of the representation `T`.
pub open spec fn all_fit<T: ReprValue>(discs: Seq<i64>) -> bool {
    forall|i: int| 0 <= i < discs.len() ==> T::in_range(discs[i] as int)
}

/// Whether no discriminant occurs twice in the table.
pub open spec fn distinct(discs: Seq<i64>) -> bool {
    forall|i: int, j: int| 0 <= i < discs.len() && 0 <= j < discs.len() && i != j ==> discs[i] != discs[j]
}

/// Checks that every discriminant of the table fits the representation `T`.
pub fn discriminants_fit<T: ReprValue>(discs: &Vec<i64>) -> (r: bool)
    ensures
        r == all_fit::<T>(discs@),
{
    let mut i: usize = 0;
    while i < discs.len()
        invariant
            i <= discs.len(),
            all_fit::<T>(discs@.take(i as int)),
        decreases discs.len() - i,
    {
        let (neg, mag) = parts_of_i64(discs[i]);
        if !T::fits(neg, mag) {
            assert(!T::in_range(discs@[i as int] as int));
            return false;
        }
        assert(discs@.take(i + 1) =~= discs@.take(i as int).push(discs@[i as int]));
        i = i + 1;
    }
    assert(discs@.take(i as int) =~= discs@);
    true
}

/// The variant whose discriminant equals `value`: the position of the first
/// such entry of the table, scanned in declaration order, or the
/// `UnknownValue` error carrying `value` when there is none.
pub fn find_variant<T: ReprValue>(discs: &Vec<i64>, value: T) -> (r: Result<usize, TryFromReprError<T>>)
    requires
        all_fit::<T>(discs@),
    ensures
        r is Ok <==> has_match(discs@, value.int_value()),
        r matches Ok(i) ==> is_first_match(discs@, value.int_value(), i as int),
        r matches Err(e) ==> e == TryFromReprError::UnknownValue(value),
{
    let parts = value.to_parts();
    let mut i: usize = 0;
    while i < discs.len()
        invariant
            i <= discs.len(),
            parts_value(parts.0, parts.1) == value.int_value(),
            all_fit::<T>(discs@),
            forall|j: int| 0 <= j < i ==> discs@[j] as int != value.int_value(),
        decreases discs.len() - i,
    {
        let (neg, mag) = parts_of_i64(discs[i]);
        let disc: T = T::from_parts(neg, mag);
        if same_value(disc.to_parts(), parts) {
            return Ok(i);
        }
        i = i + 1;
    }
    Err(TryFromReprError::UnknownValue(value))
}

/// The representation of the variant at `index`: its discriminant as a `T`.
pub fn discriminant_value<T: ReprValue>(discs: &Vec<i64>, index: usize) -> (r: T)
    requires
        index < discs.len(),
        T::in_range(discs@[index as int] as int),
    ensures
        r.int_value() == discs@[index as int] as int,
{
    let (neg, mag) = parts_of_i64(discs[index]);
    T::from_parts(neg, mag)
}

/// Converts a representation value into another integer type: `None` when
/// the value is not one of the target type's.
pub fn convert_checked<T: ReprValue, U: ReprValue>(value: T) -> (r: Option<U>)
    ensures
        r is Some <==> U::in_range(value.int_value()),
        r matches Some(u) ==> u.int_value() == value.int_value(),
{
    let (neg, mag) = value.to_parts();
    if U::fits(neg, mag) {
        Some(U::from_parts(neg, mag))
    } else {
        None
    }
}

/// Every discriminant of a table without repeats is found, at the position
/// of its own variant.
pub proof fn lemma_discriminant_found(discs: Seq<i64>, i: int)
    requires
        distinct(discs),
        0 <= i < discs.len(),
    ensures
        has_match(discs, discs[i] as int),
        is_first_match(discs, discs[i] as int, i),
{
}

/// A value that is no discriminant of the table is matched by no variant.
pub proof fn lemma_unknown_value(discs: Seq<i64>, v: int)
    requires
        forall|i: int| 0 <= i < discs.len() ==> discs[i] as int != v,
    ensures
        !has_match(discs, v),
{
}

/// Looking up the representation of a variant gives back that variant: for a
/// table without repeats whose discriminants fit `T`, the value that
/// `discriminant_value` returns for position `i` is first matched at `i`.
pub proof fn lemma_round_trip<T: ReprValue>(discs: Seq<i64>, i: int, repr: T)
    requires
        distinct(discs),
        all_fit::<T>(discs),
        0 <= i < discs.len(),
        repr.int_value() == discs[i] as int,
    ensures
        has_match(discs, repr.int_value()),
        is_first_match(discs, repr.int_value(), i),
{
}

} // verus!
