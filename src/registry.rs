use vstd::prelude::*;

verus! {

#[verifier::external_type_specification]
#[verifier::external_body]
pub struct ExShape(facet::Shape);

/// What the registry lists for the enum that a shape describes: `None` when
/// the shape is no enum's, else each variant's discriminant, in declaration
/// order.
pub uninterp spec fn discriminants_of(shape: facet::Shape) -> Option<Seq<Option<i64>>>;

/// Relies on facet_reflect::peek_enum: `None` when the shape does not
/// describe an enum, else the enum's variants in declaration order, each
/// mapped to its `discriminant` field.
#[verifier::external_body]
fn peek_discriminants(shape: &'static facet::Shape) -> (r: Option<Vec<Option<i64>>>)
    ensures
        r is Some <==> discriminants_of(*shape) is Some,
        r matches Some(v) ==> discriminants_of(*shape) == Some(v@),
{
    facet_reflect::peek_enum(shape).map(|e| e.variants.iter().map(|v| v.discriminant).collect())
}

/// The discriminants of a variant list, in order: `None` when a variant has
/// none.
pub fn complete_discriminants(raw: &Vec<Option<i64>>) -> (r: Option<Vec<i64>>)
    ensures
        r is Some <==> forall|i: int| 0 <= i < raw.len() ==> raw@[i] is Some,
        r matches Some(v) ==> v@.len() == raw@.len() && forall|i: int|
            0 <= i < raw.len() ==> raw@[i] == Some(v@[i]),
{
    let mut out: Vec<i64> = Vec::new();
    let mut i: usize = 0;
    while i < raw.len()
        invariant
            i <= raw.len(),
            out@.len() == i,
            forall|j: int| 0 <= j < i ==> raw@[j] == Some(out@[j]),
        decreases raw.len() - i,
    {
        match raw[i] {
            Some(d) => out.push(d),
            None => return None,
        }
        i = i + 1;
    }
    Some(out)
}

/// The discriminants of the enum that `shape` describes, in declaration
/// order: `None` when the shape is no enum's or a variant has no
/// discriminant.
pub fn variant_discriminants(shape: &'static facet::Shape) -> (r: Option<Vec<i64>>)
    ensures
        r is Some <==> (discriminants_of(*shape) is Some && forall|i: int|
            0 <= i < discriminants_of(*shape)->Some_0.len() ==> discriminants_of(
                *shape,
            )->Some_0[i] is Some),
        r matches Some(v) ==> v@.len() == discriminants_of(*shape)->Some_0.len() && forall|i: int|
            0 <= i < v@.len() ==> discriminants_of(*shape)->Some_0[i] == Some(v@[i]),
{
    match peek_discriminants(shape) {
        Some(raw) => complete_discriminants(&raw),
        None => None,
    }
}

} // verus!
