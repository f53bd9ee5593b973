use vstd::prelude::*;
use vstd::string::*;

use crate::resolve::{
    directive_view, directives_of, enum_repr_of, find_directive_group, find_enum_repr,
    parse_directives, texts, attrs_group, attrs_well_formed, Attribute, DeriveError, Directive,
    EnumDecl, Token,
};

verus! {

/// The one directive the generator knows: conversions into narrower types
/// that panic when a value does not fit.
pub open spec fn panic_into_name() -> Seq<char> {
    "panic_into"@
}

/// The targets that the last directive named `name` lists, if any names it:
/// a later directive of a name replaces an earlier one.
pub open spec fn last_targets(ds: Seq<(Seq<char>, Seq<Seq<char>>)>, name: Seq<char>) -> Option<
    Seq<Seq<char>>,
>
    decreases ds.len(),
{
    if ds.len() == 0 {
        None
    } else if ds.last().0 == name {
        Some(ds.last().1)
    } else {
        last_targets(ds.drop_last(), name)
    }
}

/// The types that `panic_into` conversions are generated for.
pub open spec fn panic_targets(ds: Seq<(Seq<char>, Seq<Seq<char>>)>) -> Seq<Seq<char>> {
    match last_targets(ds, panic_into_name()) {
        Some(t) => t,
        None => seq![],
    }
}

/// Whether every directive is one the generator knows.
pub open spec fn all_known(ds: Seq<(Seq<char>, Seq<Seq<char>>)>) -> bool {
    forall|i: int| 0 <= i < ds.len() ==> ds[i].0 == panic_into_name()
}

/// The `TryFrom<repr>` impl, which finds the variant through the runtime
/// lookup, and the `From<name>` impl into the representation.
pub open spec fn base_impls(name: Seq<char>, repr: Seq<char>) -> Seq<char> {
    "\n#[automatically_derived]\nimpl TryFrom<"@ + repr + "> for "@ + name
        + " {\n    type Error = facet_enum_repr::TryFromReprError<"@ + repr
        + ">;\n\n    fn try_from(value: "@ + repr
        + ") -> Result<Self, Self::Error> {\n        let discriminants = facet_enum_repr::variant_discriminants(<"@
        + name + " as facet_enum_repr::Facet>::SHAPE)\n            .expect(\"Our enum has a discriminant for every variant.\");\n        assert!(\n            facet_enum_repr::discriminants_fit::<"@
        + repr + ">(&discriminants),\n            \"Our discriminant value must fit into its enum repr type.\"\n        );\n\n        match facet_enum_repr::find_variant(&discriminants, value) {\n            Ok(_) => Ok(unsafe { std::mem::transmute(value) }),\n            Err(error) => Err(error),\n        }\n    }\n}\n\n#[automatically_derived]\nimpl From<"@
        + name + "> for "@ + repr + " {\n    fn from(value: "@ + name
        + ") -> Self {\n        value as Self\n    }\n}\n"@
}

/// The `From<name>` impl into `target`, which panics when the value does
/// not fit.
pub open spec fn panic_into_impl(name: Seq<char>, repr: Seq<char>, target: Seq<char>) -> Seq<char> {
    "\n#[automatically_derived]\nimpl From<"@ + name + "> for "@ + target + " {\n    fn from(value: "@
        + name + ") -> Self {\n        facet_enum_repr::convert_checked::<"@ + repr + ", "@ + target
        + ">("@ + repr + "::from(value))\n            .expect(\"All "@ + name
        + " values fit into a "@ + target + ".\")\n    }\n}\n"@
}

/// One `panic_into` impl for each target, in order.
pub open spec fn panic_into_impls(name: Seq<char>, repr: Seq<char>, targets: Seq<Seq<char>>) -> Seq<
    char,
>
    decreases targets.len(),
{
    if targets.len() == 0 {
        seq![]
    } else {
        panic_into_impls(name, repr, targets.drop_last()) + panic_into_impl(
            name,
            repr,
            targets.last(),
        )
    }
}

/// The whole generated source for an enumeration.
pub open spec fn generated(name: Seq<char>, repr: Seq<char>, targets: Seq<Seq<char>>) -> Seq<char> {
    base_impls(name, repr) + panic_into_impls(name, repr, targets)
}

fn append_base_impls(out: &mut String, name: &str, repr: &str)
    ensures
        final(out)@ == old(out)@ + base_impls(name@, repr@),
{
    let ghost start = out@;
    out.append("\n#[automatically_derived]\nimpl TryFrom<");
    out.append(repr);
    out.append("> for ");
    out.append(name);
    out.append(" {\n    type Error = facet_enum_repr::TryFromReprError<");
    out.append(repr);
    out.append(">;\n\n    fn try_from(value: ");
    out.append(repr);
    out.append(") -> Result<Self, Self::Error> {\n        let discriminants = facet_enum_repr::variant_discriminants(<");
    out.append(name);
    out.append(" as facet_enum_repr::Facet>::SHAPE)\n            .expect(\"Our enum has a discriminant for every variant.\");\n        assert!(\n            facet_enum_repr::discriminants_fit::<");
    out.append(repr);
    out.append(">(&discriminants),\n            \"Our discriminant value must fit into its enum repr type.\"\n        );\n\n        match facet_enum_repr::find_variant(&discriminants, value) {\n            Ok(_) => Ok(unsafe { std::mem::transmute(value) }),\n            Err(error) => Err(error),\n        }\n    }\n}\n\n#[automatically_derived]\nimpl From<");
    out.append(name);
    out.append("> for ");
    out.append(repr);
    out.append(" {\n    fn from(value: ");
    out.append(name);
    out.append(") -> Self {\n        value as Self\n    }\n}\n");
    assert(out@ =~= start + base_impls(name@, repr@));
}

fn append_panic_into_impl(out: &mut String, name: &str, repr: &str, target: &str)
    ensures
        final(out)@ == old(out)@ + panic_into_impl(name@, repr@, target@),
{
    let ghost start = out@;
    out.append("\n#[automatically_derived]\nimpl From<");
    out.append(name);
    out.append("> for ");
    out.append(target);
    out.append(" {\n    fn from(value: ");
    out.append(name);
    out.append(") -> Self {\n        facet_enum_repr::convert_checked::<");
    out.append(repr);
    out.append(", ");
    out.append(target);
    out.append(">(");
    out.append(repr);
    out.append("::from(value))\n            .expect(\"All ");
    out.append(name);
    out.append(" values fit into a ");
    out.append(target);
    out.append(".\")\n    }\n}\n");
    assert(out@ =~= start + panic_into_impl(name@, repr@, target@));
}

/// Whether `i` is the first directive that the generator does not know.
pub open spec fn is_first_unknown(ds: Seq<(Seq<char>, Seq<Seq<char>>)>, i: int) -> bool {
    &&& 0 <= i < ds.len()
    &&& ds[i].0 != panic_into_name()
    &&& forall|j: int| 0 <= j < i ==> ds[j].0 == panic_into_name()
}

/// The position of the first directive that the generator does not know, if
/// any.
pub fn first_unknown_directive(directives: &Vec<Directive>) -> (r: Option<usize>)
    ensures
        r is None <==> all_known(directives@.map_values(|d: Directive| directive_view(d))),
        r matches Some(i) ==> is_first_unknown(
            directives@.map_values(|d: Directive| directive_view(d)),
            i as int,
        ),
{
    let ghost views = directives@.map_values(|d: Directive| directive_view(d));
    let known = String::from_str("panic_into");
    let mut i: usize = 0;
    while i < directives.len()
        invariant
            i <= directives.len(),
            known@ == panic_into_name(),
            views == directives@.map_values(|d: Directive| directive_view(d)),
            forall|j: int| 0 <= j < i ==> views[j].0 == panic_into_name(),
        decreases directives.len() - i,
    {
        if !(directives[i].name == known) {
            assert(views[i as int].0 != panic_into_name());
            return Some(i);
        }
        i = i + 1;
    }
    None
}

/// Writes the conversion impls for the enumeration `name` with
/// representation `repr`: `TryFrom<repr>` and `From<name> for repr`, then
/// one checked `From<name>` for each target of the last `panic_into`
/// directive. Every directive must be one the generator knows.
pub fn generate_output(name: &str, repr: &str, directives: &Vec<Directive>) -> (r: String)
    requires
        all_known(directives@.map_values(|d: Directive| directive_view(d))),
    ensures
        r@ == generated(
            name@,
            repr@,
            panic_targets(directives@.map_values(|d: Directive| directive_view(d))),
        ),
{
    let ghost views = directives@.map_values(|d: Directive| directive_view(d));
    let mut out = String::new();
    append_base_impls(&mut out, name, repr);
    if directives.len() > 0 {
        let last = directives.len() - 1;
        let targets = &directives[last].targets;
        assert(views.last() == directive_view(directives@[last as int]));
        let ghost tv = texts(targets@);
        assert(panic_targets(views) == tv);
        let mut k: usize = 0;
        assert(tv.take(0) =~= seq![]);
        while k < targets.len()
            invariant
                k <= targets.len(),
                tv == texts(targets@),
                out@ == base_impls(name@, repr@) + panic_into_impls(name@, repr@, tv.take(k as int)),
            decreases targets.len() - k,
        {
            assert(tv.take(k + 1).drop_last() =~= tv.take(k as int));
            assert(tv.take(k + 1).last() == targets@[k as int]@);
            append_panic_into_impl(&mut out, name, repr, targets[k].as_str());
            assert(out@ =~= base_impls(name@, repr@) + panic_into_impls(name@, repr@, tv.take(k + 1)));
            k = k + 1;
        }
        assert(tv.take(k as int) =~= tv);
    } else {
        assert(out@ =~= generated(name@, repr@, seq![]));
    }
    out
}

/// The generator's payload on the declaration; empty when it has none.
pub open spec fn payload_of(attrs: Seq<Attribute>) -> Seq<Token> {
    match attrs_group(attrs) {
        Some(g) => g,
        None => seq![],
    }
}

/// Whether the declaration's generator attribute is well formed: whole
/// token pairs up to the tag, a group after it, and a payload of pairs.
pub open spec fn syntax_ok(attrs: Seq<Attribute>) -> bool {
    attrs_well_formed(attrs) && payload_of(attrs).len() % 2 == 0
}

/// Whether the declaration can be turned into conversions: its generator
/// attribute is well formed and names only directives the generator knows.
pub open spec fn declaration_ok(attrs: Seq<Attribute>) -> bool {
    syntax_ok(attrs) && all_known(directives_of(payload_of(attrs)))
}

/// The directives of a declaration whose generator attribute is well formed;
/// none when it has no generator attribute.
fn resolve_directives(attrs: &Vec<Attribute>) -> (r: Vec<Directive>)
    requires
        syntax_ok(attrs@),
    ensures
        r@.map_values(|d: Directive| directive_view(d)) == directives_of(payload_of(attrs@)),
{
    match find_directive_group(attrs) {
        Ok(Some(group)) => match parse_directives(group) {
            Ok(ds) => ds,
            Err(_) => unreached(),
        },
        Ok(None) => {
            assert(directives_of(seq![]) =~= seq![]);
            let ds: Vec<Directive> = Vec::new();
            assert(ds@.map_values(|d: Directive| directive_view(d)) =~= seq![]);
            ds
        },
        Err(_) => unreached(),
    }
}

/// Checks a declaration before its conversions are generated:
/// `MalformedAttribute` when the generator attribute is not a sequence of
/// `name(...)` pairs, else `UnknownDirective` with the first directive the
/// generator does not know.
pub fn check_declaration(decl: &EnumDecl) -> (r: Result<(), DeriveError>)
    ensures
        r is Ok <==> declaration_ok(decl.attributes@),
        r matches Err(e) ==> (e is MalformedAttribute <==> !syntax_ok(decl.attributes@)),
        r matches Err(e) ==> (e matches DeriveError::UnknownDirective(n) ==> exists|i: int|
            is_first_unknown(directives_of(payload_of(decl.attributes@)), i) && directives_of(
                payload_of(decl.attributes@),
            )[i].0 == n@),
{
    let directives = match find_directive_group(&decl.attributes) {
        Ok(Some(group)) => match parse_directives(group) {
            Ok(ds) => ds,
            Err(e) => {
                return Err(e);
            },
        },
        Ok(None) => {
            return Ok(());
        },
        Err(e) => {
            return Err(e);
        },
    };
    let ghost views = directives@.map_values(|d: Directive| directive_view(d));
    match first_unknown_directive(&directives) {
        Some(i) => {
            assert(views[i as int].0 == directives@[i as int].name@);
            Err(DeriveError::UnknownDirective(directives[i].name.clone()))
        },
        None => Ok(()),
    }
}

/// The conversion impls for an enumeration declaration: its representation
/// is resolved from its `repr` attributes and its directives from the
/// generator's attribute, then the impls are written. The declaration must
/// pass `check_declaration`.
pub fn facet_enum_repr_derive(decl: &EnumDecl) -> (r: String)
    requires
        declaration_ok(decl.attributes@),
    ensures
        r@ == generated(
            decl.name@,
            enum_repr_of(decl.attributes@),
            panic_targets(directives_of(payload_of(decl.attributes@))),
        ),
{
    let repr = find_enum_repr(&decl.attributes);
    let directives = resolve_directives(&decl.attributes);
    generate_output(decl.name.as_str(), repr.as_str(), &directives)
}

} // verus!
