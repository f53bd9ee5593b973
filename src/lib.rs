//! Safe conversions between field-less enumerations and their integer
//! representation: the runtime lookup that the generated `TryFrom` impls use,
//! the resolver that reads an enumeration's attributes, and the emitter that
//! writes the conversion impls as source text.

mod emit;
mod error;
mod lookup;
mod registry;
mod resolve;
mod value;

pub use facet::Facet;

pub use emit::{
    all_known, base_impls, check_declaration, declaration_ok, facet_enum_repr_derive,
    first_unknown_directive, generate_output, generated, is_first_unknown, last_targets,
    panic_into_impl, panic_into_impls, panic_into_name, panic_targets, payload_of, syntax_ok,
};
pub use error::TryFromReprError;
pub use lookup::{
    all_fit, convert_checked, discriminant_value, discriminants_fit, distinct, find_variant,
    has_match, is_first_match, lemma_discriminant_found, lemma_round_trip, lemma_unknown_value,
};
pub use registry::{complete_discriminants, discriminants_of, variant_discriminants};
pub use resolve::{
    attrs_group, attrs_well_formed, default_repr, directive_view, directives_of, enum_repr_of,
    find_directive_group, find_enum_repr, idents_of, is_tag, pair_directive, parse_directives,
    tag_name, texts, tokens_group, tokens_well_formed, Attribute, DeriveError, Directive, EnumDecl,
    Token,
};
pub use value::{parts_of_i64, parts_value, same_value, ReprValue};
