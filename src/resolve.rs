use vstd::prelude::*;
use vstd::string::*;

verus! {

/// A token of an attribute's payload.
#[derive(Debug)]
pub enum Token {
    Ident(String),
    /// A delimited group and the tokens inside it.
    Group(Vec<Token>),
    Punct(char),
    Literal(String),
}

/// An attribute of an enumeration declaration, as the declaration reader
/// hands it over.
#[derive(Debug)]
pub enum Attribute {
    /// `#[repr(...)]` with the type names it lists.
    Repr(Vec<String>),
    /// Any other `#[name(...)]` attribute, as its flat token sequence.
    Any(Vec<Token>),
    /// An attribute that the resolver ignores (documentation, facet's own).
    Other,
}

/// An enumeration declaration: its name and its attributes, in order.
#[derive(Debug)]
pub struct EnumDecl {
    pub name: String,
    pub attributes: Vec<Attribute>,
}

/// The name of the generator's own attribute namespace.
pub open spec fn tag_name() -> Seq<char> {
    "facet_enum_repr"@
}

/// The representation used when none is declared.
pub open spec fn default_repr() -> Seq<char> {
    "isize"@
}

/// The declared representation: the first type name of the first non-empty
/// `repr` attribute, or the default.
pub open spec fn enum_repr_of(attrs: Seq<Attribute>) -> Seq<char>
    decreases attrs.len(),
{
    if attrs.len() == 0 {
        default_repr()
    } else if attrs[0] is Repr && attrs[0]->Repr_0@.len() > 0 {
        attrs[0]->Repr_0@[0]@
    } else {
        enum_repr_of(attrs.drop_first())
    }
}

/// Finds the enumeration's representation type name.
pub fn find_enum_repr(attrs: &Vec<Attribute>) -> (r: String)
    ensures
        r@ == enum_repr_of(attrs@),
{
    let mut i: usize = 0;
    assert(attrs@.skip(0) =~= attrs@);
    while i < attrs.len()
        invariant
            i <= attrs.len(),
            enum_repr_of(attrs@) == enum_repr_of(attrs@.skip(i as int)),
        decreases attrs.len() - i,
    {
        assert(attrs@.skip(i as int)[0] == attrs@[i as int]);
        assert(attrs@.skip(i as int).drop_first() =~= attrs@.skip(i + 1));
        if let Attribute::Repr(types) = &attrs[i] {
            if types.len() > 0 {
                return types[0].clone();
            }
        }
        i = i + 1;
    }
    assert(attrs@.skip(i as int).len() == 0);
    String::from_str("isize")
}

/// Why an enumeration's attributes cannot be turned into conversions.
#[derive(Debug, PartialEq, Eq)]
pub enum DeriveError {
    /// The generator's attribute is not a sequence of `name(...)` pairs.
    MalformedAttribute,
    /// A directive that the generator does not know, with its name.
    UnknownDirective(String),
}

/// Whether a token is the generator's attribute name.
pub open spec fn is_tag(t: Token) -> bool {
    t matches Token::Ident(s) && s@ == tag_name()
}

/// The payload of the generator's attribute within one attribute's tokens,
/// read two tokens at a time: the group that follows the first tag.
pub open spec fn tokens_group(toks: Seq<Token>) -> Option<Seq<Token>>
    decreases toks.len(),
{
    if toks.len() < 2 {
        None
    } else if is_tag(toks[0]) {
        match toks[1] {
            Token::Group(g) => Some(g@),
            _ => None,
        }
    } else {
        tokens_group(toks.skip(2))
    }
}

/// Whether reading one attribute's tokens two at a time, up to the tag,
/// meets only whole pairs, and the tag is followed by a group.
pub open spec fn tokens_well_formed(toks: Seq<Token>) -> bool
    decreases toks.len(),
{
    if toks.len() == 0 {
        true
    } else if toks.len() == 1 {
        false
    } else if is_tag(toks[0]) {
        toks[1] is Group
    } else {
        tokens_well_formed(toks.skip(2))
    }
}

/// The payload of the generator's attribute: found in the first attribute
/// that holds the tag.
pub open spec fn attrs_group(attrs: Seq<Attribute>) -> Option<Seq<Token>>
    decreases attrs.len(),
{
    if attrs.len() == 0 {
        None
    } else {
        match attrs[0] {
            Attribute::Any(toks) => match tokens_group(toks@) {
                Some(g) => Some(g),
                None => attrs_group(attrs.drop_first()),
            },
            _ => attrs_group(attrs.drop_first()),
        }
    }
}

/// Whether the search for the generator's attribute meets no malformed
/// token sequence before it ends.
pub open spec fn attrs_well_formed(attrs: Seq<Attribute>) -> bool
    decreases attrs.len(),
{
    if attrs.len() == 0 {
        true
    } else {
        match attrs[0] {
            Attribute::Any(toks) => tokens_well_formed(toks@) && (tokens_group(toks@) is None
                ==> attrs_well_formed(attrs.drop_first())),
            _ => attrs_well_formed(attrs.drop_first()),
        }
    }
}

/// Searches one attribute's tokens, two at a time, for the generator's tag.
fn scan_tokens(toks: &Vec<Token>) -> (r: Result<Option<&Vec<Token>>, DeriveError>)
    ensures
        r is Ok <==> tokens_well_formed(toks@),
        r matches Ok(o) ==> (o matches Some(g) ==> tokens_group(toks@) == Some(g@)) && (o is None
            ==> tokens_group(toks@) is None),
        r matches Err(e) ==> e is MalformedAttribute,
{
    let tag = String::from_str("facet_enum_repr");
    let mut j: usize = 0;
    assert(toks@.skip(0) =~= toks@);
    while j < toks.len()
        invariant
            j <= toks.len(),
            tag@ == tag_name(),
            tokens_group(toks@) == tokens_group(toks@.skip(j as int)),
            tokens_well_formed(toks@) == tokens_well_formed(toks@.skip(j as int)),
        decreases toks.len() - j,
    {
        let ghost rest = toks@.skip(j as int);
        if j + 1 == toks.len() {
            assert(rest.len() == 1);
            return Err(DeriveError::MalformedAttribute);
        }
        assert(rest[0] == toks@[j as int] && rest[1] == toks@[j + 1]);
        assert(rest.skip(2) =~= toks@.skip(j + 2));
        let found = match &toks[j] {
            Token::Ident(s) => *s == tag,
            _ => false,
        };
        if found {
            match &toks[j + 1] {
                Token::Group(g) => {
                    return Ok(Some(g));
                },
                _ => {
                    return Err(DeriveError::MalformedAttribute);
                },
            }
        }
        j = j + 2;
    }
    Ok(None)
}

/// The payload of the generator's attribute, if the enumeration has one:
/// the group that follows the first tag, read two tokens at a time through
/// each attribute in order.
pub fn find_directive_group(attrs: &Vec<Attribute>) -> (r: Result<Option<&Vec<Token>>, DeriveError>)
    ensures
        r is Ok <==> attrs_well_formed(attrs@),
        r matches Ok(o) ==> (o matches Some(g) ==> attrs_group(attrs@) == Some(g@)) && (o is None
            ==> attrs_group(attrs@) is None),
        r matches Err(e) ==> e is MalformedAttribute,
{
    let mut i: usize = 0;
    assert(attrs@.skip(0) =~= attrs@);
    while i < attrs.len()
        invariant
            i <= attrs.len(),
            attrs_group(attrs@) == attrs_group(attrs@.skip(i as int)),
            attrs_well_formed(attrs@) == attrs_well_formed(attrs@.skip(i as int)),
        decreases attrs.len() - i,
    {
        assert(attrs@.skip(i as int)[0] == attrs@[i as int]);
        assert(attrs@.skip(i as int).drop_first() =~= attrs@.skip(i + 1));
        if let Attribute::Any(toks) = &attrs[i] {
            match scan_tokens(toks) {
                Ok(Some(g)) => {
                    return Ok(Some(g));
                },
                Ok(None) => {},
                Err(e) => {
                    return Err(e);
                },
            }
        }
        i = i + 1;
    }
    Ok(None)
}

/// A generator directive: its name and the type names listed in its group.
#[derive(Debug)]
pub struct Directive {
    pub name: String,
    pub targets: Vec<String>,
}

/// The text of each string, in order.
pub open spec fn texts(v: Seq<String>) -> Seq<Seq<char>> {
    v.map_values(|s: String| s@)
}

/// A directive as its name and target names.
pub open spec fn directive_view(d: Directive) -> (Seq<char>, Seq<Seq<char>>) {
    (d.name@, texts(d.targets@))
}

/// The identifiers among the tokens, in order; other tokens are skipped.
pub open spec fn idents_of(toks: Seq<Token>) -> Seq<Seq<char>>
    decreases toks.len(),
{
    if toks.len() == 0 {
        seq![]
    } else {
        let rest = idents_of(toks.drop_last());
        match toks.last() {
            Token::Ident(s) => rest.push(s@),
            _ => rest,
        }
    }
}

/// The directive that two consecutive tokens make: an identifier followed by
/// a group; any other pair makes none.
pub open spec fn pair_directive(a: Token, b: Token) -> Seq<(Seq<char>, Seq<Seq<char>>)> {
    if a is Ident && b is Group {
        seq![(a->Ident_0@, idents_of(b->Group_0@))]
    } else {
        seq![]
    }
}

/// The directives of a payload read two tokens at a time, in order.
pub open spec fn directives_of(toks: Seq<Token>) -> Seq<(Seq<char>, Seq<Seq<char>>)>
    decreases toks.len(),
{
    if toks.len() < 2 {
        seq![]
    } else {
        directives_of(toks.take(toks.len() - 2)) + pair_directive(
            toks[toks.len() - 2],
            toks[toks.len() - 1],
        )
    }
}

/// The identifiers of a directive's group, in order.
fn collect_idents(toks: &Vec<Token>) -> (r: Vec<String>)
    ensures
        texts(r@) == idents_of(toks@),
{
    let mut out: Vec<String> = Vec::new();
    let mut i: usize = 0;
    assert(toks@.take(0) =~= seq![]);
    while i < toks.len()
        invariant
            i <= toks.len(),
            texts(out@) == idents_of(toks@.take(i as int)),
        decreases toks.len() - i,
    {
        assert(toks@.take(i + 1).drop_last() =~= toks@.take(i as int));
        assert(toks@.take(i + 1).last() == toks@[i as int]);
        if let Token::Ident(s) = &toks[i] {
            out.push(s.clone());
            assert(texts(out@) =~= idents_of(toks@.take(i as int)).push(s@));
        }
        i = i + 1;
    }
    assert(toks@.take(i as int) =~= toks@);
    out
}

/// Reads the generator's payload as directives, two tokens at a time: an
/// identifier followed by a group is a directive, whose targets are the
/// identifiers in the group; other pairs are skipped. A payload of odd
/// length is malformed.
pub fn parse_directives(toks: &Vec<Token>) -> (r: Result<Vec<Directive>, DeriveError>)
    ensures
        r is Ok <==> toks@.len() % 2 == 0,
        r matches Ok(ds) ==> ds@.map_values(|d: Directive| directive_view(d)) == directives_of(toks@),
        r matches Err(e) ==> e is MalformedAttribute,
{
    if toks.len() % 2 != 0 {
        return Err(DeriveError::MalformedAttribute);
    }
    let mut out: Vec<Directive> = Vec::new();
    let mut j: usize = 0;
    assert(toks@.take(0) =~= seq![]);
    while j < toks.len()
        invariant
            j <= toks.len(),
            j % 2 == 0,
            toks@.len() % 2 == 0,
            out@.map_values(|d: Directive| directive_view(d)) == directives_of(toks@.take(j as int)),
        decreases toks.len() - j,
    {
        let ghost before = out@.map_values(|d: Directive| directive_view(d));
        assert(toks@.take(j + 2).take(j as int) =~= toks@.take(j as int));
        assert(toks@.take(j + 2)[j as int] == toks@[j as int]);
        assert(toks@.take(j + 2)[j + 1] == toks@[j + 1]);
        if let Token::Ident(name) = &toks[j] {
            if let Token::Group(g) = &toks[j + 1] {
                let d = Directive { name: name.clone(), targets: collect_idents(g) };
                out.push(d);
                assert(out@.map_values(|d: Directive| directive_view(d)) =~= before.push(
                    directive_view(d),
                ));
            }
        }
        assert(out@.map_values(|d: Directive| directive_view(d)) =~= directives_of(
            toks@.take(j + 2),
        ));
        j = j + 2;
    }
    assert(toks@.take(j as int) =~= toks@);
    Ok(out)
}

} // verus!
