//! Common values used in CSS: identifiers and strings stored as atoms.
use vstd::prelude::*;

use string_cache::DefaultAtom;

use crate::atom::{atom_as_str, atom_chars, atom_from_str, atom_precomputed_hash, long_atom_hash};
use crate::keyword::{any_excluded, is_valid_custom_ident, str_views, CSSWideKeyword};
use crate::parsing::{
    current_location, expect_ident, expect_string, from_basic_error, is_unexpected_ident_error, next_token,
    parser_location, parser_next_token, unexpected_ident_error, BasicParseErrorKind, CssToken, NextToken,
    ParseError, ParseErrorKind, StyleParseErrorKind,
};
use crate::serialize::{
    css_identifier, css_name, css_quoted_string, write_identifier, write_name, write_quoted_string,
    write_string_escaped,
};
use crate::text::{has_prefix, starts_with_two_hyphens, str_eq_ignore_ascii_case};

verus! {

/// Serializes an identifier that is represented as an atom. An identifier
/// that starts with `--` keeps its two hyphens in front, with the rest
/// serialized as a name.
pub fn serialize_atom_identifier(ident: &DefaultAtom, dest: &mut String)
    ensures
        final(dest)@ == old(dest)@ + css_identifier(atom_chars(*ident)),
        has_prefix(atom_chars(*ident), seq!['-', '-']) ==> final(dest)@ == old(dest)@ + seq!['-', '-']
            + css_name(atom_chars(*ident).skip(2)),
{
    write_identifier(atom_as_str(ident), dest);
}

/// Serializes a name that is represented as an atom.
pub fn serialize_atom_name(ident: &DefaultAtom, dest: &mut String)
    ensures
        final(dest)@ == old(dest)@ + css_name(atom_chars(*ident)),
{
    write_name(atom_as_str(ident), dest);
}

/// A CSS string stored as an atom.
#[derive(Clone, Debug, Default, PartialEq, Eq, Hash)]
pub struct AtomString(pub DefaultAtom);

impl View for AtomString {
    type V = Seq<char>;

    open spec fn view(&self) -> Seq<char> {
        atom_chars(self.0)
    }
}

impl AtomString {
    /// The text of this string.
    pub fn as_ref(&self) -> (r: &str)
        ensures
            r@ == self@,
    {
        atom_as_str(&self.0)
    }

    /// Parses a `<string>` token into an atom: the next token's value where
    /// it is a quoted string, a tokenizer error otherwise.
    pub fn parse<'i, 't>(input: &mut cssparser::Parser<'i, 't>) -> (r: Result<AtomString, ParseError<'i>>)
        ensures
            match parser_next_token(*old(input)) {
                NextToken::QuotedString(s) => r matches Ok(a) && a@ == s,
                _ => r matches Err(e) && e.kind is Basic,
            },
    {
        match expect_string(input) {
            Ok(s) => Ok(AtomString(atom_from_str(s.as_str()))),
            Err(e) => Err(from_basic_error(e)),
        }
    }

    /// Serializes this string as a double-quoted CSS string literal.
    pub fn to_css(&self, dest: &mut String)
        ensures
            final(dest)@ == old(dest)@ + css_quoted_string(self@),
    {
        // Wrap in quotes to form a string literal.
        dest.append("\"");
        write_string_escaped(self.as_ref(), dest);
        dest.append("\"");
        proof {
            reveal_strlit("\"");
            assert(final(dest)@ =~= old(dest)@ + css_quoted_string(self@));
        }
    }

    /// The hash of the atom that was computed when it was interned: the
    /// stored hash of `""` for the empty text, and [`long_atom_hash`] of the
    /// text for a text of more than seven characters.
    pub fn precomputed_hash(&self) -> (r: u32)
        ensures
            self@.len() == 0 ==> r == 0x3ddddef3u32,
            self@.len() > 7 ==> r == long_atom_hash(self@),
    {
        atom_precomputed_hash(&self.0)
    }
}

impl<'a> From<&'a str> for AtomString {
    fn from(string: &'a str) -> (r: AtomString)
        ensures
            r@ == string@,
    {
        AtomString(atom_from_str(string))
    }
}

impl<'a> vstd::std_specs::convert::FromSpecImpl<&'a str> for AtomString {
    open spec fn obeys_from_spec() -> bool {
        false
    }

    open spec fn from_spec(v: &'a str) -> AtomString {
        choose|s: AtomString| s@ == v@
    }
}

/// A generic CSS `<ident>` stored as an atom of the static set `S`.
#[verifier::reject_recursive_types(S)]
pub struct GenericAtomIdent<S>(pub string_cache::Atom<S>);

impl<S> GenericAtomIdent<S> {
    /// Constructs a new `GenericAtomIdent`.
    pub fn new(atom: string_cache::Atom<S>) -> (r: GenericAtomIdent<S>)
        ensures
            r.0 == atom,
    {
        GenericAtomIdent(atom)
    }
}

/// A CSS `<ident>` stored as an atom.
#[derive(Clone, Debug, Default, PartialEq, Eq, Hash)]
pub struct AtomIdent(pub DefaultAtom);

impl View for AtomIdent {
    type V = Seq<char>;

    open spec fn view(&self) -> Seq<char> {
        atom_chars(self.0)
    }
}

impl AtomIdent {
    /// Constructs a new `AtomIdent`.
    pub fn new(atom: DefaultAtom) -> (r: AtomIdent)
        ensures
            r.0 == atom,
            r@ == atom_chars(atom),
    {
        AtomIdent(atom)
    }

    /// Serializes this identifier.
    pub fn to_css(&self, dest: &mut String)
        ensures
            final(dest)@ == old(dest)@ + css_identifier(self@),
    {
        serialize_atom_identifier(&self.0, dest)
    }

    /// The hash of the atom that was computed when it was interned: the
    /// stored hash of `""` for the empty text, and [`long_atom_hash`] of the
    /// text for a text of more than seven characters.
    pub fn precomputed_hash(&self) -> (r: u32)
        ensures
            self@.len() == 0 ==> r == 0x3ddddef3u32,
            self@.len() > 7 ==> r == long_atom_hash(self@),
    {
        atom_precomputed_hash(&self.0)
    }
}

impl std::borrow::Borrow<DefaultAtom> for AtomIdent {
    fn borrow(&self) -> (r: &DefaultAtom)
        ensures
            atom_chars(*r) == self@,
    {
        &self.0
    }
}

impl<'a> From<&'a str> for AtomIdent {
    fn from(string: &'a str) -> (r: AtomIdent)
        ensures
            r@ == string@,
    {
        AtomIdent(atom_from_str(string))
    }
}

impl<'a> vstd::std_specs::convert::FromSpecImpl<&'a str> for AtomIdent {
    open spec fn obeys_from_spec() -> bool {
        false
    }

    open spec fn from_spec(v: &'a str) -> AtomIdent {
        choose|s: AtomIdent| s@ == v@
    }
}

/// One of two kinds of values.
#[derive(Clone, Copy, Debug, PartialEq)]
pub enum Either<A, B> {
    /// The first kind of value.
    First(A),
    /// The second kind of value.
    Second(B),
}

/// What reading the identifier `ident` at `location` as a `<custom-ident>`,
/// with the keywords `excluding` reserved too, gives: the identifier where it
/// is valid, else the error "unexpected identifier `ident`".
pub open spec fn custom_ident_outcome<'i>(
    r: Result<CustomIdent, ParseError<'i>>,
    ident: Seq<char>,
    excluding: Seq<Seq<char>>,
    location: cssparser::SourceLocation,
) -> bool {
    if is_valid_custom_ident(ident, excluding) {
        r matches Ok(c) && c@ == ident
    } else {
        r matches Err(e) && is_unexpected_ident_error(e, ident, location)
    }
}

/// A `<custom-ident>`: an identifier chosen by the author.
///
/// <https://drafts.csswg.org/css-values-4/#custom-idents>
#[derive(Clone, Debug, Default, PartialEq, Eq, Hash)]
pub struct CustomIdent(pub DefaultAtom);

impl View for CustomIdent {
    type V = Seq<char>;

    open spec fn view(&self) -> Seq<char> {
        atom_chars(self.0)
    }
}

impl CustomIdent {
    /// Whether `ident` may be a `<custom-ident>` where the keywords
    /// `excluding` are reserved too.
    pub fn is_valid(ident: &str, excluding: &[&str]) -> (r: bool)
        ensures
            r == is_valid_custom_ident(ident@, str_views(excluding@)),
    {
        // The CSS-wide keywords are not valid <custom-ident>s. The default
        // keyword is reserved and is also not a valid <custom-ident>.
        if CSSWideKeyword::from_ident(ident).is_ok() || str_eq_ignore_ascii_case(ident, "default") {
            return false;
        }
        // Excluded keywords are excluded in all ASCII case permutations.
        !any_excluded(ident, excluding)
    }

    /// A `<custom-ident>` from an identifier that the tokenizer has read at
    /// `location`, where the keywords `excluding` are reserved too.
    pub fn from_ident<'i>(
        location: cssparser::SourceLocation,
        ident: &str,
        excluding: &[&str],
    ) -> (r: Result<CustomIdent, ParseError<'i>>)
        ensures
            custom_ident_outcome(r, ident@, str_views(excluding@), location),
    {
        if !Self::is_valid(ident, excluding) {
            return Err(unexpected_ident_error(location, ident));
        }
        if any_excluded(ident, excluding) {
            Err(ParseError {
                kind: ParseErrorKind::Custom(StyleParseErrorKind::UnspecifiedError),
                location,
            })
        } else {
            Ok(CustomIdent(atom_from_str(ident)))
        }
    }

    /// Parses a `<custom-ident>` where the keywords `invalid` are reserved
    /// too.
    pub fn parse<'i, 't>(input: &mut cssparser::Parser<'i, 't>, invalid: &[&str]) -> (r: Result<CustomIdent, ParseError<'i>>)
        ensures
            match parser_next_token(*old(input)) {
                NextToken::Ident(s) => custom_ident_outcome(r, s, str_views(invalid@), parser_location(*old(input))),
                _ => r matches Err(e) && e.kind is Basic,
            },
    {
        let location = current_location(input);
        let ident = match expect_ident(input) {
            Ok(ident) => ident,
            Err(e) => return Err(from_basic_error(e)),
        };
        CustomIdent::from_ident(location, ident.as_str(), invalid)
    }

    /// Serializes this identifier.
    pub fn to_css(&self, dest: &mut String)
        ensures
            final(dest)@ == old(dest)@ + css_identifier(self@),
    {
        serialize_atom_identifier(&self.0, dest)
    }
}

/// What reading the identifier `ident` at `location` as a `<dashed-ident>`
/// gives: the identifier where it starts with `--`, else the error
/// "unexpected identifier `ident`".
pub open spec fn dashed_ident_outcome<'i>(
    r: Result<DashedIdent, ParseError<'i>>,
    ident: Seq<char>,
    location: cssparser::SourceLocation,
) -> bool {
    if has_prefix(ident, seq!['-', '-']) {
        r matches Ok(d) && d@ == ident
    } else {
        r matches Err(e) && is_unexpected_ident_error(e, ident, location)
    }
}

/// Reading an identifier as a `<dashed-ident>` succeeds, with exactly that
/// text, for every identifier whose first two characters are hyphens,
/// whatever its other characters; it fails with the error "unexpected
/// identifier" naming it for every other identifier.
pub proof fn lemma_dashed_ident_accepts_exactly_double_hyphen(
    r: Result<DashedIdent, ParseError>,
    ident: Seq<char>,
    location: cssparser::SourceLocation,
)
    requires
        dashed_ident_outcome(r, ident, location),
    ensures
        (ident.len() >= 2 && ident[0] == '-' && ident[1] == '-') ==> (r matches Ok(d) && d@ == ident),
        !(ident.len() >= 2 && ident[0] == '-' && ident[1] == '-') ==> (r matches Err(e) && (e.location
            == location && (e.kind matches ParseErrorKind::Custom(StyleParseErrorKind::UnexpectedIdent(s))
            && s@ == ident))),
{
    if ident.len() >= 2 && ident[0] == '-' && ident[1] == '-' {
        assert(ident.take(2) =~= seq!['-', '-']);
    } else if ident.len() >= 2 {
        assert(ident.take(2)[0] == ident[0] && ident.take(2)[1] == ident[1]);
    }
}

/// A `<dashed-ident>`: an atom that only parses from an identifier that
/// starts with `--`.
///
/// <https://www.w3.org/TR/css-values-4/#dashed-idents>
#[derive(Clone, Debug, PartialEq, Eq, Hash)]
pub struct DashedIdent(pub DefaultAtom);

impl View for DashedIdent {
    type V = Seq<char>;

    open spec fn view(&self) -> Seq<char> {
        atom_chars(self.0)
    }
}

impl DashedIdent {
    /// A `<dashed-ident>` from an identifier that the tokenizer has read at
    /// `location`.
    pub fn from_ident<'i>(location: cssparser::SourceLocation, ident: &str) -> (r: Result<DashedIdent, ParseError<'i>>)
        ensures
            dashed_ident_outcome(r, ident@, location),
    {
        if !starts_with_two_hyphens(ident) {
            return Err(unexpected_ident_error(location, ident));
        }
        Ok(DashedIdent(atom_from_str(ident)))
    }

    /// The special empty value, for internal use where an `Option` does not
    /// fit.
    pub fn empty() -> (r: DashedIdent)
        ensures
            r@ == Seq::<char>::empty(),
    {
        proof {
            reveal_strlit("");
        }
        DashedIdent(atom_from_str(""))
    }

    /// Whether this is the special empty value.
    pub fn is_empty(&self) -> (r: bool)
        ensures
            r == (self@.len() == 0),
    {
        atom_as_str(&self.0).is_empty()
    }

    /// Parses a `<dashed-ident>`.
    pub fn parse<'i, 't>(input: &mut cssparser::Parser<'i, 't>) -> (r: Result<DashedIdent, ParseError<'i>>)
        ensures
            match parser_next_token(*old(input)) {
                NextToken::Ident(s) => dashed_ident_outcome(r, s, parser_location(*old(input))),
                _ => r matches Err(e) && e.kind is Basic,
            },
    {
        let location = current_location(input);
        let ident = match expect_ident(input) {
            Ok(ident) => ident,
            Err(e) => return Err(from_basic_error(e)),
        };
        DashedIdent::from_ident(location, ident.as_str())
    }

    /// Serializes this identifier; one that starts with `--` keeps its two
    /// hyphens in front, with the rest serialized as a name.
    pub fn to_css(&self, dest: &mut String)
        ensures
            final(dest)@ == old(dest)@ + css_identifier(self@),
            has_prefix(self@, seq!['-', '-']) ==> final(dest)@ == old(dest)@ + seq!['-', '-'] + css_name(
                self@.skip(2),
            ),
    {
        serialize_atom_identifier(&self.0, dest)
    }
}

/// The text that a `<keyframes-name>` serializes to: `none` for the empty
/// name; the name as an identifier where it is a valid `<custom-ident>` in
/// which `none` is reserved; else the name as a quoted string.
pub open spec fn keyframes_name_css(name: Seq<char>) -> Seq<char> {
    if name.len() == 0 {
        "none"@
    } else if is_valid_custom_ident(name, seq!["none"@]) {
        css_identifier(name)
    } else {
        css_quoted_string(name)
    }
}

/// A `<keyframes-name>` that is not `none` but that is no valid
/// `<custom-ident>` where `none` is reserved (such as `none`, `initial` or
/// `default`, in any ASCII case) serializes as a quoted string, so that it is
/// never read back as the keyword.
pub proof fn lemma_keyframes_name_keywords_are_quoted(name: Seq<char>)
    requires
        name.len() > 0,
        !is_valid_custom_ident(name, seq!["none"@]),
    ensures
        keyframes_name_css(name) == css_quoted_string(name),
        keyframes_name_css(name)[0] == '"',
{
}

/// Every name that is not `none` and is a valid `<custom-ident>` where
/// `none` is reserved, whatever its letters, serializes as the identifier,
/// never quoted; together with the law above, a non-empty name is quoted
/// exactly when it is no valid `<custom-ident>`.
pub proof fn lemma_keyframes_name_idents_are_bare(name: Seq<char>)
    requires
        name.len() > 0,
        is_valid_custom_ident(name, seq!["none"@]),
    ensures
        keyframes_name_css(name) == css_identifier(name),
{
}

/// A `<keyframes-name>`: a single atom, where the empty atom stands for the
/// `none` animation.
///
/// <https://drafts.csswg.org/css-animations/#typedef-keyframes-name>
#[derive(Clone, Debug, PartialEq, Eq, Hash)]
pub struct KeyframesName(DefaultAtom);

impl View for KeyframesName {
    type V = Seq<char>;

    closed spec fn view(&self) -> Seq<char> {
        atom_chars(self.0)
    }
}

impl KeyframesName {
    /// The atom that this name holds.
    pub closed spec fn held_atom(&self) -> DefaultAtom {
        self.0
    }

    /// A name from the text of a `CSSKeyframesRule`'s name.
    ///
    /// <https://drafts.csswg.org/css-animations/#dom-csskeyframesrule-name>
    pub fn from_ident(value: &str) -> (r: KeyframesName)
        ensures
            r@ == value@,
    {
        KeyframesName(atom_from_str(value))
    }

    /// The `none` value.
    pub fn none() -> (r: KeyframesName)
        ensures
            r@ == Seq::<char>::empty(),
    {
        proof {
            reveal_strlit("");
        }
        KeyframesName(atom_from_str(""))
    }

    /// Whether this is the special `none` value.
    pub fn is_none(&self) -> (r: bool)
        ensures
            r == (self@.len() == 0),
    {
        atom_as_str(&self.0).is_empty()
    }

    /// A name that holds `atom`.
    pub fn from_atom(atom: DefaultAtom) -> (r: KeyframesName)
        ensures
            r.held_atom() == atom,
            r@ == atom_chars(atom),
    {
        KeyframesName(atom)
    }

    /// The name as an atom.
    pub fn as_atom(&self) -> (r: &DefaultAtom)
        ensures
            *r == self.held_atom(),
            atom_chars(*r) == self@,
    {
        &self.0
    }

    /// The name that a token read at `location` gives: an identifier must be
    /// a valid `<custom-ident>` other than `none`, a quoted string may be
    /// anything, and any other token is an error.
    pub fn from_token<'i>(location: cssparser::SourceLocation, token: CssToken<'i>) -> (r: Result<KeyframesName, ParseError<'i>>)
        ensures
            match token {
                CssToken::Ident(s) => if is_valid_custom_ident(s@, seq!["none"@]) {
                    r matches Ok(k) && k@ == s@
                } else {
                    r matches Err(e) && is_unexpected_ident_error(e, s@, location)
                },
                CssToken::QuotedString(s) => r matches Ok(k) && k@ == s@,
                CssToken::Other(t) => r == Err::<KeyframesName, ParseError<'i>>(ParseError {
                    kind: ParseErrorKind::Basic(BasicParseErrorKind::UnexpectedToken(t)),
                    location,
                }),
            },
    {
        match token {
            CssToken::Ident(s) => {
                let reserved: [&str; 1] = ["none"];
                proof {
                    assert(str_views(reserved@) =~= seq!["none"@]);
                }
                match CustomIdent::from_ident(location, s.as_str(), &reserved) {
                    Ok(ident) => Ok(KeyframesName(ident.0)),
                    Err(e) => Err(e),
                }
            },
            CssToken::QuotedString(s) => Ok(KeyframesName(atom_from_str(s.as_str()))),
            CssToken::Other(t) => Err(ParseError {
                kind: ParseErrorKind::Basic(BasicParseErrorKind::UnexpectedToken(t)),
                location,
            }),
        }
    }

    /// Parses a `<keyframes-name>` from the next token of `input`.
    pub fn parse<'i, 't>(input: &mut cssparser::Parser<'i, 't>) -> (r: Result<KeyframesName, ParseError<'i>>)
        ensures
            match parser_next_token(*old(input)) {
                NextToken::Ident(s) => if is_valid_custom_ident(s, seq!["none"@]) {
                    r matches Ok(k) && k@ == s
                } else {
                    r matches Err(e) && is_unexpected_ident_error(e, s, parser_location(*old(input)))
                },
                NextToken::QuotedString(s) => r matches Ok(k) && k@ == s,
                NextToken::OtherToken => r matches Err(e) && e.location == parser_location(*old(input))
                    && e.kind matches ParseErrorKind::Basic(BasicParseErrorKind::UnexpectedToken(_)),
                NextToken::NoToken => r matches Err(e) && e.kind is Basic,
            },
    {
        let location = current_location(input);
        let token = match next_token(input) {
            Ok(token) => token,
            Err(e) => return Err(from_basic_error(e)),
        };
        KeyframesName::from_token(location, token)
    }

    /// Serializes this name: `none` for the empty name, else the name as an
    /// identifier where it is a valid `<custom-ident>` other than `none`, and
    /// as a quoted string otherwise.
    pub fn to_css(&self, dest: &mut String)
        ensures
            final(dest)@ == old(dest)@ + keyframes_name_css(self@),
    {
        if self.is_none() {
            dest.append("none");
            return;
        }
        let s = atom_as_str(&self.0);
        let reserved: [&str; 1] = ["none"];
        proof {
            assert(str_views(reserved@) =~= seq!["none"@]);
        }
        if CustomIdent::is_valid(s, &reserved) {
            write_identifier(s, dest)
        } else {
            write_quoted_string(s, dest)
        }
    }
}

} // verus!
