use css_values::dimension::{serialize_number, serialize_specified_dimension, CssNumber};
use css_values::keyword::{any_excluded, CSSWideKeyword};
use css_values::parsing::{
    BasicParseErrorKind, CssToken, ParseErrorKind, StyleParseErrorKind,
};
use css_values::text::{starts_with_two_hyphens, str_eq_ignore_ascii_case};
use css_values::values::{
    serialize_atom_identifier, serialize_atom_name, AtomIdent, AtomString, CustomIdent,
    DashedIdent, Either, GenericAtomIdent, KeyframesName,
};
use cssparser::{Parser, ParserInput, SourceLocation};
use std::borrow::Borrow;
use string_cache::DefaultAtom;

fn loc() -> SourceLocation {
    SourceLocation { line: 3, column: 7 }
}

fn keyframes_css(name: &KeyframesName) -> String {
    let mut s = String::new();
    name.to_css(&mut s);
    s
}

#[test]
fn ascii_case_insensitive_comparison() {
    assert!(str_eq_ignore_ascii_case("Initial", "iNITIAL"));
    assert!(str_eq_ignore_ascii_case("", ""));
    assert!(!str_eq_ignore_ascii_case("initial", "initia"));
    assert!(!str_eq_ignore_ascii_case("é", "É"));
    assert!(str_eq_ignore_ascii_case("é-A", "é-a"));
}

#[test]
fn two_hyphen_prefix() {
    assert!(starts_with_two_hyphens("--x"));
    assert!(starts_with_two_hyphens("--"));
    assert!(!starts_with_two_hyphens("-x"));
    assert!(!starts_with_two_hyphens(""));
}

#[test]
fn css_wide_keywords_in_any_case() {
    assert_eq!(CSSWideKeyword::from_ident("initial"), Ok(CSSWideKeyword::Initial));
    assert_eq!(CSSWideKeyword::from_ident("INHERIT"), Ok(CSSWideKeyword::Inherit));
    assert_eq!(CSSWideKeyword::from_ident("UnSet"), Ok(CSSWideKeyword::Unset));
    assert_eq!(CSSWideKeyword::from_ident("revert"), Ok(CSSWideKeyword::Revert));
    assert_eq!(CSSWideKeyword::from_ident("Revert-Layer"), Ok(CSSWideKeyword::RevertLayer));
    assert_eq!(CSSWideKeyword::from_ident("default"), Err(()));
    assert_eq!(CSSWideKeyword::from_ident("initials"), Err(()));
}

#[test]
fn excluded_keywords_match_in_any_case() {
    assert!(any_excluded("NONE", &["auto", "none"]));
    assert!(!any_excluded("nones", &["auto", "none"]));
    assert!(!any_excluded("none", &[]));
}

#[test]
fn custom_ident_validity() {
    assert!(CustomIdent::is_valid("foo", &[]));
    assert!(CustomIdent::is_valid("foo", &["bar"]));
    assert!(!CustomIdent::is_valid("initial", &[]));
    assert!(!CustomIdent::is_valid("INHERIT", &[]));
    assert!(!CustomIdent::is_valid("revert-layer", &[]));
    assert!(!CustomIdent::is_valid("default", &[]));
    assert!(!CustomIdent::is_valid("DeFaUlT", &[]));
    assert!(!CustomIdent::is_valid("Bar", &["foo", "bar"]));
    assert!(CustomIdent::is_valid("defaults", &[]));
}

#[test]
fn custom_ident_validity_ignores_ascii_case() {
    for (a, b) in [("Foo", "foo"), ("NONE", "none"), ("Initial", "INITIAL"), ("dEfAuLt", "default")] {
        assert_eq!(CustomIdent::is_valid(a, &["none"]), CustomIdent::is_valid(b, &["none"]));
    }
}

#[test]
fn custom_ident_from_ident() {
    let ok = CustomIdent::from_ident(loc(), "my-anim", &["none"]).unwrap();
    assert_eq!(&*ok.0, "my-anim");
    let err = CustomIdent::from_ident(loc(), "None", &["none"]).unwrap_err();
    assert_eq!(err.kind, ParseErrorKind::Custom(StyleParseErrorKind::UnexpectedIdent("None".to_string())));
    assert_eq!(err.location, loc());
    let err = CustomIdent::from_ident(loc(), "unset", &[]).unwrap_err();
    assert_eq!(err.kind, ParseErrorKind::Custom(StyleParseErrorKind::UnexpectedIdent("unset".to_string())));
}

#[test]
fn custom_ident_parse() {
    let mut input = ParserInput::new("  slide-in ");
    let mut parser = Parser::new(&mut input);
    let ident = CustomIdent::parse(&mut parser, &[]).unwrap();
    assert_eq!(&*ident.0, "slide-in");

    let mut input = ParserInput::new("inherit");
    let mut parser = Parser::new(&mut input);
    let err = CustomIdent::parse(&mut parser, &[]).unwrap_err();
    assert_eq!(err.kind, ParseErrorKind::Custom(StyleParseErrorKind::UnexpectedIdent("inherit".to_string())));

    let mut input = ParserInput::new("12px");
    let mut parser = Parser::new(&mut input);
    let err = CustomIdent::parse(&mut parser, &[]).unwrap_err();
    assert!(matches!(err.kind, ParseErrorKind::Basic(BasicParseErrorKind::UnexpectedToken(_))));

    let mut input = ParserInput::new("");
    let mut parser = Parser::new(&mut input);
    let err = CustomIdent::parse(&mut parser, &[]).unwrap_err();
    assert_eq!(err.kind, ParseErrorKind::Basic(BasicParseErrorKind::EndOfInput));
}

#[test]
fn custom_ident_to_css_escapes() {
    let ident = CustomIdent(DefaultAtom::from("1st"));
    let mut s = String::new();
    ident.to_css(&mut s);
    assert_eq!(s, "\\31 st");
}

#[test]
fn dashed_ident_from_ident() {
    let d = DashedIdent::from_ident(loc(), "--main-color").unwrap();
    assert_eq!(&*d.0, "--main-color");
    assert!(!d.is_empty());
    let err = DashedIdent::from_ident(loc(), "-main").unwrap_err();
    assert_eq!(err.kind, ParseErrorKind::Custom(StyleParseErrorKind::UnexpectedIdent("-main".to_string())));
    assert_eq!(err.location, loc());
    assert!(DashedIdent::from_ident(loc(), "--").is_ok());
}

#[test]
fn dashed_ident_empty() {
    let e = DashedIdent::empty();
    assert!(e.is_empty());
    assert_eq!(&*e.0, "");
}

#[test]
fn dashed_ident_parse_and_serialize() {
    let mut input = ParserInput::new("--accent");
    let mut parser = Parser::new(&mut input);
    let d = DashedIdent::parse(&mut parser).unwrap();
    let mut s = String::from(">");
    d.to_css(&mut s);
    assert_eq!(s, ">--accent");

    let mut input = ParserInput::new("accent");
    let mut parser = Parser::new(&mut input);
    assert!(DashedIdent::parse(&mut parser).is_err());

    let d = DashedIdent(DefaultAtom::from("--a.b"));
    let mut s = String::new();
    d.to_css(&mut s);
    assert_eq!(s, "--a\\.b");
}

#[test]
fn keyframes_name_none() {
    let none = KeyframesName::none();
    assert!(none.is_none());
    assert_eq!(keyframes_css(&none), "none");
    assert!(KeyframesName::from_ident("").is_none());
    assert!(!KeyframesName::from_ident("fade").is_none());
    assert_eq!(&**KeyframesName::from_ident("fade").as_atom(), "fade");
    assert_eq!(&**KeyframesName::from_atom(DefaultAtom::from("spin")).as_atom(), "spin");
}

#[test]
fn keyframes_name_keeps_its_atom() {
    let atom = DefaultAtom::from("a-fairly-long-animation");
    let k = KeyframesName::from_atom(atom.clone());
    assert!(*k.as_atom() == atom);
    assert!(!k.is_none());
    assert!(KeyframesName::from_atom(DefaultAtom::from("")).is_none());
    let i = AtomIdent::new(atom.clone());
    assert!(i.0 == atom);
}

#[test]
fn keyframes_name_to_css() {
    assert_eq!(keyframes_css(&KeyframesName::from_ident("fade")), "fade");
    assert_eq!(keyframes_css(&KeyframesName::from_ident("none")), "\"none\"");
    assert_eq!(keyframes_css(&KeyframesName::from_ident("NONE")), "\"NONE\"");
    assert_eq!(keyframes_css(&KeyframesName::from_ident("initial")), "\"initial\"");
    assert_eq!(keyframes_css(&KeyframesName::from_ident("default")), "\"default\"");
    assert_eq!(keyframes_css(&KeyframesName::from_ident("a b")), "a\\ b");
    assert_eq!(keyframes_css(&KeyframesName::from_ident("2x")), "\\32 x");
}

#[test]
fn keyframes_name_reserved_names_are_quoted() {
    for name in ["none", "None", "inherit", "UNSET", "revert", "revert-layer", "Default"] {
        let s = keyframes_css(&KeyframesName::from_ident(name));
        assert!(s.starts_with('"') && s.ends_with('"'), "{}", s);
    }
}

#[test]
fn keyframes_name_from_token() {
    let k = KeyframesName::from_token(loc(), CssToken::Ident("bounce".to_string())).unwrap();
    assert_eq!(&**k.as_atom(), "bounce");
    let k = KeyframesName::from_token(loc(), CssToken::QuotedString("none".to_string())).unwrap();
    assert_eq!(&**k.as_atom(), "none");
    let err = KeyframesName::from_token(loc(), CssToken::Ident("None".to_string())).unwrap_err();
    assert_eq!(err.kind, ParseErrorKind::Custom(StyleParseErrorKind::UnexpectedIdent("None".to_string())));
    assert_eq!(err.location, loc());
    let err = KeyframesName::from_token(loc(), CssToken::Other(cssparser::Token::Comma)).unwrap_err();
    assert_eq!(err.kind, ParseErrorKind::Basic(BasicParseErrorKind::UnexpectedToken(cssparser::Token::Comma)));
    assert_eq!(err.location, loc());
}

#[test]
fn keyframes_name_parse() {
    let mut input = ParserInput::new("bounce");
    let mut parser = Parser::new(&mut input);
    assert_eq!(&**KeyframesName::parse(&mut parser).unwrap().as_atom(), "bounce");

    let mut input = ParserInput::new("\"none\"");
    let mut parser = Parser::new(&mut input);
    let k = KeyframesName::parse(&mut parser).unwrap();
    assert_eq!(&**k.as_atom(), "none");
    assert_eq!(keyframes_css(&k), "\"none\"");

    let mut input = ParserInput::new("none");
    let mut parser = Parser::new(&mut input);
    assert!(KeyframesName::parse(&mut parser).is_err());

    let mut input = ParserInput::new("3s");
    let mut parser = Parser::new(&mut input);
    let err = KeyframesName::parse(&mut parser).unwrap_err();
    assert!(matches!(err.kind, ParseErrorKind::Basic(BasicParseErrorKind::UnexpectedToken(_))));
}

#[test]
fn atom_string() {
    let s = AtomString::from("say \"hi\"");
    assert_eq!(s.as_ref(), "say \"hi\"");
    let mut out = String::new();
    s.to_css(&mut out);
    assert_eq!(out, "\"say \\\"hi\\\"\"");
    assert_eq!(AtomString::default().as_ref(), "");

    let mut input = ParserInput::new("'a\\\\b'");
    let mut parser = Parser::new(&mut input);
    let parsed = AtomString::parse(&mut parser).unwrap();
    assert_eq!(parsed.as_ref(), "a\\b");

    let mut input = ParserInput::new("ident");
    let mut parser = Parser::new(&mut input);
    assert!(AtomString::parse(&mut parser).is_err());
}

#[test]
fn precomputed_hashes_agree_for_equal_text() {
    let a = AtomString::from("a-rather-long-string-value");
    let b = AtomString::from("a-rather-long-string-value");
    assert_eq!(a.precomputed_hash(), b.precomputed_hash());
    assert_eq!(AtomIdent::from("ab").precomputed_hash(), AtomIdent::from("ab").precomputed_hash());
}

#[test]
fn precomputed_hash_of_empty_text() {
    assert_eq!(AtomString::from("").precomputed_hash(), 0x3ddddef3);
    assert_eq!(AtomString::default().precomputed_hash(), 0x3ddddef3);
    assert_eq!(AtomIdent::from("").precomputed_hash(), 0x3ddddef3);
}

#[test]
fn precomputed_hash_of_long_text_depends_on_text_only() {
    let a = AtomIdent::from("animation-name-long");
    let b = AtomIdent::new(DefaultAtom::from(String::from("animation-name-long")));
    assert_eq!(a.precomputed_hash(), b.precomputed_hash());
    assert_eq!(a.precomputed_hash(), AtomString::from("animation-name-long").precomputed_hash());
}

#[test]
fn atom_ident_borrow() {
    let i = AtomIdent::from("grid-area");
    let a: &DefaultAtom = i.borrow();
    assert_eq!(&**a, "grid-area");
}

#[test]
fn atom_ident() {
    let i = AtomIdent::from("-9lives");
    let mut s = String::new();
    i.to_css(&mut s);
    assert_eq!(s, "-\\39 lives");
    assert_eq!(&*AtomIdent::new(DefaultAtom::from("x")).0, "x");
    let g = GenericAtomIdent::new(DefaultAtom::from("y"));
    assert_eq!(&*g.0, "y");
}

#[test]
fn atom_identifier_and_name() {
    let mut s = String::new();
    serialize_atom_identifier(&DefaultAtom::from("-"), &mut s);
    assert_eq!(s, "\\-");
    let mut s = String::new();
    serialize_atom_name(&DefaultAtom::from("1a b"), &mut s);
    assert_eq!(s, "1a\\ b");
    let mut s = String::new();
    serialize_atom_identifier(&DefaultAtom::from(""), &mut s);
    assert_eq!(s, "");
}

#[test]
fn dimensions() {
    let mut s = String::new();
    serialize_specified_dimension(&CssNumber::Finite("1.5".to_string()), "px", false, &mut s);
    assert_eq!(s, "1.5px");
    let mut s = String::new();
    serialize_specified_dimension(&CssNumber::Finite("2".to_string()), "em", true, &mut s);
    assert_eq!(s, "calc(2em)");
    let mut s = String::new();
    serialize_specified_dimension(&CssNumber::NaN, "px", true, &mut s);
    assert_eq!(s, "calc(NaN * 1px)");
    let mut s = String::new();
    serialize_specified_dimension(&CssNumber::Infinity, "%", false, &mut s);
    assert_eq!(s, "infinity * 1%");
    let mut s = String::new();
    serialize_specified_dimension(&CssNumber::NegativeInfinity, "", true, &mut s);
    assert_eq!(s, "calc(-infinity)");
}

#[test]
fn numbers() {
    let mut s = String::new();
    serialize_number(&CssNumber::NaN, false, &mut s);
    assert_eq!(s, "NaN");
    let mut s = String::from("x: ");
    serialize_number(&CssNumber::Finite("0".to_string()), true, &mut s);
    assert_eq!(s, "x: calc(0)");
}

#[test]
fn either_values() {
    let a: Either<u8, bool> = Either::First(3);
    let b: Either<u8, bool> = Either::Second(true);
    assert_ne!(a, b);
    assert_eq!(a, Either::First(3));
}
