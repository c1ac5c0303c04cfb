//! Parse errors and the tokens that the values of this library are read from,
//! as the `cssparser` tokenizer hands them out.
use vstd::prelude::*;

verus! {

#[verifier::external_type_specification]
#[verifier::external_body]
pub struct ExSourceLocation(cssparser::SourceLocation);

#[verifier::external_type_specification]
#[verifier::external_body]
pub struct ExParser<'i, 't>(cssparser::Parser<'i, 't>);

#[verifier::external_type_specification]
#[verifier::external_body]
pub struct ExToken<'a>(cssparser::Token<'a>);

#[verifier::external_type_specification]
#[verifier::external_body]
pub struct ExBasicParseError<'i>(cssparser::BasicParseError<'i>);

/// The errors that the values of this library report themselves.
#[derive(Debug, PartialEq)]
pub enum StyleParseErrorKind {
    /// An identifier that is not allowed where it stands.
    UnexpectedIdent(String),
    /// An error without further details.
    UnspecifiedError,
}

/// The errors that the tokenizer reports.
#[derive(Debug, PartialEq)]
pub enum BasicParseErrorKind<'i> {
    /// An unexpected token was encountered.
    UnexpectedToken(cssparser::Token<'i>),
    /// The end of the input was encountered unexpectedly.
    EndOfInput,
    /// An `@` rule was encountered that was invalid.
    AtRuleInvalid(String),
    /// The body of an `@` rule was invalid.
    AtRuleBodyInvalid,
    /// A qualified rule was encountered that was invalid.
    QualifiedRuleInvalid,
}

/// What went wrong while parsing.
#[derive(Debug, PartialEq)]
pub enum ParseErrorKind<'i> {
    /// An error of the tokenizer.
    Basic(BasicParseErrorKind<'i>),
    /// An error of a value of this library.
    Custom(StyleParseErrorKind),
}

/// A parse error and the place in the input where it occurred.
#[derive(Debug, PartialEq)]
pub struct ParseError<'i> {
    /// What went wrong.
    pub kind: ParseErrorKind<'i>,
    /// Where it went wrong.
    pub location: cssparser::SourceLocation,
}

/// The next token of the input, as far as the values of this library tell
/// tokens apart.
#[derive(Debug, PartialEq)]
pub enum CssToken<'i> {
    /// An `<ident-token>`, with its unescaped value.
    Ident(String),
    /// A `<string-token>`, with its unescaped value.
    QuotedString(String),
    /// Any other token.
    Other(cssparser::Token<'i>),
}

/// `err` is the custom error "unexpected identifier `ident`" at `location`.
pub open spec fn is_unexpected_ident_error(
    err: ParseError,
    ident: Seq<char>,
    location: cssparser::SourceLocation,
) -> bool {
    &&& err.location == location
    &&& err.kind matches ParseErrorKind::Custom(StyleParseErrorKind::UnexpectedIdent(s))
    &&& s@ == ident
}

/// Builds the custom error "unexpected identifier `ident`" at `location`.
pub fn unexpected_ident_error<'i>(location: cssparser::SourceLocation, ident: &str) -> (err: ParseError<'i>)
    ensures
        is_unexpected_ident_error(err, ident@, location),
{
    ParseError {
        kind: ParseErrorKind::Custom(StyleParseErrorKind::UnexpectedIdent(ident.to_owned())),
        location,
    }
}

/// Moves an error of the `cssparser` tokenizer, field by field, into a
/// [`ParseError`] of kind [`ParseErrorKind::Basic`].
#[verifier::external_body]
pub(crate) fn from_basic_error<'i>(err: cssparser::BasicParseError<'i>) -> (converted: ParseError<'i>)
    ensures
        converted.kind is Basic,
{
    let kind = match err.kind {
        cssparser::BasicParseErrorKind::UnexpectedToken(t) => BasicParseErrorKind::UnexpectedToken(t),
        cssparser::BasicParseErrorKind::EndOfInput => BasicParseErrorKind::EndOfInput,
        cssparser::BasicParseErrorKind::AtRuleInvalid(s) => BasicParseErrorKind::AtRuleInvalid(s.to_string()),
        cssparser::BasicParseErrorKind::AtRuleBodyInvalid => BasicParseErrorKind::AtRuleBodyInvalid,
        cssparser::BasicParseErrorKind::QualifiedRuleInvalid => BasicParseErrorKind::QualifiedRuleInvalid,
    };
    ParseError { kind: ParseErrorKind::Basic(kind), location: err.location }
}

/// What the next call of `Parser::next` on a parser gives, as far as the
/// values of this library tell tokens apart.
pub enum NextToken {
    /// An `<ident-token>` with this unescaped value.
    Ident(Seq<char>),
    /// A `<string-token>` with this unescaped value.
    QuotedString(Seq<char>),
    /// Any other token.
    OtherToken,
    /// No token: the input is exhausted, or the next token is a closing one
    /// that does not match an open block.
    NoToken,
}

/// Where a parser stands in its input, as `Parser::current_source_location`
/// gives it: the line and column of its position.
pub uninterp spec fn parser_location(input: cssparser::Parser) -> cssparser::SourceLocation;

/// What `Parser::next` gives on a parser: the next token after white space
/// and comments, which the parser's input, position and block state decide.
pub uninterp spec fn parser_next_token(input: cssparser::Parser) -> NextToken;

/// `Parser::current_source_location`: where the parser stands in its input.
#[verifier::external_body]
pub(crate) fn current_location(input: &cssparser::Parser) -> (location: cssparser::SourceLocation)
    ensures
        location == parser_location(*input),
{
    input.current_source_location()
}

/// `Parser::next`: the next token that is not white space or a comment,
/// with its value copied into a [`CssToken`]; an error where there is none.
#[verifier::external_body]
pub(crate) fn next_token<'i, 't>(input: &mut cssparser::Parser<'i, 't>) -> (r: Result<CssToken<'i>, cssparser::BasicParseError<'i>>)
    ensures
        match parser_next_token(*old(input)) {
            NextToken::Ident(s) => r matches Ok(CssToken::Ident(t)) && t@ == s,
            NextToken::QuotedString(s) => r matches Ok(CssToken::QuotedString(t)) && t@ == s,
            NextToken::OtherToken => r matches Ok(CssToken::Other(_)),
            NextToken::NoToken => r is Err,
        },
{
    match input.next() {
        Ok(cssparser::Token::Ident(s)) => Ok(CssToken::Ident(s.to_string())),
        Ok(cssparser::Token::QuotedString(s)) => Ok(CssToken::QuotedString(s.to_string())),
        Ok(t) => Ok(CssToken::Other(t.clone())),
        Err(e) => Err(e),
    }
}

/// `Parser::expect_ident`: the value of the next token if it is an
/// `<ident-token>`, an error otherwise. Its source calls `Parser::next` and
/// matches the token, so it succeeds exactly when that gives an identifier.
#[verifier::external_body]
pub(crate) fn expect_ident<'i, 't>(input: &mut cssparser::Parser<'i, 't>) -> (r: Result<String, cssparser::BasicParseError<'i>>)
    ensures
        match parser_next_token(*old(input)) {
            NextToken::Ident(s) => r matches Ok(t) && t@ == s,
            _ => r is Err,
        },
{
    input.expect_ident().map(|s| s.to_string())
}

/// `Parser::expect_string`: the value of the next token if it is a
/// `<string-token>`, an error otherwise. Its source calls `Parser::next` and
/// matches the token, so it succeeds exactly when that gives a quoted string.
#[verifier::external_body]
pub(crate) fn expect_string<'i, 't>(input: &mut cssparser::Parser<'i, 't>) -> (r: Result<String, cssparser::BasicParseError<'i>>)
    ensures
        match parser_next_token(*old(input)) {
            NextToken::QuotedString(s) => r matches Ok(t) && t@ == s,
            _ => r is Err,
        },
{
    input.expect_string().map(|s| s.to_string())
}

} // verus!
