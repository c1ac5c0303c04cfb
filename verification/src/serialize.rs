//! CSS serialization of identifiers, names and strings, done by `cssparser`.
use vstd::prelude::*;

use std::fmt::Write;

use crate::text::has_prefix;

verus! {

/// What `cssparser::serialize_identifier` writes for a string: the
/// identifier with every character escaped that CSS requires.
pub uninterp spec fn css_identifier(value: Seq<char>) -> Seq<char>;

/// What `cssparser::serialize_name` writes for a string: the name with every
/// character escaped that CSS requires.
pub uninterp spec fn css_name(value: Seq<char>) -> Seq<char>;

/// What `cssparser::CssStringWriter` writes for a string: its content escaped
/// for a double-quoted CSS string, without the quotes.
pub uninterp spec fn css_string_escaped(value: Seq<char>) -> Seq<char>;

/// A double-quoted CSS string token for `value`.
pub open spec fn css_quoted_string(value: Seq<char>) -> Seq<char> {
    seq!['"'] + css_string_escaped(value) + seq!['"']
}

/// `cssparser::serialize_identifier` into a `String`, which never fails.
/// Its source writes nothing for the empty string, and for a string that
/// starts with `--` writes `--` followed by `serialize_name` of the rest.
#[verifier::external_body]
pub(crate) fn write_identifier(value: &str, dest: &mut String)
    ensures
        final(dest)@ == old(dest)@ + css_identifier(value@),
        value@.len() == 0 ==> final(dest)@ == old(dest)@,
        has_prefix(value@, seq!['-', '-']) ==> final(dest)@ == old(dest)@ + seq!['-', '-']
            + css_name(value@.skip(2)),
{
    let _ = cssparser::serialize_identifier(value, dest);
}

/// `cssparser::serialize_name` into a `String`, which never fails.
#[verifier::external_body]
pub(crate) fn write_name(value: &str, dest: &mut String)
    ensures
        final(dest)@ == old(dest)@ + css_name(value@),
{
    let _ = cssparser::serialize_name(value, dest);
}

/// `cssparser::serialize_string` into a `String`, which never fails. Its
/// source writes a double quote, the value through `CssStringWriter`, and a
/// double quote.
#[verifier::external_body]
pub(crate) fn write_quoted_string(value: &str, dest: &mut String)
    ensures
        final(dest)@ == old(dest)@ + css_quoted_string(value@),
{
    let _ = cssparser::serialize_string(value, dest);
}

/// `cssparser::CssStringWriter::write_str` over a `String`, which never fails.
#[verifier::external_body]
pub(crate) fn write_string_escaped(value: &str, dest: &mut String)
    ensures
        final(dest)@ == old(dest)@ + css_string_escaped(value@),
{
    let _ = cssparser::CssStringWriter::new(dest).write_str(value);
}

} // verus!
