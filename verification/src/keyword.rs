//! The CSS-wide keywords, and which identifiers may be a `<custom-ident>`.
use vstd::prelude::*;

use crate::text::{ascii_lowercase, eq_ignore_ascii_case, str_eq_ignore_ascii_case};

verus! {

/// A CSS-wide keyword: a value that every property accepts.
#[derive(Clone, Copy, Debug, PartialEq, Eq, Structural)]
pub enum CSSWideKeyword {
    /// `initial`
    Initial,
    /// `inherit`
    Inherit,
    /// `unset`
    Unset,
    /// `revert`
    Revert,
    /// `revert-layer`
    RevertLayer,
}

/// The CSS-wide keyword that `ident` names, in any ASCII case.
pub open spec fn css_wide_keyword_of(ident: Seq<char>) -> Option<CSSWideKeyword> {
    if eq_ignore_ascii_case(ident, "initial"@) {
        Some(CSSWideKeyword::Initial)
    } else if eq_ignore_ascii_case(ident, "inherit"@) {
        Some(CSSWideKeyword::Inherit)
    } else if eq_ignore_ascii_case(ident, "unset"@) {
        Some(CSSWideKeyword::Unset)
    } else if eq_ignore_ascii_case(ident, "revert"@) {
        Some(CSSWideKeyword::Revert)
    } else if eq_ignore_ascii_case(ident, "revert-layer"@) {
        Some(CSSWideKeyword::RevertLayer)
    } else {
        None
    }
}

/// `ident` matches one of `excluding` in some ASCII case.
pub open spec fn is_excluded(ident: Seq<char>, excluding: Seq<Seq<char>>) -> bool {
    exists|i: int| 0 <= i < excluding.len() && eq_ignore_ascii_case(ident, #[trigger] excluding[i])
}

/// The texts of a slice of strings.
pub open spec fn str_views(strs: Seq<&str>) -> Seq<Seq<char>> {
    strs.map_values(|s: &str| s@)
}

/// Whether `ident` may be a `<custom-ident>` where the keywords `excluding`
/// are also reserved: it is no CSS-wide keyword, not `default`, and none of
/// `excluding`, in any ASCII case.
pub open spec fn is_valid_custom_ident(ident: Seq<char>, excluding: Seq<Seq<char>>) -> bool {
    &&& css_wide_keyword_of(ident) is None
    &&& !eq_ignore_ascii_case(ident, "default"@)
    &&& !is_excluded(ident, excluding)
}

/// Whether an identifier is a CSS-wide keyword, and whether it may be a
/// `<custom-ident>`, does not depend on the ASCII case of its letters: the
/// keywords, `default` and the excluded keywords are matched in all ASCII
/// case permutations.
pub proof fn lemma_custom_ident_ignores_ascii_case(a: Seq<char>, b: Seq<char>, excluding: Seq<Seq<char>>)
    requires
        ascii_lowercase(a) == ascii_lowercase(b),
    ensures
        css_wide_keyword_of(a) == css_wide_keyword_of(b),
        is_valid_custom_ident(a, excluding) == is_valid_custom_ident(b, excluding),
{
    assert(is_excluded(a, excluding) == is_excluded(b, excluding));
}

/// No CSS-wide keyword, nor `default`, nor any excluded keyword, is a valid
/// `<custom-ident>`, whatever the ASCII case in which it is written.
pub proof fn lemma_reserved_words_are_not_custom_idents(ident: Seq<char>, excluding: Seq<Seq<char>>)
    requires
        css_wide_keyword_of(ident) is Some || eq_ignore_ascii_case(ident, "default"@) || exists|i: int|
            0 <= i < excluding.len() && eq_ignore_ascii_case(ident, #[trigger] excluding[i]),
    ensures
        !is_valid_custom_ident(ident, excluding),
{
}

/// The CSS-wide keywords are exactly `initial`, `inherit`, `unset`, `revert`
/// and `revert-layer`, in any ASCII case, each naming its own keyword; any
/// other identifier names none.
pub proof fn lemma_css_wide_keywords_are_the_five(ident: Seq<char>)
    ensures
        css_wide_keyword_of(ident) is Some <==> (eq_ignore_ascii_case(ident, "initial"@)
            || eq_ignore_ascii_case(ident, "inherit"@) || eq_ignore_ascii_case(ident, "unset"@)
            || eq_ignore_ascii_case(ident, "revert"@) || eq_ignore_ascii_case(ident, "revert-layer"@)),
        eq_ignore_ascii_case(ident, "initial"@) ==> css_wide_keyword_of(ident) == Some(CSSWideKeyword::Initial),
        eq_ignore_ascii_case(ident, "inherit"@) ==> css_wide_keyword_of(ident) == Some(CSSWideKeyword::Inherit),
        eq_ignore_ascii_case(ident, "unset"@) ==> css_wide_keyword_of(ident) == Some(CSSWideKeyword::Unset),
        eq_ignore_ascii_case(ident, "revert"@) ==> css_wide_keyword_of(ident) == Some(CSSWideKeyword::Revert),
        eq_ignore_ascii_case(ident, "revert-layer"@) ==> css_wide_keyword_of(ident) == Some(
            CSSWideKeyword::RevertLayer,
        ),
{
    reveal_strlit("initial");
    reveal_strlit("inherit");
    reveal_strlit("unset");
    reveal_strlit("revert");
    reveal_strlit("revert-layer");
    if eq_ignore_ascii_case(ident, "inherit"@) {
        assert(ascii_lowercase("inherit"@)[2] == 'h');
        assert(ascii_lowercase("initial"@)[2] == 'i');
        assert(ascii_lowercase("inherit"@) != ascii_lowercase("initial"@));
    }
    if eq_ignore_ascii_case(ident, "unset"@) {
        assert(ascii_lowercase("unset"@).len() == 5);
        assert(ascii_lowercase("initial"@).len() == 7);
        assert(ascii_lowercase("inherit"@).len() == 7);
    }
    if eq_ignore_ascii_case(ident, "revert"@) {
        assert(ascii_lowercase("revert"@).len() == 6);
        assert(ascii_lowercase("unset"@).len() == 5);
        assert(ascii_lowercase("initial"@).len() == 7);
        assert(ascii_lowercase("inherit"@).len() == 7);
    }
    if eq_ignore_ascii_case(ident, "revert-layer"@) {
        assert(ascii_lowercase("revert-layer"@).len() == 12);
        assert(ascii_lowercase("revert"@).len() == 6);
        assert(ascii_lowercase("unset"@).len() == 5);
        assert(ascii_lowercase("initial"@).len() == 7);
        assert(ascii_lowercase("inherit"@).len() == 7);
    }
}

/// An identifier is a valid `<custom-ident>` exactly when it matches, in no
/// ASCII case, any of `initial`, `inherit`, `unset`, `revert`,
/// `revert-layer`, `default` or the excluded keywords: these are the only
/// identifiers refused, and any other identifier, of any length and any
/// letters, is accepted.
pub proof fn lemma_custom_ident_valid_iff_not_reserved(ident: Seq<char>, excluding: Seq<Seq<char>>)
    ensures
        is_valid_custom_ident(ident, excluding) <==> {
            &&& !eq_ignore_ascii_case(ident, "initial"@)
            &&& !eq_ignore_ascii_case(ident, "inherit"@)
            &&& !eq_ignore_ascii_case(ident, "unset"@)
            &&& !eq_ignore_ascii_case(ident, "revert"@)
            &&& !eq_ignore_ascii_case(ident, "revert-layer"@)
            &&& !eq_ignore_ascii_case(ident, "default"@)
            &&& forall|i: int| 0 <= i < excluding.len() ==> !eq_ignore_ascii_case(ident, #[trigger] excluding[i])
        },
{
    lemma_css_wide_keywords_are_the_five(ident);
}

impl CSSWideKeyword {
    /// The CSS-wide keyword that `ident` names, in any ASCII case.
    pub fn from_ident(ident: &str) -> (r: Result<CSSWideKeyword, ()>)
        ensures
            r == (match css_wide_keyword_of(ident@) {
                Some(k) => Ok(k),
                None => Err(()),
            }),
    {
        if str_eq_ignore_ascii_case(ident, "initial") {
            Ok(CSSWideKeyword::Initial)
        } else if str_eq_ignore_ascii_case(ident, "inherit") {
            Ok(CSSWideKeyword::Inherit)
        } else if str_eq_ignore_ascii_case(ident, "unset") {
            Ok(CSSWideKeyword::Unset)
        } else if str_eq_ignore_ascii_case(ident, "revert") {
            Ok(CSSWideKeyword::Revert)
        } else if str_eq_ignore_ascii_case(ident, "revert-layer") {
            Ok(CSSWideKeyword::RevertLayer)
        } else {
            Err(())
        }
    }
}

/// Whether some string of `excluding` matches `ident` in ASCII case, like
/// `excluding.iter().any(|s| ident.eq_ignore_ascii_case(s))`.
pub fn any_excluded(ident: &str, excluding: &[&str]) -> (r: bool)
    ensures
        r == is_excluded(ident@, str_views(excluding@)),
{
    let mut i: usize = 0;
    while i < excluding.len()
        invariant
            i <= excluding@.len(),
            forall|j: int| 0 <= j < i ==> !eq_ignore_ascii_case(ident@, #[trigger] str_views(excluding@)[j]),
        decreases excluding@.len() - i,
    {
        if str_eq_ignore_ascii_case(ident, excluding[i]) {
            assert(str_views(excluding@)[i as int] == excluding@[i as int]@);
            return true;
        }
        i = i + 1;
    }
    false
}

} // verus!
