//! Serialization of numbers and dimensions, with `calc()` and the keywords
//! that stand for values that are not finite.
use vstd::prelude::*;

verus! {

/// A number as it is serialized: the text of a finite value, or one of the
/// values that are not finite.
#[derive(Clone, Debug, PartialEq)]
pub enum CssNumber {
    /// A finite value, with its CSS serialization.
    Finite(String),
    /// Not a number.
    NaN,
    /// Positive infinity.
    Infinity,
    /// Negative infinity.
    NegativeInfinity,
}

/// What stands after a keyword that is not a finite number: ` * 1` so that
/// the unit follows a product, or nothing where there is no unit.
pub open spec fn keyword_unit_glue(unit: Seq<char>) -> Seq<char> {
    if unit.len() == 0 {
        Seq::empty()
    } else {
        " * 1"@
    }
}

/// The serialization of a number without its unit.
pub open spec fn number_css(v: CssNumber, unit: Seq<char>) -> Seq<char> {
    match v {
        CssNumber::Finite(text) => text@,
        CssNumber::NaN => "NaN"@ + keyword_unit_glue(unit),
        CssNumber::Infinity => "infinity"@ + keyword_unit_glue(unit),
        CssNumber::NegativeInfinity => "-infinity"@ + keyword_unit_glue(unit),
    }
}

/// The serialization of a dimension: the number, then the unit, all inside
/// `calc(` and `)` where the value came from `calc()`.
pub open spec fn dimension_css(v: CssNumber, unit: Seq<char>, was_calc: bool) -> Seq<char> {
    if was_calc {
        "calc("@ + number_css(v, unit) + unit + ")"@
    } else {
        number_css(v, unit) + unit
    }
}

/// Every value that is not finite, NaN, infinity and negative infinity
/// alike, is written as its keyword followed by ` * 1` and the unit where
/// there is a unit, so that the unit follows a product; and as the bare
/// keyword followed by the (empty) unit where there is none. Negative
/// infinity is written as `-` followed by what infinity is written as.
pub proof fn lemma_non_finite_values_are_keyword_products(v: CssNumber, unit: Seq<char>)
    requires
        !(v is Finite),
    ensures
        ({
            let keyword = match v {
                CssNumber::NaN => "NaN"@,
                CssNumber::Infinity => "infinity"@,
                _ => "-infinity"@,
            };
            &&& unit.len() > 0 ==> dimension_css(v, unit, false) == keyword + " * 1"@ + unit
            &&& unit.len() > 0 ==> dimension_css(v, unit, true) == "calc("@ + keyword + " * 1"@ + unit
                + ")"@
            &&& unit.len() == 0 ==> dimension_css(v, unit, false) == keyword
        }),
        dimension_css(CssNumber::NegativeInfinity, unit, false) == seq!['-'] + dimension_css(
            CssNumber::Infinity,
            unit,
            false,
        ),
{
    reveal_strlit("-infinity");
    reveal_strlit("infinity");
    assert("-infinity"@ =~= seq!['-'] + "infinity"@);
    assert(dimension_css(CssNumber::NegativeInfinity, unit, false) =~= seq!['-'] + dimension_css(
        CssNumber::Infinity,
        unit,
        false,
    ));
    if unit.len() == 0 {
        assert(dimension_css(v, unit, false) =~= number_css(v, unit));
    }
}

/// Serializes a specified dimension with its unit, `calc()` and the
/// keywords for values that are not finite.
pub fn serialize_specified_dimension(v: &CssNumber, unit: &str, was_calc: bool, dest: &mut String)
    ensures
        final(dest)@ == old(dest)@ + dimension_css(*v, unit@, was_calc),
{
    if was_calc {
        dest.append("calc(");
    }
    match v {
        CssNumber::Finite(text) => dest.append(text.as_str()),
        _ => {
            // https://drafts.csswg.org/css-values/#calc-error-constants:
            // "While not technically numbers, these keywords act as numeric values,
            // similar to e and pi. Thus to get an infinite length, for example,
            // requires an expression like calc(infinity * 1px)."
            match v {
                CssNumber::NaN => dest.append("NaN"),
                CssNumber::Infinity => dest.append("infinity"),
                _ => dest.append("-infinity"),
            }
            if !unit.is_empty() {
                dest.append(" * 1");
            }
        },
    }
    dest.append(unit);
    if was_calc {
        dest.append(")");
    }
    proof {
        assert(final(dest)@ =~= old(dest)@ + dimension_css(*v, unit@, was_calc));
    }
}

/// Serializes a number, with `calc()` and the keywords for values that are
/// not finite.
pub fn serialize_number(v: &CssNumber, was_calc: bool, dest: &mut String)
    ensures
        final(dest)@ == old(dest)@ + dimension_css(*v, Seq::empty(), was_calc),
{
    proof {
        reveal_strlit("");
    }
    serialize_specified_dimension(v, "", was_calc, dest)
}

} // verus!
