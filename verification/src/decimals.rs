//! Decimal numbers, read and ordered by `bigdecimal`.
use std::str::FromStr;
use vstd::prelude::*;

verus! {

/// Where a decimal number written as `text` stands against `bound`: `-1`
/// below, `0` equal, `1` above; none when the text is not a number.
pub uninterp spec fn decimal_order(text: Seq<char>, bound: i64) -> Option<i8>;

/// `bigdecimal::BigDecimal::from_str(text)` ordered against
/// `BigDecimal::from(bound)` (`Ord::cmp`), the three orders as `-1`, `0`
/// and `1`. Reading decimals takes pages to state; the result is named
/// `decimal_order` of the text and the bound, and only its range is claimed.
/// The `requires` keeps out exponents: the crate's parser computes the scale
/// as the count of fraction digits less the exponent, which overflows for
/// large exponents, and ordering numbers whose scales differ widely takes
/// time and memory that grow with the difference.
#[verifier::external_body]
pub(crate) fn rating_order(text: &str, bound: i64) -> (r: Option<i8>)
    requires
        !text@.contains('e') && !text@.contains('E'),
    ensures
        r == decimal_order(text@, bound),
        r matches Some(x) ==> -1 <= x <= 1,
{
    let b = bigdecimal::BigDecimal::from(bound);
    match bigdecimal::BigDecimal::from_str(text) {
        Ok(d) => match d.cmp(&b) {
            std::cmp::Ordering::Less => Some(-1),
            std::cmp::Ordering::Equal => Some(0),
            std::cmp::Ordering::Greater => Some(1),
        },
        Err(_) => None,
    }
}

} // verus!
