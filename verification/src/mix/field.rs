//! Field specifications and the comparison indicator.

use vstd::prelude::*;

verus! {

/// The state of the comparison indicator.
#[derive(Debug, Copy, Clone, PartialEq, Eq, Structural)]
pub enum Comparison {
    Less,
    Equal,
    Greater,
}

/// The left end of the field that `spec` encodes.
pub open spec fn spec_field_left(spec: u8) -> int {
    spec as int / 8
}

/// The right end of the field that `spec` encodes.
pub open spec fn spec_field_right(spec: u8) -> int {
    spec as int % 8
}

/// Whether `spec` encodes a field `(L:R)` of a word: 0 <= L <= R <= 5.
pub open spec fn valid_field_spec(spec: u8) -> bool {
    spec_field_left(spec) <= spec_field_right(spec) <= 5
}

/// The byte that encodes the pair `(left:right)`: eight times the left end
/// plus the right end. The pair is a field of a word where 0 <= L <= R <= 5.
pub fn field_spec(left: u8, right: u8) -> (spec: u8)
    requires
        left <= 31,
        right <= 7,
    ensures
        spec == 8 * left + right,
        spec_field_left(spec) == left,
        spec_field_right(spec) == right,
        valid_field_spec(spec) <==> left <= right <= 5,
{
    left * 8 + right
}

/// The two ends `(L, R)` of the field that `spec` encodes.
pub fn decode_field_spec(spec: u8) -> (ends: (u8, u8))
    ensures
        ends.0 == spec_field_left(spec),
        ends.1 == spec_field_right(spec),
        spec == 8 * ends.0 + ends.1,
        ends.1 < 8,
{
    (spec / 8, spec % 8)
}

/// Whether `spec` encodes a field of a word.
pub fn is_valid_field_spec(spec: u8) -> (r: bool)
    ensures
        r == valid_field_spec(spec),
{
    spec / 8 <= spec % 8 && spec % 8 <= 5
}

} // verus!
