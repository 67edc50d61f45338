//! UTF-32: one Unicode scalar value per 32-bit unit.

use vstd::prelude::*;

verus! {

/// The host's wide character: one 32-bit unit, unsigned, that holds one code
/// point.
#[allow(non_camel_case_types)]
pub type wchar_t = u32;

/// Largest Unicode code point.
pub const MAX_CODE_POINT: u32 = 0x10FFFF;

/// First code point of the surrogate block, which holds no scalar value.
pub const SURROGATE_FIRST: u32 = 0xD800;

/// Last code point of the surrogate block.
pub const SURROGATE_LAST: u32 = 0xDFFF;

/// A unit is a Unicode scalar value when it is a code point outside the
/// surrogate block.
pub open spec fn is_scalar_value(unit: u32) -> bool {
    unit <= MAX_CODE_POINT && !(SURROGATE_FIRST <= unit && unit <= SURROGATE_LAST)
}

/// A sequence of units is valid UTF-32 when each of them is a scalar value.
pub open spec fn valid_utf32(units: Seq<u32>) -> bool {
    forall|i: int| 0 <= i < units.len() ==> is_scalar_value(#[trigger] units[i])
}

/// `index` is the position of the first unit of `units` that is no scalar
/// value.
pub open spec fn is_first_invalid(units: Seq<u32>, index: int) -> bool {
    &&& 0 <= index < units.len()
    &&& !is_scalar_value(units[index])
    &&& valid_utf32(units.take(index))
}

/// Where a sequence of units stops being valid UTF-32.
#[derive(Clone, Copy, Debug, PartialEq, Eq, Structural)]
pub struct Utf32Error {
    /// Position of the first unit that is no scalar value.
    pub index: usize,
}

/// Tells whether `unit` is a Unicode scalar value.
pub fn unit_is_scalar_value(unit: u32) -> (ok: bool)
    ensures
        ok == is_scalar_value(unit),
{
    unit <= MAX_CODE_POINT && !(SURROGATE_FIRST <= unit && unit <= SURROGATE_LAST)
}

/// Checks that `units` is valid UTF-32, and says where it first fails to be.
pub fn validate(units: &[u32]) -> (checked: Result<(), Utf32Error>)
    ensures
        checked is Ok <==> valid_utf32(units@),
        checked matches Err(e) ==> is_first_invalid(units@, e.index as int),
{
    let mut i: usize = 0;
    while i < units.len()
        invariant
            i <= units.len(),
            valid_utf32(units@.take(i as int)),
        decreases units.len() - i,
    {
        if !unit_is_scalar_value(units[i]) {
            return Err(Utf32Error { index: i });
        }
        assert forall|k: int| 0 <= k < i + 1 implies is_scalar_value(
            #[trigger] units@.take(i + 1)[k],
        ) by {
            if k < i {
                assert(units@.take(i as int)[k] == units@[k]);
            }
        }
        i += 1;
    }
    assert(units@.take(i as int) =~= units@);
    Ok(())
}

/// A sequence has at most one first invalid unit, and a valid sequence has
/// none.
pub proof fn lemma_first_invalid_unique(units: Seq<u32>, a: int, b: int)
    requires
        is_first_invalid(units, a),
        is_first_invalid(units, b),
    ensures
        a == b,
        !valid_utf32(units),
{
    if a < b {
        assert(units.take(b)[a] == units[a]);
    } else if b < a {
        assert(units.take(a)[b] == units[b]);
    }
}

} // verus!
