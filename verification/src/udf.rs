//! Nullable scalar entry points around the core trimming operations, in the
//! style of a query engine: the array is optional, every count is optional,
//! and an absent input makes the whole result absent.

use vstd::prelude::*;
use crate::trim::drop_left;
use crate::trim::drop_right;
use crate::trim::drop_sides;
use crate::trim::seq_drop_left;
use crate::trim::seq_drop_right;
use crate::trim::seq_drop_sides;

verus! {

/// The only failure channel of the entry points: a generic signal reserved
/// for unexpected internal faults. The clamping policy makes such a fault
/// unreachable, and every entry point proves that it returns `Ok`.
#[derive(Clone, Copy, PartialEq, Eq, Structural, Debug)]
pub enum TrimError {
    Internal,
}

/// Remove the first `num` elements of a nullable array of nullable strings.
/// If the array or the count is absent, the result is absent; otherwise it is
/// present, with the count clamped to the length.
pub fn grasp_text_array_drop_left(
    array: Option<Vec<Option<String>>>,
    num: Option<u32>,
) -> (r: Result<Option<Vec<Option<String>>>, TrimError>)
    ensures
        r is Ok,
        r->Ok_0 is Some <==> (array is Some && num is Some),
        (array is Some && num is Some) ==> (r->Ok_0->0)@ == seq_drop_left(
            (array->0)@,
            num->0 as nat,
        ),
{
    match (array, num) {
        (Some(a), Some(n)) => Ok(Some(drop_left(a, n as usize))),
        _ => Ok(None),
    }
}

/// Remove the last `num` elements of a nullable array of nullable strings.
/// If the array or the count is absent, the result is absent; otherwise it is
/// present, with the count clamped to the length.
pub fn grasp_text_array_drop_right(
    array: Option<Vec<Option<String>>>,
    num: Option<u32>,
) -> (r: Result<Option<Vec<Option<String>>>, TrimError>)
    ensures
        r is Ok,
        r->Ok_0 is Some <==> (array is Some && num is Some),
        (array is Some && num is Some) ==> (r->Ok_0->0)@ == seq_drop_right(
            (array->0)@,
            num->0 as nat,
        ),
{
    match (array, num) {
        (Some(a), Some(n)) => Ok(Some(drop_right(a, n as usize))),
        _ => Ok(None),
    }
}

/// Remove `drop_on_right` trailing and then `drop_on_left` leading elements
/// of a nullable array of nullable values. If the array or either count is
/// absent, the result is absent; otherwise it is present, trimmed by the
/// two-step clamped removal of [`drop_sides`].
pub fn grasp_variant_array_drop_sides<T>(
    array: Option<Vec<Option<T>>>,
    drop_on_left: Option<u32>,
    drop_on_right: Option<u32>,
) -> (r: Result<Option<Vec<Option<T>>>, TrimError>)
    ensures
        r is Ok,
        r->Ok_0 is Some <==> (array is Some && drop_on_left is Some && drop_on_right is Some),
        (array is Some && drop_on_left is Some && drop_on_right is Some) ==> (r->Ok_0->0)@
            == seq_drop_sides((array->0)@, drop_on_left->0 as nat, drop_on_right->0 as nat),
{
    match (array, drop_on_left, drop_on_right) {
        (Some(a), Some(left), Some(right)) => Ok(
            Some(drop_sides(a, left as usize, right as usize)),
        ),
        _ => Ok(None),
    }
}

} // verus!
