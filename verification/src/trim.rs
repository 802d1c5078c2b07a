//! Core trimming operations on vectors, with the sequences they return
//! pinned down exactly, and the laws the operations obey.

use vstd::prelude::*;

verus! {

/// A requested count, reduced so that it never exceeds the length it is
/// applied to.
pub open spec fn clamped(n: nat, len: nat) -> nat {
    if n <= len {
        n
    } else {
        len
    }
}

/// The sequence with its first `n` elements removed; `n` is clamped to the
/// length, so the result is empty (never undefined) when `n` is too large.
pub open spec fn seq_drop_left<T>(s: Seq<T>, n: nat) -> Seq<T> {
    s.subrange(clamped(n, s.len()) as int, s.len() as int)
}

/// Remove the first `num` elements of `array`, clamping `num` to the length.
pub fn drop_left<T>(array: Vec<T>, num: usize) -> (r: Vec<T>)
    ensures
        r@ == seq_drop_left(array@, num as nat),
{
    let mut a = array;
    let n = if num <= a.len() {
        num
    } else {
        a.len()
    };
    a.split_off(n)
}

/// The sequence with its last `n` elements removed; `n` is clamped to the
/// length, so the result is empty (never undefined) when `n` is too large.
pub open spec fn seq_drop_right<T>(s: Seq<T>, n: nat) -> Seq<T> {
    s.subrange(0, (s.len() - clamped(n, s.len())) as int)
}

/// The sequence with `right` trailing elements removed first, then `left`
/// leading elements removed from what remains. Each removal clamps its count
/// to the length it is applied to, so the result is defined for every pair of
/// counts and is empty when together they cover the whole sequence.
pub open spec fn seq_drop_sides<T>(s: Seq<T>, left: nat, right: nat) -> Seq<T> {
    seq_drop_left(seq_drop_right(s, right), left)
}

/// Remove the last `num` elements of `array`, clamping `num` to the length.
pub fn drop_right<T>(array: Vec<T>, num: usize) -> (r: Vec<T>)
    ensures
        r@ == seq_drop_right(array@, num as nat),
{
    let mut a = array;
    let n = if num <= a.len() {
        num
    } else {
        a.len()
    };
    let keep = a.len() - n;
    a.truncate(keep);
    a
}

/// Remove `right` trailing elements of `array`, then `left` leading elements
/// of what remains. Both counts are clamped against the original length, as
/// the two-step trim demands; since the leading removal then works on the
/// already shortened vector, its count is clamped once more against the
/// remaining length, so the removal stays in range even when the two counts
/// together exceed the original length. That second clamp changes no
/// in-range result: it only turns an out-of-range leading removal into
/// "remove everything that is left".
pub fn drop_sides<T>(array: Vec<T>, left: usize, right: usize) -> (r: Vec<T>)
    ensures
        r@ == seq_drop_sides(array@, left as nat, right as nat),
{
    let mut a = array;
    let len = a.len();
    let n_right = if right <= len {
        right
    } else {
        len
    };
    let keep = len - n_right;
    a.truncate(keep);
    let n_left = if left <= len {
        left
    } else {
        len
    };
    drop_left(a, n_left)
}

/// Law: dropping `n` elements from the left leaves `len - n` elements when
/// `n <= len`, and none at all otherwise.
pub proof fn lemma_drop_left_len<T>(s: Seq<T>, n: nat)
    ensures
        seq_drop_left(s, n).len() == (if n <= s.len() {
            s.len() - n
        } else {
            0
        }),
{
}

/// Law: dropping zero elements, from either end, changes nothing.
pub proof fn lemma_drop_zero<T>(s: Seq<T>)
    ensures
        seq_drop_left(s, 0) == s,
        seq_drop_right(s, 0) == s,
{
    assert(seq_drop_left(s, 0) =~= s);
    assert(seq_drop_right(s, 0) =~= s);
}

/// Law: dropping at least as many elements from the left as the sequence
/// holds leaves the empty sequence; the operation never becomes undefined.
pub proof fn lemma_drop_left_all<T>(s: Seq<T>, n: nat)
    requires
        n >= s.len(),
    ensures
        seq_drop_left(s, n) == Seq::<T>::empty(),
{
    assert(seq_drop_left(s, n) =~= Seq::<T>::empty());
}

/// Law: order is preserved. Every element of the result comes from the input
/// at the same fixed offset, so for any two retained elements the one earlier
/// in the input is also earlier in the output.
pub proof fn lemma_drop_left_order<T>(s: Seq<T>, n: nat)
    ensures
        forall|k: int|
            0 <= k < seq_drop_left(s, n).len() ==> seq_drop_left(s, n)[k] == s[k + clamped(
                n,
                s.len(),
            )],
{
}

/// Law: order is preserved. The result of a right trim is a prefix of the
/// input: every element stays at its own index.
pub proof fn lemma_drop_right_order<T>(s: Seq<T>, n: nat)
    ensures
        forall|k: int| 0 <= k < seq_drop_right(s, n).len() ==> seq_drop_right(s, n)[k] == s[k],
{
}

/// Law: order is preserved. Every element of a two-sided trim comes from the
/// input at the same fixed offset — the clamped left count — so the relative
/// order of the retained elements matches the input.
pub proof fn lemma_drop_sides_order<T>(s: Seq<T>, left: nat, right: nat)
    ensures
        forall|k: int|
            0 <= k < seq_drop_sides(s, left, right).len() ==> seq_drop_sides(s, left, right)[k]
                == s[k + clamped(left, seq_drop_right(s, right).len())],
{
}

} // verus!
