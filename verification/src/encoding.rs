//! Specification of the canonical byte layout: little-endian byte strings
//! and the sizes and encodings of element sequences.

use vstd::prelude::*;

use crate::BorshSize;

verus! {

/// The `width`-byte little-endian byte string of `x` modulo `256^width`.
/// For a negative `x` this is its two's-complement representation, since
/// the Euclidean remainder and quotient carry the sign through the bytes.
pub open spec fn le_bytes(x: int, width: nat) -> Seq<u8>
    decreases width,
{
    if width == 0 {
        Seq::empty()
    } else {
        seq![(x % 256) as u8] + le_bytes(x / 256, (width - 1) as nat)
    }
}

pub proof fn lemma_le_bytes_len(x: int, width: nat)
    ensures
        le_bytes(x, width).len() == width,
    decreases width,
{
    if width > 0 {
        lemma_le_bytes_len(x / 256, (width - 1) as nat);
    }
}

/// A one-byte little-endian string is just the low byte.
pub proof fn lemma_le_bytes_single(x: int)
    ensures
        le_bytes(x, 1) == seq![(x % 256) as u8],
{
    reveal_with_fuel(le_bytes, 2);
    assert(le_bytes(x, 1) =~= seq![(x % 256) as u8]);
}

/// Sum of the exact encoded sizes of a sequence of values.
pub open spec fn sum_lens<T: BorshSize>(s: Seq<T>) -> nat
    decreases s.len(),
{
    if s.len() == 0 {
        0
    } else {
        s[0].encoded_len() + sum_lens(s.drop_first())
    }
}

/// Concatenation of the canonical encodings of a sequence of values, in
/// order.
pub open spec fn seq_encoding<T: BorshSize>(s: Seq<T>) -> Seq<u8>
    decreases s.len(),
{
    if s.len() == 0 {
        Seq::empty()
    } else {
        s[0].encoding() + seq_encoding(s.drop_first())
    }
}

/// Every element of the sequence is accepted by the external encoder.
pub open spec fn all_encodable<T: BorshSize>(s: Seq<T>) -> bool {
    forall|i: int| 0 <= i < s.len() ==> #[trigger] s[i].encodable()
}

/// The concatenated encodings occupy exactly the summed sizes.
pub proof fn lemma_seq_encoding_len<T: BorshSize>(s: Seq<T>)
    ensures
        seq_encoding(s).len() == sum_lens(s),
    decreases s.len(),
{
    if s.len() > 0 {
        s[0].lemma_size_exact();
        lemma_seq_encoding_len(s.drop_first());
    }
}

/// Summed sizes split at any point into the sum over the prefix and the sum
/// over the remainder.
pub proof fn lemma_sum_lens_split<T: BorshSize>(s: Seq<T>, i: int)
    requires
        0 <= i <= s.len(),
    ensures
        sum_lens(s) == sum_lens(s.take(i)) + sum_lens(s.skip(i)),
    decreases i,
{
    if i == 0 {
        assert(s.take(0) =~= Seq::empty());
        assert(s.skip(0) =~= s);
    } else {
        lemma_sum_lens_split(s.drop_first(), i - 1);
        assert(s.take(i).drop_first() =~= s.drop_first().take(i - 1));
        assert(s.skip(i) =~= s.drop_first().skip(i - 1));
        assert(s.take(i)[0] == s[0]);
    }
}

/// Extending a prefix by one element adds exactly that element's size.
pub proof fn lemma_sum_lens_take_succ<T: BorshSize>(s: Seq<T>, i: int)
    requires
        0 <= i < s.len(),
    ensures
        sum_lens(s.take(i + 1)) == sum_lens(s.take(i)) + s[i].encoded_len(),
{
    lemma_sum_lens_split(s, i);
    lemma_sum_lens_split(s, i + 1);
    let rest = s.skip(i);
    assert(rest[0] == s[i]);
    assert(rest.drop_first() =~= s.skip(i + 1));
}

/// Extending a prefix by one element appends exactly that element's
/// encoding.
pub proof fn lemma_seq_encoding_take_succ<T: BorshSize>(s: Seq<T>, i: int)
    requires
        0 <= i < s.len(),
    ensures
        seq_encoding(s.take(i + 1)) == seq_encoding(s.take(i)) + s[i].encoding(),
    decreases i,
{
    if i == 0 {
        assert(s.take(0) =~= Seq::empty());
        assert(s.take(1).drop_first() =~= Seq::empty());
        assert(s.take(1)[0] == s[0]);
        assert(seq_encoding(s.take(1)) =~= seq_encoding(s.take(0)) + s[0].encoding());
    } else {
        lemma_seq_encoding_take_succ(s.drop_first(), i - 1);
        assert(s.take(i).drop_first() =~= s.drop_first().take(i - 1));
        assert(s.take(i + 1).drop_first() =~= s.drop_first().take(i));
        assert(s.take(i)[0] == s[0]);
        assert(s.take(i + 1)[0] == s[0]);
        assert(s.drop_first()[i - 1] == s[i]);
        assert(seq_encoding(s.take(i + 1)) =~= seq_encoding(s.take(i)) + s[i].encoding());
    }
}

/// When every element has the same exact size, the sum is the element count
/// times that size.
pub proof fn lemma_sum_lens_uniform<T: BorshSize>(s: Seq<T>, k: nat)
    requires
        forall|i: int| 0 <= i < s.len() ==> #[trigger] s[i].encoded_len() == k,
    ensures
        sum_lens(s) == s.len() * k,
    decreases s.len(),
{
    if s.len() == 0 {
    } else {
        assert(forall|i: int|
            0 <= i < s.drop_first().len() ==> #[trigger] s.drop_first()[i].encoded_len() == k);
        lemma_sum_lens_uniform(s.drop_first(), k);
        assert(s.len() * k == k + (s.len() - 1) * k) by (nonlinear_arith);
    }
}

} // verus!
