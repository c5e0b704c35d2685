//! The structural laws of the size protocol, stated once and proved for
//! every value: the zero-length-array rule, additivity over product fields,
//! transparency of indirection, and the exact sizes of the record shapes
//! the protocol is typically used on.

use vstd::prelude::*;

use std::borrow::Cow;
use std::rc::Rc;
use std::sync::Arc;

use crate::encoding::lemma_sum_lens_uniform;
use crate::BorshSize;

verus! {

broadcast use vstd::array::group_array_axioms;

/// A fixed array of length zero contributes no bytes at all — its length is
/// static, so no prefix is written — while an empty variable-length list
/// still contributes the four bytes of its length prefix.
pub proof fn lemma_zero_length_array_rule<T: BorshSize>(a: &[T; 0], v: &Vec<T>)
    requires
        v@.len() == 0,
    ensures
        a.encoded_len() == 0,
        v.encoded_len() == 4,
{
    assert(a@.len() == 0);
}

/// A two-field product sizes to the sum of its fields' sizes, in declared
/// order.
pub proof fn lemma_pair_additive<T0: BorshSize, T1: BorshSize>(t: &(T0, T1))
    ensures
        t.encoded_len() == t.0.encoded_len() + t.1.encoded_len(),
{
}

/// A five-field product sizes to the sum of its fields' sizes, in declared
/// order.
pub proof fn lemma_record_additive<
    T0: BorshSize,
    T1: BorshSize,
    T2: BorshSize,
    T3: BorshSize,
    T4: BorshSize,
>(t: &(T0, T1, T2, T3, T4))
    ensures
        t.encoded_len() == t.0.encoded_len() + t.1.encoded_len() + t.2.encoded_len()
            + t.3.encoded_len() + t.4.encoded_len(),
{
}

/// An owning box is transparent to the protocol: it sizes and encodes as
/// the value it holds.
pub proof fn lemma_box_transparent<T: BorshSize>(b: &Box<T>)
    ensures
        b.encoded_len() == (**b).encoded_len(),
        b.encoding() == (**b).encoding(),
{
}

/// A reference-counted handle is transparent to the protocol.
pub proof fn lemma_rc_transparent<T: BorshSize>(r: &Rc<T>)
    ensures
        r.encoded_len() == (**r).encoded_len(),
        r.encoding() == (**r).encoding(),
{
}

/// An atomically reference-counted handle is transparent to the protocol.
pub proof fn lemma_arc_transparent<T: BorshSize>(a: &Arc<T>)
    ensures
        a.encoded_len() == (**a).encoded_len(),
        a.encoding() == (**a).encoding(),
{
}

/// A copy-on-write handle is transparent to the protocol: borrowed or
/// owned, it sizes and encodes as the value it gives access to.
pub proof fn lemma_cow_transparent<'a, T: BorshSize + Clone>(c: &Cow<'a, T>)
    ensures
        c matches Cow::Borrowed(b) ==> c.encoded_len() == (*b).encoded_len() && c.encoding()
            == (*b).encoding(),
        c matches Cow::Owned(o) ==> c.encoded_len() == o.encoded_len() && c.encoding()
            == o.encoding(),
{
}

/// A fixed byte array occupies exactly as many bytes as it has elements:
/// one byte per element and no prefix.
pub proof fn lemma_fixed_byte_array_size<const N: usize>(a: &[u8; N])
    ensures
        a.encoded_len() == N,
{
    assert(forall|i: int| 0 <= i < a@.len() ==> #[trigger] a@[i].encoded_len() == 1);
    lemma_sum_lens_uniform(a@, 1);
}

/// A record of a 32-bit scalar, a 64-bit scalar and 32 fixed bytes occupies
/// exactly 4 + 8 + 32 = 44 bytes, for every value assignment.
pub proof fn lemma_scalar_record_size(t: &(u32, u64, [u8; 32]))
    ensures
        t.encoded_len() == 44,
{
    lemma_fixed_byte_array_size::<32>(&t.2);
}

/// Appending a variable-length byte list to that record adds its four-byte
/// prefix and one byte per element: 48 bytes plus the element count, so 948
/// bytes for 900 elements and 48 for none.
pub proof fn lemma_list_record_size(t: &(u32, u64, [u8; 32], Vec<u8>))
    ensures
        t.encoded_len() == 48 + t.3@.len(),
{
    lemma_fixed_byte_array_size::<32>(&t.2);
    assert(forall|i: int| 0 <= i < t.3@.len() ==> #[trigger] t.3@[i].encoded_len() == 1);
    lemma_sum_lens_uniform(t.3@, 1);
}

/// A list of absent optional values sizes each entry at exactly its one
/// discriminant byte, and the list at four plus the entry count.
pub proof fn lemma_option_list_size<T: BorshSize>(e: &Vec<Option<T>>)
    requires
        forall|i: int| 0 <= i < e@.len() ==> #[trigger] e@[i] is None,
    ensures
        e.encoded_len() == 4 + e@.len(),
{
    assert(forall|i: int| 0 <= i < e@.len() ==> #[trigger] e@[i].encoded_len() == 1);
    lemma_sum_lens_uniform(e@, 1);
}

} // verus!
