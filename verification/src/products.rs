//! Size oracle and encoder for product shapes: heterogeneous tuples sum
//! their elements positionally, and zero-sized markers occupy no bytes.

use vstd::prelude::*;

use core::marker::PhantomData;
use core::ops::RangeFull;

use crate::BorshSize;
use crate::FastBorshSerialize;

verus! {

impl BorshSize for () {
    open spec fn encoding(&self) -> Seq<u8> {
        Seq::empty()
    }

    open spec fn encoded_len(&self) -> nat {
        0
    }

    open spec fn encodable(&self) -> bool {
        true
    }

    proof fn lemma_size_exact(&self) {
    }

    fn borsh_size(&self) -> (n: usize) {
        0
    }
}

impl FastBorshSerialize for () {
    fn encode_into(&self, buf: &mut Vec<u8>) {
        proof {
            assert(buf@ =~= buf@ + Seq::<u8>::empty());
        }
    }
}

/// The verifier needs the full-range marker declared before it can appear
/// in trait implementations; the type has no fields.
#[verifier::external_type_specification]
pub struct ExRangeFull(RangeFull);

impl BorshSize for RangeFull {
    open spec fn encoding(&self) -> Seq<u8> {
        Seq::empty()
    }

    open spec fn encoded_len(&self) -> nat {
        0
    }

    open spec fn encodable(&self) -> bool {
        true
    }

    proof fn lemma_size_exact(&self) {
    }

    fn borsh_size(&self) -> (n: usize) {
        0
    }
}

impl FastBorshSerialize for RangeFull {
    fn encode_into(&self, buf: &mut Vec<u8>) {
        proof {
            assert(buf@ =~= buf@ + Seq::<u8>::empty());
        }
    }
}

impl<T: ?Sized> BorshSize for PhantomData<T> {
    open spec fn encoding(&self) -> Seq<u8> {
        Seq::empty()
    }

    open spec fn encoded_len(&self) -> nat {
        0
    }

    open spec fn encodable(&self) -> bool {
        true
    }

    proof fn lemma_size_exact(&self) {
    }

    fn borsh_size(&self) -> (n: usize) {
        0
    }
}

impl<T: ?Sized> FastBorshSerialize for PhantomData<T> {
    fn encode_into(&self, buf: &mut Vec<u8>) {
        proof {
            assert(buf@ =~= buf@ + Seq::<u8>::empty());
        }
    }
}

impl<T0: BorshSize> BorshSize for (T0,) {
    open spec fn encoding(&self) -> Seq<u8> {
        self.0.encoding()
    }

    open spec fn encoded_len(&self) -> nat {
        self.0.encoded_len()
    }

    open spec fn encodable(&self) -> bool {
        self.0.encodable()
    }

    proof fn lemma_size_exact(&self) {
        self.0.lemma_size_exact();
    }

    fn borsh_size(&self) -> (n: usize) {
        self.0.borsh_size()
    }
}

impl<T0: FastBorshSerialize> FastBorshSerialize for (T0,) {
    fn encode_into(&self, buf: &mut Vec<u8>) {
        self.0.encode_into(buf);
    }
}

impl<T0: BorshSize, T1: BorshSize> BorshSize for (T0, T1) {
    open spec fn encoding(&self) -> Seq<u8> {
        self.0.encoding() + self.1.encoding()
    }

    open spec fn encoded_len(&self) -> nat {
        self.0.encoded_len() + self.1.encoded_len()
    }

    open spec fn encodable(&self) -> bool {
        self.0.encodable() && self.1.encodable()
    }

    proof fn lemma_size_exact(&self) {
        self.0.lemma_size_exact();
        self.1.lemma_size_exact();
    }

    fn borsh_size(&self) -> (n: usize) {
        self.0.borsh_size() + self.1.borsh_size()
    }
}

impl<T0: FastBorshSerialize, T1: FastBorshSerialize> FastBorshSerialize for (T0, T1) {
    fn encode_into(&self, buf: &mut Vec<u8>) {
        let ghost pre = buf@;
        self.0.encode_into(buf);
        self.1.encode_into(buf);
        proof {
            assert(buf@ =~= pre + self.encoding());
        }
    }
}

impl<T0: BorshSize, T1: BorshSize, T2: BorshSize> BorshSize for (T0, T1, T2) {
    open spec fn encoding(&self) -> Seq<u8> {
        self.0.encoding() + self.1.encoding() + self.2.encoding()
    }

    open spec fn encoded_len(&self) -> nat {
        self.0.encoded_len() + self.1.encoded_len() + self.2.encoded_len()
    }

    open spec fn encodable(&self) -> bool {
        self.0.encodable() && self.1.encodable() && self.2.encodable()
    }

    proof fn lemma_size_exact(&self) {
        self.0.lemma_size_exact();
        self.1.lemma_size_exact();
        self.2.lemma_size_exact();
    }

    fn borsh_size(&self) -> (n: usize) {
        self.0.borsh_size() + self.1.borsh_size() + self.2.borsh_size()
    }
}

impl<T0: FastBorshSerialize, T1: FastBorshSerialize, T2: FastBorshSerialize> FastBorshSerialize for (
    T0,
    T1,
    T2,
) {
    fn encode_into(&self, buf: &mut Vec<u8>) {
        let ghost pre = buf@;
        self.0.encode_into(buf);
        self.1.encode_into(buf);
        self.2.encode_into(buf);
        proof {
            assert(buf@ =~= pre + self.encoding());
        }
    }
}

impl<T0: BorshSize, T1: BorshSize, T2: BorshSize, T3: BorshSize> BorshSize for (T0, T1, T2, T3) {
    open spec fn encoding(&self) -> Seq<u8> {
        self.0.encoding() + self.1.encoding() + self.2.encoding() + self.3.encoding()
    }

    open spec fn encoded_len(&self) -> nat {
        self.0.encoded_len() + self.1.encoded_len() + self.2.encoded_len() + self.3.encoded_len()
    }

    open spec fn encodable(&self) -> bool {
        self.0.encodable() && self.1.encodable() && self.2.encodable() && self.3.encodable()
    }

    proof fn lemma_size_exact(&self) {
        self.0.lemma_size_exact();
        self.1.lemma_size_exact();
        self.2.lemma_size_exact();
        self.3.lemma_size_exact();
    }

    fn borsh_size(&self) -> (n: usize) {
        self.0.borsh_size() + self.1.borsh_size() + self.2.borsh_size() + self.3.borsh_size()
    }
}

impl<
    T0: FastBorshSerialize,
    T1: FastBorshSerialize,
    T2: FastBorshSerialize,
    T3: FastBorshSerialize,
> FastBorshSerialize for (T0, T1, T2, T3) {
    fn encode_into(&self, buf: &mut Vec<u8>) {
        let ghost pre = buf@;
        self.0.encode_into(buf);
        self.1.encode_into(buf);
        self.2.encode_into(buf);
        self.3.encode_into(buf);
        proof {
            assert(buf@ =~= pre + self.encoding());
        }
    }
}

impl<
    T0: BorshSize,
    T1: BorshSize,
    T2: BorshSize,
    T3: BorshSize,
    T4: BorshSize,
> BorshSize for (T0, T1, T2, T3, T4) {
    open spec fn encoding(&self) -> Seq<u8> {
        self.0.encoding() + self.1.encoding() + self.2.encoding() + self.3.encoding()
            + self.4.encoding()
    }

    open spec fn encoded_len(&self) -> nat {
        self.0.encoded_len() + self.1.encoded_len() + self.2.encoded_len() + self.3.encoded_len()
            + self.4.encoded_len()
    }

    open spec fn encodable(&self) -> bool {
        self.0.encodable() && self.1.encodable() && self.2.encodable() && self.3.encodable()
            && self.4.encodable()
    }

    proof fn lemma_size_exact(&self) {
        self.0.lemma_size_exact();
        self.1.lemma_size_exact();
        self.2.lemma_size_exact();
        self.3.lemma_size_exact();
        self.4.lemma_size_exact();
    }

    fn borsh_size(&self) -> (n: usize) {
        self.0.borsh_size() + self.1.borsh_size() + self.2.borsh_size() + self.3.borsh_size()
            + self.4.borsh_size()
    }
}

impl<
    T0: FastBorshSerialize,
    T1: FastBorshSerialize,
    T2: FastBorshSerialize,
    T3: FastBorshSerialize,
    T4: FastBorshSerialize,
> FastBorshSerialize for (T0, T1, T2, T3, T4) {
    fn encode_into(&self, buf: &mut Vec<u8>) {
        let ghost pre = buf@;
        self.0.encode_into(buf);
        self.1.encode_into(buf);
        self.2.encode_into(buf);
        self.3.encode_into(buf);
        self.4.encode_into(buf);
        proof {
            assert(buf@ =~= pre + self.encoding());
        }
    }
}

} // verus!
