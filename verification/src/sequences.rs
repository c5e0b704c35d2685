//! Size oracle and encoder for sequence shapes: growable and double-ended
//! lists carry a four-byte length prefix, fixed-length arrays carry none,
//! and text is the byte sequence of its UTF-8 form behind a prefix.

use vstd::prelude::*;
use vstd::string::StringSliceAdditionalSpecFns;
use vstd::utf8::encode_utf8;

use std::collections::VecDeque;

use crate::encoding::all_encodable;
use crate::encoding::le_bytes;
use crate::encoding::lemma_le_bytes_len;
use crate::encoding::lemma_seq_encoding_len;
use crate::encoding::lemma_seq_encoding_take_succ;
use crate::encoding::lemma_sum_lens_split;
use crate::encoding::lemma_sum_lens_take_succ;
use crate::encoding::seq_encoding;
use crate::encoding::sum_lens;
use crate::writers::write_str;
use crate::writers::write_u32;
use crate::BorshSize;
use crate::FastBorshSerialize;

verus! {

broadcast use vstd::std_specs::vecdeque::group_vec_dequeue_axioms, vstd::array::group_array_axioms;

impl<T: BorshSize> BorshSize for [T] {
    open spec fn encoding(&self) -> Seq<u8> {
        le_bytes(self@.len() as int, 4) + seq_encoding(self@)
    }

    open spec fn encoded_len(&self) -> nat {
        4 + sum_lens(self@)
    }

    open spec fn encodable(&self) -> bool {
        self@.len() <= u32::MAX && all_encodable(self@)
    }

    proof fn lemma_size_exact(&self) {
        lemma_le_bytes_len(self@.len() as int, 4);
        lemma_seq_encoding_len(self@);
    }

    fn borsh_size(&self) -> (n: usize) {
        let ghost s = self@;
        let mut total: usize = 4;
        let mut i: usize = 0;
        while i < self.len()
            invariant
                i <= s.len(),
                s == self@,
                4 + sum_lens(s) <= usize::MAX,
                total == 4 + sum_lens(s.take(i as int)),
            decreases s.len() - i,
        {
            proof {
                lemma_sum_lens_take_succ(s, i as int);
                lemma_sum_lens_split(s, i as int + 1);
            }
            let sz = (&self[i]).borsh_size();
            total = total + sz;
            i = i + 1;
        }
        proof {
            assert(s.take(s.len() as int) =~= s);
        }
        total
    }
}

impl<T: FastBorshSerialize> FastBorshSerialize for [T] {
    fn encode_into(&self, buf: &mut Vec<u8>) {
        let ghost s = self@;
        let ghost pre = buf@;
        let len = self.len();
        write_u32(len as u32, buf);
        let mut i: usize = 0;
        proof {
            assert(s.take(0) =~= Seq::<T>::empty());
            assert(buf@ =~= pre + le_bytes(s.len() as int, 4) + seq_encoding(s.take(0)));
        }
        while i < self.len()
            invariant
                i <= s.len(),
                s == self@,
                all_encodable(s),
                buf@ == pre + le_bytes(s.len() as int, 4) + seq_encoding(s.take(i as int)),
            decreases s.len() - i,
        {
            (&self[i]).encode_into(buf);
            proof {
                lemma_seq_encoding_take_succ(s, i as int);
                assert(buf@ =~= pre + le_bytes(s.len() as int, 4) + seq_encoding(
                    s.take(i as int + 1),
                ));
            }
            i = i + 1;
        }
        proof {
            assert(s.take(s.len() as int) =~= s);
            assert(buf@ =~= pre + self.encoding());
        }
    }
}

impl<T: BorshSize> BorshSize for Vec<T> {
    open spec fn encoding(&self) -> Seq<u8> {
        le_bytes(self@.len() as int, 4) + seq_encoding(self@)
    }

    open spec fn encoded_len(&self) -> nat {
        4 + sum_lens(self@)
    }

    open spec fn encodable(&self) -> bool {
        self@.len() <= u32::MAX && vstd::layout::size_of::<T>() != 0 && all_encodable(self@)
    }

    proof fn lemma_size_exact(&self) {
        lemma_le_bytes_len(self@.len() as int, 4);
        lemma_seq_encoding_len(self@);
    }

    fn borsh_size(&self) -> (n: usize) {
        self.as_slice().borsh_size()
    }
}

impl<T: FastBorshSerialize> FastBorshSerialize for Vec<T> {
    fn encode_into(&self, buf: &mut Vec<u8>) {
        self.as_slice().encode_into(buf);
    }
}

impl<T: BorshSize> BorshSize for VecDeque<T> {
    open spec fn encoding(&self) -> Seq<u8> {
        le_bytes(self@.len() as int, 4) + seq_encoding(self@)
    }

    open spec fn encoded_len(&self) -> nat {
        4 + sum_lens(self@)
    }

    open spec fn encodable(&self) -> bool {
        self@.len() <= u32::MAX && vstd::layout::size_of::<T>() != 0 && all_encodable(self@)
    }

    proof fn lemma_size_exact(&self) {
        lemma_le_bytes_len(self@.len() as int, 4);
        lemma_seq_encoding_len(self@);
    }

    fn borsh_size(&self) -> (n: usize) {
        let ghost s = self@;
        let mut total: usize = 4;
        let mut i: usize = 0;
        while i < self.len()
            invariant
                i <= s.len(),
                s == self@,
                4 + sum_lens(s) <= usize::MAX,
                total == 4 + sum_lens(s.take(i as int)),
            decreases s.len() - i,
        {
            proof {
                lemma_sum_lens_take_succ(s, i as int);
                lemma_sum_lens_split(s, i as int + 1);
            }
            let sz = (&self[i]).borsh_size();
            total = total + sz;
            i = i + 1;
        }
        proof {
            assert(s.take(s.len() as int) =~= s);
        }
        total
    }
}

impl<T: FastBorshSerialize> FastBorshSerialize for VecDeque<T> {
    fn encode_into(&self, buf: &mut Vec<u8>) {
        let ghost s = self@;
        let ghost pre = buf@;
        let len = self.len();
        write_u32(len as u32, buf);
        let mut i: usize = 0;
        proof {
            assert(s.take(0) =~= Seq::<T>::empty());
            assert(buf@ =~= pre + le_bytes(s.len() as int, 4) + seq_encoding(s.take(0)));
        }
        while i < self.len()
            invariant
                i <= s.len(),
                s == self@,
                all_encodable(s),
                buf@ == pre + le_bytes(s.len() as int, 4) + seq_encoding(s.take(i as int)),
            decreases s.len() - i,
        {
            (&self[i]).encode_into(buf);
            proof {
                lemma_seq_encoding_take_succ(s, i as int);
                assert(buf@ =~= pre + le_bytes(s.len() as int, 4) + seq_encoding(
                    s.take(i as int + 1),
                ));
            }
            i = i + 1;
        }
        proof {
            assert(s.take(s.len() as int) =~= s);
            assert(buf@ =~= pre + self.encoding());
        }
    }
}

impl<T: BorshSize, const N: usize> BorshSize for [T; N] {
    open spec fn encoding(&self) -> Seq<u8> {
        seq_encoding(self@)
    }

    open spec fn encoded_len(&self) -> nat {
        sum_lens(self@)
    }

    open spec fn encodable(&self) -> bool {
        all_encodable(self@)
    }

    proof fn lemma_size_exact(&self) {
        lemma_seq_encoding_len(self@);
    }

    fn borsh_size(&self) -> (n: usize) {
        let ghost s = self@;
        let mut total: usize = 0;
        let mut i: usize = 0;
        while i < N
            invariant
                i <= s.len(),
                N == s.len(),
                s == self@,
                sum_lens(s) <= usize::MAX,
                total == sum_lens(s.take(i as int)),
            decreases s.len() - i,
        {
            proof {
                lemma_sum_lens_take_succ(s, i as int);
                lemma_sum_lens_split(s, i as int + 1);
            }
            let sz = vstd::array::array_index_get(self, i).borsh_size();
            total = total + sz;
            i = i + 1;
        }
        proof {
            assert(s.take(s.len() as int) =~= s);
        }
        total
    }
}

impl<T: FastBorshSerialize, const N: usize> FastBorshSerialize for [T; N] {
    fn encode_into(&self, buf: &mut Vec<u8>) {
        let ghost s = self@;
        let ghost pre = buf@;
        let mut i: usize = 0;
        proof {
            assert(s.take(0) =~= Seq::<T>::empty());
            assert(buf@ =~= pre + seq_encoding(s.take(0)));
        }
        while i < N
            invariant
                i <= s.len(),
                N == s.len(),
                s == self@,
                all_encodable(s),
                buf@ == pre + seq_encoding(s.take(i as int)),
            decreases s.len() - i,
        {
            vstd::array::array_index_get(self, i).encode_into(buf);
            proof {
                lemma_seq_encoding_take_succ(s, i as int);
                assert(buf@ =~= pre + seq_encoding(s.take(i as int + 1)));
            }
            i = i + 1;
        }
        proof {
            assert(s.take(s.len() as int) =~= s);
            assert(buf@ =~= pre + self.encoding());
        }
    }
}

impl BorshSize for str {
    open spec fn encoding(&self) -> Seq<u8> {
        le_bytes(self.spec_bytes().len() as int, 4) + self.spec_bytes()
    }

    open spec fn encoded_len(&self) -> nat {
        4 + self.spec_bytes().len()
    }

    open spec fn encodable(&self) -> bool {
        self.spec_bytes().len() <= u32::MAX
    }

    proof fn lemma_size_exact(&self) {
        lemma_le_bytes_len(self.spec_bytes().len() as int, 4);
    }

    fn borsh_size(&self) -> (n: usize) {
        4 + self.len()
    }
}

impl FastBorshSerialize for str {
    fn encode_into(&self, buf: &mut Vec<u8>) {
        let ghost pre = buf@;
        write_str(self, buf);
        proof {
            assert(buf@ =~= pre + self.encoding());
        }
    }
}

impl BorshSize for String {
    open spec fn encoding(&self) -> Seq<u8> {
        le_bytes(encode_utf8(self@).len() as int, 4) + encode_utf8(self@)
    }

    open spec fn encoded_len(&self) -> nat {
        4 + encode_utf8(self@).len()
    }

    open spec fn encodable(&self) -> bool {
        encode_utf8(self@).len() <= u32::MAX
    }

    proof fn lemma_size_exact(&self) {
        lemma_le_bytes_len(encode_utf8(self@).len() as int, 4);
    }

    fn borsh_size(&self) -> (n: usize) {
        4 + self.as_str().len()
    }
}

impl FastBorshSerialize for String {
    fn encode_into(&self, buf: &mut Vec<u8>) {
        let ghost pre = buf@;
        write_str(self.as_str(), buf);
        proof {
            assert(buf@ =~= pre + self.encoding());
        }
    }
}

} // verus!
