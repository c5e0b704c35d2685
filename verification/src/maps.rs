//! Size oracle and encoder for the ordered key-value map: a four-byte
//! length prefix plus the sizes of all entries, iterated in increasing key
//! order.  The keys are 64-bit integers, whose order the verifier knows;
//! the order affects only the byte layout, never the sum.

use vstd::prelude::*;
use vstd::std_specs::btree::into_iter;
use vstd::std_specs::btree::spec_btree_map_iter;

use std::collections::BTreeMap;

use crate::encoding::all_encodable;
use crate::encoding::le_bytes;
use crate::encoding::lemma_le_bytes_len;
use crate::encoding::lemma_seq_encoding_len;
use crate::encoding::lemma_seq_encoding_take_succ;
use crate::encoding::lemma_sum_lens_split;
use crate::encoding::lemma_sum_lens_take_succ;
use crate::encoding::seq_encoding;
use crate::encoding::sum_lens;
use crate::writers::write_u32;
use crate::BorshSize;
use crate::FastBorshSerialize;

verus! {

broadcast use
    vstd::std_specs::btree::group_btree_axioms,
    vstd::std_specs::iter::group_iter_axioms,
    vstd::laws_cmp::group_laws_cmp;

/// The entries of the map, key and value, in increasing key order, exactly
/// as the map's iterator yields them.
pub open spec fn map_entries<V>(m: &BTreeMap<u64, V>) -> Seq<(u64, V)> {
    into_iter(spec_btree_map_iter(m))
}

impl<V: BorshSize> BorshSize for BTreeMap<u64, V> {
    open spec fn encoding(&self) -> Seq<u8> {
        le_bytes(map_entries(self).len() as int, 4) + seq_encoding(map_entries(self))
    }

    open spec fn encoded_len(&self) -> nat {
        4 + sum_lens(map_entries(self))
    }

    open spec fn encodable(&self) -> bool {
        map_entries(self).len() <= u32::MAX && all_encodable(map_entries(self))
    }

    proof fn lemma_size_exact(&self) {
        lemma_le_bytes_len(map_entries(self).len() as int, 4);
        lemma_seq_encoding_len(map_entries(self));
    }

    fn borsh_size(&self) -> (n: usize) {
        let ghost entries = map_entries(self);
        let mut total: usize = 4;
        for kv in it: self.iter()
            invariant
                entries == map_entries(self),
                it.seq().unref() == entries,
                it.index() <= entries.len(),
                4 + sum_lens(entries) <= usize::MAX,
                total == 4 + sum_lens(entries.take(it.index() as int)),
        {
            proof {
                lemma_sum_lens_take_succ(entries, it.index() as int);
                lemma_sum_lens_split(entries, it.index() as int + 1);
                assert((*kv.0, *kv.1) == entries[it.index() as int]);
            }
            let sz = kv.borsh_size();
            total = total + sz;
        }
        proof {
            assert(entries.take(entries.len() as int) =~= entries);
        }
        total
    }
}

impl<V: FastBorshSerialize> FastBorshSerialize for BTreeMap<u64, V> {
    fn encode_into(&self, buf: &mut Vec<u8>) {
        let ghost entries = map_entries(self);
        let ghost pre = buf@;
        let len = self.len();
        let len32 = #[verifier::truncate] (len as u32);
        write_u32(len32, buf);
        let ghost prefix = le_bytes(len32 as int, 4);
        proof {
            assert(entries.take(0) =~= Seq::<(u64, V)>::empty());
            assert(buf@ =~= pre + prefix + seq_encoding(entries.take(0)));
        }
        for kv in it: self.iter()
            invariant
                entries == map_entries(self),
                it.seq().unref() == entries,
                it.index() <= entries.len(),
                all_encodable(entries),
                len == self@.dom().len(),
                len32 == len as u32,
                prefix == le_bytes(len32 as int, 4),
                buf@ == pre + prefix + seq_encoding(entries.take(it.index() as int)),
        {
            proof {
                assert((*kv.0, *kv.1) == entries[it.index() as int]);
                assert(entries[it.index() as int].encodable());
            }
            kv.encode_into(buf);
            proof {
                lemma_seq_encoding_take_succ(entries, it.index() as int);
                assert(buf@ =~= pre + prefix + seq_encoding(entries.take(it.index() as int + 1)));
            }
        }
        proof {
            assert(entries.take(entries.len() as int) =~= entries);
            assert(len == entries.len());
            assert(len32 as int == entries.len() as int);
            assert(buf@ =~= pre + self.encoding());
        }
    }
}

} // verus!
