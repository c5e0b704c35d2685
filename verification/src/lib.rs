//! Exact-size computation for a canonical little-endian, length-prefixed
//! binary encoding, and a serializer that allocates its output buffer
//! exactly once.
//!
//! The encoding itself is owned by the external `borsh` crate; this library
//! states the byte-level layout of every supported type shape as a
//! specification, computes the exact number of bytes a value's encoding
//! occupies ([`BorshSize`]), and proves that an encoder driven by that size
//! never reallocates ([`FastBorshSerialize::fast_serialize`]).

use vstd::prelude::*;

mod encoding;
mod generate;
mod laws;
mod maps;
mod options;
mod pointers;
mod products;
mod scalars;
mod sequences;
mod writers;

pub use encoding::all_encodable;
pub use encoding::le_bytes;
pub use encoding::lemma_le_bytes_len;
pub use encoding::lemma_seq_encoding_len;
pub use encoding::lemma_sum_lens_split;
pub use encoding::lemma_sum_lens_uniform;
pub use encoding::seq_encoding;
pub use encoding::sum_lens;
pub use generate::derive_borsh_size;
pub use generate::summands_match;
pub use generate::FieldId;
pub use generate::GenError;
pub use generate::SizeImpl;
pub use generate::TypeDesc;
pub use generate::TypeShape;
pub use laws::lemma_arc_transparent;
pub use laws::lemma_box_transparent;
pub use laws::lemma_cow_transparent;
pub use laws::lemma_fixed_byte_array_size;
pub use laws::lemma_list_record_size;
pub use laws::lemma_option_list_size;
pub use laws::lemma_pair_additive;
pub use laws::lemma_rc_transparent;
pub use laws::lemma_record_additive;
pub use laws::lemma_scalar_record_size;
pub use laws::lemma_zero_length_array_rule;
pub use maps::map_entries;

verus! {

/// The size oracle: a value that can report the exact byte length of its
/// canonical encoding without producing the encoding.
pub trait BorshSize {
    /// The canonical encoding of the value, byte for byte, as the external
    /// encoder lays it out.
    spec fn encoding(&self) -> Seq<u8>;

    /// The exact number of bytes the canonical encoding occupies, stated as
    /// the structural size rule of each type shape (constants for scalars,
    /// four-byte prefix plus element sizes for variable-length sequences,
    /// one-byte discriminant for options and results, and so on).
    spec fn encoded_len(&self) -> nat;

    /// Whether the external encoder accepts the value: every variable-length
    /// sequence is short enough for its 32-bit length prefix, and no
    /// length-prefixed sequence has zero-sized elements.
    spec fn encodable(&self) -> bool;

    /// The size rule is exact: it equals the length of the canonical
    /// encoding, for every value.
    proof fn lemma_size_exact(&self)
        ensures
            self.encoded_len() == self.encoding().len(),
    ;

    /// Compute the exact encoded size of the value in one structural pass.
    fn borsh_size(&self) -> (n: usize)
        requires
            self.encoded_len() <= usize::MAX,
        ensures
            n == self.encoded_len(),
    ;
}

/// The fast serializer: a value that both reports its exact encoded size and
/// can be encoded, so that serialization can allocate once and never grow
/// the buffer.
pub trait FastBorshSerialize: BorshSize {
    /// Append the canonical encoding of the value to `buf`.
    fn encode_into(&self, buf: &mut Vec<u8>)
        requires
            self.encodable(),
        ensures
            final(buf)@ == old(buf)@ + self.encoding(),
    ;

    /// Serialize the value into a buffer allocated with exactly the right
    /// capacity.  The returned bytes are exactly the canonical encoding, and
    /// their count is exactly what the size oracle predicted, so the single
    /// write fills the single allocation completely.
    fn fast_serialize(&self) -> (out: Vec<u8>)
        requires
            self.encodable(),
            self.encoded_len() <= usize::MAX,
        ensures
            out@ == self.encoding(),
            out@.len() == self.encoded_len(),
    {
        let n = self.borsh_size();
        let mut buf: Vec<u8> = Vec::with_capacity(n);
        self.encode_into(&mut buf);
        proof {
            self.lemma_size_exact();
            assert(buf@ =~= self.encoding());
        }
        buf
    }
}

} // verus!
