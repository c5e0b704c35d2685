//! Size oracle and encoder for the two discriminated shapes: an optional
//! value and a two-armed result.  Each costs one discriminant byte plus the
//! size of whichever payload is populated.

use vstd::prelude::*;

use crate::encoding::le_bytes;
use crate::encoding::lemma_le_bytes_single;
use crate::writers::write_u8;
use crate::BorshSize;
use crate::FastBorshSerialize;

verus! {

impl<T: BorshSize> BorshSize for Option<T> {
    open spec fn encoding(&self) -> Seq<u8> {
        match self {
            Option::None => seq![0u8],
            Option::Some(v) => seq![1u8] + v.encoding(),
        }
    }

    open spec fn encoded_len(&self) -> nat {
        match self {
            Option::None => 1,
            Option::Some(v) => 1 + v.encoded_len(),
        }
    }

    open spec fn encodable(&self) -> bool {
        match self {
            Option::None => true,
            Option::Some(v) => v.encodable(),
        }
    }

    proof fn lemma_size_exact(&self) {
        match self {
            Option::None => {},
            Option::Some(v) => {
                v.lemma_size_exact();
            },
        }
    }

    fn borsh_size(&self) -> (n: usize) {
        match self {
            Option::None => 1,
            Option::Some(v) => 1 + v.borsh_size(),
        }
    }
}

impl<T: FastBorshSerialize> FastBorshSerialize for Option<T> {
    fn encode_into(&self, buf: &mut Vec<u8>) {
        let ghost pre = buf@;
        match self {
            Option::None => {
                write_u8(0, buf);
                proof {
                    lemma_le_bytes_single(0);
                    assert(le_bytes(0, 1) =~= seq![0u8]);
                }
            },
            Option::Some(v) => {
                write_u8(1, buf);
                proof {
                    lemma_le_bytes_single(1);
                    assert(le_bytes(1, 1) =~= seq![1u8]);
                }
                v.encode_into(buf);
                proof {
                    assert(buf@ =~= pre + self.encoding());
                }
            },
        }
    }
}

impl<T: BorshSize, E: BorshSize> BorshSize for Result<T, E> {
    open spec fn encoding(&self) -> Seq<u8> {
        match self {
            Result::Ok(v) => seq![1u8] + v.encoding(),
            Result::Err(e) => seq![0u8] + e.encoding(),
        }
    }

    open spec fn encoded_len(&self) -> nat {
        match self {
            Result::Ok(v) => 1 + v.encoded_len(),
            Result::Err(e) => 1 + e.encoded_len(),
        }
    }

    open spec fn encodable(&self) -> bool {
        match self {
            Result::Ok(v) => v.encodable(),
            Result::Err(e) => e.encodable(),
        }
    }

    proof fn lemma_size_exact(&self) {
        match self {
            Result::Ok(v) => {
                v.lemma_size_exact();
            },
            Result::Err(e) => {
                e.lemma_size_exact();
            },
        }
    }

    fn borsh_size(&self) -> (n: usize) {
        match self {
            Result::Ok(v) => 1 + v.borsh_size(),
            Result::Err(e) => 1 + e.borsh_size(),
        }
    }
}

impl<T: FastBorshSerialize, E: FastBorshSerialize> FastBorshSerialize for Result<T, E> {
    fn encode_into(&self, buf: &mut Vec<u8>) {
        let ghost pre = buf@;
        match self {
            Result::Ok(v) => {
                write_u8(1, buf);
                proof {
                    lemma_le_bytes_single(1);
                    assert(le_bytes(1, 1) =~= seq![1u8]);
                }
                v.encode_into(buf);
                proof {
                    assert(buf@ =~= pre + self.encoding());
                }
            },
            Result::Err(e) => {
                write_u8(0, buf);
                proof {
                    lemma_le_bytes_single(0);
                    assert(le_bytes(0, 1) =~= seq![0u8]);
                }
                e.encode_into(buf);
                proof {
                    assert(buf@ =~= pre + self.encoding());
                }
            },
        }
    }
}

} // verus!
