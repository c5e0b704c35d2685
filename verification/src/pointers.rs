//! Size oracle and encoder for indirection shapes: references, owning
//! boxes, and reference-counted handles are transparent to the protocol —
//! they size and encode as their referent.

use vstd::prelude::*;

use std::borrow::Cow;
use std::rc::Rc;
use std::sync::Arc;

use crate::BorshSize;
use crate::FastBorshSerialize;

verus! {

impl<'a, T: BorshSize + ?Sized> BorshSize for &'a T {
    open spec fn encoding(&self) -> Seq<u8> {
        (**self).encoding()
    }

    open spec fn encoded_len(&self) -> nat {
        (**self).encoded_len()
    }

    open spec fn encodable(&self) -> bool {
        (**self).encodable()
    }

    proof fn lemma_size_exact(&self) {
        (**self).lemma_size_exact();
    }

    fn borsh_size(&self) -> (n: usize) {
        (**self).borsh_size()
    }
}

impl<'a, T: FastBorshSerialize + ?Sized> FastBorshSerialize for &'a T {
    fn encode_into(&self, buf: &mut Vec<u8>) {
        (**self).encode_into(buf);
    }
}

impl<T: BorshSize> BorshSize for Box<T> {
    open spec fn encoding(&self) -> Seq<u8> {
        (**self).encoding()
    }

    open spec fn encoded_len(&self) -> nat {
        (**self).encoded_len()
    }

    open spec fn encodable(&self) -> bool {
        (**self).encodable()
    }

    proof fn lemma_size_exact(&self) {
        (**self).lemma_size_exact();
    }

    fn borsh_size(&self) -> (n: usize) {
        (**self).borsh_size()
    }
}

impl<T: FastBorshSerialize> FastBorshSerialize for Box<T> {
    fn encode_into(&self, buf: &mut Vec<u8>) {
        (**self).encode_into(buf);
    }
}

impl<T: BorshSize> BorshSize for Rc<T> {
    open spec fn encoding(&self) -> Seq<u8> {
        (**self).encoding()
    }

    open spec fn encoded_len(&self) -> nat {
        (**self).encoded_len()
    }

    open spec fn encodable(&self) -> bool {
        (**self).encodable()
    }

    proof fn lemma_size_exact(&self) {
        (**self).lemma_size_exact();
    }

    fn borsh_size(&self) -> (n: usize) {
        (**self).borsh_size()
    }
}

impl<T: FastBorshSerialize> FastBorshSerialize for Rc<T> {
    fn encode_into(&self, buf: &mut Vec<u8>) {
        (**self).encode_into(buf);
    }
}

impl<T: BorshSize> BorshSize for Arc<T> {
    open spec fn encoding(&self) -> Seq<u8> {
        (**self).encoding()
    }

    open spec fn encoded_len(&self) -> nat {
        (**self).encoded_len()
    }

    open spec fn encodable(&self) -> bool {
        (**self).encodable()
    }

    proof fn lemma_size_exact(&self) {
        (**self).lemma_size_exact();
    }

    fn borsh_size(&self) -> (n: usize) {
        (**self).borsh_size()
    }
}

impl<T: FastBorshSerialize> FastBorshSerialize for Arc<T> {
    fn encode_into(&self, buf: &mut Vec<u8>) {
        (**self).encode_into(buf);
    }
}

impl<'a, T: BorshSize + Clone> BorshSize for Cow<'a, T> {
    open spec fn encoding(&self) -> Seq<u8> {
        match self {
            Cow::Borrowed(b) => (*b).encoding(),
            Cow::Owned(o) => o.encoding(),
        }
    }

    open spec fn encoded_len(&self) -> nat {
        match self {
            Cow::Borrowed(b) => (*b).encoded_len(),
            Cow::Owned(o) => o.encoded_len(),
        }
    }

    open spec fn encodable(&self) -> bool {
        match self {
            Cow::Borrowed(b) => (*b).encodable(),
            Cow::Owned(o) => o.encodable(),
        }
    }

    proof fn lemma_size_exact(&self) {
        match self {
            Cow::Borrowed(b) => {
                (*b).lemma_size_exact();
            },
            Cow::Owned(o) => {
                o.lemma_size_exact();
            },
        }
    }

    fn borsh_size(&self) -> (n: usize) {
        match self {
            Cow::Borrowed(b) => (*b).borsh_size(),
            Cow::Owned(o) => o.borsh_size(),
        }
    }
}

impl<'a, T: FastBorshSerialize + Clone> FastBorshSerialize for Cow<'a, T> {
    fn encode_into(&self, buf: &mut Vec<u8>) {
        match self {
            Cow::Borrowed(b) => {
                (*b).encode_into(buf);
            },
            Cow::Owned(o) => {
                o.encode_into(buf);
            },
        }
    }
}

} // verus!
