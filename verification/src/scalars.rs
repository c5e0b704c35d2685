//! Size oracle and encoder bindings for fixed-width scalars: each encodes to
//! a constant number of little-endian bytes.

use vstd::prelude::*;

use crate::encoding::le_bytes;
use crate::encoding::lemma_le_bytes_len;
use crate::writers::write_bool;
use crate::writers::write_i128;
use crate::writers::write_i16;
use crate::writers::write_i32;
use crate::writers::write_i64;
use crate::writers::write_i8;
use crate::writers::write_isize;
use crate::writers::write_u128;
use crate::writers::write_u16;
use crate::writers::write_u32;
use crate::writers::write_u64;
use crate::writers::write_u8;
use crate::writers::write_usize;
use crate::BorshSize;
use crate::FastBorshSerialize;

verus! {

impl BorshSize for u8 {
    open spec fn encoding(&self) -> Seq<u8> {
        le_bytes(*self as int, 1)
    }

    open spec fn encoded_len(&self) -> nat {
        1
    }

    open spec fn encodable(&self) -> bool {
        true
    }

    proof fn lemma_size_exact(&self) {
        lemma_le_bytes_len(*self as int, 1);
    }

    fn borsh_size(&self) -> (n: usize) {
        1
    }
}

impl FastBorshSerialize for u8 {
    fn encode_into(&self, buf: &mut Vec<u8>) {
        write_u8(*self, buf);
    }
}

impl BorshSize for u16 {
    open spec fn encoding(&self) -> Seq<u8> {
        le_bytes(*self as int, 2)
    }

    open spec fn encoded_len(&self) -> nat {
        2
    }

    open spec fn encodable(&self) -> bool {
        true
    }

    proof fn lemma_size_exact(&self) {
        lemma_le_bytes_len(*self as int, 2);
    }

    fn borsh_size(&self) -> (n: usize) {
        2
    }
}

impl FastBorshSerialize for u16 {
    fn encode_into(&self, buf: &mut Vec<u8>) {
        write_u16(*self, buf);
    }
}

impl BorshSize for u32 {
    open spec fn encoding(&self) -> Seq<u8> {
        le_bytes(*self as int, 4)
    }

    open spec fn encoded_len(&self) -> nat {
        4
    }

    open spec fn encodable(&self) -> bool {
        true
    }

    proof fn lemma_size_exact(&self) {
        lemma_le_bytes_len(*self as int, 4);
    }

    fn borsh_size(&self) -> (n: usize) {
        4
    }
}

impl FastBorshSerialize for u32 {
    fn encode_into(&self, buf: &mut Vec<u8>) {
        write_u32(*self, buf);
    }
}

impl BorshSize for u64 {
    open spec fn encoding(&self) -> Seq<u8> {
        le_bytes(*self as int, 8)
    }

    open spec fn encoded_len(&self) -> nat {
        8
    }

    open spec fn encodable(&self) -> bool {
        true
    }

    proof fn lemma_size_exact(&self) {
        lemma_le_bytes_len(*self as int, 8);
    }

    fn borsh_size(&self) -> (n: usize) {
        8
    }
}

impl FastBorshSerialize for u64 {
    fn encode_into(&self, buf: &mut Vec<u8>) {
        write_u64(*self, buf);
    }
}

impl BorshSize for u128 {
    open spec fn encoding(&self) -> Seq<u8> {
        le_bytes(*self as int, 16)
    }

    open spec fn encoded_len(&self) -> nat {
        16
    }

    open spec fn encodable(&self) -> bool {
        true
    }

    proof fn lemma_size_exact(&self) {
        lemma_le_bytes_len(*self as int, 16);
    }

    fn borsh_size(&self) -> (n: usize) {
        16
    }
}

impl FastBorshSerialize for u128 {
    fn encode_into(&self, buf: &mut Vec<u8>) {
        write_u128(*self, buf);
    }
}

impl BorshSize for usize {
    open spec fn encoding(&self) -> Seq<u8> {
        le_bytes(*self as int, 8)
    }

    open spec fn encoded_len(&self) -> nat {
        8
    }

    open spec fn encodable(&self) -> bool {
        true
    }

    proof fn lemma_size_exact(&self) {
        lemma_le_bytes_len(*self as int, 8);
    }

    fn borsh_size(&self) -> (n: usize) {
        8
    }
}

impl FastBorshSerialize for usize {
    fn encode_into(&self, buf: &mut Vec<u8>) {
        write_usize(*self, buf);
    }
}

impl BorshSize for i8 {
    open spec fn encoding(&self) -> Seq<u8> {
        le_bytes(*self as int, 1)
    }

    open spec fn encoded_len(&self) -> nat {
        1
    }

    open spec fn encodable(&self) -> bool {
        true
    }

    proof fn lemma_size_exact(&self) {
        lemma_le_bytes_len(*self as int, 1);
    }

    fn borsh_size(&self) -> (n: usize) {
        1
    }
}

impl FastBorshSerialize for i8 {
    fn encode_into(&self, buf: &mut Vec<u8>) {
        write_i8(*self, buf);
    }
}

impl BorshSize for i16 {
    open spec fn encoding(&self) -> Seq<u8> {
        le_bytes(*self as int, 2)
    }

    open spec fn encoded_len(&self) -> nat {
        2
    }

    open spec fn encodable(&self) -> bool {
        true
    }

    proof fn lemma_size_exact(&self) {
        lemma_le_bytes_len(*self as int, 2);
    }

    fn borsh_size(&self) -> (n: usize) {
        2
    }
}

impl FastBorshSerialize for i16 {
    fn encode_into(&self, buf: &mut Vec<u8>) {
        write_i16(*self, buf);
    }
}

impl BorshSize for i32 {
    open spec fn encoding(&self) -> Seq<u8> {
        le_bytes(*self as int, 4)
    }

    open spec fn encoded_len(&self) -> nat {
        4
    }

    open spec fn encodable(&self) -> bool {
        true
    }

    proof fn lemma_size_exact(&self) {
        lemma_le_bytes_len(*self as int, 4);
    }

    fn borsh_size(&self) -> (n: usize) {
        4
    }
}

impl FastBorshSerialize for i32 {
    fn encode_into(&self, buf: &mut Vec<u8>) {
        write_i32(*self, buf);
    }
}

impl BorshSize for i64 {
    open spec fn encoding(&self) -> Seq<u8> {
        le_bytes(*self as int, 8)
    }

    open spec fn encoded_len(&self) -> nat {
        8
    }

    open spec fn encodable(&self) -> bool {
        true
    }

    proof fn lemma_size_exact(&self) {
        lemma_le_bytes_len(*self as int, 8);
    }

    fn borsh_size(&self) -> (n: usize) {
        8
    }
}

impl FastBorshSerialize for i64 {
    fn encode_into(&self, buf: &mut Vec<u8>) {
        write_i64(*self, buf);
    }
}

impl BorshSize for i128 {
    open spec fn encoding(&self) -> Seq<u8> {
        le_bytes(*self as int, 16)
    }

    open spec fn encoded_len(&self) -> nat {
        16
    }

    open spec fn encodable(&self) -> bool {
        true
    }

    proof fn lemma_size_exact(&self) {
        lemma_le_bytes_len(*self as int, 16);
    }

    fn borsh_size(&self) -> (n: usize) {
        16
    }
}

impl FastBorshSerialize for i128 {
    fn encode_into(&self, buf: &mut Vec<u8>) {
        write_i128(*self, buf);
    }
}

impl BorshSize for isize {
    open spec fn encoding(&self) -> Seq<u8> {
        le_bytes(*self as int, 8)
    }

    open spec fn encoded_len(&self) -> nat {
        8
    }

    open spec fn encodable(&self) -> bool {
        true
    }

    proof fn lemma_size_exact(&self) {
        lemma_le_bytes_len(*self as int, 8);
    }

    fn borsh_size(&self) -> (n: usize) {
        8
    }
}

impl FastBorshSerialize for isize {
    fn encode_into(&self, buf: &mut Vec<u8>) {
        write_isize(*self, buf);
    }
}

impl BorshSize for bool {
    open spec fn encoding(&self) -> Seq<u8> {
        seq![if *self { 1u8 } else { 0u8 }]
    }

    open spec fn encoded_len(&self) -> nat {
        1
    }

    open spec fn encodable(&self) -> bool {
        true
    }

    proof fn lemma_size_exact(&self) {
    }

    fn borsh_size(&self) -> (n: usize) {
        1
    }
}

impl FastBorshSerialize for bool {
    fn encode_into(&self, buf: &mut Vec<u8>) {
        write_bool(*self, buf);
    }
}

} // verus!
