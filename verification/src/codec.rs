//! The encodings of the `bytevec` crate, for the types that cross the
//! boundary here: the 32-bit and 64-bit integers and `String`.
//!
//! `bytevec` writes an integer as its bytes, least significant first, and a
//! string as its UTF-8 bytes. The calls into it are the functions named
//! `bytevec_..` below; what is stated of them is taken on trust.

use crate::wire::{
    le_bytes, le_value, lemma_le_bytes_len, lemma_le_value_of_bytes, lemma_radix_values,
    signed_of, unsigned_of, DecodeFailure, EncodeFailure, Wire,
};
use vstd::prelude::*;
use vstd::utf8::{
    decode_utf8, encode_utf8, encode_utf8_decode_utf8, encode_utf8_valid_utf8, valid_utf8,
};

verus! {

/// The error type of `bytevec`.
#[verifier::external_type_specification]
#[verifier::external_body]
pub struct ExByteVecError(bytevec::errors::ByteVecError);

/// `<i32 as bytevec::ByteEncodable>::encode::<u32>`: always succeeds, with
/// the four bytes of the value in two's complement, least significant first.
#[verifier::external_body]
fn bytevec_encode_i32(v: i32) -> (r: Result<Vec<u8>, bytevec::errors::ByteVecError>)
    ensures
        r is Ok,
        r->Ok_0@ == le_bytes(unsigned_of(v as int, 4), 4),
{
    bytevec::ByteEncodable::encode::<u32>(&v)
}

/// `<i32 as bytevec::ByteDecodable>::decode::<u32>`: succeeds on exactly
/// four bytes, with the value that they spell in two's complement, least
/// significant first.
#[verifier::external_body]
fn bytevec_decode_i32(bytes: &[u8]) -> (r: Result<i32, bytevec::errors::ByteVecError>)
    ensures
        bytes@.len() == 4 ==> r is Ok && r->Ok_0 == signed_of(le_value(bytes@), 4),
        bytes@.len() != 4 ==> r is Err,
{
    bytevec::ByteDecodable::decode::<u32>(bytes)
}

impl Wire for i32 {
    open spec fn encoding(v: i32) -> Option<Seq<u8>> {
        Some(le_bytes(unsigned_of(v as int, 4), 4))
    }

    open spec fn decoding(bytes: Seq<u8>) -> Option<i32> {
        if bytes.len() == 4 {
            Some(signed_of(le_value(bytes), 4) as i32)
        } else {
            None
        }
    }

    proof fn round_trip(v: i32) {
        lemma_radix_values();
        lemma_le_bytes_len(unsigned_of(v as int, 4), 4);
        lemma_le_value_of_bytes(unsigned_of(v as int, 4), 4);
    }

    fn encode(&self) -> (r: Result<Vec<u8>, EncodeFailure>) {
        match bytevec_encode_i32(*self) {
            Ok(bytes) => Ok(bytes),
            Err(_) => Err(EncodeFailure),
        }
    }

    fn decode(bytes: &[u8]) -> (r: Result<i32, DecodeFailure>) {
        match bytevec_decode_i32(bytes) {
            Ok(v) => Ok(v),
            Err(_) => Err(DecodeFailure),
        }
    }
}

/// `<i64 as bytevec::ByteEncodable>::encode::<u32>`: always succeeds, with
/// the eight bytes of the value in two's complement, least significant first.
#[verifier::external_body]
fn bytevec_encode_i64(v: i64) -> (r: Result<Vec<u8>, bytevec::errors::ByteVecError>)
    ensures
        r is Ok,
        r->Ok_0@ == le_bytes(unsigned_of(v as int, 8), 8),
{
    bytevec::ByteEncodable::encode::<u32>(&v)
}

/// `<i64 as bytevec::ByteDecodable>::decode::<u32>`: succeeds on exactly
/// eight bytes, with the value that they spell in two's complement, least
/// significant first.
#[verifier::external_body]
fn bytevec_decode_i64(bytes: &[u8]) -> (r: Result<i64, bytevec::errors::ByteVecError>)
    ensures
        bytes@.len() == 8 ==> r is Ok && r->Ok_0 == signed_of(le_value(bytes@), 8),
        bytes@.len() != 8 ==> r is Err,
{
    bytevec::ByteDecodable::decode::<u32>(bytes)
}

impl Wire for i64 {
    open spec fn encoding(v: i64) -> Option<Seq<u8>> {
        Some(le_bytes(unsigned_of(v as int, 8), 8))
    }

    open spec fn decoding(bytes: Seq<u8>) -> Option<i64> {
        if bytes.len() == 8 {
            Some(signed_of(le_value(bytes), 8) as i64)
        } else {
            None
        }
    }

    proof fn round_trip(v: i64) {
        lemma_radix_values();
        lemma_le_bytes_len(unsigned_of(v as int, 8), 8);
        lemma_le_value_of_bytes(unsigned_of(v as int, 8), 8);
    }

    fn encode(&self) -> (r: Result<Vec<u8>, EncodeFailure>) {
        match bytevec_encode_i64(*self) {
            Ok(bytes) => Ok(bytes),
            Err(_) => Err(EncodeFailure),
        }
    }

    fn decode(bytes: &[u8]) -> (r: Result<i64, DecodeFailure>) {
        match bytevec_decode_i64(bytes) {
            Ok(v) => Ok(v),
            Err(_) => Err(DecodeFailure),
        }
    }
}

/// `<u32 as bytevec::ByteEncodable>::encode::<u32>`: always succeeds, with
/// the four bytes of the value, least significant first.
#[verifier::external_body]
fn bytevec_encode_u32(v: u32) -> (r: Result<Vec<u8>, bytevec::errors::ByteVecError>)
    ensures
        r is Ok,
        r->Ok_0@ == le_bytes(v as nat, 4),
{
    bytevec::ByteEncodable::encode::<u32>(&v)
}

/// `<u32 as bytevec::ByteDecodable>::decode::<u32>`: succeeds on exactly
/// four bytes, with the value that they spell, least significant first.
#[verifier::external_body]
fn bytevec_decode_u32(bytes: &[u8]) -> (r: Result<u32, bytevec::errors::ByteVecError>)
    ensures
        bytes@.len() == 4 ==> r is Ok && r->Ok_0 == le_value(bytes@),
        bytes@.len() != 4 ==> r is Err,
{
    bytevec::ByteDecodable::decode::<u32>(bytes)
}

impl Wire for u32 {
    open spec fn encoding(v: u32) -> Option<Seq<u8>> {
        Some(le_bytes(v as nat, 4))
    }

    open spec fn decoding(bytes: Seq<u8>) -> Option<u32> {
        if bytes.len() == 4 {
            Some(le_value(bytes) as u32)
        } else {
            None
        }
    }

    proof fn round_trip(v: u32) {
        lemma_radix_values();
        lemma_le_bytes_len(v as nat, 4);
        lemma_le_value_of_bytes(v as nat, 4);
    }

    fn encode(&self) -> (r: Result<Vec<u8>, EncodeFailure>) {
        match bytevec_encode_u32(*self) {
            Ok(bytes) => Ok(bytes),
            Err(_) => Err(EncodeFailure),
        }
    }

    fn decode(bytes: &[u8]) -> (r: Result<u32, DecodeFailure>) {
        match bytevec_decode_u32(bytes) {
            Ok(v) => Ok(v),
            Err(_) => Err(DecodeFailure),
        }
    }
}

/// `<u64 as bytevec::ByteEncodable>::encode::<u32>`: always succeeds, with
/// the eight bytes of the value, least significant first.
#[verifier::external_body]
fn bytevec_encode_u64(v: u64) -> (r: Result<Vec<u8>, bytevec::errors::ByteVecError>)
    ensures
        r is Ok,
        r->Ok_0@ == le_bytes(v as nat, 8),
{
    bytevec::ByteEncodable::encode::<u32>(&v)
}

/// `<u64 as bytevec::ByteDecodable>::decode::<u32>`: succeeds on exactly
/// eight bytes, with the value that they spell, least significant first.
#[verifier::external_body]
fn bytevec_decode_u64(bytes: &[u8]) -> (r: Result<u64, bytevec::errors::ByteVecError>)
    ensures
        bytes@.len() == 8 ==> r is Ok && r->Ok_0 == le_value(bytes@),
        bytes@.len() != 8 ==> r is Err,
{
    bytevec::ByteDecodable::decode::<u32>(bytes)
}

impl Wire for u64 {
    open spec fn encoding(v: u64) -> Option<Seq<u8>> {
        Some(le_bytes(v as nat, 8))
    }

    open spec fn decoding(bytes: Seq<u8>) -> Option<u64> {
        if bytes.len() == 8 {
            Some(le_value(bytes) as u64)
        } else {
            None
        }
    }

    proof fn round_trip(v: u64) {
        lemma_radix_values();
        lemma_le_bytes_len(v as nat, 8);
        lemma_le_value_of_bytes(v as nat, 8);
    }

    fn encode(&self) -> (r: Result<Vec<u8>, EncodeFailure>) {
        match bytevec_encode_u64(*self) {
            Ok(bytes) => Ok(bytes),
            Err(_) => Err(EncodeFailure),
        }
    }

    fn decode(bytes: &[u8]) -> (r: Result<u64, DecodeFailure>) {
        match bytevec_decode_u64(bytes) {
            Ok(v) => Ok(v),
            Err(_) => Err(DecodeFailure),
        }
    }
}

/// `<String as bytevec::ByteEncodable>::encode::<u32>`: succeeds where the
/// string's UTF-8 bytes are at most `u32::MAX` in number, with those bytes.
#[verifier::external_body]
fn bytevec_encode_string(s: &String) -> (r: Result<Vec<u8>, bytevec::errors::ByteVecError>)
    ensures
        encode_utf8(s@).len() <= u32::MAX ==> r is Ok && r->Ok_0@ == encode_utf8(s@),
        encode_utf8(s@).len() > u32::MAX ==> r is Err,
{
    bytevec::ByteEncodable::encode::<u32>(s)
}

/// `<String as bytevec::ByteDecodable>::decode::<u32>`: succeeds on valid
/// UTF-8, with the string that the bytes spell.
#[verifier::external_body]
fn bytevec_decode_string(bytes: &[u8]) -> (r: Result<String, bytevec::errors::ByteVecError>)
    ensures
        valid_utf8(bytes@) ==> r is Ok && r->Ok_0@ == decode_utf8(bytes@),
        !valid_utf8(bytes@) ==> r is Err,
{
    bytevec::ByteDecodable::decode::<u32>(bytes)
}

impl Wire for String {
    open spec fn encoding(v: Seq<char>) -> Option<Seq<u8>> {
        if encode_utf8(v).len() <= u32::MAX {
            Some(encode_utf8(v))
        } else {
            None
        }
    }

    open spec fn decoding(bytes: Seq<u8>) -> Option<Seq<char>> {
        if valid_utf8(bytes) {
            Some(decode_utf8(bytes))
        } else {
            None
        }
    }

    proof fn round_trip(v: Seq<char>) {
        encode_utf8_valid_utf8(v);
        encode_utf8_decode_utf8(v);
    }

    fn encode(&self) -> (r: Result<Vec<u8>, EncodeFailure>) {
        match bytevec_encode_string(self) {
            Ok(bytes) => Ok(bytes),
            Err(_) => Err(EncodeFailure),
        }
    }

    fn decode(bytes: &[u8]) -> (r: Result<String, DecodeFailure>) {
        match bytevec_decode_string(bytes) {
            Ok(s) => Ok(s),
            Err(_) => Err(DecodeFailure),
        }
    }
}

} // verus!
