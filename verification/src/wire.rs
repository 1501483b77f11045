//! Values as bytes.
//!
//! A value crosses the boundary as a sequence of bytes. [`Wire`] says, for a
//! type, which bytes stand for which value, and asks for a proof that
//! decoding undoes encoding. The rest of this file is the arithmetic of
//! integers as bytes, least significant first.

use vstd::prelude::*;

verus! {

/// A value has no encoding.
#[derive(Clone, Copy, Debug, PartialEq, Eq)]
pub struct EncodeFailure;

/// Bytes stand for no value of the type asked for.
#[derive(Clone, Copy, Debug, PartialEq, Eq)]
pub struct DecodeFailure;

/// A type whose values can cross the boundary.
pub trait Wire: Sized + View {
    /// The bytes that stand for a value, where it has an encoding.
    spec fn encoding(v: Self::V) -> Option<Seq<u8>>;

    /// The value that `bytes` stand for, where they stand for one.
    spec fn decoding(bytes: Seq<u8>) -> Option<Self::V>;

    /// Decoding undoes encoding.
    proof fn round_trip(v: Self::V)
        ensures
            Self::encoding(v) matches Some(bytes) ==> Self::decoding(bytes) == Some(v),
    ;

    /// Encodes a value.
    fn encode(&self) -> (r: Result<Vec<u8>, EncodeFailure>)
        ensures
            match r {
                Ok(bytes) => Self::encoding(self@) == Some(bytes@),
                Err(_) => Self::encoding(self@) is None,
            },
    ;

    /// Decodes a value.
    fn decode(bytes: &[u8]) -> (r: Result<Self, DecodeFailure>)
        ensures
            match r {
                Ok(v) => Self::decoding(bytes@) == Some(v@),
                Err(_) => Self::decoding(bytes@) is None,
            },
    ;
}

/// The number of values that `width` bytes can tell apart.
pub open spec fn radix(width: nat) -> nat
    decreases width,
{
    if width == 0 {
        1
    } else {
        256 * radix((width - 1) as nat)
    }
}

/// The `width` low bytes of `v`, least significant first.
pub open spec fn le_bytes(v: nat, width: nat) -> Seq<u8>
    decreases width,
{
    if width == 0 {
        Seq::empty()
    } else {
        seq![(v % 256) as u8] + le_bytes(v / 256, (width - 1) as nat)
    }
}

/// The number that `bytes` spell, least significant first.
pub open spec fn le_value(bytes: Seq<u8>) -> nat
    decreases bytes.len(),
{
    if bytes.len() == 0 {
        0
    } else {
        bytes[0] as nat + 256 * le_value(bytes.drop_first())
    }
}

/// The number that stands for `v` in two's complement of `width` bytes.
pub open spec fn unsigned_of(v: int, width: nat) -> nat {
    if v < 0 {
        (v + radix(width)) as nat
    } else {
        v as nat
    }
}

/// The number that `u` stands for in two's complement of `width` bytes.
pub open spec fn signed_of(u: nat, width: nat) -> int {
    if 2 * u >= radix(width) {
        u - radix(width)
    } else {
        u as int
    }
}

/// `le_bytes` gives as many bytes as it is asked for.
pub proof fn lemma_le_bytes_len(v: nat, width: nat)
    ensures
        le_bytes(v, width).len() == width,
    decreases width,
{
    if width > 0 {
        lemma_le_bytes_len(v / 256, (width - 1) as nat);
    }
}

/// A number that fits in `width` bytes is what its bytes spell.
pub proof fn lemma_le_value_of_bytes(v: nat, width: nat)
    requires
        v < radix(width),
    ensures
        le_value(le_bytes(v, width)) == v,
    decreases width,
{
    if width > 0 {
        let rest = le_bytes(v / 256, (width - 1) as nat);
        let bytes = le_bytes(v, width);
        assert(bytes.drop_first() =~= rest);
        assert(bytes[0] == (v % 256) as u8);
        lemma_le_value_of_bytes(v / 256, (width - 1) as nat);
    }
}

/// The radix of the widths in use.
pub proof fn lemma_radix_values()
    ensures
        radix(4) == 0x1_0000_0000,
        radix(8) == 0x1_0000_0000_0000_0000,
{
    reveal_with_fuel(radix, 9);
}

} // verus!
