//! The host's side: the result buffer.
//!
//! A host wrapper encodes the value of its body and keeps the bytes in the
//! one buffer of its boundary, where the guest reads them a byte at a time.
//! It returns the number of bytes, or a negative sentinel where it has none
//! to report.

use crate::wire::{EncodeFailure, Wire};
use vstd::prelude::*;

verus! {

/// What a host wrapper returns where it has no result to report.
pub const SENTINEL: i32 = -1;

/// Whether `bytes` can be reported: their number fits the return word.
pub open spec fn reportable(bytes: Seq<u8>) -> bool {
    bytes.len() <= i32::MAX
}

/// What a host wrapper returns for the outcome of an encoding: the number of
/// bytes, or the sentinel where there are none or too many to report.
pub open spec fn reported(encoded: Option<Seq<u8>>) -> int {
    match encoded {
        Some(bytes) => if reportable(bytes) {
            bytes.len() as int
        } else {
            SENTINEL as int
        },
        None => SENTINEL as int,
    }
}

/// What the result buffer holds after a host wrapper that found `before` in
/// it: the bytes that were reported, or `before` where none were.
pub open spec fn kept(before: Seq<u8>, encoded: Option<Seq<u8>>) -> Seq<u8> {
    match encoded {
        Some(bytes) => if reportable(bytes) {
            bytes
        } else {
            before
        },
        None => before,
    }
}

/// The host's side of one boundary: the bytes of the last result.
pub struct ResultBuffer {
    last_result: Vec<u8>,
}

impl View for ResultBuffer {
    type V = Seq<u8>;

    closed spec fn view(&self) -> Seq<u8> {
        self.last_result@
    }
}

impl ResultBuffer {
    /// The buffer of a new boundary: empty.
    pub fn new() -> (buffer: ResultBuffer)
        ensures
            buffer@ == Seq::<u8>::empty(),
    {
        ResultBuffer { last_result: Vec::new() }
    }

    /// The number of bytes held.
    pub fn len(&self) -> (n: usize)
        ensures
            n == self@.len(),
    {
        self.last_result.len()
    }

    /// What a host wrapper does with the outcome of encoding its result:
    /// bytes that can be reported replace what the buffer held, and their
    /// number is returned; otherwise the buffer stays as it was and the
    /// sentinel is returned.
    pub fn store(&mut self, encoded: Result<Vec<u8>, EncodeFailure>) -> (size: i32)
        ensures
            size == reported(
                match encoded {
                    Ok(bytes) => Some(bytes@),
                    Err(_) => None,
                },
            ),
            final(self)@ == kept(
                old(self)@,
                match encoded {
                    Ok(bytes) => Some(bytes@),
                    Err(_) => None,
                },
            ),
    {
        match encoded {
            Ok(bytes) => {
                if bytes.len() <= 0x7fff_ffff {
                    let size = bytes.len() as i32;
                    self.last_result = bytes;
                    size
                } else {
                    SENTINEL
                }
            },
            Err(_) => SENTINEL,
        }
    }

    /// What a host wrapper does with the value of its body: encodes it and
    /// stores the outcome.
    pub fn publish<T: Wire>(&mut self, value: &T) -> (size: i32)
        ensures
            size == reported(T::encoding(value@)),
            final(self)@ == kept(old(self)@, T::encoding(value@)),
    {
        self.store(value.encode())
    }

    /// The byte-read entry point: the byte at `addr`.
    pub fn get_mem(&self, addr: u32) -> (byte: u8)
        requires
            addr < self@.len(),
        ensures
            byte == self@[addr as int],
    {
        self.last_result[addr as usize]
    }
}

} // verus!
