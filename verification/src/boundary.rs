//! Both sides together: a call played through one result buffer.
//!
//! The host keeps the bytes of the last result and reports their number; the
//! guest reads as many bytes back and decodes them. One buffer serves a whole
//! boundary, so a result has to be read back in full before the next call
//! overwrites it: calls through one boundary come one after another.

use crate::guest::{gives, present, proxy_return, read_count, reads_of, served, Reader};
use crate::host::{kept, reported, ResultBuffer};
use crate::wire::{DecodeFailure, Wire};
use vstd::prelude::*;

verus! {

/// The bytes that `count` reads collect, from address 0 up, where the
/// byte-read entry point serves `memory`.
pub open spec fn read_back(memory: Seq<u8>, count: nat) -> Seq<u8>
    recommends
        count <= memory.len(),
{
    Seq::new(count, |a: int| memory[a])
}

/// What a guest proxy gives for the return word `rval` where the byte-read
/// entry point serves `memory`: an absent result for a negative word, else
/// what the bytes read back decode to.
pub open spec fn proxy_result<T: Wire>(rval: int, memory: Seq<u8>) -> Result<
    Option<T::V>,
    DecodeFailure,
> {
    if rval < 0 {
        Ok(None)
    } else {
        present::<T>(read_back(memory, read_count(rval)))
    }
}

/// A reader that serves `memory` hands back its first bytes.
pub proof fn lemma_served_from_memory<F: Fn(u32) -> u8>(get_mem: F, memory: Seq<u8>, bytes: Seq<u8>)
    requires
        served(get_mem, bytes),
        bytes.len() <= memory.len(),
        bytes.len() <= u32::MAX,
        forall|a: u32, b: u8|
            (a as int) < bytes.len() && call_ensures(get_mem, (a,), b) ==> b == memory[a as int],
    ensures
        bytes == read_back(memory, bytes.len()),
{
    assert forall|i: int| 0 <= i < bytes.len() implies bytes[i] == memory[i] by {
        let a = i as u32;
        assert(call_ensures(get_mem, (a,), bytes[a as int]));
    }
    assert(bytes =~= read_back(memory, bytes.len()));
}

/// The guest's part of a call, played against `buffer`: what a proxy gives
/// for the return word `rval` when its byte reads are served from there.
pub fn deliver<T: Wire>(buffer: &ResultBuffer, rval: isize) -> (r: Result<Option<T>, DecodeFailure>)
    requires
        read_count(rval as int) <= buffer@.len(),
    ensures
        gives(r, proxy_result::<T>(rval as int, buffer@)),
{
    let get_mem = |addr: u32| -> (byte: u8)
        requires
            addr < buffer@.len(),
        ensures
            byte == buffer@[addr as int],
        { buffer.get_mem(addr) };
    let mut reader = Reader::new(get_mem);
    let r = proxy_return::<T, _>(rval, &mut reader);
    proof {
        if rval >= 0 {
            let bytes = choose|bytes: Seq<u8>|
                {
                    &&& bytes.len() == read_count(rval as int)
                    &&& served(get_mem, bytes)
                    &&& reader.log() == reads_of(bytes)
                    &&& gives(r, present::<T>(bytes))
                };
            lemma_served_from_memory(get_mem, buffer@, bytes);
        }
    }
    r
}

/// A whole call, played in one place: the host's part with the value of its
/// body, then the guest's part against what the host kept. The value comes
/// out as it went in, or not at all where it could not be reported.
pub fn exchange<T: Wire>(buffer: &mut ResultBuffer, value: &T) -> (r: Result<
    Option<T>,
    DecodeFailure,
>)
    ensures
        final(buffer)@ == kept(old(buffer)@, T::encoding(value@)),
        reported(T::encoding(value@)) >= 0 ==> (r matches Ok(Some(t)) && t@ == value@),
        reported(T::encoding(value@)) < 0 ==> r matches Ok(None),
{
    let size = buffer.publish(value);
    proof {
        T::round_trip(value@);
        if size >= 0 {
            let bytes = T::encoding(value@)->0;
            assert(read_back(bytes, read_count(size as int)) =~= bytes);
        }
    }
    deliver::<T>(buffer, size as isize)
}

} // verus!
