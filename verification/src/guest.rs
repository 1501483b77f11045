//! The guest's side: the proxy after the narrow call, and the readback.
//!
//! A guest proxy takes the word that the narrow call returned. A negative
//! word is an absent result. Any other is a number of bytes, which the proxy
//! reads back through the byte-read entry point, one address at a time from
//! 0 up, and decodes.

use crate::wire::{DecodeFailure, Wire};
use vstd::prelude::*;

verus! {

/// The number of bytes that a guest proxy reads back for the return word
/// `rval`: none for a negative one, else its low 32 bits.
pub open spec fn read_count(rval: int) -> nat {
    if rval < 0 {
        0
    } else {
        (rval % 0x1_0000_0000) as nat
    }
}

/// The reads that collect `bytes`: one for each address from 0 up, in
/// order, each with the byte that it gave.
pub open spec fn reads_of(bytes: Seq<u8>) -> Seq<(u32, u8)> {
    Seq::new(bytes.len(), |a: int| (a as u32, bytes[a]))
}

/// Whether `bytes` are what `get_mem` handed out for the addresses from 0
/// up, one each.
pub open spec fn served<F: Fn(u32) -> u8>(get_mem: F, bytes: Seq<u8>) -> bool {
    forall|a: u32|
        (a as int) < bytes.len() ==> call_ensures(get_mem, (a,), #[trigger] bytes[a as int])
}

/// What a guest proxy gives once it has read `bytes` back: the value that
/// they decode to, or a failure where they decode to none.
pub open spec fn present<T: Wire>(bytes: Seq<u8>) -> Result<Option<T::V>, DecodeFailure> {
    match T::decoding(bytes) {
        Some(v) => Ok(Some(v)),
        None => Err(DecodeFailure),
    }
}

/// Whether `r` is `expected`, value for value.
pub open spec fn gives<T: Wire>(
    r: Result<Option<T>, DecodeFailure>,
    expected: Result<Option<T::V>, DecodeFailure>,
) -> bool {
    match expected {
        Ok(Some(v)) => r matches Ok(Some(t)) && t@ == v,
        Ok(None) => r matches Ok(None),
        Err(_) => r is Err,
    }
}

/// The guest's end of the byte-read entry point: a function from an address
/// to the byte there, with a log of the reads made through it.
pub struct Reader<F: Fn(u32) -> u8> {
    get_mem: F,
    log: Ghost<Seq<(u32, u8)>>,
}

impl<F: Fn(u32) -> u8> Reader<F> {
    /// The function that is asked.
    pub closed spec fn source(&self) -> F {
        self.get_mem
    }

    /// The reads made so far, in order: the address asked for and the byte
    /// given.
    pub closed spec fn log(&self) -> Seq<(u32, u8)> {
        self.log@
    }

    /// A reader through which nothing was read yet.
    pub fn new(get_mem: F) -> (reader: Reader<F>)
        ensures
            reader.source() == get_mem,
            reader.log() == Seq::<(u32, u8)>::empty(),
    {
        Reader { get_mem, log: Ghost(Seq::empty()) }
    }

    /// Reads the byte at `addr`.
    pub fn get_mem(&mut self, addr: u32) -> (byte: u8)
        requires
            call_requires(old(self).source(), (addr,)),
        ensures
            final(self).source() == old(self).source(),
            final(self).log() == old(self).log().push((addr, byte)),
            call_ensures(old(self).source(), (addr,), byte),
    {
        let byte = (self.get_mem)(addr);
        self.log = Ghost(self.log@.push((addr, byte)));
        byte
    }
}

/// A readback in progress: of `size` bytes, those at the addresses below
/// `collected().len()` are in.
pub struct Readback {
    size: u32,
    bytes: Vec<u8>,
}

impl Readback {
    #[verifier::type_invariant]
    spec fn within_size(self) -> bool {
        self.bytes@.len() <= self.size
    }

    /// The number of bytes to read.
    pub closed spec fn size(&self) -> nat {
        self.size as nat
    }

    /// The bytes read so far, in the order of their addresses.
    pub closed spec fn collected(&self) -> Seq<u8> {
        self.bytes@
    }

    /// Starts a readback of `size` bytes.
    pub fn begin(size: u32) -> (readback: Readback)
        ensures
            readback.size() == size,
            readback.collected() == Seq::<u8>::empty(),
    {
        Readback { size, bytes: Vec::new() }
    }

    /// The address to read next: that of the first byte not yet in. `None`
    /// once all are in.
    pub fn pending(&self) -> (addr: Option<u32>)
        ensures
            addr == if self.collected().len() < self.size() {
                Some(self.collected().len() as u32)
            } else {
                None
            },
            self.collected().len() <= self.size(),
    {
        proof {
            use_type_invariant(self);
        }
        if self.bytes.len() < self.size as usize {
            Some(self.bytes.len() as u32)
        } else {
            None
        }
    }

    /// Takes the byte that the byte-read entry point gave for the pending
    /// address.
    pub fn accept(self, byte: u8) -> (next: Readback)
        requires
            self.collected().len() < self.size(),
        ensures
            next.size() == self.size(),
            next.collected() == self.collected().push(byte),
    {
        let Readback { size, mut bytes } = self;
        bytes.push(byte);
        Readback { size, bytes }
    }

    /// Hands out the bytes, once all are in.
    pub fn finish(self) -> (bytes: Vec<u8>)
        requires
            self.collected().len() == self.size(),
        ensures
            bytes@ == self.collected(),
    {
        self.bytes
    }
}

/// What a guest proxy makes of the return word of the narrow call: nothing
/// to read for a negative one, else as many bytes as its low 32 bits say.
pub fn announced_size(rval: isize) -> (size: Option<u32>)
    ensures
        rval < 0 <==> size is None,
        size matches Some(n) ==> n == read_count(rval as int),
{
    if rval < 0 {
        None
    } else {
        Some(((rval as u64) % 0x1_0000_0000) as u32)
    }
}

/// Reads `size` bytes back: makes one read through `reader` for each
/// address from 0 up, in order, and no other.
pub fn readback<F: Fn(u32) -> u8>(size: u32, reader: &mut Reader<F>) -> (bytes: Vec<u8>)
    requires
        forall|a: u32| a < size ==> call_requires(old(reader).source(), (a,)),
    ensures
        bytes@.len() == size,
        served(old(reader).source(), bytes@),
        final(reader).source() == old(reader).source(),
        final(reader).log() == old(reader).log() + reads_of(bytes@),
{
    let mut state = Readback::begin(size);
    loop
        invariant
            state.size() == size,
            reader.source() == old(reader).source(),
            reader.log() == old(reader).log() + reads_of(state.collected()),
            served(reader.source(), state.collected()),
            forall|a: u32| a < size ==> call_requires(reader.source(), (a,)),
        ensures
            state.collected().len() == size,
        decreases size - state.collected().len(),
    {
        match state.pending() {
            Some(addr) => {
                let byte = reader.get_mem(addr);
                state = state.accept(byte);
                assert(reader.log() =~= old(reader).log() + reads_of(state.collected()));
            },
            None => {
                break ;
            },
        }
    }
    state.finish()
}

/// Whether `r` is what `bytes` decode to.
pub open spec fn decoded<T: Wire>(r: Result<T, DecodeFailure>, bytes: Seq<u8>) -> bool {
    match T::decoding(bytes) {
        Some(v) => r matches Ok(t) && t@ == v,
        None => r is Err,
    }
}

/// The readback routine: reads `size` bytes back as [`readback`] does and
/// decodes them.
pub fn memcpy<T: Wire, F: Fn(u32) -> u8>(size: u32, reader: &mut Reader<F>) -> (r: Result<
    T,
    DecodeFailure,
>)
    requires
        forall|a: u32| a < size ==> call_requires(old(reader).source(), (a,)),
    ensures
        final(reader).source() == old(reader).source(),
        exists|bytes: Seq<u8>|
            {
                &&& bytes.len() == size
                &&& served(old(reader).source(), bytes)
                &&& final(reader).log() == old(reader).log() + reads_of(bytes)
                &&& decoded(r, bytes)
            },
{
    let bytes = readback(size, reader);
    T::decode(bytes.as_slice())
}

/// What a guest proxy does once the narrow call has returned `rval`.
///
/// A negative `rval` is an absent result, and nothing is read. For any
/// other, as many bytes as the low 32 bits of `rval` say are read back, one
/// address at a time from 0 up, and decoded: the result is present where
/// they decode, and a failure where they do not.
pub fn proxy_return<T: Wire, F: Fn(u32) -> u8>(rval: isize, reader: &mut Reader<F>) -> (r: Result<
    Option<T>,
    DecodeFailure,
>)
    requires
        forall|a: u32|
            (a as int) < read_count(rval as int) ==> call_requires(old(reader).source(), (a,)),
    ensures
        final(reader).source() == old(reader).source(),
        rval < 0 ==> r matches Ok(None),
        rval < 0 ==> final(reader).log() == old(reader).log(),
        rval >= 0 ==> exists|bytes: Seq<u8>|
            {
                &&& bytes.len() == read_count(rval as int)
                &&& served(old(reader).source(), bytes)
                &&& final(reader).log() == old(reader).log() + reads_of(bytes)
                &&& gives(r, present::<T>(bytes))
            },
{
    match announced_size(rval) {
        None => Ok(None),
        Some(size) => {
            match memcpy::<T, F>(size, reader) {
                Ok(value) => Ok(Some(value)),
                Err(failure) => Err(failure),
            }
        },
    }
}

} // verus!
