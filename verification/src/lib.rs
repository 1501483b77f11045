//! Stubs for calls that cross a boundary where only machine words pass.
//!
//! A guest and a host that share no memory can hand each other nothing but
//! integers. This crate turns an ordinary function declaration into the two
//! stubs that hide that limit: a host wrapper, which runs the function,
//! encodes what it returns and reports the length of the encoding, and a guest
//! proxy, which makes the narrow call, reads the encoding back one byte at a
//! time and decodes it.
//!
//! - [`declaration`]: what a declaration is, and which declarations are taken.
//! - [`emit`]: the text of the stubs.
//! - [`wire`]: values as bytes, and what is asked of an encoding.
//! - [`codec`]: the encodings of the integers and of strings.
//! - [`host`]: what a host wrapper does when it runs.
//! - [`guest`]: what a guest proxy does when it runs.
//! - [`boundary`]: both together, a call played through one buffer.
//! - [`laws`]: what holds of all of it.

pub mod boundary;
pub mod codec;
pub mod declaration;
pub mod emit;
pub mod guest;
pub mod host;
pub mod laws;
pub mod wire;

pub use boundary::{deliver, exchange};
pub use declaration::{
    transform, Declaration, Form, MalformedDeclaration, Parameter, Passing, Record,
};
pub use emit::{
    guest_dynamic, guest_proxy, host_dynamic, host_wrapper, join_text, readback_routine,
    GuestModule, Skipped,
};
pub use guest::{announced_size, memcpy, proxy_return, readback, Readback, Reader};
pub use host::{ResultBuffer, SENTINEL};
pub use wire::{DecodeFailure, EncodeFailure, Wire};
