//! The text of the stubs.
//!
//! A stub is written out as source text. For `pub fn add(a: i32, b: i32) ->
//! i32 { a + b }` the host wrapper is
//!
//! ```text
//! pub fn add(a: i32, b: i32) -> i32 {
//!     use bytevec::ByteEncodable;
//!     let return_value = { a + b };
//!     if let Ok(encoded_return) = return_value.encode::<u32>() {
//!         env.data_mut().last_result = encoded_return;
//!         return env.data().last_result.len() as _
//!     }
//!     return -1;
//! }
//! ```
//!
//! and the guest proxy is
//!
//! ```text
//! pub fn add(a: i32, b: i32) -> Option<i32> {
//!     extern "C" { fn add(a: i32, b: i32) -> isize; }
//!     let rval = unsafe { add(a, b) };
//!     if rval < 0 { return None; }
//!     Some(unsafe { memcpy(rval as u32) })
//! }
//! ```
//!
//! where `memcpy` is the readback routine, which a guest module holds once.
//! The wrapper expects an `env` in scope whose data has a `last_result`.
//!
//! The text of a stub depends on the record of the declaration alone (and,
//! for the wrapper, on the body it wraps), so the same declaration always
//! gives the same pair.

use crate::declaration::{
    record_of, supported, transform, turned_down, Declaration, DeclarationView,
    MalformedDeclaration, Record, RecordView,
};
use vstd::prelude::*;
use vstd::string::*;

verus! {

/// Between two entries of a list.
pub const SEPARATOR: &'static str = ", ";

/// A host wrapper, from the end of its parameter list to the body it wraps.
pub const HOST_OPEN: &'static str = ") -> i32 {\n    \
     use bytevec::ByteEncodable;\n    \
     let return_value = ";

/// A host wrapper, after the body it wraps: the value is encoded with a
/// 32-bit length prefix, kept as the last result, and its length returned;
/// where it cannot be encoded, -1 is returned.
pub const HOST_CLOSE: &'static str =
    ";\n    \
     if let Ok(encoded_return) = return_value.encode::<u32>() {\n        \
     env.data_mut().last_result = encoded_return;\n        \
     return env.data().last_result.len() as _\n    \
     }\n    \
     return -1;\n\
     }\n";

/// A guest proxy, from the end of its parameter list to its return type.
pub const PROXY_RETURNS: &'static str = ") -> Option<";

/// A guest proxy, from its return type to the name of the narrow entry point
/// that it declares.
pub const PROXY_DECLARES: &'static str = "> {\n    \
     extern \"C\" { fn ";

/// A guest proxy, from the narrow entry point's parameter list to the call.
pub const PROXY_CALLS: &'static str = ") -> isize; }\n    \
     let rval = unsafe { ";

/// A guest proxy, after the arguments of the call: a negative size is an
/// absent result, any other is read back.
pub const PROXY_CLOSE: &'static str = ") };\n    \
     if rval < 0 { return None; }\n    \
     Some(unsafe { memcpy(rval as u32) })\n\
     }\n";

/// The routine that a guest module holds once, and that every proxy calls:
/// it reads `size` bytes, one address at a time from 0 up, and decodes them.
pub const READBACK: &'static str =
    "unsafe fn memcpy<T>(size: u32) -> T where T: bytevec::ByteDecodable {\n    \
     extern \"C\" { fn get_mem(addr: u32) -> u8; }\n    \
     let mut ret_bytes = Vec::<u8>::with_capacity(size as usize);\n    \
     for i in 0..size {\n        \
     ret_bytes.push(unsafe { get_mem(i) });\n    \
     }\n    \
     T::decode::<u32>(&ret_bytes).unwrap()\n\
     }\n";

/// `parts` in order, with `sep` between each two.
pub open spec fn join(parts: Seq<Seq<char>>, sep: Seq<char>) -> Seq<char>
    decreases parts.len(),
{
    if parts.len() == 0 {
        Seq::empty()
    } else if parts.len() == 1 {
        parts[0]
    } else {
        join(parts.drop_last(), sep) + sep + parts.last()
    }
}

/// A function's head up to its name: the qualifiers, where there are any,
/// then `fn`.
pub open spec fn head(qualifiers: Seq<char>) -> Seq<char> {
    if qualifiers.len() == 0 {
        "fn "@
    } else {
        qualifiers + " fn "@
    }
}

/// The text of the host wrapper of a record, round `body`.
pub open spec fn host_wrapper_text(r: RecordView, body: Seq<char>) -> Seq<char> {
    head(r.qualifiers) + r.name + "("@ + join(r.params, SEPARATOR@) + HOST_OPEN@ + body
        + HOST_CLOSE@
}

/// The text of the guest proxy of a record.
pub open spec fn guest_proxy_text(r: RecordView) -> Seq<char> {
    "pub fn "@ + r.name + "("@ + join(r.params, SEPARATOR@) + PROXY_RETURNS@ + r.ret
        + PROXY_DECLARES@ + r.name + "("@ + join(r.params, SEPARATOR@) + PROXY_CALLS@ + r.name
        + "("@ + join(r.arg_names, SEPARATOR@) + PROXY_CLOSE@
}

/// The proxies of those of `decls` that are supported, in order.
pub open spec fn proxies_text(decls: Seq<DeclarationView>) -> Seq<char>
    decreases decls.len(),
{
    if decls.len() == 0 {
        Seq::empty()
    } else if supported(decls.last()) {
        proxies_text(decls.drop_last()) + guest_proxy_text(record_of(decls.last()))
    } else {
        proxies_text(decls.drop_last())
    }
}

/// The text of a guest module: the readback routine, then the proxies.
pub open spec fn guest_module_text(decls: Seq<DeclarationView>) -> Seq<char> {
    READBACK@ + proxies_text(decls)
}

/// The models of a list of declarations.
pub open spec fn views(decls: Seq<Declaration>) -> Seq<DeclarationView> {
    Seq::new(decls.len(), |i: int| decls[i]@)
}

/// A declaration that a guest module was not given a proxy for.
#[derive(Clone, Copy, Debug, PartialEq, Eq)]
pub struct Skipped {
    /// Where the declaration stands in the list.
    pub index: usize,
    /// Why it was turned down.
    pub fault: MalformedDeclaration,
}

/// What [`guest_dynamic`] makes of a list of declarations.
#[derive(Clone, Debug, PartialEq, Eq)]
pub struct GuestModule {
    /// The module's text.
    pub text: String,
    /// The declarations that were turned down, in order.
    pub skipped: Vec<Skipped>,
}

/// Whether `skipped` lists, in order and each with its reason, exactly the
/// declarations among the first `n` of `decls` that are not supported.
pub open spec fn lists_unsupported(
    decls: Seq<DeclarationView>,
    n: int,
    skipped: Seq<Skipped>,
) -> bool {
    &&& forall|k: int|
        0 <= k < skipped.len() ==> {
            &&& (#[trigger] skipped[k]).index < n
            &&& !supported(decls[skipped[k].index as int])
            &&& turned_down(decls[skipped[k].index as int], skipped[k].fault)
        }
    &&& forall|k: int, l: int|
        0 <= k < l < skipped.len() ==> (#[trigger] skipped[k]).index < (#[trigger] skipped[l]).index
    &&& forall|i: int|
        0 <= i < n && !supported(#[trigger] decls[i]) ==> exists|k: int|
            0 <= k < skipped.len() && (#[trigger] skipped[k]).index == i
}

/// Joins `parts` with `sep` between each two.
pub fn join_text(parts: &Vec<String>, sep: &str) -> (out: String)
    ensures
        out@ == join(parts.deep_view(), sep@),
{
    let mut out = String::new();
    let mut i: usize = 0;
    while i < parts.len()
        invariant
            i <= parts.len(),
            out@ == join(parts.deep_view().take(i as int), sep@),
        decreases parts.len() - i,
    {
        proof {
            let before = parts.deep_view().take(i as int);
            let after = parts.deep_view().take(i + 1);
            assert(after.drop_last() =~= before);
            assert(after.last() == parts@[i as int]@);
        }
        if i > 0 {
            out.append(sep);
        }
        out.append(parts[i].as_str());
        i += 1;
    }
    assert(parts.deep_view().take(parts.len() as int) =~= parts.deep_view());
    out
}

/// Writes the host wrapper of `record` round `body`.
///
/// The wrapper has the function's name and parameters and returns a 32-bit
/// signed integer. It runs `body`, encodes what comes of it, keeps the bytes
/// as the last result and returns their number, or returns -1 where the value
/// cannot be encoded.
pub fn host_wrapper(record: &Record, body: &str) -> (out: String)
    ensures
        out@ == host_wrapper_text(record@, body@),
{
    let params = join_text(&record.params, SEPARATOR);
    let mut out = record.qualifiers.clone();
    if out.as_str().is_empty() {
        out.append("fn ");
        assert(out@ =~= "fn "@);
    } else {
        out.append(" fn ");
    }
    out.append(record.name.as_str());
    out.append("(");
    out.append(params.as_str());
    out.append(HOST_OPEN);
    out.append(body);
    out.append(HOST_CLOSE);
    out
}

/// Writes the guest proxy of `record`.
///
/// The proxy has the function's name and parameters and returns an optional
/// value of the declared type. It declares the narrow entry point of the same
/// name, which returns a signed size, calls it with the parameters by name,
/// and gives `None` for a negative size and the value read back for any
/// other.
pub fn guest_proxy(record: &Record) -> (out: String)
    ensures
        out@ == guest_proxy_text(record@),
{
    let params = join_text(&record.params, SEPARATOR);
    let args = join_text(&record.arg_names, SEPARATOR);
    let mut out = String::new();
    out.append("pub fn ");
    assert(out@ =~= "pub fn "@);
    out.append(record.name.as_str());
    out.append("(");
    out.append(params.as_str());
    out.append(PROXY_RETURNS);
    out.append(record.ret.as_str());
    out.append(PROXY_DECLARES);
    out.append(record.name.as_str());
    out.append("(");
    out.append(params.as_str());
    out.append(PROXY_CALLS);
    out.append(record.name.as_str());
    out.append("(");
    out.append(args.as_str());
    out.append(PROXY_CLOSE);
    out
}

/// Writes the readback routine.
pub fn readback_routine() -> (out: String)
    ensures
        out@ == READBACK@,
{
    let mut out = String::new();
    out.append(READBACK);
    assert(out@ =~= READBACK@);
    out
}

/// Writes the host wrapper of a declaration round `body`, or says why the
/// declaration is turned down.
pub fn host_dynamic(decl: &Declaration, body: &str) -> (r: Result<String, MalformedDeclaration>)
    ensures
        match r {
            Ok(text) => supported(decl@) && text@ == host_wrapper_text(record_of(decl@), body@),
            Err(fault) => !supported(decl@) && turned_down(decl@, fault),
        },
{
    match transform(decl) {
        Ok(record) => Ok(host_wrapper(&record, body)),
        Err(fault) => Err(fault),
    }
}

/// Writes a guest module for a list of declarations: the readback routine
/// once, then one proxy for each declaration that is supported, in order.
/// A declaration that is not supported gets no proxy and is listed with its
/// reason.
pub fn guest_dynamic(decls: &Vec<Declaration>) -> (module: GuestModule)
    ensures
        module.text@ == guest_module_text(views(decls@)),
        lists_unsupported(views(decls@), decls@.len() as int, module.skipped@),
{
    let mut text = readback_routine();
    let mut skipped: Vec<Skipped> = Vec::new();
    let mut i: usize = 0;
    while i < decls.len()
        invariant
            i <= decls.len(),
            text@ == READBACK@ + proxies_text(views(decls@).take(i as int)),
            lists_unsupported(views(decls@), i as int, skipped@),
        decreases decls.len() - i,
    {
        proof {
            let before = views(decls@).take(i as int);
            let after = views(decls@).take(i + 1);
            assert(after.drop_last() =~= before);
            assert(after.last() == decls@[i as int]@);
        }
        let ghost earlier = skipped@;
        match transform(&decls[i]) {
            Ok(record) => {
                let proxy = guest_proxy(&record);
                text.append(proxy.as_str());
                assert(text@ =~= READBACK@ + proxies_text(views(decls@).take(i + 1)));
            },
            Err(fault) => {
                skipped.push(Skipped { index: i, fault });
                assert(skipped@[earlier.len() as int].index == i);
                assert forall|j: int|
                    0 <= j < i + 1 && !supported(#[trigger] views(decls@)[j]) implies exists|
                    k: int,
                |
                    0 <= k < skipped@.len() && (#[trigger] skipped@[k]).index == j by {
                    if j < i {
                        let k = choose|k: int|
                            0 <= k < earlier.len() && (#[trigger] earlier[k]).index == j;
                        assert(skipped@[k] == earlier[k]);
                    } else {
                        assert(skipped@[earlier.len() as int].index == j);
                    }
                }
            },
        }
        i += 1;
    }
    assert(views(decls@).take(decls@.len() as int) =~= views(decls@));
    GuestModule { text, skipped }
}

} // verus!
