//! What holds of the stubs, whatever the declaration and the value.

use crate::boundary::{proxy_result, read_back};
use crate::guest::read_count;
use crate::host::{kept, reported};
use crate::declaration::{
    forwardable, forwardable_before, record_of, supported, turned_down, DeclarationView, Form,
    MalformedDeclaration, ParameterView,
};
use crate::emit::{
    guest_module_text, host_wrapper_text, lists_unsupported, proxies_text, Skipped,
};
use crate::wire::{DecodeFailure, Wire};
use vstd::prelude::*;

verus! {

/// What [`crate::emit::host_dynamic`] promises of its result.
pub open spec fn host_dynamic_gives(
    decl: DeclarationView,
    body: Seq<char>,
    r: Result<Seq<char>, MalformedDeclaration>,
) -> bool {
    match r {
        Ok(text) => supported(decl) && text == host_wrapper_text(record_of(decl), body),
        Err(fault) => !supported(decl) && turned_down(decl, fault),
    }
}

/// What [`crate::emit::guest_dynamic`] promises of its result.
pub open spec fn guest_dynamic_gives(
    decls: Seq<DeclarationView>,
    text: Seq<char>,
    skipped: Seq<Skipped>,
) -> bool {
    &&& text == guest_module_text(decls)
    &&& lists_unsupported(decls, decls.len() as int, skipped)
}

/// A declaration is turned down for one reason only.
pub proof fn law_one_reason(
    d: DeclarationView,
    first: MalformedDeclaration,
    second: MalformedDeclaration,
)
    requires
        turned_down(d, first),
        turned_down(d, second),
    ensures
        first == second,
{
}

/// Where not all of the first `n` parameters can be forwarded, one of them
/// is the first that cannot.
proof fn lemma_first_unfit(params: Seq<ParameterView>, n: int) -> (i: int)
    requires
        0 <= n <= params.len(),
        !forwardable_before(params, n),
    ensures
        0 <= i < n,
        forwardable_before(params, i),
        !forwardable(params[i]),
    decreases n,
{
    if forwardable_before(params, n - 1) {
        n - 1
    } else {
        lemma_first_unfit(params, n - 1)
    }
}

/// A declaration is supported or turned down, never both.
pub proof fn law_supported_or_turned_down(d: DeclarationView)
    requires
        d.params.len() <= usize::MAX,
    ensures
        supported(d) <==> !exists|fault: MalformedDeclaration| turned_down(d, fault),
{
    if !supported(d) {
        if d.form != Form::Plain {
            assert(turned_down(d, MalformedDeclaration::NotPlainFunction));
        } else if !forwardable_before(d.params, d.params.len() as int) {
            let i = lemma_first_unfit(d.params, d.params.len() as int);
            let index = i as usize;
            if d.params[i].name is None {
                assert(turned_down(d, MalformedDeclaration::UnnamedParameter { index }));
            } else {
                assert(turned_down(d, MalformedDeclaration::UnforwardableParameter { index }));
            }
        } else {
            assert(turned_down(d, MalformedDeclaration::NoReturnType));
        }
    }
}

/// Generation is deterministic: two runs on the same declaration and body
/// end alike, in the same text or for the same reason.
pub proof fn law_same_declaration_same_stubs(
    decl: DeclarationView,
    body: Seq<char>,
    first: Result<Seq<char>, MalformedDeclaration>,
    second: Result<Seq<char>, MalformedDeclaration>,
)
    requires
        host_dynamic_gives(decl, body, first),
        host_dynamic_gives(decl, body, second),
    ensures
        first == second,
{
    if let Err(f) = first {
        law_one_reason(decl, f, second->Err_0);
    }
}

/// Two lists of what was skipped among the same declarations agree on the
/// place of each entry up to `k`.
proof fn lemma_same_places(
    decls: Seq<DeclarationView>,
    n: int,
    first: Seq<Skipped>,
    second: Seq<Skipped>,
    k: int,
)
    requires
        lists_unsupported(decls, n, first),
        lists_unsupported(decls, n, second),
        0 <= k < first.len(),
        k < second.len(),
    ensures
        forall|j: int| 0 <= j <= k ==> first[j].index == second[j].index,
    decreases k,
{
    if k > 0 {
        lemma_same_places(decls, n, first, second, k - 1);
    }
    let a = first[k].index;
    let b = second[k].index;
    if a < b {
        assert(!supported(decls[a as int]));
        let l = choose|l: int| 0 <= l < second.len() && (#[trigger] second[l]).index == a;
        if l < k {
            assert(first[l].index < first[k].index);
        } else if l > k {
            assert(second[k].index < second[l].index);
        }
    } else if b < a {
        assert(!supported(decls[b as int]));
        let l = choose|l: int| 0 <= l < first.len() && (#[trigger] first[l]).index == b;
        if l < k {
            assert(second[l].index < second[k].index);
        } else if l > k {
            assert(first[k].index < first[l].index);
        }
    }
}

/// Of two lists of what was skipped among the same declarations, the first
/// is no longer than the second.
proof fn lemma_no_longer(
    decls: Seq<DeclarationView>,
    n: int,
    first: Seq<Skipped>,
    second: Seq<Skipped>,
)
    requires
        lists_unsupported(decls, n, first),
        lists_unsupported(decls, n, second),
    ensures
        first.len() <= second.len(),
{
    if first.len() > second.len() {
        let k = second.len() as int;
        let a = first[k].index;
        assert(!supported(decls[a as int]));
        let l = choose|l: int| 0 <= l < second.len() && (#[trigger] second[l]).index == a;
        lemma_same_places(decls, n, first, second, l);
        assert(first[l].index < first[k].index);
    }
}

/// What was skipped is listed in one way only.
pub proof fn law_one_list(
    decls: Seq<DeclarationView>,
    n: int,
    first: Seq<Skipped>,
    second: Seq<Skipped>,
)
    requires
        lists_unsupported(decls, n, first),
        lists_unsupported(decls, n, second),
    ensures
        first == second,
{
    lemma_no_longer(decls, n, first, second);
    lemma_no_longer(decls, n, second, first);
    assert forall|k: int| 0 <= k < first.len() implies first[k] == second[k] by {
        lemma_same_places(decls, n, first, second, k);
        law_one_reason(decls[first[k].index as int], first[k].fault, second[k].fault);
    }
    assert(first =~= second);
}

/// Generation is deterministic on the guest's side too: two guest modules
/// for the same declarations have the same text and skip the same
/// declarations for the same reasons.
pub proof fn law_same_declarations_same_module(
    decls: Seq<DeclarationView>,
    first: (Seq<char>, Seq<Skipped>),
    second: (Seq<char>, Seq<Skipped>),
)
    requires
        guest_dynamic_gives(decls, first.0, first.1),
        guest_dynamic_gives(decls, second.0, second.1),
    ensures
        first == second,
{
    law_one_list(decls, decls.len() as int, first.1, second.1);
}

/// Decoding undoes encoding, for every value that has an encoding.
pub proof fn law_round_trip<T: Wire>(v: T::V)
    requires
        T::encoding(v) is Some,
    ensures
        T::decoding(T::encoding(v)->0) == Some(v),
{
    T::round_trip(v);
}

/// Where a host wrapper reports a length, the guest proxy that reads that
/// many bytes back from address 0 up gets the value that the host encoded.
pub proof fn law_readback_reconstructs<T: Wire>(v: T::V, before: Seq<u8>)
    requires
        reported(T::encoding(v)) >= 0,
    ensures
        proxy_result::<T>(reported(T::encoding(v)), kept(before, T::encoding(v))) == Ok::<
            Option<T::V>,
            DecodeFailure,
        >(Some(v)),
{
    let bytes = T::encoding(v)->0;
    T::round_trip(v);
    assert(read_back(bytes, read_count(bytes.len() as int)) =~= bytes);
}

/// Where a host wrapper returns a negative word, the guest proxy reads no
/// byte and gives an absent result, whatever the buffer holds.
pub proof fn law_sentinel_is_absent<T: Wire>(rval: int, memory: Seq<u8>)
    requires
        rval < 0,
    ensures
        read_count(rval) == 0,
        proxy_result::<T>(rval, memory) == Ok::<Option<T::V>, DecodeFailure>(None),
{
}

/// A value that cannot be encoded reaches the guest as an absent result.
pub proof fn law_failed_encoding_is_absent<T: Wire>(v: T::V, before: Seq<u8>)
    requires
        T::encoding(v) is None,
    ensures
        reported(T::encoding(v)) < 0,
        kept(before, T::encoding(v)) == before,
        proxy_result::<T>(reported(T::encoding(v)), kept(before, T::encoding(v))) == Ok::<
            Option<T::V>,
            DecodeFailure,
        >(None),
{
}

/// A result that is reported leaves nothing of what the buffer held before:
/// calls in a row do not see each other's bytes.
pub proof fn law_no_residue<T: Wire>(v: T::V, before: Seq<u8>, other: Seq<u8>)
    requires
        reported(T::encoding(v)) >= 0,
    ensures
        kept(before, T::encoding(v)) == kept(other, T::encoding(v)),
        kept(before, T::encoding(v)) == T::encoding(v)->0,
{
}

/// A declaration without a return type gets no stubs: it is not supported,
/// and a guest module is the same with it as without.
pub proof fn law_no_return_type_no_stubs(decls: Seq<DeclarationView>, d: DeclarationView)
    requires
        d.ret is None,
    ensures
        !supported(d),
        guest_module_text(decls.push(d)) == guest_module_text(decls),
{
    assert(decls.push(d).drop_last() =~= decls);
    assert(proxies_text(decls.push(d)) == proxies_text(decls));
}

} // verus!
