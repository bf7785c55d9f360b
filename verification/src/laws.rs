//! The laws of the rewriter, stated over the same spec functions the
//! executable pipeline is proved against: what each strategy's output looks
//! like, that the one illegal combination emits nothing, and that every
//! legal expansion preserves the declaration's signature verbatim.

use vstd::prelude::*;

use crate::decl::FunctionDeclaration;
use crate::shape::EntryPoint;
use crate::shape::classification;
use crate::text::asyncness_text;
use crate::text::attrs_text;
use crate::text::expansion_text;
use crate::text::generics_text;
use crate::text::guard_binding_text;
use crate::text::signature_text;
use crate::text::span_binding_text;

verus! {

/// Law: a synchronous expansion embeds the original body verbatim, strictly
/// after the span creation and the guard acquisition, and the guard's
/// binding is scoped to the emitted function's whole body block — so the
/// span's active interval brackets the entire call on every exit path,
/// early return and unwind included.
pub proof fn lemma_sync_expansion_shape(d: FunctionDeclaration, tag: Seq<char>)
    requires
        !d.asyncness,
    ensures
        expansion_text(EntryPoint::Sync, d, tag) == signature_text(d) + "{ "@ + span_binding_text(
            tag,
        ) + guard_binding_text() + d.body@ + " }"@,
{
    assert(expansion_text(EntryPoint::Sync, d, tag) =~= signature_text(d) + "{ "@
        + span_binding_text(tag) + guard_binding_text() + d.body@ + " }"@);
}

/// Law: an asynchronous declaration under the synchronous-only entry point
/// has no legal strategy; expansion fails and no code is emitted.
pub proof fn lemma_sync_rejects_async(asyncness: bool)
    requires
        asyncness,
    ensures
        classification(EntryPoint::Sync, asyncness) is None,
{
}

/// Law: shape selection is total — every entry-point/asynchrony combination
/// selects a strategy, except the single illegal one.
pub proof fn lemma_classification_total(entry: EntryPoint, asyncness: bool)
    ensures
        (classification(entry, asyncness) is Some) <==> !(entry == EntryPoint::Sync && asyncness),
{
}

/// Law: for a natively asynchronous declaration under either asynchronous
/// entry point, the emitted body re-creates the original block verbatim
/// inside one asynchronous computation, instruments it — fine-grained
/// exactly for the fine entry point — and awaits it in place, so driving the
/// emitted function runs the original logic once with its suspension points
/// unchanged.
pub proof fn lemma_async_native_expansion_shape(entry: EntryPoint, d: FunctionDeclaration, tag: Seq<char>)
    requires
        d.asyncness,
        entry == EntryPoint::Async || entry == EntryPoint::AsyncFine,
    ensures
        expansion_text(entry, d, tag) == signature_text(d) + "{ "@ + span_binding_text(tag)
            + "async move { "@ + d.body@ + (if entry == EntryPoint::AsyncFine {
            " }.instrument_fine(__tracer_span).await"@
        } else {
            " }.instrument(__tracer_span).await"@
        }) + " }"@,
{
    assert(expansion_text(entry, d, tag) =~= signature_text(d) + "{ "@ + span_binding_text(tag)
        + "async move { "@ + d.body@ + (if entry == EntryPoint::AsyncFine {
        " }.instrument_fine(__tracer_span).await"@
    } else {
        " }.instrument(__tracer_span).await"@
    }) + " }"@);
}

/// Law: for a non-asynchronous declaration under either asynchronous entry
/// point, the emitted body instruments the original body expression verbatim
/// and returns it heap-allocated and pinned, without driving it — awaiting
/// the returned future elsewhere is what runs the original computation.
pub proof fn lemma_boxed_future_expansion_shape(entry: EntryPoint, d: FunctionDeclaration, tag: Seq<char>)
    requires
        !d.asyncness,
        entry == EntryPoint::Async || entry == EntryPoint::AsyncFine,
    ensures
        expansion_text(entry, d, tag) == signature_text(d) + "{ "@ + span_binding_text(tag)
            + "std::boxed::Box::pin("@ + d.body@ + ".instrument(__tracer_span))"@ + " }"@,
{
    assert(expansion_text(entry, d, tag) =~= signature_text(d) + "{ "@ + span_binding_text(tag)
        + "std::boxed::Box::pin("@ + d.body@ + ".instrument(__tracer_span))"@ + " }"@);
}

/// Law: every legal expansion's text begins with the emitted signature, for
/// every entry point, tag and body — callers of the emitted function see the
/// declaration's own signature, whatever strategy ran.
pub proof fn lemma_signature_preserved(entry: EntryPoint, d: FunctionDeclaration, tag: Seq<char>)
    requires
        classification(entry, d.asyncness) is Some,
    ensures
        expansion_text(entry, d, tag).take(signature_text(d).len() as int) == signature_text(d),
{
    assert(expansion_text(entry, d, tag).take(signature_text(d).len() as int) =~= signature_text(
        d,
    ));
}

/// Law: the emitted signature is rendered from the declaration's preserved
/// fragments alone — two declarations that agree on them have the same
/// emitted signature, whatever their bodies.
pub proof fn lemma_signature_ignores_body(d1: FunctionDeclaration, d2: FunctionDeclaration)
    requires
        d1.attrs.deep_view() == d2.attrs.deep_view(),
        d1.vis@ == d2.vis@,
        d1.constness@ == d2.constness@,
        d1.unsafety@ == d2.unsafety@,
        d1.abi@ == d2.abi@,
        d1.asyncness == d2.asyncness,
        d1.ident@ == d2.ident@,
        d1.generics@ == d2.generics@,
        d1.params@ == d2.params@,
        d1.return_type@ == d2.return_type@,
        d1.where_clause@ == d2.where_clause@,
    ensures
        signature_text(d1) == signature_text(d2),
{
}

/// Where each preserved fragment stands in the emitted signature: the offset
/// is the length of everything rendered before it.
pub open spec fn vis_offset(d: FunctionDeclaration) -> int {
    attrs_text(d.attrs.deep_view()).len() as int
}

pub open spec fn constness_offset(d: FunctionDeclaration) -> int {
    vis_offset(d) + d.vis@.len() + 1
}

pub open spec fn unsafety_offset(d: FunctionDeclaration) -> int {
    constness_offset(d) + d.constness@.len() + 1
}

pub open spec fn abi_offset(d: FunctionDeclaration) -> int {
    unsafety_offset(d) + d.unsafety@.len() + 1 + asyncness_text(d.asyncness).len()
}

pub open spec fn ident_offset(d: FunctionDeclaration) -> int {
    abi_offset(d) + d.abi@.len() + 4
}

/// Offset of the generic parameter list; meaningful only when the
/// declaration has one, since an empty list is emitted without brackets.
pub open spec fn generics_offset(d: FunctionDeclaration) -> int {
    ident_offset(d) + d.ident@.len() + 1
}

pub open spec fn params_offset(d: FunctionDeclaration) -> int {
    ident_offset(d) + d.ident@.len() + generics_text(d.generics@).len() + 1
}

pub open spec fn return_type_offset(d: FunctionDeclaration) -> int {
    params_offset(d) + d.params@.len() + 2
}

pub open spec fn where_clause_offset(d: FunctionDeclaration) -> int {
    return_type_offset(d) + d.return_type@.len() + 1
}

/// Law: each preserved fragment of the declaration stands byte-identical, as
/// one contiguous range, in the emitted signature, at the offset determined
/// by the fragments rendered before it.
#[verifier::rlimit(50)]
pub proof fn lemma_signature_fields_verbatim(d: FunctionDeclaration)
    ensures
        signature_text(d).subrange(vis_offset(d), vis_offset(d) + d.vis@.len()) == d.vis@,
        signature_text(d).subrange(
            constness_offset(d),
            constness_offset(d) + d.constness@.len(),
        ) == d.constness@,
        signature_text(d).subrange(
            unsafety_offset(d),
            unsafety_offset(d) + d.unsafety@.len(),
        ) == d.unsafety@,
        signature_text(d).subrange(abi_offset(d), abi_offset(d) + d.abi@.len()) == d.abi@,
        signature_text(d).subrange(ident_offset(d), ident_offset(d) + d.ident@.len()) == d.ident@,
        d.generics@.len() > 0 ==> signature_text(d).subrange(
            generics_offset(d),
            generics_offset(d) + d.generics@.len(),
        ) == d.generics@,
        signature_text(d).subrange(params_offset(d), params_offset(d) + d.params@.len())
            == d.params@,
        signature_text(d).subrange(
            return_type_offset(d),
            return_type_offset(d) + d.return_type@.len(),
        ) == d.return_type@,
        signature_text(d).subrange(
            where_clause_offset(d),
            where_clause_offset(d) + d.where_clause@.len(),
        ) == d.where_clause@,
{
    reveal_strlit(" ");
    reveal_strlit("async ");
    reveal_strlit(" fn ");
    reveal_strlit("<");
    reveal_strlit(">");
    reveal_strlit("(");
    reveal_strlit(") ");
    assert(signature_text(d).subrange(vis_offset(d), vis_offset(d) + d.vis@.len()) =~= d.vis@);
    assert(signature_text(d).subrange(constness_offset(d), constness_offset(d) + d.constness@.len())
        =~= d.constness@);
    assert(signature_text(d).subrange(unsafety_offset(d), unsafety_offset(d) + d.unsafety@.len())
        =~= d.unsafety@);
    assert(signature_text(d).subrange(abi_offset(d), abi_offset(d) + d.abi@.len()) =~= d.abi@);
    assert(signature_text(d).subrange(ident_offset(d), ident_offset(d) + d.ident@.len())
        =~= d.ident@);
    if d.generics@.len() > 0 {
        assert(signature_text(d).subrange(
            generics_offset(d),
            generics_offset(d) + d.generics@.len(),
        ) =~= d.generics@);
        assert(signature_text(d).subrange(params_offset(d), params_offset(d) + d.params@.len())
            =~= d.params@);
        assert(signature_text(d).subrange(
            return_type_offset(d),
            return_type_offset(d) + d.return_type@.len(),
        ) =~= d.return_type@);
        assert(signature_text(d).subrange(
            where_clause_offset(d),
            where_clause_offset(d) + d.where_clause@.len(),
        ) =~= d.where_clause@);
    } else {
        assert(signature_text(d).subrange(params_offset(d), params_offset(d) + d.params@.len())
            =~= d.params@);
        assert(signature_text(d).subrange(
            return_type_offset(d),
            return_type_offset(d) + d.return_type@.len(),
        ) =~= d.return_type@);
        assert(signature_text(d).subrange(
            where_clause_offset(d),
            where_clause_offset(d) + d.where_clause@.len(),
        ) =~= d.where_clause@);
    }
}

} // verus!
