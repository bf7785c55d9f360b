//! The exact text the rewriter emits, as specification-level sequences of
//! characters. These definitions are the single statement of the output
//! format; the executable emitter is proved to produce them verbatim.

use vstd::prelude::*;

use crate::decl::FunctionDeclaration;
use crate::shape::TransformVariant;
use crate::shape::classification;
use crate::shape::EntryPoint;

verus! {

/// The first binding of every generated body: create the span whose category
/// is the tag expression cast to an unsigned 32-bit integer. The tag is
/// parenthesized so the whole expression is cast, whatever its shape.
pub open spec fn span_binding_text(tag: Seq<char>) -> Seq<char> {
    "let __tracer_span = minitrace::new_span(("@ + tag + ") as u32); "@
}

/// The scope-bound guard binding of the synchronous shape: entered strictly
/// before any statement of the original body, released on every exit path of
/// the enclosing block, unwind included.
pub open spec fn guard_binding_text() -> Seq<char> {
    "let __tracing_attr_guard = __tracer_span.enter(); "@
}

/// What follows the span binding, per selected strategy. The original block
/// is embedded verbatim in every case.
pub open spec fn variant_body_text(v: TransformVariant, block: Seq<char>) -> Seq<char> {
    match v {
        TransformVariant::SyncSpan => guard_binding_text() + block,
        TransformVariant::AsyncNative { fine } => if fine {
            "async move { "@ + block + " }.instrument_fine(__tracer_span).await"@
        } else {
            "async move { "@ + block + " }.instrument(__tracer_span).await"@
        },
        TransformVariant::AsyncBoxedFuture { fine: _ } => (
            "std::boxed::Box::pin("@ + block + ".instrument(__tracer_span))"@
        ),
    }
}

/// The whole replacement body: span creation first, then the strategy's
/// wrapping of the original block.
pub open spec fn wrapped_body_text(v: TransformVariant, tag: Seq<char>, block: Seq<char>) -> Seq<char> {
    span_binding_text(tag) + variant_body_text(v, block)
}

/// The leading annotations, re-emitted in order, each followed by one space.
pub open spec fn attrs_text(attrs: Seq<Seq<char>>) -> Seq<char>
    decreases attrs.len(),
{
    if attrs.len() == 0 {
        Seq::<char>::empty()
    } else {
        attrs_text(attrs.drop_last()) + attrs.last() + " "@
    }
}

/// The asynchrony keyword of the emitted signature: present exactly when the
/// declaration is asynchronous.
pub open spec fn asyncness_text(asyncness: bool) -> Seq<char> {
    if asyncness {
        "async "@
    } else {
        Seq::<char>::empty()
    }
}

/// The generic parameter list in its brackets, or nothing at all when the
/// declaration has none — an input without a generics list gets no empty
/// bracket pair invented for it.
pub open spec fn generics_text(generics: Seq<char>) -> Seq<char> {
    if generics.len() == 0 {
        Seq::<char>::empty()
    } else {
        "<"@ + generics + ">"@
    }
}

/// The emitted signature: every preserved fragment of the declaration,
/// verbatim and in declaration order, separated by layout only.
pub open spec fn signature_text(d: FunctionDeclaration) -> Seq<char> {
    attrs_text(d.attrs.deep_view()) + d.vis@ + " "@ + d.constness@ + " "@ + d.unsafety@ + " "@
        + asyncness_text(d.asyncness) + d.abi@ + " fn "@ + d.ident@ + generics_text(d.generics@)
        + "("@ + d.params@ + ") "@ + d.return_type@ + " "@ + d.where_clause@ + " "@
}

/// A complete emitted function item: the preserved signature, then the
/// replacement body in braces.
pub open spec fn emitted_item_text(d: FunctionDeclaration, body: Seq<char>) -> Seq<char> {
    signature_text(d) + "{ "@ + body + " }"@
}

/// The full output of one expansion, for a legal entry-point/shape
/// combination.
pub open spec fn expansion_text(entry: EntryPoint, d: FunctionDeclaration, tag: Seq<char>) -> Seq<char>
    recommends
        classification(entry, d.asyncness) is Some,
{
    match classification(entry, d.asyncness) {
        Some(v) => emitted_item_text(d, wrapped_body_text(v, tag, d.body@)),
        None => Seq::<char>::empty(),
    }
}

} // verus!
