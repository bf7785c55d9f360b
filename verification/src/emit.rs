//! The executable body wrapper and emitter, proved to produce exactly the
//! text that `crate::text` specifies.

use vstd::prelude::*;
use vstd::string::StringExecFns;

use crate::decl::FunctionDeclaration;
use crate::shape::TransformVariant;
use crate::text::attrs_text;
use crate::text::emitted_item_text;
use crate::text::wrapped_body_text;

verus! {

/// Generate the whole replacement body for the selected strategy: the span
/// binding first, then the strategy's wrapping of the original block, which
/// is embedded verbatim.
pub fn wrap_body(v: &TransformVariant, tag: &str, block: &str) -> (r: String)
    ensures
        r@ == wrapped_body_text(*v, tag@, block@),
{
    let mut out = String::new();
    out.append("let __tracer_span = minitrace::new_span((");
    out.append(tag);
    out.append(") as u32); ");
    match v {
        TransformVariant::SyncSpan => {
            out.append("let __tracing_attr_guard = __tracer_span.enter(); ");
            out.append(block);
        },
        TransformVariant::AsyncNative { fine } => {
            out.append("async move { ");
            out.append(block);
            if *fine {
                out.append(" }.instrument_fine(__tracer_span).await");
            } else {
                out.append(" }.instrument(__tracer_span).await");
            }
        },
        TransformVariant::AsyncBoxedFuture { fine: _ } => {
            out.append("std::boxed::Box::pin(");
            out.append(block);
            out.append(".instrument(__tracer_span))");
        },
    }
    proof {
        assert(out@ =~= wrapped_body_text(*v, tag@, block@));
    }
    out
}

/// Reassemble a complete function item from the preserved signature
/// fragments of the declaration and an already-generated body.
pub fn emit_item(d: &FunctionDeclaration, body: &str) -> (r: String)
    ensures
        r@ == emitted_item_text(*d, body@),
{
    let mut out = String::new();
    let mut i: usize = 0;
    while i < d.attrs.len()
        invariant
            i <= d.attrs.len(),
            out@ == attrs_text(d.attrs.deep_view().take(i as int)),
        decreases d.attrs.len() - i,
    {
        out.append(d.attrs[i].as_str());
        out.append(" ");
        proof {
            let dv = d.attrs.deep_view();
            assert(dv.take(i as int + 1).drop_last() =~= dv.take(i as int));
            assert(dv.take(i as int + 1).last() == dv[i as int]);
            assert(out@ =~= attrs_text(dv.take(i as int + 1)));
        }
        i += 1;
    }
    proof {
        assert(d.attrs.deep_view().take(d.attrs.len() as int) =~= d.attrs.deep_view());
    }
    out.append(d.vis.as_str());
    out.append(" ");
    out.append(d.constness.as_str());
    out.append(" ");
    out.append(d.unsafety.as_str());
    out.append(" ");
    if d.asyncness {
        out.append("async ");
    }
    out.append(d.abi.as_str());
    out.append(" fn ");
    out.append(d.ident.as_str());
    if !d.generics.as_str().is_empty() {
        out.append("<");
        out.append(d.generics.as_str());
        out.append(">");
    }
    out.append("(");
    out.append(d.params.as_str());
    out.append(") ");
    out.append(d.return_type.as_str());
    out.append(" ");
    out.append(d.where_clause.as_str());
    out.append(" ");
    out.append("{ ");
    out.append(body);
    out.append(" }");
    proof {
        assert(out@ =~= emitted_item_text(*d, body@));
    }
    out
}

} // verus!
