//! The rewriting pipeline: classification, body wrapping and emission over
//! the plain declaration model, and the three entry points that take the raw
//! source text of a function item and a tag expression. Each entry point's
//! contract pins its result completely over the named results of the
//! deterministic outside parse — so equal input texts are promised equal
//! outputs or identical diagnostics.

use vstd::prelude::*;
use vstd::pervasive::unreached;

use crate::decl::ExpandError;
use crate::decl::FunctionDeclaration;
use crate::decl::ShapeError;
use crate::decl::TagExpression;
use crate::decl::shape_remedy_text;
use crate::emit::emit_item;
use crate::emit::wrap_body;
use crate::parse::parse_decl;
use crate::parse::parse_tag;
use crate::parse::parsed_decl;
use crate::parse::parsed_tag;
use crate::shape::EntryPoint;
use crate::shape::classify;
use crate::text::expansion_text;

verus! {

/// One whole expansion over the structured model: select the wrapper
/// strategy for the entry point and the declaration's asynchrony, generate
/// the replacement body, and emit the item with the signature preserved.
///
/// The result is the exact text `expansion_text` specifies; it is an error
/// exactly for the one illegal combination (an asynchronous declaration
/// under the synchronous-only entry point), and then no output exists and
/// the diagnostic stands at the declaration's asynchrony keyword with the
/// remedy text.
pub fn expand(entry: EntryPoint, d: &FunctionDeclaration, tag: &TagExpression) -> (r: Result<
    String,
    ShapeError,
>)
    ensures
        (r is Err) <==> (entry == EntryPoint::Sync && d.asyncness),
        r matches Err(e) ==> e.message@ == shape_remedy_text() && e.line == d.async_line
            && e.column == d.async_column,
        r matches Ok(out) ==> out@ == expansion_text(entry, *d, tag.text@),
{
    let v = match classify(entry, d.asyncness) {
        Some(v) => v,
        None => {
            return Err(ShapeError::at(d.async_line, d.async_column));
        },
    };
    let body = wrap_body(&v, tag.text.as_str(), d.body.as_str());
    Ok(emit_item(d, body.as_str()))
}

/// Rewrite the text of one synchronous function item so that a scope-bound
/// span guard of the tag's category brackets every call. The contract pins
/// the result for every input: the parser's own diagnostic when either text
/// is malformed; the located shape diagnostic naming the asynchronous entry
/// point when the declaration is asynchronous, and then nothing is emitted;
/// and otherwise exactly the synchronous expansion of the parsed declaration.
pub fn trace(item: &str, tag: &str) -> (r: Result<String, ExpandError>)
    ensures
        (match parsed_decl(item@) {
            Err(p) => r == Err::<String, ExpandError>(ExpandError::Parse(p)),
            Ok(d) => (match parsed_tag(tag@) {
                Err(p) => r == Err::<String, ExpandError>(ExpandError::Parse(p)),
                Ok(ts) => if d.asyncness {
                    r matches Err(e) && e matches ExpandError::Shape(s) && s.message@
                        == shape_remedy_text() && s.line == d.async_line && s.column
                        == d.async_column
                } else {
                    r matches Ok(out) && out@ == expansion_text(EntryPoint::Sync, d, ts)
                },
            }),
        }),
{
    let d = match parse_decl(item) {
        Ok(d) => d,
        Err(p) => {
            return Err(ExpandError::Parse(p));
        },
    };
    let t = match parse_tag(tag) {
        Ok(s) => TagExpression { text: s },
        Err(p) => {
            return Err(ExpandError::Parse(p));
        },
    };
    match expand(EntryPoint::Sync, &d, &t) {
        Ok(out) => Ok(out),
        Err(s) => Err(ExpandError::Shape(s)),
    }
}

/// Rewrite the text of one function item for asynchronous tracing with
/// coarse resume/suspend tracking: a natively asynchronous declaration has
/// its body instrumented and awaited in place; a non-asynchronous one is
/// taken to evaluate to a future-like value, which is instrumented,
/// heap-allocated and pinned, and returned without being driven. The
/// contract pins the result for every input: the parser's own diagnostic
/// when either text is malformed, and otherwise exactly the expansion of the
/// parsed declaration — there is no other failure mode.
pub fn trace_async(item: &str, tag: &str) -> (r: Result<String, ExpandError>)
    ensures
        (match parsed_decl(item@) {
            Err(p) => r == Err::<String, ExpandError>(ExpandError::Parse(p)),
            Ok(d) => (match parsed_tag(tag@) {
                Err(p) => r == Err::<String, ExpandError>(ExpandError::Parse(p)),
                Ok(ts) => r matches Ok(out) && out@ == expansion_text(EntryPoint::Async, d, ts),
            }),
        }),
{
    let d = match parse_decl(item) {
        Ok(d) => d,
        Err(p) => {
            return Err(ExpandError::Parse(p));
        },
    };
    let t = match parse_tag(tag) {
        Ok(s) => TagExpression { text: s },
        Err(p) => {
            return Err(ExpandError::Parse(p));
        },
    };
    match expand(EntryPoint::Async, &d, &t) {
        Ok(out) => Ok(out),
        Err(_) => unreached(),
    }
}

/// Same as `trace_async`, but requesting fine-grained resume/suspend span
/// tracking from the instrumentation adapter for a natively asynchronous
/// declaration. The contract pins the result for every input, as for
/// `trace_async`; there is no failure mode beyond a parse failure.
pub fn trace_async_fine(item: &str, tag: &str) -> (r: Result<String, ExpandError>)
    ensures
        (match parsed_decl(item@) {
            Err(p) => r == Err::<String, ExpandError>(ExpandError::Parse(p)),
            Ok(d) => (match parsed_tag(tag@) {
                Err(p) => r == Err::<String, ExpandError>(ExpandError::Parse(p)),
                Ok(ts) => r matches Ok(out) && out@ == expansion_text(
                    EntryPoint::AsyncFine,
                    d,
                    ts,
                ),
            }),
        }),
{
    let d = match parse_decl(item) {
        Ok(d) => d,
        Err(p) => {
            return Err(ExpandError::Parse(p));
        },
    };
    let t = match parse_tag(tag) {
        Ok(s) => TagExpression { text: s },
        Err(p) => {
            return Err(ExpandError::Parse(p));
        },
    };
    match expand(EntryPoint::AsyncFine, &d, &t) {
        Ok(out) => Ok(out),
        Err(_) => unreached(),
    }
}

} // verus!
