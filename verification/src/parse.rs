//! The trusted boundary to the outside parser and printer. Everything here
//! either declares an outside type, names the deterministic result of the
//! parse-and-reprint pass, or wraps the outside calls; the pipeline's own
//! logic stands in the verified modules and works on the plain
//! `FunctionDeclaration` model that these wrappers hand it.

use vstd::prelude::*;

use quote::ToTokens;

use crate::decl::FunctionDeclaration;
use crate::decl::ParseError;

verus! {

#[verifier::external_type_specification]
#[verifier::external_body]
pub struct ExItemFn(syn::ItemFn);

#[verifier::external_type_specification]
#[verifier::external_body]
pub struct ExExpr(syn::Expr);

#[verifier::external_type_specification]
#[verifier::external_body]
pub struct ExSynError(syn::Error);

/// What the parse-and-reprint pass makes of the text of one function item:
/// its structured form, every fragment re-printed and the asynchrony
/// keyword's position kept — or the parser's diagnostic at the offending
/// token. A pure function of the text alone, because the wrappers that
/// apply this name first pin the token machinery to its fallback
/// implementation in every execution context.
pub uninterp spec fn parsed_decl(src: Seq<char>) -> Result<FunctionDeclaration, ParseError>;

/// What the parse-and-reprint pass makes of the tag text: the re-printed
/// expression, or the parser's diagnostic at the offending token. A pure
/// function of the text alone, pinned as for `parsed_decl`.
pub uninterp spec fn parsed_tag(src: Seq<char>) -> Result<Seq<char>, ParseError>;

/// Relies on syn::parse_str::<syn::ItemFn> and quote's token printing, with
/// proc_macro2::fallback::force() called first: the token machinery
/// otherwise dispatches per thread between the compiler's implementation and
/// its own (different printing, and no real span positions on a stable
/// compiler); forcing the fallback makes the whole pass the deterministic
/// function of the text that `parsed_decl` names, in every execution
/// context.
#[verifier::external_body]
pub(crate) fn parse_decl(src: &str) -> (r: Result<FunctionDeclaration, ParseError>)
    ensures
        r == parsed_decl(src@),
{
    proc_macro2::fallback::force();
    match syn::parse_str::<syn::ItemFn>(src) {
        Ok(f) => {
            let (line, column) = asyncness_position(&f);
            Ok(decl_of_item(&f, line, column))
        },
        Err(e) => Err(parse_error_of(&e)),
    }
}

/// Relies on syn::parse_str::<syn::Expr> and quote's token printing, with
/// proc_macro2::fallback::force() called first as in `parse_decl`: one
/// deterministic pass from the tag text to its re-printed form, or to the
/// parser's located diagnostic — the pass that `parsed_tag` names.
#[verifier::external_body]
pub(crate) fn parse_tag(src: &str) -> (r: Result<String, ParseError>)
    ensures
        (match r {
            Ok(s) => parsed_tag(src@) matches Ok(t) && t == s@,
            Err(p) => parsed_tag(src@) matches Err(q) && q == p,
        }),
{
    proc_macro2::fallback::force();
    match syn::parse_str::<syn::Expr>(src) {
        Ok(e) => Ok(expr_text(&e)),
        Err(e) => Err(parse_error_of(&e)),
    }
}

/// Relies on quote's token printing (`ToTokens`): each preserved fragment of
/// the parsed function item is rendered back to source text, one field for
/// one field; the asynchrony keyword's presence becomes the asynchrony flag,
/// and its reported position is stored beside it.
#[verifier::external_body]
fn decl_of_item(f: &syn::ItemFn, line: usize, column: usize) -> FunctionDeclaration {
    let s = &f.sig;
    FunctionDeclaration {
        attrs: f.attrs.iter().map(|a| a.to_token_stream().to_string()).collect(),
        vis: f.vis.to_token_stream().to_string(),
        constness: s.constness.to_token_stream().to_string(),
        unsafety: s.unsafety.to_token_stream().to_string(),
        abi: s.abi.to_token_stream().to_string(),
        asyncness: s.asyncness.is_some(), async_line: line, async_column: column,
        ident: s.ident.to_string(),
        generics: s.generics.params.to_token_stream().to_string(),
        params: s.inputs.to_token_stream().to_string(),
        return_type: s.output.to_token_stream().to_string(),
        where_clause: s.generics.where_clause.to_token_stream().to_string(),
        body: f.block.to_token_stream().to_string(),
    }
}

/// Relies on proc-macro2's span locations, read off the parsed asynchrony
/// keyword's span: its 1-based line and 0-based column, or line 0 when the
/// declaration has no such keyword.
#[verifier::external_body]
fn asyncness_position(f: &syn::ItemFn) -> (usize, usize) {
    match &f.sig.asyncness {
        Some(t) => {
            let p = t.span.start();
            (p.line, p.column)
        },
        None => (0, 0),
    }
}

/// Relies on quote's token printing (`ToTokens`): renders the parsed tag
/// expression back to source text for re-embedding.
#[verifier::external_body]
fn expr_text(e: &syn::Expr) -> String {
    e.to_token_stream().to_string()
}

/// Relies on syn::Error::span and its message rendering: the parse failure's
/// source location and text, moved into the library's own diagnostic.
#[verifier::external_body]
fn parse_error_of(e: &syn::Error) -> ParseError {
    let start = e.span().start();
    ParseError { line: start.line, column: start.column, message: e.to_string() }
}

} // verus!
