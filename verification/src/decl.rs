//! Data model of one function item under rewriting, and the errors the
//! rewrite can report.
//!
//! Every preserved fragment of the declaration is held verbatim as plain
//! text; the rewriter never interprets it. The only structural fact the
//! rewriter reads is whether the function is declared asynchronous.

use vstd::prelude::*;

verus! {

/// One function item, parsed into its preserved fragments. All fragments are
/// opaque source text, re-emitted verbatim; `asyncness` is the only field the
/// shape classifier inspects.
pub struct FunctionDeclaration {
    /// Leading annotations, in order, each one fragment of source text.
    pub attrs: Vec<String>,
    /// Visibility qualifier, empty for inherited visibility.
    pub vis: String,
    /// `const` qualifier, or empty.
    pub constness: String,
    /// `unsafe` qualifier, or empty.
    pub unsafety: String,
    /// Calling-convention qualifier, or empty.
    pub abi: String,
    /// Whether the function is declared asynchronous.
    pub asyncness: bool,
    /// Source line of the asynchrony keyword (1-based), or 0 when the
    /// declaration has none; kept so the shape diagnostic can point at the
    /// offending token.
    pub async_line: usize,
    /// Source column of the asynchrony keyword (0-based), or 0 when the
    /// declaration has none.
    pub async_column: usize,
    /// The function's identifier.
    pub ident: String,
    /// Generic parameter list, without the enclosing angle brackets.
    pub generics: String,
    /// Parameter list, without the enclosing parentheses.
    pub params: String,
    /// Return type, including its arrow, or empty for the unit default.
    pub return_type: String,
    /// Where-clause, or empty.
    pub where_clause: String,
    /// The original body block, braces included.
    pub body: String,
}

/// The tag argument: an arbitrary expression fragment, captured verbatim and
/// never evaluated here. The generated code re-embeds it in a context that
/// casts it to an unsigned 32-bit integer, so type errors surface when the
/// emitted code is compiled, not here.
pub struct TagExpression {
    pub text: String,
}

/// A malformed function item or tag expression, with the source location the
/// parser reported.
#[derive(Debug)]
pub struct ParseError {
    pub line: usize,
    pub column: usize,
    pub message: String,
}

/// An asynchronous function was given to the synchronous-only entry point,
/// reported at the source position of the offending asynchrony keyword.
/// The message names the asynchronous entry point as the remedy.
#[derive(Debug)]
pub struct ShapeError {
    pub line: usize,
    pub column: usize,
    pub message: String,
}

/// Either failure that aborts an expansion; no output is produced alongside
/// one of these.
#[derive(Debug)]
pub enum ExpandError {
    Parse(ParseError),
    Shape(ShapeError),
}

/// The text of every shape diagnostic: it names the asynchronous entry point
/// as the remedy.
pub open spec fn shape_remedy_text() -> Seq<char> {
    "Unexpected async\nIf want to trace async function, consider `minitrace::trace_async`"@
}

impl ShapeError {
    /// The diagnostic for the one illegal entry-point/shape combination,
    /// located at the offending asynchrony keyword.
    pub fn at(line: usize, column: usize) -> (r: ShapeError)
        ensures
            r.line == line,
            r.column == column,
            r.message@ == shape_remedy_text(),
    {
        ShapeError {
            line: line,
            column: column,
            message: "Unexpected async\nIf want to trace async function, consider `minitrace::trace_async`".to_owned(),
        }
    }
}

} // verus!
