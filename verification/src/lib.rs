//! Build-time function rewriter: given the text of one function item and a
//! numeric tag expression, it produces a semantically equivalent function
//! whose body is wrapped so that a tracing span of that tag's category is
//! created and kept active for the duration of the call, then handed to the
//! tracing runtime. The function's external signature is preserved fragment
//! for fragment: every part the parser hands over is re-embedded verbatim,
//! in order, separated by token-level layout only; only the body changes.

pub mod decl;
pub mod emit;
pub mod laws;
pub mod parse;
pub mod rewrite;
pub mod shape;
pub mod text;

pub use crate::decl::{ExpandError, FunctionDeclaration, ParseError, ShapeError, TagExpression};
pub use crate::rewrite::{expand, trace, trace_async, trace_async_fine};
pub use crate::shape::{EntryPoint, TransformVariant};
