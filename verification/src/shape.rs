//! Shape classification: which of the three wrapper strategies applies to a
//! given entry point and declared asynchrony, or that the combination is
//! illegal.

use vstd::prelude::*;

verus! {

/// The three fixed entry points of the rewriter.
#[derive(Clone, Copy, PartialEq, Eq, Structural, Debug)]
pub enum EntryPoint {
    /// Synchronous-only tracing.
    Sync,
    /// Tracing of asynchronous work, coarse resume/suspend tracking.
    Async,
    /// Tracing of asynchronous work, fine-grained resume/suspend tracking.
    AsyncFine,
}

/// The wrapper strategy selected for one expansion.
#[derive(Clone, Copy, PartialEq, Eq, Structural, Debug)]
pub enum TransformVariant {
    /// Scope-bound span guard around a synchronous body.
    SyncSpan,
    /// Instrument the natively suspendable body and await it in place.
    AsyncNative { fine: bool },
    /// Instrument the future-like body expression and return it heap-owned
    /// and pinned, without driving it.
    AsyncBoxedFuture { fine: bool },
}

/// The total mapping from entry point and declared asynchrony to the selected
/// strategy; `None` marks the single illegal combination (an asynchronous
/// function under the synchronous-only entry point).
pub open spec fn classification(entry: EntryPoint, asyncness: bool) -> Option<TransformVariant> {
    match entry {
        EntryPoint::Sync => if asyncness {
            None
        } else {
            Some(TransformVariant::SyncSpan)
        },
        EntryPoint::Async => if asyncness {
            Some(TransformVariant::AsyncNative { fine: false })
        } else {
            Some(TransformVariant::AsyncBoxedFuture { fine: false })
        },
        EntryPoint::AsyncFine => if asyncness {
            Some(TransformVariant::AsyncNative { fine: true })
        } else {
            Some(TransformVariant::AsyncBoxedFuture { fine: true })
        },
    }
}

/// Select the wrapper strategy for an entry point and declared asynchrony;
/// `None` marks the one illegal combination. The result agrees with
/// `classification` exactly; turning `None` into the located shape
/// diagnostic is the expansion step's job, where the declaration's
/// positions are at hand.
pub fn classify(entry: EntryPoint, asyncness: bool) -> (r: Option<TransformVariant>)
    ensures
        r == classification(entry, asyncness),
{
    match entry {
        EntryPoint::Sync => {
            if asyncness {
                None
            } else {
                Some(TransformVariant::SyncSpan)
            }
        },
        EntryPoint::Async => {
            if asyncness {
                Some(TransformVariant::AsyncNative { fine: false })
            } else {
                Some(TransformVariant::AsyncBoxedFuture { fine: false })
            }
        },
        EntryPoint::AsyncFine => {
            if asyncness {
                Some(TransformVariant::AsyncNative { fine: true })
            } else {
                Some(TransformVariant::AsyncBoxedFuture { fine: true })
            }
        },
    }
}

} // verus!
