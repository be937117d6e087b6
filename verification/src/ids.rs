use vstd::prelude::*;

verus! {

/// Stable, opaque key identifying a definition site. It is the query cache
/// key: it stays the same across unrelated edits, so cached descriptors can
/// be found again after the source around them changes.
#[derive(Clone, Copy, PartialEq, Eq, Hash, Debug, Structural)]
pub struct DefId(pub u32);

/// Handle for the lexical scope a definition lives in; type references are
/// resolved relative to it. Opaque to this crate: only the resolver reads it.
#[derive(Clone, Copy, PartialEq, Eq, Hash, Debug, Structural)]
pub struct Module(pub u32);

/// Cooperative-cancellation signal: the in-flight query became stale because
/// the underlying source changed. The caller discards the outcome and retries
/// from scratch; no partial result accompanies it.
#[derive(Clone, Copy, PartialEq, Eq, Debug, Structural)]
pub struct Canceled;

/// Outcome of a query: either a computed value or a cancellation signal.
pub type Cancelable<T> = Result<T, Canceled>;

} // verus!
