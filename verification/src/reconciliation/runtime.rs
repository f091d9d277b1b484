//! Runtime composition of the reconciliation passes: which DPS channel,
//! signing context and FN signer each fiscal number is served with.
use vstd::prelude::*;

verus! {

/// The runtime dependencies that the document dispatchers need for one
/// FN: the DPS channel, the signing context and the FN's signer blob.
#[derive(Clone, Copy)]
pub struct RuntimeView<D, S, B> {
    pub dps: D,
    pub signing_ctx: S,
    pub fn_sign: B,
}

/// How the runtime finds the view of a fiscal number: one view for every
/// FN, or a per-FN resolver.
pub enum ReconciliationRuntime<V, F> {
    SingleFn(V),
    PerFn(F),
}

impl<V: Copy, F: Fn(&str) -> Option<V>> ReconciliationRuntime<V, F> {
    /// The same view for every FN.
    pub fn single_fn(view: V) -> (r: Self)
        ensures
            r matches ReconciliationRuntime::SingleFn(v) && v == view,
    {
        ReconciliationRuntime::SingleFn(view)
    }

    /// A per-FN resolver; `None` from it means the FN has no runtime.
    pub fn with_resolver(resolver: F) -> (r: Self)
        ensures
            r matches ReconciliationRuntime::PerFn(f) && f == resolver,
    {
        ReconciliationRuntime::PerFn(resolver)
    }

    /// The view of `fn_id`: the single view, or what the resolver answers.
    pub fn resolve(&self, fn_id: &str) -> (r: Option<V>)
        requires
            self matches ReconciliationRuntime::PerFn(f) ==> f.requires((fn_id,)),
        ensures
            match self {
                ReconciliationRuntime::SingleFn(v) => r == Some(*v),
                ReconciliationRuntime::PerFn(f) => f.ensures((fn_id,), r),
            },
    {
        match self {
            ReconciliationRuntime::SingleFn(view) => Some(*view),
            ReconciliationRuntime::PerFn(resolver) => resolver(fn_id),
        }
    }
}

} // verus!
