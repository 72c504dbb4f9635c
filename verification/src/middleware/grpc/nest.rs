//! The wrapper that lets a grpc service be mounted on a rest router.
use vstd::prelude::*;

verus! {

/// A grpc service, wrapped to be served by the rest router.
#[derive(Clone, Debug)]
pub struct AxumTonicService<S> {
    pub svc: S,
}

impl<S> AxumTonicService<S> {
    /// The wrapper of `svc`.
    pub fn new(svc: S) -> (r: AxumTonicService<S>)
        ensures
            r.svc == svc,
    {
        AxumTonicService { svc: svc }
    }
}

} // verus!
