//! Which of the rest and grpc routers a request goes to, and the readiness
//! of the two routers that a combined service tracks.
use vstd::prelude::*;

verus! {

/// The bytes of `application/grpc`.
pub open spec fn grpc_mark() -> Seq<u8> {
    seq![97u8, 112, 112, 108, 105, 99, 97, 116, 105, 111, 110, 47, 103, 114, 112, 99]
}

/// Whether a `content-type` header value names grpc: it is exactly
/// `application/grpc`.
pub open spec fn names_grpc(v: Seq<u8>) -> bool {
    v == grpc_mark()
}

/// Whether the header value `v` is exactly `application/grpc`.
pub fn is_grpc_mark(v: &[u8]) -> (r: bool)
    ensures
        r == names_grpc(v@),
{
    let mark: [u8; 16] = [97, 112, 112, 108, 105, 99, 97, 116, 105, 111, 110, 47, 103, 114, 112, 99];
    assert(mark@ =~= grpc_mark());
    if v.len() != 16 {
        return false;
    }
    let mut i: usize = 0;
    while i < 16
        invariant
            i <= 16,
            v@.len() == 16,
            mark@ == grpc_mark(),
            forall|j: int| 0 <= j < i ==> v@[j] == grpc_mark()[j],
        decreases 16 - i,
    {
        if v[i] != mark[i] {
            return false;
        }
        i = i + 1;
    }
    assert(v@ =~= grpc_mark());
    true
}

/// Whether a request whose `content-type` header holds `content_type` goes
/// to the grpc router: only the value `application/grpc` sends it there;
/// a missing header or any other value sends it to the rest router.
pub fn is_grpc_content_type(content_type: Option<&[u8]>) -> (r: bool)
    ensures
        match content_type {
            Some(v) => r == names_grpc(v@),
            None => !r,
        },
{
    match content_type {
        None => false,
        Some(v) => is_grpc_mark(v),
    }
}

/// One of the two routers.
#[derive(Debug, Clone, Copy, PartialEq, Eq, Structural)]
pub enum Target {
    Rest,
    Grpc,
}

/// Whether each router is ready to take a request.
#[derive(Debug, Clone, Copy, PartialEq, Eq, Structural)]
pub struct Readiness {
    pub rest_ready: bool,
    pub grpc_ready: bool,
}

impl Readiness {
    /// The router to drive next: the rest router while it is not ready,
    /// then the grpc router while it is not ready, then none.
    pub open spec fn spec_next(self) -> Option<Target> {
        if !self.rest_ready {
            Some(Target::Rest)
        } else if !self.grpc_ready {
            Some(Target::Grpc)
        } else {
            None
        }
    }

    /// The state after router `t` reported itself ready.
    pub open spec fn spec_mark(self, t: Target) -> Readiness {
        match t {
            Target::Rest => Readiness { rest_ready: true, grpc_ready: self.grpc_ready },
            Target::Grpc => Readiness { rest_ready: self.rest_ready, grpc_ready: true },
        }
    }

    /// The state after a request went to its router: the router that took
    /// it is no longer ready, the other keeps its state.
    pub open spec fn spec_route(self, is_grpc: bool) -> Readiness {
        if is_grpc {
            Readiness { rest_ready: self.rest_ready, grpc_ready: false }
        } else {
            Readiness { rest_ready: false, grpc_ready: self.grpc_ready }
        }
    }

    /// Whether both routers are ready.
    pub open spec fn both_ready(self) -> bool {
        self.rest_ready && self.grpc_ready
    }

    /// Neither router is ready yet.
    pub fn new() -> (r: Readiness)
        ensures
            r == fresh_readiness(),
    {
        Readiness { rest_ready: false, grpc_ready: false }
    }

    /// The router to drive next, `None` once both are ready.
    pub fn next_to_poll(&self) -> (r: Option<Target>)
        ensures
            r == self.spec_next(),
    {
        if !self.rest_ready {
            Some(Target::Rest)
        } else if !self.grpc_ready {
            Some(Target::Grpc)
        } else {
            None
        }
    }

    /// Records that router `t` is ready.
    pub fn mark_ready(&mut self, t: Target)
        ensures
            *final(self) == old(self).spec_mark(t),
    {
        match t {
            Target::Rest => {
                self.rest_ready = true;
            },
            Target::Grpc => {
                self.grpc_ready = true;
            },
        }
    }

    /// Sends a request to its router: the grpc router for a grpc request,
    /// the rest router otherwise. The router that takes it has to be driven
    /// to readiness again; the other keeps its state.
    pub fn route(&mut self, is_grpc: bool) -> (r: Target)
        requires
            old(self).both_ready(),
        ensures
            r == routed_to(is_grpc),
            *final(self) == old(self).spec_route(is_grpc),
    {
        if is_grpc {
            self.grpc_ready = false;
            Target::Grpc
        } else {
            self.rest_ready = false;
            Target::Rest
        }
    }
}

/// The state after driving the named router `k` times (or fewer, once none
/// is named).
pub open spec fn after_polls(s: Readiness, k: nat) -> Readiness
    decreases k,
{
    if k == 0 {
        s
    } else {
        match s.spec_next() {
            None => s,
            Some(t) => after_polls(s.spec_mark(t), (k - 1) as nat),
        }
    }
}

/// No router is named exactly when both are ready, and driving the named
/// router at most twice, from any state, makes both ready.
pub proof fn lemma_polling_reaches_ready(s: Readiness)
    ensures
        s.spec_next() is None <==> s.both_ready(),
        after_polls(s, 2).both_ready(),
{
    reveal_with_fuel(after_polls, 3);
}

/// The state of a freshly made combined service: neither router ready.
pub open spec fn fresh_readiness() -> Readiness {
    Readiness { rest_ready: false, grpc_ready: false }
}

/// The router a request goes to.
pub open spec fn routed_to(is_grpc: bool) -> Target {
    if is_grpc {
        Target::Grpc
    } else {
        Target::Rest
    }
}

/// A request may only be sent once both routers are ready (`route`
/// requires it, where the combined service panics): a fresh state is not
/// ready, and after a request the router that took it is not ready either,
/// so each request must be preceded by driving the routers to readiness.
pub proof fn lemma_route_needs_readiness(s: Readiness, is_grpc: bool)
    ensures
        !fresh_readiness().both_ready(),
        !s.spec_route(is_grpc).both_ready(),
        s.both_ready() ==> s.spec_route(is_grpc).spec_next() == Some(routed_to(is_grpc)),
{
}

} // verus!
