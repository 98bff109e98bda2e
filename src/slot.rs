use vstd::prelude::*;
use vstd::rwlock::RwLock;

use crate::strategy::{kind_after, kind_outcome, CallError, Kind, Rfunc};

verus! {

/// The states that a slot created with `origin` can be in: the state it was
/// created with, or the state after a call.
pub open spec fn reachable<I, O>(origin: Rfunc<I, O>, v: Rfunc<I, O>) -> bool {
    v == origin || v == origin.after()
}

/// `r` is a possible outcome of one invocation of a slot created with a
/// strategy of kind `k`: that of the created strategy, or of the strategy
/// after an earlier invocation.
pub open spec fn slot_outcome<O>(k: Kind, r: Result<O, CallError>) -> bool {
    kind_outcome(k, r) || kind_outcome(kind_after(k), r)
}

/// One registered expectation: a return strategy behind a lock, so that
/// concurrent invocations of it run one at a time.
#[verifier::reject_recursive_types(I)]
#[verifier::reject_recursive_types(O)]
pub struct Expectation<I, O> {
    rfunc: RwLock<Rfunc<I, O>, spec_fn(Rfunc<I, O>) -> bool>,
    origin: Ghost<Rfunc<I, O>>,
}

impl<I, O> Expectation<I, O> {
    #[verifier::type_invariant]
    spec fn wf(&self) -> bool {
        &&& self.rfunc.pred() == |v: Rfunc<I, O>| reachable(self.origin@, v)
        &&& forall|args: I| #[trigger] self.origin@.accepts(args)
    }

    /// The strategy this slot was created with.
    pub closed spec fn origin(&self) -> Rfunc<I, O> {
        self.origin@
    }

    pub fn new(rfunc: Rfunc<I, O>) -> (e: Self)
        requires
            forall|args: I| #[trigger] rfunc.accepts(args),
        ensures
            e.origin() == rfunc,
    {
        let ghost origin = rfunc;
        let pred = Ghost(|v: Rfunc<I, O>| reachable(origin, v));
        Expectation { rfunc: RwLock::new(rfunc, pred), origin: Ghost(origin) }
    }

    /// Runs one invocation on `args`, holding the slot's lock throughout. A
    /// reusable slot gives a result of its computation on `args`; a
    /// single-use slot gives that or the exhausted error; an unconfigured
    /// slot gives the missing-default error.
    ///
    /// The lock is released when the computation returns. A computation that
    /// panics leaves the slot locked, and every later invocation of the slot
    /// then waits forever.
    pub fn call(&self, args: I) -> (r: Result<O, CallError>)
        ensures
            self.origin().outcome(args, r) || self.origin().after().outcome(args, r),
            slot_outcome(self.origin().kind(), r),
    {
        proof {
            use_type_invariant(self);
        }
        let (mut rfunc, handle) = self.rfunc.acquire_write();
        let r = rfunc.call_mut(args);
        handle.release_write(rfunc);
        r
    }
}

} // verus!
