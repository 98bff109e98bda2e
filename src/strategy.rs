use vstd::prelude::*;

verus! {

/// A computation run on every call of a reusable expectation: every closure
/// `Fn(I) -> O + Send` is one.
pub trait Respond<I, O>: Send {
    /// The computation may be run on `args`.
    spec fn accepts(&self, args: I) -> bool;

    /// `out` is a possible result of running the computation on `args`.
    spec fn responds(&self, args: I, out: O) -> bool;

    fn respond(&self, args: I) -> (out: O)
        requires
            self.accepts(args),
        ensures
            self.responds(args, out),
    ;
}

impl<I, O, F: Fn(I) -> O + Send> Respond<I, O> for F {
    open spec fn accepts(&self, args: I) -> bool {
        call_requires(*self, (args,))
    }

    open spec fn responds(&self, args: I, out: O) -> bool {
        call_ensures(*self, (args,), out)
    }

    fn respond(&self, args: I) -> (out: O) {
        (self)(args)
    }
}

/// A computation that may run at most once: the first call gives its result,
/// every later call fails as exhausted.
pub trait RespondOnce<I, O>: Send {
    /// The computation may be run on `args`.
    spec fn accepts(&self, args: I) -> bool;

    /// `out` is a possible result of the first call on `args`.
    spec fn responds(&self, args: I, out: O) -> bool;

    /// A call on `args` now runs the computation: it has not run yet.
    spec fn ready(&self, args: I) -> bool;

    fn respond_once(&mut self, args: I) -> (r: Result<O, CallError>)
        requires
            old(self).accepts(args),
        ensures
            !old(self).ready(args) ==> r == Err::<O, CallError>(CallError::Exhausted),
            old(self).ready(args) ==> (r matches Ok(out) && old(self).responds(args, out)),
            forall|later: I| !#[trigger] final(self).ready(later),
    ;
}

/// A run-once closure, held until its single call.
pub struct Single<F> {
    f: Option<F>,
}

impl<F> Single<F> {
    /// The closure, while it has not run.
    pub closed spec fn held(&self) -> Option<F> {
        self.f
    }

    pub fn new(f: F) -> (s: Single<F>)
        ensures
            s.held() == Some(f),
    {
        Single { f: Some(f) }
    }
}

impl<I, O, F: FnOnce(I) -> O + Send> RespondOnce<I, O> for Single<F> {
    open spec fn accepts(&self, args: I) -> bool {
        self.held() matches Some(f) ==> call_requires(f, (args,))
    }

    open spec fn responds(&self, args: I, out: O) -> bool {
        self.held() matches Some(f) && call_ensures(f, (args,), out)
    }

    open spec fn ready(&self, args: I) -> bool {
        self.held() is Some
    }

    fn respond_once(&mut self, args: I) -> (r: Result<O, CallError>) {
        match self.f.take() {
            Some(f) => Ok(f(args)),
            None => Err(CallError::Exhausted),
        }
    }
}

/// Why an invocation produced no result.
#[derive(Debug, Clone, Copy, PartialEq, Eq, Structural)]
pub enum CallError {
    /// No expectation is registered for the operation and its types.
    NoMatchingExpectation,
    /// A single-use expectation has already produced its result.
    Exhausted,
    /// No behaviour was configured, and no default result is available.
    NoDefault,
}

/// The state of a return strategy, without its computation.
#[derive(Debug, Clone, Copy, PartialEq, Eq, Structural)]
pub enum Kind {
    /// Nothing configured.
    Default,
    /// A single-use computation has already run.
    Expired,
    /// A computation run on every call.
    Mut,
    /// A computation run on the first call only.
    Once,
}

/// The kind of state after one invocation from a state of kind `k`.
pub open spec fn kind_after(k: Kind) -> Kind {
    match k {
        Kind::Once => Kind::Expired,
        _ => k,
    }
}

/// `r` is a possible outcome of one invocation from a state of kind `k`: a
/// stored computation gives a result, the other states their error.
pub open spec fn kind_outcome<O>(k: Kind, r: Result<O, CallError>) -> bool {
    match k {
        Kind::Default => r == Err::<O, CallError>(CallError::NoDefault),
        Kind::Expired => r == Err::<O, CallError>(CallError::Exhausted),
        Kind::Mut => r is Ok,
        Kind::Once => r is Ok || r == Err::<O, CallError>(CallError::Exhausted),
    }
}

/// How an expectation produces its result.
#[verifier::reject_recursive_types(I)]
#[verifier::reject_recursive_types(O)]
pub enum Rfunc<I, O> {
    /// Nothing configured.
    Default,
    /// A single-use computation has already run.
    Expired,
    /// A computation run on every call.
    Mut(Box<dyn Respond<I, O>>),
    /// A computation run on the first call only.
    Once(Box<dyn RespondOnce<I, O>>),
}

impl<I, O> Rfunc<I, O> {
    /// The kind of this state.
    pub open spec fn kind(&self) -> Kind {
        match self {
            Rfunc::Default => Kind::Default,
            Rfunc::Expired => Kind::Expired,
            Rfunc::Mut(_) => Kind::Mut,
            Rfunc::Once(_) => Kind::Once,
        }
    }

    /// The state after one invocation: a single-use computation is spent,
    /// every other state stays as it is.
    pub open spec fn after(&self) -> Rfunc<I, O> {
        match self {
            Rfunc::Once(_) => Rfunc::Expired,
            _ => *self,
        }
    }

    /// The stored computation, if any, may be run on `args`.
    pub open spec fn accepts(self, args: I) -> bool {
        match self {
            Rfunc::Mut(f) => f.accepts(args),
            Rfunc::Once(f) => f.accepts(args),
            _ => true,
        }
    }

    /// `r` is a possible outcome of one invocation on `args` from this
    /// state: the stored computation's result, or the state's error.
    pub open spec fn outcome(self, args: I, r: Result<O, CallError>) -> bool {
        match self {
            Rfunc::Default => r == Err::<O, CallError>(CallError::NoDefault),
            Rfunc::Expired => r == Err::<O, CallError>(CallError::Exhausted),
            Rfunc::Mut(f) => r matches Ok(out) && f.responds(args, out),
            Rfunc::Once(f) => if f.ready(args) {
                r matches Ok(out) && f.responds(args, out)
            } else {
                r == Err::<O, CallError>(CallError::Exhausted)
            },
        }
    }

    /// Produces the result of one invocation on `args`, and moves a
    /// single-use computation to `Expired` before it runs.
    pub fn call_mut(&mut self, args: I) -> (r: Result<O, CallError>)
        requires
            old(self).accepts(args),
        ensures
            *final(self) == old(self).after(),
            old(self).outcome(args, r),
    {
        match self {
            Rfunc::Default => Err(CallError::NoDefault),
            Rfunc::Expired => Err(CallError::Exhausted),
            Rfunc::Mut(f) => Ok(f.respond(args)),
            Rfunc::Once(_) => {
                let mut spent = Rfunc::Expired;
                core::mem::swap(self, &mut spent);
                match spent {
                    Rfunc::Once(mut f) => f.respond_once(args),
                    _ => Err(CallError::Exhausted),
                }
            },
        }
    }
}

/// The state after `n` invocations from `s`.
pub open spec fn after_calls<I, O>(s: Rfunc<I, O>, n: nat) -> Rfunc<I, O>
    decreases n,
{
    if n == 0 {
        s
    } else {
        after_calls(s, (n - 1) as nat).after()
    }
}

/// A reusable computation stays in place however many times it is invoked,
/// so every invocation gives a result of that same computation on its own
/// arguments.
pub proof fn reusable_stays<I, O>(s: Rfunc<I, O>, n: nat)
    requires
        s is Mut,
    ensures
        after_calls(s, n) == s,
        forall|args: I, r: Result<O, CallError>|
            #[trigger] after_calls(s, n).outcome(args, r) <==> (s matches Rfunc::Mut(f) && r matches Ok(
                out,
            ) && f.responds(args, out)),
    decreases n,
{
    if n > 0 {
        reusable_stays(s, (n - 1) as nat);
    }
}

/// A single-use computation gives its result on the first invocation only:
/// after one or more invocations, every invocation fails as exhausted,
/// whatever its arguments.
pub proof fn single_use_once<I, O>(s: Rfunc<I, O>, n: nat)
    requires
        s matches Rfunc::Once(f) && forall|args: I| #[trigger] f.ready(args),
    ensures
        forall|args: I, r: Result<O, CallError>|
            #[trigger] s.outcome(args, r) <==> (s matches Rfunc::Once(f) && r matches Ok(out)
                && f.responds(args, out)),
        n >= 1 ==> after_calls(s, n) is Expired,
        n >= 1 ==> forall|args: I, r: Result<O, CallError>|
            #[trigger] after_calls(s, n).outcome(args, r) <==> r == Err::<O, CallError>(
                CallError::Exhausted,
            ),
    decreases n,
{
    if n > 1 {
        single_use_once(s, (n - 1) as nat);
        assert(after_calls(s, n) == after_calls(s, (n - 1) as nat).after());
    } else if n == 1 {
        assert(after_calls(s, 1) == after_calls(s, 0).after());
    }
}

} // verus!
