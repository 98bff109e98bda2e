use vstd::prelude::*;

use crate::key::{type_sig, Key};
use crate::slot::{slot_outcome, Expectation};
use crate::strategy::{CallError, Kind, Rfunc, Single};

verus! {

/// The type-erased map from identities to expectation slots.
#[verifier::external_body]
pub struct Store {
    map: std::collections::HashMap<Key, Box<dyn std::any::Any>>,
}

/// What a store holds: for each identity with a slot, the kind of strategy
/// that slot was created with.
pub uninterp spec fn store_kinds(s: Store) -> Map<(Seq<char>, std::any::TypeId), Kind>;

/// What a store holds: for each identity with a slot, the type identifier of
/// that slot's (argument, result) type pair.
pub uninterp spec fn store_sigs(s: Store) -> Map<(Seq<char>, std::any::TypeId), std::any::TypeId>;

impl Store {
    /// Relies on `HashMap::new`: the new map is empty.
    #[verifier::external_body]
    fn new() -> (s: Store)
        ensures
            store_kinds(s) =~= Map::empty(),
            store_sigs(s) =~= Map::empty(),
    {
        Store { map: std::collections::HashMap::new() }
    }

    /// Relies on `HashMap::insert`: afterwards the key holds the slot,
    /// replacing what it held before.
    #[verifier::external_body]
    fn insert<I: 'static, O: 'static>(&mut self, key: Key, slot: Expectation<I, O>)
        ensures
            store_kinds(*final(self)) == store_kinds(*old(self)).insert(key@, slot.origin().kind()),
            store_sigs(*final(self)) == store_sigs(*old(self)).insert(key@, type_sig::<(I, O)>()),
    {
        self.map.insert(key, Box::new(slot));
    }

    /// Relies on `HashMap::get` and `downcast_ref`: a slot is found only under
    /// a key that holds one, and it is the slot last inserted there; it is
    /// handed out exactly when it is a slot of `I` and `O`, that is when the
    /// type identifiers agree.
    #[verifier::external_body]
    fn get<I: 'static, O: 'static>(&self, key: &Key) -> (r: Option<&Expectation<I, O>>)
        ensures
            r matches Some(e) ==> store_kinds(*self).contains_key(key@) && e.origin().kind()
                == store_kinds(*self)[key@],
            !store_kinds(*self).contains_key(key@) ==> r is None,
            store_kinds(*self).contains_key(key@) && store_sigs(*self)[key@] == type_sig::<(I, O)>()
                ==> r is Some,
    {
        self.map.get(key).and_then(|b| b.downcast_ref::<Expectation<I, O>>())
    }
}

/// The registry of expectations, and the point through which invocations
/// are dispatched.
pub struct Expectations {
    store: Store,
}

impl Default for Expectations {
    fn default() -> (r: Expectations)
        ensures
            r.wf(),
            r.registered() =~= Map::empty(),
    {
        Expectations { store: Store::new() }
    }
}

/// The identity of operation `ident` with argument type `I` and result
/// type `O`.
pub open spec fn identity<I, O>(ident: Seq<char>) -> (Seq<char>, std::any::TypeId) {
    (ident, type_sig::<(I, O)>())
}

impl Expectations {
    /// Every identity holds a slot of the types it names.
    pub closed spec fn wf(&self) -> bool {
        &&& store_sigs(self.store).dom() == store_kinds(self.store).dom()
        &&& forall|k: (Seq<char>, std::any::TypeId)| #[trigger]
            store_sigs(self.store).contains_key(k) ==> store_sigs(self.store)[k] == k.1
    }

    /// For each identity with an expectation, the kind of strategy it was
    /// registered with.
    pub closed spec fn registered(&self) -> Map<(Seq<char>, std::any::TypeId), Kind> {
        store_kinds(self.store)
    }

    /// Stores `expectation` under the identity of `ident`, `I` and `O`,
    /// replacing any slot stored there before.
    fn register<I: 'static, O: 'static>(&mut self, ident: &str, expectation: Expectation<I, O>)
        requires
            old(self).wf(),
        ensures
            final(self).wf(),
            final(self).registered() == old(self).registered().insert(
                identity::<I, O>(ident@),
                expectation.origin().kind(),
            ),
    {
        let key = Key::new::<I, O>(ident);
        self.store.insert(key, expectation);
        proof {
            assert(store_sigs(self.store).dom() =~= store_kinds(self.store).dom());
        }
    }

    /// Begins the registration of operation `ident` with argument type `I`
    /// and result type `O`; nothing is configured yet.
    pub fn expect<I: 'static, O: 'static>(&self, ident: &str) -> (b: ExpectationBuilder<I, O>)
        ensures
            b.ident() == ident@,
            b.strategy() is Default,
    {
        ExpectationBuilder::new(ident)
    }

    /// Invokes operation `ident` with argument type `I` and result type `O`
    /// on `args`. Fails with `NoMatchingExpectation` exactly when nothing is
    /// registered under that name and those types; otherwise the outcome is
    /// one of the registered strategy's.
    pub fn called<I: 'static, O: 'static>(&self, ident: &str, args: I) -> (r: Result<
        O,
        CallError,
    >)
        requires
            self.wf(),
        ensures
            !self.registered().contains_key(identity::<I, O>(ident@)) ==> r == Err::<
                O,
                CallError,
            >(CallError::NoMatchingExpectation),
            self.registered().contains_key(identity::<I, O>(ident@)) ==> slot_outcome(
                self.registered()[identity::<I, O>(ident@)],
                r,
            ),
    {
        let key = Key::new::<I, O>(ident);
        match self.store.get::<I, O>(&key) {
            Some(e) => e.call(args),
            None => Err(CallError::NoMatchingExpectation),
        }
    }
}

/// Registering twice under one identity leaves only the second registration
/// observable: after two commits under the same name and types, the registry
/// holds what it would hold after the second alone.
pub proof fn registration_overwrite<I, O>(
    start: Expectations,
    between: Expectations,
    end: Expectations,
    ident: Seq<char>,
    first: Kind,
    second: Kind,
)
    requires
        between.registered() == start.registered().insert(identity::<I, O>(ident), first),
        end.registered() == between.registered().insert(identity::<I, O>(ident), second),
    ensures
        end.registered() == start.registered().insert(identity::<I, O>(ident), second),
        end.registered()[identity::<I, O>(ident)] == second,
{
    assert(end.registered() =~= start.registered().insert(identity::<I, O>(ident), second));
}

/// A registration in progress: a name and the strategy configured so far.
/// Nothing reaches the registry until `commit`.
#[verifier::reject_recursive_types(I)]
#[verifier::reject_recursive_types(O)]
pub struct ExpectationBuilder<I: 'static, O: 'static> {
    rfunc: Rfunc<I, O>,
    ident: String,
}

impl<I: 'static, O: 'static> ExpectationBuilder<I, O> {
    #[verifier::type_invariant]
    spec fn wf(&self) -> bool {
        forall|args: I| #[trigger] self.rfunc.accepts(args)
    }

    /// The operation's name.
    pub closed spec fn ident(&self) -> Seq<char> {
        self.ident@
    }

    /// The strategy that a commit would register.
    pub closed spec fn strategy(&self) -> Rfunc<I, O> {
        self.rfunc
    }

    fn new(ident: &str) -> (b: Self)
        ensures
            b.ident() == ident@,
            b.strategy() is Default,
    {
        ExpectationBuilder { rfunc: Rfunc::Default, ident: ident.to_string() }
    }

    /// Configures `f` to run on every call, replacing what was configured.
    pub fn returning<F: Fn(I) -> O + Send + 'static>(self, f: F) -> (b: Self)
        requires
            forall|args: I| call_requires(f, (args,)),
        ensures
            b.ident() == self.ident(),
            b.strategy() matches Rfunc::Mut(g) && (forall|args: I| #[trigger] g.accepts(args))
                && forall|args: I, out: O| #[trigger]
                g.responds(args, out) == call_ensures(f, (args,), out),
    {
        let ExpectationBuilder { rfunc: _, ident } = self;
        let rfunc: Rfunc<I, O> = Rfunc::Mut(Box::new(f));
        ExpectationBuilder { rfunc, ident }
    }

    /// Configures `f` to run on the first call only, replacing what was
    /// configured; every later call fails as exhausted. The stored
    /// computation itself also fails as exhausted on a second call.
    pub fn return_once<F: FnOnce(I) -> O + Send + 'static>(self, f: F) -> (b: Self)
        requires
            forall|args: I| call_requires(f, (args,)),
        ensures
            b.ident() == self.ident(),
            b.strategy() matches Rfunc::Once(g) && (forall|args: I| #[trigger] g.ready(args))
                && (forall|args: I| #[trigger] g.accepts(args)) && forall|args: I, out: O|
                #[trigger] g.responds(args, out) == call_ensures(f, (args,), out),
    {
        let ExpectationBuilder { rfunc: _, ident } = self;
        let rfunc: Rfunc<I, O> = Rfunc::Once(Box::new(Single::new(f)));
        ExpectationBuilder { rfunc, ident }
    }

    /// Registers the configured strategy under the builder's name and types,
    /// replacing any expectation registered there before.
    pub fn commit(self, registry: &mut Expectations)
        requires
            old(registry).wf(),
        ensures
            final(registry).wf(),
            final(registry).registered() == old(registry).registered().insert(
                identity::<I, O>(self.ident()),
                self.strategy().kind(),
            ),
    {
        proof {
            use_type_invariant(&self);
        }
        let ExpectationBuilder { rfunc, ident } = self;
        registry.register(ident.as_str(), Expectation::new(rfunc));
    }
}

} // verus!
