use vstd::prelude::*;

verus! {

#[verifier::external_type_specification]
#[verifier::external_body]
pub struct ExTypeId(std::any::TypeId);

/// The type identifier of `T`: one fixed value for each type.
pub open spec fn type_sig<T: ?Sized>() -> std::any::TypeId {
    vstd::pervasive::arbitrary::<(core::marker::PhantomData<T>, std::any::TypeId)>().1
}

/// Relies on `TypeId::of`: the identifier of a `'static` type, the same on
/// every call for the same type.
pub assume_specification<T: ?Sized + 'static>[ std::any::TypeId::of::<T> ]() -> (r:
    std::any::TypeId)
    ensures
        r == type_sig::<T>(),
;

/// The identity under which an expectation is stored: the operation's name
/// together with the type identifier of its (argument, result) type pair.
#[derive(Debug, PartialEq, Eq, Hash)]
pub struct Key {
    ident: String,
    sig: std::any::TypeId,
}

impl View for Key {
    type V = (Seq<char>, std::any::TypeId);

    open spec fn view(&self) -> (Seq<char>, std::any::TypeId) {
        (self.name(), self.sig())
    }
}

impl Key {
    /// The operation's name.
    pub closed spec fn name(&self) -> Seq<char> {
        self.ident@
    }

    /// The type identifier of the (argument, result) type pair.
    pub closed spec fn sig(&self) -> std::any::TypeId {
        self.sig
    }

    /// The key of operation `ident` with argument type `I` and result type `O`.
    pub fn new<I: 'static, O: 'static>(ident: &str) -> (k: Key)
        ensures
            k.name() == ident@,
            k.sig() == type_sig::<(I, O)>(),
    {
        Key { ident: ident.to_string(), sig: std::any::TypeId::of::<(I, O)>() }
    }
}

/// Keys built for equal names and the same argument and result types are
/// equal; keys for different names differ.
pub proof fn identity_stable<I, O>(a: Key, b: Key)
    requires
        a.sig() == type_sig::<(I, O)>(),
        b.sig() == type_sig::<(I, O)>(),
    ensures
        a@ == b@ <==> a.name() == b.name(),
{
}

} // verus!
