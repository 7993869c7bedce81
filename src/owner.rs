//! Owners whose target is a sequence of elements, so that derived values that
//! locate positions can be resolved against them.
use vstd::prelude::*;
use std::rc::Rc;
use std::sync::Arc;
use vstd::utf8::encode_utf8;

verus! {

/// An owner handle that dereferences to a sequence of elements.
pub trait ElemOwner {
    type Elem;

    /// The elements the owner's target holds.
    spec fn elems(&self) -> Seq<Self::Elem>;

    fn as_elems(&self) -> (r: &[Self::Elem])
        ensures
            r@ == self.elems(),
    ;
}

impl<E> ElemOwner for Vec<E> {
    type Elem = E;

    open spec fn elems(&self) -> Seq<E> {
        self@
    }

    fn as_elems(&self) -> (r: &[E]) {
        self.as_slice()
    }
}

impl<E> ElemOwner for Box<Vec<E>> {
    type Elem = E;

    open spec fn elems(&self) -> Seq<E> {
        (**self)@
    }

    fn as_elems(&self) -> (r: &[E]) {
        (**self).as_slice()
    }
}

impl<E> ElemOwner for Rc<Vec<E>> {
    type Elem = E;

    open spec fn elems(&self) -> Seq<E> {
        (**self)@
    }

    fn as_elems(&self) -> (r: &[E]) {
        (**self).as_slice()
    }
}

impl<E> ElemOwner for Arc<Vec<E>> {
    type Elem = E;

    open spec fn elems(&self) -> Seq<E> {
        (**self)@
    }

    fn as_elems(&self) -> (r: &[E]) {
        (**self).as_slice()
    }
}

impl<E> ElemOwner for Box<[E]> {
    type Elem = E;

    open spec fn elems(&self) -> Seq<E> {
        (**self)@
    }

    fn as_elems(&self) -> (r: &[E]) {
        &**self
    }
}

impl<E> ElemOwner for Rc<[E]> {
    type Elem = E;

    open spec fn elems(&self) -> Seq<E> {
        (**self)@
    }

    fn as_elems(&self) -> (r: &[E]) {
        &**self
    }
}

impl<E> ElemOwner for Arc<[E]> {
    type Elem = E;

    open spec fn elems(&self) -> Seq<E> {
        (**self)@
    }

    fn as_elems(&self) -> (r: &[E]) {
        &**self
    }
}

impl ElemOwner for String {
    type Elem = u8;

    /// The UTF-8 bytes of the string.
    open spec fn elems(&self) -> Seq<u8> {
        encode_utf8(self@)
    }

    fn as_elems(&self) -> (r: &[u8]) {
        self.as_str().as_bytes()
    }
}

impl ElemOwner for Rc<String> {
    type Elem = u8;

    /// The UTF-8 bytes of the string.
    open spec fn elems(&self) -> Seq<u8> {
        encode_utf8((**self)@)
    }

    fn as_elems(&self) -> (r: &[u8]) {
        (**self).as_str().as_bytes()
    }
}

/// An owner handle whose copies are new handles to the same target, as a
/// reference-counted pointer's are.
pub trait SharedOwner: Sized {
    fn share(&self) -> (r: Self)
        ensures
            r == *self,
    ;
}

/// Relies on `Rc::clone`: it makes another pointer to the same allocation,
/// so the copy holds the very same target.
#[verifier::external_body]
fn clone_rc<T: ?Sized>(b: &Rc<T>) -> (r: Rc<T>)
    ensures
        r == *b,
{
    Rc::clone(b)
}

/// Relies on `Arc::clone`: it makes another pointer to the same allocation,
/// so the copy holds the very same target.
#[verifier::external_body]
fn clone_arc<T: ?Sized>(b: &Arc<T>) -> (r: Arc<T>)
    ensures
        r == *b,
{
    Arc::clone(b)
}

impl<T: ?Sized> SharedOwner for Rc<T> {
    fn share(&self) -> (r: Self) {
        clone_rc(self)
    }
}

impl<T: ?Sized> SharedOwner for Arc<T> {
    fn share(&self) -> (r: Self) {
        clone_arc(self)
    }
}

} // verus!
