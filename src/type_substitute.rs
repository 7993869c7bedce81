//! The type family: marker types that name the shape of a value derived from
//! an owner, and the narrowing operation every shape provides.
//!
//! A derived value is stored as plain data that locates its parts inside the
//! owner's target (a run of positions, a list of positions); it is resolved
//! against the owner only when it is read. Narrowing therefore never changes
//! the representation: it hands back the very same value.
use vstd::prelude::*;
use core::marker::PhantomData;

verus! {

/// A marker whose only purpose is to name the type of the value that is
/// derived from an owner.
pub trait ReturnType {
    type Target;
}

/// Reinterpreting a derived value for a shorter use. The value is returned
/// unchanged: narrowing moves no data and transforms nothing.
pub trait LifetimeDowncast: ReturnType {
    fn lifetime_downcast(from: &Self::Target) -> (r: &Self::Target)
        ensures
            *r == *from,
    ;
}

/// A contiguous run `start..end` of positions in an owner's target.
#[derive(Clone, Copy, Debug, PartialEq, Eq)]
pub struct Span {
    pub start: usize,
    pub end: usize,
}

impl Span {
    /// The run holds at least no position and ends within a target of `len`
    /// elements.
    pub open spec fn fits(self, len: int) -> bool {
        self.start <= self.end && self.end <= len
    }

    pub fn new(start: usize, end: usize) -> (r: Span)
        ensures
            r.start == start,
            r.end == end,
    {
        Span { start, end }
    }

    /// The run of the first `n` positions.
    pub fn prefix(n: usize) -> (r: Span)
        ensures
            r.start == 0,
            r.end == n,
    {
        Span { start: 0, end: n }
    }

    /// Number of positions in the run, zero when it is reversed.
    pub fn len(&self) -> (r: usize)
        ensures
            r == if self.start <= self.end { self.end - self.start } else { 0 },
    {
        if self.start <= self.end {
            self.end - self.start
        } else {
            0
        }
    }
}

/// The shape "a read-only view of a run of the owner's elements".
pub struct Reference<E>(PhantomData<E>);

impl<E> ReturnType for Reference<E> {
    type Target = Span;
}

impl<E> LifetimeDowncast for Reference<E> {
    fn lifetime_downcast(from: &Span) -> (r: &Span) {
        from
    }
}

/// The shape "an exclusive view of a run of the owner's elements".
pub struct ReferenceMut<E>(PhantomData<E>);

impl<E> ReturnType for ReferenceMut<E> {
    type Target = Span;
}

impl<E> LifetimeDowncast for ReferenceMut<E> {
    fn lifetime_downcast(from: &Span) -> (r: &Span) {
        from
    }
}

/// The shape "a sequence of read-only views of single elements of the owner".
pub struct Picks<E>(PhantomData<E>);

impl<E> ReturnType for Picks<E> {
    type Target = Vec<usize>;
}

impl<E> LifetimeDowncast for Picks<E> {
    fn lifetime_downcast(from: &Vec<usize>) -> (r: &Vec<usize>) {
        from
    }
}

} // verus!
