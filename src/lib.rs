//! A capsule that carries an owner together with a value derived from it, so
//! that the pair can be moved, stored and returned as one value.
//!
//! The owner must keep its target at a stable place however the handle moves
//! (`StableDeref`); cloning a capsule or deriving several capsules at once
//! also needs clones that share that target (`CloneStableDeref`).
use vstd::prelude::*;
use vstd::slice::slice_subrange;
pub use stable_deref_trait::{CloneStableDeref, StableDeref};

pub mod builder;
pub mod family;
pub mod owner;
pub mod type_substitute;

pub use builder::{build, AnyRefBuilder};
pub use owner::{ElemOwner, SharedOwner};
pub use type_substitute::{LifetimeDowncast, Picks, Reference, ReferenceMut, ReturnType, Span};

verus! {

/// An owner `O` bundled with the value of shape `T` derived from it.
pub struct AnyRef<T: LifetimeDowncast, O> {
    holder: T::Target,
    owner: O,
}

impl<T: LifetimeDowncast, O> AnyRef<T, O> {
    /// The derived value the capsule holds.
    pub closed spec fn holder_spec(&self) -> T::Target {
        self.holder
    }

    /// The owner the capsule holds.
    pub closed spec fn owner_spec(&self) -> O {
        self.owner
    }

    pub(crate) fn from_parts(holder: T::Target, owner: O) -> (r: Self)
        ensures
            r.holder_spec() == holder,
            r.owner_spec() == owner,
    {
        AnyRef { holder, owner }
    }
}

impl<T: LifetimeDowncast, O: StableDeref> AnyRef<T, O> {
    /// Takes `owner` and derives the held value from it with `func`, which
    /// reads the owner's target through the handle.
    pub fn new<F>(owner: O, func: F) -> (r: AnyRef<T, O>)
        where
            F: FnOnce(&O) -> T::Target,
        requires
            func.requires((&owner,)),
        ensures
            func.ensures((&owner,), r.holder_spec()),
            r.owner_spec() == owner,
    {
        let holder = func(&owner);
        AnyRef { holder, owner }
    }

    /// Replaces the derived value by what `func` computes from it and the
    /// owner; the owner is carried over unchanged.
    pub fn map<T2, F>(self, func: F) -> (r: AnyRef<T2, O>)
        where
            T2: LifetimeDowncast,
            F: FnOnce(T::Target, &O) -> T2::Target,
        requires
            func.requires((self.holder_spec(), &self.owner_spec())),
        ensures
            mapped(self, func, r),
    {
        let AnyRef { holder, owner } = self;
        let next = func(holder, &owner);
        AnyRef { holder: next, owner }
    }

    /// The derived value, narrowed to the borrow of the capsule.
    pub fn get(&self) -> (r: &T::Target)
        ensures
            *r == self.holder_spec(),
    {
        T::lifetime_downcast(&self.holder)
    }

    /// Gives up the derived value and returns the owner.
    pub fn into_inner(self) -> (r: O)
        ensures
            r == self.owner_spec(),
    {
        self.owner
    }

    /// The owner, borrowed.
    pub fn owner(&self) -> (r: &O)
        ensures
            *r == self.owner_spec(),
    {
        &self.owner
    }
}

impl<T: LifetimeDowncast, O: CloneStableDeref + SharedOwner> AnyRef<T, O> {
    /// Like `map`, but `func` receives a builder that derives any number of
    /// new capsules from the same owner.
    pub fn map_build<F, R>(self, func: F) -> (r: R)
        where
            F: FnOnce(T::Target, AnyRefBuilder<O>) -> R,
        requires
            forall|b: AnyRefBuilder<O>|
                b.owner_spec() == self.owner_spec() ==> #[trigger] func.requires(
                    (self.holder_spec(), b),
                ),
        ensures
            exists|b: AnyRefBuilder<O>|
                b.owner_spec() == self.owner_spec() && #[trigger] func.ensures(
                    (self.holder_spec(), b),
                    r,
                ),
    {
        let AnyRef { holder, owner } = self;
        let b = AnyRefBuilder::new(owner);
        // The call's arguments, spelled as the trigger of `requires`.
        assert(b.owner_spec() == self.owner_spec());
        assert(holder == self.holder_spec());
        func(holder, b)
    }
}

impl<T, O> Clone for AnyRef<T, O> where
    T: LifetimeDowncast,
    T::Target: Clone,
    O: SharedOwner,
 {
    /// Duplicates the derived value and takes a second handle to the owner's
    /// target, so the copy reads the same elements as the original and stays
    /// valid when the original is dropped.
    fn clone(&self) -> (r: Self)
        ensures
            cloned(self.holder_spec(), r.holder_spec()),
            r.owner_spec() == self.owner_spec(),
    {
        AnyRef { holder: self.holder.clone(), owner: self.owner.share() }
    }
}

/// `after` is what `before.map(func)` gives: the value `func` computes from
/// the derived value and the owner, next to the same owner.
pub open spec fn mapped<T, T2, O, F>(before: AnyRef<T, O>, func: F, after: AnyRef<T2, O>) -> bool
    where
        T: LifetimeDowncast,
        T2: LifetimeDowncast,
        F: FnOnce(T::Target, &O) -> T2::Target,
{
    &&& func.ensures((before.holder_spec(), &before.owner_spec()), after.holder_spec())
    &&& after.owner_spec() == before.owner_spec()
}

/// `map` keeps the owner: `into_inner` on the mapped capsule returns the very
/// owner the capsule held before the map.
pub proof fn lemma_map_keeps_owner<T, T2, O, F>(
    before: AnyRef<T, O>,
    func: F,
    after: AnyRef<T2, O>,
    owner: O,
)
    where
        T: LifetimeDowncast,
        T2: LifetimeDowncast,
        F: FnOnce(T::Target, &O) -> T2::Target,
    requires
        mapped(before, func, after),
        owner == after.owner_spec(),
    ensures
        owner == before.owner_spec(),
{
}

/// Derives the held value from `owner` with `func` and bundles the two.
pub fn new_any_ref<T, O, F>(owner: O, func: F) -> (r: AnyRef<T, O>)
    where
        T: LifetimeDowncast,
        O: StableDeref,
        F: FnOnce(&O) -> T::Target,
    requires
        func.requires((&owner,)),
    ensures
        func.ensures((&owner,), r.holder_spec()),
        r.owner_spec() == owner,
{
    AnyRef::new(owner, func)
}

/// What a read-only view of `span` shows of a target holding `elems`: the
/// elements of the run, or nothing when the run does not lie in the target.
pub open spec fn span_view<E>(span: Span, elems: Seq<E>) -> Option<Seq<E>> {
    if span.fits(elems.len() as int) {
        Some(elems.subrange(span.start as int, span.end as int))
    } else {
        None
    }
}

/// What a sequence of single-element views shows of a target holding `elems`:
/// the picked elements in order, or nothing when one position lies outside.
pub open spec fn picks_view<E>(picks: Seq<usize>, elems: Seq<E>) -> Option<Seq<E>> {
    if forall|i: int| 0 <= i < picks.len() ==> #[trigger] picks[i] < elems.len() {
        Some(picks.map_values(|p: usize| elems[p as int]))
    } else {
        None
    }
}

/// Resolves `span` against a sequence of elements: a checked narrowing.
pub fn view_span<'a, E>(span: &Span, elems: &'a [E]) -> (r: Option<&'a [E]>)
    ensures
        r matches Some(v) ==> span_view(*span, elems@) == Some(v@),
        r is None ==> span_view(*span, elems@) is None,
{
    if span.start <= span.end && span.end <= elems.len() {
        Some(slice_subrange(elems, span.start, span.end))
    } else {
        None
    }
}

/// Resolves `picks` against a sequence of elements: a checked narrowing.
pub fn view_picks<'a, E>(picks: &Vec<usize>, elems: &'a [E]) -> (r: Option<Vec<&'a E>>)
    ensures
        r matches Some(v) ==> picks_view(picks@, elems@) == Some(v@.unref()),
        r is None ==> picks_view(picks@, elems@) is None,
{
    let mut out: Vec<&'a E> = Vec::new();
    let mut i: usize = 0;
    while i < picks.len()
        invariant
            i <= picks@.len(),
            out@.len() == i,
            forall|j: int| 0 <= j < i ==> #[trigger] picks@[j] < elems@.len(),
            forall|j: int| 0 <= j < i ==> *(#[trigger] out@[j]) == elems@[picks@[j] as int],
        decreases picks@.len() - i,
    {
        let p = picks[i];
        if p >= elems.len() {
            return None;
        }
        out.push(&elems[p]);
        i = i + 1;
    }
    assert(out@.unref() =~= picks@.map_values(|p: usize| elems@[p as int]));
    Some(out)
}

impl<E, O: StableDeref + ElemOwner<Elem = E>> AnyRef<Picks<E>, O> {
    /// The owner's elements at the positions the capsule holds, or `None`
    /// when one of them lies outside the owner's target.
    pub fn picked(&self) -> (r: Option<Vec<&E>>)
        ensures
            r matches Some(v) ==> picks_view(self.holder_spec()@, self.owner_spec().elems()) == Some(
                v@.unref(),
            ),
            r is None ==> picks_view(self.holder_spec()@, self.owner_spec().elems()) is None,
    {
        view_picks(self.get(), self.owner.as_elems())
    }
}

impl<E, O: StableDeref + ElemOwner<Elem = E>> AnyRef<Reference<E>, O> {
    /// The run of the owner's elements the capsule views, or `None` when the
    /// run does not lie within the owner's target.
    pub fn as_slice(&self) -> (r: Option<&[E]>)
        ensures
            r matches Some(v) ==> span_view(self.holder_spec(), self.owner_spec().elems()) == Some(
                v@,
            ),
            r is None ==> span_view(self.holder_spec(), self.owner_spec().elems()) is None,
    {
        let span = self.get();
        view_span(span, self.owner.as_elems())
    }
}

/// A capsule and its clone read the same elements: the clone keeps the
/// derived run exactly and holds a handle to the same target, so the copy
/// stays valid whatever happens to the original afterwards.
pub proof fn lemma_clone_reads_same<E, O: ElemOwner<Elem = E> + SharedOwner>(
    a: AnyRef<Reference<E>, O>,
    b: AnyRef<Reference<E>, O>,
)
    requires
        cloned(a.holder_spec(), b.holder_spec()),
        b.owner_spec() == a.owner_spec(),
    ensures
        span_view(b.holder_spec(), b.owner_spec().elems()) == span_view(
            a.holder_spec(),
            a.owner_spec().elems(),
        ),
{
}

/// Two capsules that view `0..mid` and `mid..len` of one shared target read
/// its two halves, which together give back the whole target; neither read
/// depends on the other capsule.
pub proof fn lemma_split_halves<E, O: ElemOwner<Elem = E>>(
    first: AnyRef<Reference<E>, O>,
    second: AnyRef<Reference<E>, O>,
    mid: usize,
)
    requires
        first.owner_spec().elems() == second.owner_spec().elems(),
        mid <= first.owner_spec().elems().len(),
        first.holder_spec() == (Span { start: 0, end: mid }),
        second.holder_spec().start == mid,
        second.holder_spec().end == first.owner_spec().elems().len(),
    ensures
        span_view(first.holder_spec(), first.owner_spec().elems()) == Some(
            first.owner_spec().elems().subrange(0, mid as int),
        ),
        span_view(second.holder_spec(), second.owner_spec().elems()) == Some(
            first.owner_spec().elems().subrange(mid as int, first.owner_spec().elems().len() as int),
        ),
        first.owner_spec().elems().subrange(0, mid as int) + first.owner_spec().elems().subrange(
            mid as int,
            first.owner_spec().elems().len() as int,
        ) == first.owner_spec().elems(),
{
    let s = first.owner_spec().elems();
    assert(s.subrange(0, mid as int) + s.subrange(mid as int, s.len() as int) =~= s);
}

} // verus!
