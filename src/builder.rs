//! Deriving several capsules from one owner inside a single callback.
use vstd::prelude::*;
use stable_deref_trait::CloneStableDeref;
use crate::{AnyRef, LifetimeDowncast, SharedOwner};

verus! {

/// A session that wraps each value handed to `build` with its own clone of
/// the owner.
pub struct AnyRefBuilder<O> {
    owner: O,
}

impl<O: CloneStableDeref + SharedOwner> AnyRefBuilder<O> {
    /// The owner the session clones for each capsule.
    pub closed spec fn owner_spec(&self) -> O {
        self.owner
    }

    pub(crate) fn new(owner: O) -> (r: Self)
        ensures
            r.owner_spec() == owner,
    {
        AnyRefBuilder { owner }
    }

    /// Wraps `holder` and a fresh handle to the owner's target into a capsule. The
    /// session itself is left as it was, so the order of the calls does not
    /// matter; it is taken by `&mut` so that a value passed here must outlive
    /// the whole callback.
    pub fn build<T: LifetimeDowncast>(&mut self, holder: T::Target) -> (r: AnyRef<T, O>)
        ensures
            *final(self) == *old(self),
            r.holder_spec() == holder,
            r.owner_spec() == old(self).owner_spec(),
    {
        AnyRef::from_parts(holder, self.owner.share())
    }
}

/// Runs `func` on the owner and on a session built on a second handle to its
/// target, and returns what `func` returns.
pub fn build<O, R, F>(owner: O, func: F) -> (r: R)
    where
        O: CloneStableDeref + SharedOwner,
        F: FnOnce(&O, AnyRefBuilder<O>) -> R,
    requires
        forall|b: AnyRefBuilder<O>|
            b.owner_spec() == owner ==> #[trigger] func.requires((&owner, b)),
    ensures
        exists|b: AnyRefBuilder<O>| b.owner_spec() == owner && #[trigger] func.ensures((&owner, b), r),
{
    let session = AnyRefBuilder::new(owner.share());
    func(&owner, session)
}

} // verus!
