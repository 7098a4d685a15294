use crate::error::AssetLoadError;
use crate::id::{Asset, AssetId, UntypedAssetId};
use crate::path::AssetPath;
use vstd::prelude::*;
use vstd::std_specs::cmp::PartialEqSpec;

verus! {

/// Reports that an asset of kind `A` failed to load.
#[derive(Debug)]
pub struct AssetLoadFailedEvent<A: Asset> {
    /// The identifier of the asset that failed to load.
    pub id: AssetId<A>,
    /// The path that was read.
    pub path: AssetPath,
    /// Why the load failed.
    pub error: AssetLoadError,
}

/// Reports that an asset failed to load, with its kind held as a value.
#[derive(Debug)]
pub struct UntypedAssetLoadFailedEvent {
    /// The identifier of the asset that failed to load.
    pub id: UntypedAssetId,
    /// The path that was read.
    pub path: AssetPath,
    /// Why the load failed.
    pub error: AssetLoadError,
}

/// `u` is `e` with the kind of its identifier moved from the type to a value: the same slot,
/// path and error. The kind value is `TypeId::of::<A>()`, which no contract here states.
pub open spec fn erases<A: Asset>(e: AssetLoadFailedEvent<A>, u: UntypedAssetLoadFailedEvent) -> bool {
    &&& u.id.index == e.id.index
    &&& u.path == e.path
    &&& u.error == e.error
}

impl<A: Asset> AssetLoadFailedEvent<A> {
    /// The same failure, with the kind of its identifier moved from the type to a value.
    pub fn untyped(&self) -> (r: UntypedAssetLoadFailedEvent)
        ensures
            erases(*self, r),
    {
        UntypedAssetLoadFailedEvent {
            id: self.id.untyped(),
            path: self.path.clone(),
            error: self.error.clone(),
        }
    }
}

impl<A: Asset> Clone for AssetLoadFailedEvent<A> {
    fn clone(&self) -> (r: Self)
        ensures
            r == *self,
    {
        AssetLoadFailedEvent { id: self.id, path: self.path.clone(), error: self.error.clone() }
    }
}

impl Clone for UntypedAssetLoadFailedEvent {
    fn clone(&self) -> (r: Self)
        ensures
            r == *self,
    {
        UntypedAssetLoadFailedEvent {
            id: self.id,
            path: self.path.clone(),
            error: self.error.clone(),
        }
    }
}

/// Something that happened to a loaded asset of kind `A`.
#[derive(Debug)]
pub enum AssetEvent<A: Asset> {
    /// An asset was added.
    Added { id: AssetId<A> },
    /// The value of an asset changed in place.
    Modified { id: AssetId<A> },
    /// An asset was removed from its store.
    Removed { id: AssetId<A> },
    /// The last strong handle to an asset was dropped.
    Unused { id: AssetId<A> },
    /// An asset and all of its dependencies, direct and transitive, finished loading.
    LoadedWithDependencies { id: AssetId<A> },
}

/// Which variant of `AssetEvent` a value is.
#[derive(Clone, Copy, Debug, PartialEq, Eq, Structural)]
pub enum AssetEventKind {
    Added,
    Modified,
    Removed,
    Unused,
    LoadedWithDependencies,
}

impl<A: Asset> AssetEvent<A> {
    /// The variant of this event.
    pub open spec fn kind(self) -> AssetEventKind {
        match self {
            AssetEvent::Added { .. } => AssetEventKind::Added,
            AssetEvent::Modified { .. } => AssetEventKind::Modified,
            AssetEvent::Removed { .. } => AssetEventKind::Removed,
            AssetEvent::Unused { .. } => AssetEventKind::Unused,
            AssetEvent::LoadedWithDependencies { .. } => AssetEventKind::LoadedWithDependencies,
        }
    }

    /// The asset this event is about.
    pub open spec fn asset(self) -> AssetId<A> {
        match self {
            AssetEvent::Added { id } => id,
            AssetEvent::Modified { id } => id,
            AssetEvent::Removed { id } => id,
            AssetEvent::Unused { id } => id,
            AssetEvent::LoadedWithDependencies { id } => id,
        }
    }

    /// The event of variant `kind` about the asset `id`.
    pub open spec fn of(kind: AssetEventKind, id: AssetId<A>) -> Self {
        match kind {
            AssetEventKind::Added => AssetEvent::Added { id },
            AssetEventKind::Modified => AssetEvent::Modified { id },
            AssetEventKind::Removed => AssetEvent::Removed { id },
            AssetEventKind::Unused => AssetEvent::Unused { id },
            AssetEventKind::LoadedWithDependencies => AssetEvent::LoadedWithDependencies { id },
        }
    }

    /// This event is of variant `kind` and about the asset `asset_id`.
    pub open spec fn matches_spec(self, kind: AssetEventKind, asset_id: AssetId<A>) -> bool {
        self.kind() == kind && self.asset() == asset_id
    }

    /// Whether this event is `LoadedWithDependencies` for the asset `asset_id`.
    pub fn is_loaded_with_dependencies(&self, asset_id: AssetId<A>) -> (r: bool)
        ensures
            r == self.matches_spec(AssetEventKind::LoadedWithDependencies, asset_id),
    {
        match self {
            AssetEvent::LoadedWithDependencies { id } => *id == asset_id,
            _ => false,
        }
    }

    /// Whether this event is `Added` for the asset `asset_id`.
    pub fn is_added(&self, asset_id: AssetId<A>) -> (r: bool)
        ensures
            r == self.matches_spec(AssetEventKind::Added, asset_id),
    {
        match self {
            AssetEvent::Added { id } => *id == asset_id,
            _ => false,
        }
    }

    /// Whether this event is `Modified` for the asset `asset_id`.
    pub fn is_modified(&self, asset_id: AssetId<A>) -> (r: bool)
        ensures
            r == self.matches_spec(AssetEventKind::Modified, asset_id),
    {
        match self {
            AssetEvent::Modified { id } => *id == asset_id,
            _ => false,
        }
    }

    /// Whether this event is `Removed` for the asset `asset_id`.
    pub fn is_removed(&self, asset_id: AssetId<A>) -> (r: bool)
        ensures
            r == self.matches_spec(AssetEventKind::Removed, asset_id),
    {
        match self {
            AssetEvent::Removed { id } => *id == asset_id,
            _ => false,
        }
    }

    /// Whether this event is `Unused` for the asset `asset_id`.
    pub fn is_unused(&self, asset_id: AssetId<A>) -> (r: bool)
        ensures
            r == self.matches_spec(AssetEventKind::Unused, asset_id),
    {
        match self {
            AssetEvent::Unused { id } => *id == asset_id,
            _ => false,
        }
    }
}

impl<A: Asset> Clone for AssetEvent<A> {
    fn clone(&self) -> (r: Self)
        ensures
            r == *self,
    {
        *self
    }
}

impl<A: Asset> Copy for AssetEvent<A> {

}

impl<A: Asset> PartialEq for AssetEvent<A> {
    fn eq(&self, other: &Self) -> (r: bool) {
        match (self, other) {
            (AssetEvent::Added { id: l }, AssetEvent::Added { id: r }) => *l == *r,
            (AssetEvent::Modified { id: l }, AssetEvent::Modified { id: r }) => *l == *r,
            (AssetEvent::Removed { id: l }, AssetEvent::Removed { id: r }) => *l == *r,
            (AssetEvent::Unused { id: l }, AssetEvent::Unused { id: r }) => *l == *r,
            (
                AssetEvent::LoadedWithDependencies { id: l },
                AssetEvent::LoadedWithDependencies { id: r },
            ) => *l == *r,
            _ => false,
        }
    }
}

impl<A: Asset> vstd::std_specs::cmp::PartialEqSpecImpl for AssetEvent<A> {
    open spec fn obeys_eq_spec() -> bool {
        true
    }

    open spec fn eq_spec(&self, other: &Self) -> bool {
        self.kind() == other.kind() && self.asset() == other.asset()
    }
}

impl<A: Asset> Eq for AssetEvent<A> {

}

/// Projecting one failure twice gives two results that agree on the asset's slot, the path
/// and the error, each equal to the original's.
pub proof fn lemma_untyped_repeatable<A: Asset>(
    e: AssetLoadFailedEvent<A>,
    first: UntypedAssetLoadFailedEvent,
    second: UntypedAssetLoadFailedEvent,
)
    requires
        erases(e, first),
        erases(e, second),
    ensures
        first.id.index == second.id.index,
        first.path == second.path,
        first.error == second.error,
        first.id.index == e.id.index,
{
}

/// Two lifecycle events are equal exactly when they are of the same variant and about the
/// same asset: events of different variants are never equal, whatever their assets.
pub proof fn lemma_event_eq<A: Asset>(a: AssetEvent<A>, b: AssetEvent<A>)
    ensures
        a.eq_spec(&b) <==> (a.kind() == b.kind() && a.asset() == b.asset()),
        a.eq_spec(&b) <==> a == b,
        a.kind() != b.kind() ==> !a.eq_spec(&b),
        a.asset() != b.asset() ==> !a.eq_spec(&b),
{
    if a.kind() == b.kind() && a.asset() == b.asset() {
        assert(a == AssetEvent::<A>::of(a.kind(), a.asset()));
        assert(b == AssetEvent::<A>::of(b.kind(), b.asset()));
    }
}

/// Each variant's predicate holds of an event of that variant about the asset asked for, and
/// fails for any other asset and for every other variant.
pub proof fn lemma_predicates<A: Asset>(
    kind: AssetEventKind,
    other: AssetEventKind,
    x: AssetId<A>,
    y: AssetId<A>,
)
    ensures
        AssetEvent::<A>::of(kind, x).matches_spec(kind, x),
        x != y ==> !AssetEvent::<A>::of(kind, x).matches_spec(kind, y),
        other != kind ==> !AssetEvent::<A>::of(kind, x).matches_spec(other, x),
{
}

/// Every lifecycle event equals itself, so a copy of one equals the original.
pub proof fn lemma_event_eq_reflexive<A: Asset>(a: AssetEvent<A>)
    ensures
        a.eq_spec(&a),
{
}

} // verus!
