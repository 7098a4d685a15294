use core::any::TypeId;
use core::marker::PhantomData;
use vstd::prelude::*;

verus! {

/// A kind of asset: a type whose values an asset store holds.
pub trait Asset: Sized + 'static {

}

#[verifier::external_type_specification]
#[verifier::external_body]
pub struct ExTypeId(TypeId);

/// Relies on `TypeId::of`: the identifier of the type `A`.
#[verifier::external_body]
fn type_id_of<A: Asset>() -> (r: TypeId) {
    TypeId::of::<A>()
}

/// Relies on `TypeId`'s `==`: two type identifiers are equal exactly when they are the same value.
#[verifier::external_body]
fn type_ids_equal(a: &TypeId, b: &TypeId) -> (r: bool)
    ensures
        r == (*a == *b),
{
    *a == *b
}

/// The slot of an asset in its store: a position and the generation of that position.
#[derive(Clone, Copy, Debug, PartialEq, Eq, Structural, Hash)]
pub struct AssetIndex {
    pub generation: u32,
    pub index: u32,
}

/// The identifier of an asset of kind `A`.
#[derive(Debug)]
pub struct AssetId<A: Asset> {
    pub index: AssetIndex,
    pub marker: PhantomData<A>,
}

impl<A: Asset> AssetId<A> {
    /// The identifier of the asset in slot `index`.
    pub fn new(index: AssetIndex) -> (r: Self)
        ensures
            r.index == index,
    {
        AssetId { index, marker: PhantomData }
    }

    /// The identifier with the kind moved from the type to a value, `TypeId::of::<A>()`;
    /// the contract states the slot only.
    pub fn untyped(&self) -> (r: UntypedAssetId)
        ensures
            r.index == self.index,
    {
        UntypedAssetId { type_id: type_id_of::<A>(), index: self.index }
    }
}

impl<A: Asset> Clone for AssetId<A> {
    fn clone(&self) -> (r: Self)
        ensures
            r == *self,
    {
        *self
    }
}

impl<A: Asset> Copy for AssetId<A> {

}

impl<A: Asset> PartialEq for AssetId<A> {
    fn eq(&self, other: &Self) -> (r: bool) {
        self.index == other.index
    }
}

impl<A: Asset> vstd::std_specs::cmp::PartialEqSpecImpl for AssetId<A> {
    open spec fn obeys_eq_spec() -> bool {
        true
    }

    open spec fn eq_spec(&self, other: &Self) -> bool {
        self.index == other.index
    }
}

impl<A: Asset> Eq for AssetId<A> {

}

/// The identifier of an asset whose kind is held as a value.
#[derive(Clone, Copy, Debug, Hash)]
pub struct UntypedAssetId {
    pub type_id: TypeId,
    pub index: AssetIndex,
}

impl PartialEq for UntypedAssetId {
    fn eq(&self, other: &Self) -> (r: bool) {
        type_ids_equal(&self.type_id, &other.type_id) && self.index == other.index
    }
}

impl vstd::std_specs::cmp::PartialEqSpecImpl for UntypedAssetId {
    open spec fn obeys_eq_spec() -> bool {
        true
    }

    open spec fn eq_spec(&self, other: &Self) -> bool {
        self.type_id == other.type_id && self.index == other.index
    }
}

impl Eq for UntypedAssetId {

}

} // verus!
