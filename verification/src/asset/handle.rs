//! Typed handles naming loaded assets.

use vstd::prelude::*;

use core::marker::PhantomData;

use crate::asset::Asset;

verus! {

/// A typed reference to an asset: an identifier tagged with the asset type
/// it names.
#[derive(PartialEq)]
pub struct Handle<A> where A: Asset {
    pub id: HandleId,
    pub marker: PhantomData<A>,
}

impl<A: Asset> Clone for Handle<A> {
    /// A handle clones as the same identifier.
    fn clone(&self) -> (r: Handle<A>)
        ensures
            r.id == self.id,
    {
        Handle { id: self.id, marker: PhantomData }
    }
}

/// An asset identifier.
#[derive(Clone, Copy, Debug, Hash, PartialEq, Eq, Structural)]
pub enum HandleId {
    Id(u64),
}

impl HandleId {
    /// A fresh identifier.  Drawing it from an entropy source is not wired
    /// up; every call yields the same reserved identifier.
    pub fn random() -> (r: HandleId)
        ensures
            r == HandleId::Id(29481),
    {
        HandleId::Id(29481)
    }

    /// The zero identifier.
    pub fn default() -> (r: HandleId)
        ensures
            r == HandleId::Id(0),
    {
        HandleId::Id(0)
    }

    /// Reserved constructor; allocates nothing yet.
    pub fn new() {
    }
}

impl<T: Asset> From<HandleId> for Handle<T> {
    /// Wrap an identifier as a typed handle.
    fn from(value: HandleId) -> (r: Handle<T>) {
        Handle { id: value, marker: PhantomData }
    }
}

impl<T: Asset> vstd::std_specs::convert::FromSpecImpl<HandleId> for Handle<T> {
    open spec fn obeys_from_spec() -> bool {
        true
    }

    open spec fn from_spec(value: HandleId) -> Handle<T> {
        Handle { id: value, marker: PhantomData }
    }
}

impl<T: Asset> From<Handle<T>> for HandleId {
    /// The identifier a typed handle carries.
    fn from(value: Handle<T>) -> (r: HandleId) {
        value.id
    }
}

impl<T: Asset> vstd::std_specs::convert::FromSpecImpl<Handle<T>> for HandleId {
    open spec fn obeys_from_spec() -> bool {
        true
    }

    open spec fn from_spec(value: Handle<T>) -> HandleId {
        value.id
    }
}

} // verus!
