//! Query projections: owned snapshots of the watched fields of one entity.

use crate::change::Watched;
use crate::messages::BevyMessageDuplex;
use crate::signal_synced::{signal_synced, RwSignalSynced};
use std::marker::PhantomData;
use vstd::prelude::*;

verus! {

/// An owned projection of the fields `Qdata` of a live entity.
///
/// A projection is a snapshot: taking one leaves the entity alone, and
/// writing one back is the only way it reaches the entity again. The three
/// spec functions say what an implementation's snapshot, write and change
/// test mean; the bridge is verified against them.
pub trait QueryDataOwned: Sized {
    /// The entity's live fields.
    type Qdata;

    /// `projection` is a snapshot of `data`.
    spec fn projects(data: Self::Qdata, projection: Self) -> bool;

    /// Writing `self` to an entity whose fields were `before` leaves `after`.
    spec fn writes(&self, before: Self::Qdata, after: Self::Qdata) -> bool;

    /// The simulation changed one of the fields since the bridge last ran.
    spec fn changed(data: Self::Qdata) -> bool;

    fn from_query_data(data: &Self::Qdata) -> (projection: Self)
        ensures
            Self::projects(*data, projection),
    ;

    fn set_query_data(&self, data: &mut Self::Qdata)
        ensures
            self.writes(*old(data), *final(data)),
    ;

    fn is_changed(data: &Self::Qdata) -> (changed: bool)
        ensures
            changed == Self::changed(*data),
    ;
}

/// A write of `value` by the bridge: the field holds a clone of it and
/// reports no change that it did not report before.
pub open spec fn field_written<T: Clone>(value: T, before: Watched<T>, after: Watched<T>) -> bool {
    &&& cloned(value, after.value())
    &&& after.changed() == before.changed()
    &&& after.added() == before.added()
}

/// The simulation's handle of a query bridge: projections of `D`, or their
/// absence, travel over it in both directions. `F` names the filter by which
/// the simulation selects the entity.
#[verifier::reject_recursive_types(D)]
pub struct BevyQueryDuplex<D, F = ()> where D: QueryDataOwned {
    pub(crate) duplex: BevyMessageDuplex<Option<D>>,
    marker: PhantomData<F>,
}

impl<D, F> Clone for BevyQueryDuplex<D, F> where D: QueryDataOwned {
    fn clone(&self) -> (handle: Self) {
        Self { duplex: self.duplex.clone(), marker: PhantomData }
    }
}

impl<D, F> BevyQueryDuplex<D, F> where D: QueryDataOwned {
    /// The duplex handle that the query handle carries.
    pub closed spec fn handle(&self) -> BevyMessageDuplex<Option<D>> {
        self.duplex
    }

    /// The duplex handle that the bridge's tick works on.
    pub fn duplex(&self) -> (duplex: &BevyMessageDuplex<Option<D>>)
        ensures
            *duplex == self.handle(),
    {
        &self.duplex
    }
}

/// Creates a synced cell for the projection of the one entity that the
/// filter `F` selects, and the simulation's handle for it. The cell starts
/// out with no entity.
pub fn single_query_signal<D, F>() -> (pair: (RwSignalSynced<Option<D>>, BevyQueryDuplex<D, F>)) where
    D: QueryDataOwned + Clone,

    ensures
        pair.0@ == None::<D>,
{
    let (signal, duplex) = signal_synced(None);
    (signal, BevyQueryDuplex { duplex, marker: PhantomData })
}

} // verus!
