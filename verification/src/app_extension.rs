//! What registering a shared-state bridge does to the simulation before its
//! first tick.

use crate::change::Watched;
use crate::channel::drain;
use crate::traits::HasReceiver;
use vstd::prelude::*;

verus! {

/// The state of a resource after `values` were inserted into the simulation
/// one after the other. The first insertion into an empty place adds the
/// resource; every insertion counts as a change, and the last value stays.
pub open spec fn inserted<R>(
    before: Option<Watched<R>>,
    values: Seq<R>,
    after: Option<Watched<R>>,
) -> bool {
    if values.len() == 0 {
        after == before
    } else {
        &&& after is Some
        &&& after->0.value() == values.last()
        &&& after->0.changed()
        &&& after->0.added() == (before is None || before->0.added())
    }
}

/// What a resource can be after some number of insertions, which may be
/// none: either what it was, or a resource that counts as changed.
pub open spec fn registered<R>(before: Option<Watched<R>>, after: Option<Watched<R>>) -> bool {
    after == before || ({
        &&& after is Some
        &&& after->0.changed()
        &&& after->0.added() == (before is None || before->0.added())
    })
}

/// Inserts `value` as the resource, in place of the one that is there.
pub fn insert_resource<R>(resource: &mut Option<Watched<R>>, value: R)
    ensures
        inserted(*old(resource), seq![value], *final(resource)),
{
    match resource {
        Some(present) => {
            present.set(value);
        },
        None => {
            *resource = Some(Watched::new(value));
        },
    }
    proof {
        assert(seq![value].last() == value);
    }
}

/// Inserts every drained value as the resource, in arrival order.
pub fn insert_resources<R>(resource: &mut Option<Watched<R>>, drained: Vec<R>)
    ensures
        inserted(*old(resource), drained@, *final(resource)),
{
    let ghost items = drained@;
    for value in it: drained.into_iter()
        invariant
            it.seq() == items,
            inserted(*old(resource), items.take(it.index()), *resource),
    {
        insert_resource(resource, value);
        proof {
            assert(items.take(it.index() + 1).last() == items[it.index()]);
        }
    }
    proof {
        assert(items.take(items.len() as int) =~= items);
    }
}

/// Registration of a shared-state bridge: what the reactive side has sent
/// so far, which includes the initial value of its cell, becomes the
/// simulation's resource. With nothing sent the resource is left alone; a
/// resource that is there stays there.
pub fn sync_leptos_signal_with_resource<D, R>(resource: &mut Option<Watched<R>>, bevy_duplex: &D) where
    D: HasReceiver<R>,

    ensures
        registered(*old(resource), *final(resource)),
{
    let drained = drain(bevy_duplex.rx());
    insert_resources(resource, drained);
}

/// Registration of a shared-state bridge for the current state of a state
/// machine: as for any other piece of shared state.
pub fn sync_leptos_signal_with_state<D, S>(state: &mut Option<Watched<S>>, bevy_duplex: &D) where
    D: HasReceiver<S>,

    ensures
        registered(*old(state), *final(state)),
{
    sync_leptos_signal_with_resource(state, bevy_duplex);
}

} // verus!
