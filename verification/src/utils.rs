//! The latest-value adapter: what a poll does with the items it drained.

use vstd::prelude::*;

verus! {

/// The value a cell shows after `drained` was applied to it in arrival
/// order: the last item wins, and with nothing drained the cell keeps what
/// it had.
pub open spec fn latest<T>(current: T, drained: Seq<T>) -> T {
    if drained.len() > 0 {
        drained.last()
    } else {
        current
    }
}

/// `latest` for a cell that starts out with no value yet.
pub open spec fn latest_some<M>(current: Option<M>, drained: Seq<M>) -> Option<M> {
    if drained.len() > 0 {
        Some(drained.last())
    } else {
        current
    }
}

/// Applies every drained item to `cell`, in arrival order. Dependents are to
/// be notified once if `notify` is set, however many items there were, and
/// not at all otherwise.
pub fn apply_drained<T>(cell: &mut T, drained: Vec<T>) -> (notify: bool)
    ensures
        *final(cell) == latest(*old(cell), drained@),
        notify == (drained@.len() > 0),
{
    let mut notify = false;
    let ghost items = drained@;
    for item in it: drained.into_iter()
        invariant
            it.seq() == items,
            notify == (it.index() > 0),
            *cell == latest(*old(cell), items.take(it.index())),
    {
        *cell = item;
        notify = true;
    }
    proof {
        assert(items.take(items.len() as int) =~= items);
    }
    notify
}

/// `apply_drained` for a cell that starts out with no value yet.
pub fn apply_drained_some<M>(cell: &mut Option<M>, drained: Vec<M>) -> (notify: bool)
    ensures
        *final(cell) == latest_some(*old(cell), drained@),
        notify == (drained@.len() > 0),
{
    let mut notify = false;
    let ghost items = drained@;
    for item in it: drained.into_iter()
        invariant
            it.seq() == items,
            notify == (it.index() > 0),
            *cell == latest_some(*old(cell), items.take(it.index())),
    {
        *cell = Some(item);
        notify = true;
    }
    proof {
        assert(items.take(items.len() as int) =~= items);
    }
    notify
}

} // verus!
