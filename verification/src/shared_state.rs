//! Both sides of a shared-state bridge taken together, and why they settle
//! on one value.
//!
//! The two channels are modelled as the sequences of values that are on the
//! way. A channel hands over clones, so every step that pushes takes the
//! clone as an argument, and the laws say what holds of any clone.

use crate::systems::pushes_resource;
use crate::utils::latest;
use vstd::prelude::*;

verus! {

/// The simulation's mirror with what its change detection reports, the
/// reactive side's cell, and what is on the way in either direction.
pub struct SharedState<R> {
    pub mirror: R,
    pub changed: bool,
    pub added: bool,
    pub cell: R,
    pub inbound: Seq<R>,
    pub outbound: Seq<R>,
}

impl<R> SharedState<R> {
    /// Nothing is on the way and the simulation has nothing to report.
    pub open spec fn settled(self) -> bool {
        &&& self.inbound.len() == 0
        &&& self.outbound.len() == 0
        &&& !self.changed
        &&& !self.added
    }

    /// The reactive side writes `value`: the cell shows it and `pushed`, its
    /// clone, is on the way to the simulation at once.
    pub open spec fn write(self, value: R, pushed: R) -> Self {
        SharedState { cell: value, inbound: self.inbound.push(pushed), ..self }
    }

    /// The simulation's own logic writes `value` to the mirror.
    pub open spec fn mutate(self, value: R) -> Self {
        SharedState { mirror: value, changed: true, ..self }
    }

    /// One simulation tick. The bridge pushes `pushed`, a clone of the
    /// mirror's value, if the mirror changed and was not just added; then it
    /// applies everything inbound in arrival order. After the tick nothing
    /// that happened before it counts as a change.
    pub open spec fn tick(self, pushed: R) -> Self {
        SharedState {
            mirror: latest(self.mirror, self.inbound),
            changed: false,
            added: false,
            cell: self.cell,
            inbound: Seq::empty(),
            outbound: if pushes_resource(self.changed, self.added) {
                self.outbound.push(pushed)
            } else {
                self.outbound
            },
        }
    }

    /// One poll of the reactive side: everything outbound is applied to the
    /// cell in arrival order.
    pub open spec fn poll(self) -> Self {
        SharedState { cell: latest(self.cell, self.outbound), outbound: Seq::empty(), ..self }
    }
}

/// While neither side writes and nothing is on the way, a tick and a poll,
/// in either order, change nothing: values that are equal stay equal.
pub proof fn lemma_quiet_round<R>(state: SharedState<R>, pushed: R)
    requires
        state.settled(),
    ensures
        state.tick(pushed).poll() == state,
        state.poll().tick(pushed) == state,
{
    assert(state.tick(pushed).inbound =~= state.inbound);
    assert(state.poll().outbound =~= state.outbound);
    assert(state.poll().tick(pushed).inbound =~= state.inbound);
}

/// After a write on the reactive side, one tick brings the mirror to a
/// clone of what the cell shows, whatever the two sides held before, and a
/// poll before or after that tick does not disturb it.
pub proof fn lemma_reactive_write_converges<R: Clone>(
    state: SharedState<R>,
    value: R,
    pushed: R,
    other: R,
)
    requires
        state.settled(),
        cloned(value, pushed),
    ensures
        ({
            let after = state.write(value, pushed).tick(other).poll();
            &&& after.settled()
            &&& after.cell == value
            &&& cloned(after.cell, after.mirror)
        }),
        state.write(value, pushed).poll().tick(other) == state.write(value, pushed).tick(
            other,
        ).poll(),
{
    let written = state.write(value, pushed);
    assert(written.inbound.last() == pushed);
    assert(written.tick(other).poll().outbound =~= Seq::<R>::empty());
    assert(written.poll().outbound =~= written.tick(other).poll().outbound);
}

/// After a change by the simulation, the tick that sees it and the next
/// poll bring the cell to a clone of the mirror's value, whatever the two
/// sides held before. A poll that comes before the tick changes nothing, so
/// the two sides agree within two polls.
pub proof fn lemma_simulation_change_converges<R: Clone>(
    state: SharedState<R>,
    value: R,
    pushed: R,
)
    requires
        state.settled(),
        cloned(value, pushed),
    ensures
        ({
            let after = state.mutate(value).tick(pushed).poll();
            &&& after.settled()
            &&& after.mirror == value
            &&& cloned(after.mirror, after.cell)
        }),
        state.mutate(value).poll().tick(pushed).poll() == state.mutate(value).tick(pushed).poll(),
{
    let mutated = state.mutate(value);
    assert(mutated.tick(pushed).outbound.last() == pushed);
    assert(mutated.tick(pushed).inbound =~= Seq::<R>::empty());
    assert(mutated.poll().outbound =~= mutated.outbound);
    assert(mutated.poll() == mutated);
}

/// A mirror that was only just added is not pushed: what the reactive side
/// sent to initialize it does not come back.
pub proof fn lemma_initial_value_is_not_echoed<R>(state: SharedState<R>, pushed: R)
    requires
        state.added,
    ensures
        state.tick(pushed).outbound == state.outbound,
{
}

} // verus!
