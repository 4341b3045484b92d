//! What the bridges do in each simulation tick.
//!
//! Every phase comes in two layers. The outer function talks to the channel;
//! the inner one is handed what was drained, or hands back what is to be
//! sent, and its contract says exactly what the phase does with it.

use crate::change::Watched;
use crate::channel::{drain, send, Disconnected};
use crate::messages::BevyMessageDuplex;
use crate::queries::QueryDataOwned;
use crate::stream::{MessageId, Messages};
use crate::traits::{HasReceiver, HasSender};
use crate::utils::latest;
use crossbeam_channel::Sender;
use std::marker::PhantomData;
use vstd::prelude::*;

verus! {

/// Label of the phase that mirrors shared state.
#[derive(Debug, Hash, PartialEq, Eq, Clone, Copy)]
pub struct SyncSignalResourceSet;

/// Label of the phase that mirrors a state machine's current state.
#[derive(Debug, Hash, PartialEq, Eq, Clone, Copy)]
pub struct SyncSignalStateSet;

/// Label of the import phase, which runs before the simulation's logic.
#[derive(Debug, Hash, PartialEq, Eq, Clone, Copy)]
pub struct ImportLeptosMessageSet;

/// Label of the export phase, which runs after the simulation's logic.
#[derive(Debug, Hash, PartialEq, Eq, Clone, Copy)]
pub struct ExportLeptosMessageSet;

/// Label of the phase that synchronizes query projections.
#[derive(Debug, Hash, PartialEq, Eq, Clone, Copy)]
pub struct SyncQuerySet;

/// The import ledger of one bridge: the identities of the items that import
/// raised on the local stream in the current tick. Export consults it so
/// that nothing is sent back to where it came from.
pub struct ImportedMessageIds<M> {
    ids: Vec<MessageId>,
    marker: PhantomData<M>,
}

impl<M> View for ImportedMessageIds<M> {
    type V = Seq<MessageId>;

    closed spec fn view(&self) -> Seq<MessageId> {
        self.ids@
    }
}

impl<M> Default for ImportedMessageIds<M> {
    fn default() -> (ledger: Self)
        ensures
            ledger@ == Seq::<MessageId>::empty(),
    {
        Self { ids: Vec::with_capacity(4), marker: PhantomData }
    }
}

impl<M> ImportedMessageIds<M> {
    pub fn clear(&mut self)
        ensures
            final(self)@ == Seq::<MessageId>::empty(),
    {
        self.ids.clear();
    }

    pub fn push(&mut self, id: MessageId)
        ensures
            final(self)@ == old(self)@.push(id),
    {
        self.ids.push(id);
    }

    pub fn len(&self) -> (n: usize)
        ensures
            n == self@.len(),
    {
        self.ids.len()
    }

    pub fn contains(&self, id: &MessageId) -> (found: bool)
        ensures
            found == self@.contains(*id),
    {
        let mut i: usize = 0;
        while i < self.ids.len()
            invariant
                i <= self.ids@.len(),
                forall|j: int| 0 <= j < i ==> self.ids@[j] != *id,
            decreases self.ids@.len() - i,
        {
            if self.ids[i].id == id.id {
                return true;
            }
            i += 1;
        }
        false
    }
}

/// The identities that `count` items get when they are raised on a stream
/// that holds `start` items already.
pub open spec fn fresh_ids(start: nat, count: nat) -> Seq<MessageId> {
    Seq::new(count, |i: int| MessageId { id: (start + i) as usize })
}

/// The positions, in stream order, of the items that export forwards when
/// `raised` items are on the stream: those whose identity is not in the
/// ledger.
pub open spec fn export_positions(imported: Seq<MessageId>, raised: nat) -> Seq<int>
    decreases raised,
{
    if raised == 0 {
        Seq::empty()
    } else {
        let earlier = export_positions(imported, (raised - 1) as nat);
        if imported.contains(MessageId { id: (raised - 1) as usize }) {
            earlier
        } else {
            earlier.push(raised - 1)
        }
    }
}

/// `copies` holds a clone of every item of `items`, in the same order.
pub open spec fn cloned_each<T: Clone>(items: Seq<T>, copies: Seq<T>) -> bool {
    &&& items.len() == copies.len()
    &&& forall|i: int| 0 <= i < items.len() ==> cloned(#[trigger] items[i], copies[i])
}

/// Export positions are exactly the positions on the stream that the ledger
/// does not hold, each once and in increasing order.
pub proof fn lemma_export_positions(imported: Seq<MessageId>, raised: nat)
    requires
        raised <= usize::MAX,
    ensures
        forall|p: int|
            export_positions(imported, raised).contains(p) <==> 0 <= p < raised
                && !imported.contains(MessageId { id: p as usize }),
        forall|j: int, k: int|
            0 <= j < k < export_positions(imported, raised).len() ==> export_positions(
                imported,
                raised,
            )[j] < export_positions(imported, raised)[k],
    decreases raised,
{
    if raised > 0 {
        let earlier = export_positions(imported, (raised - 1) as nat);
        lemma_export_positions(imported, (raised - 1) as nat);
        let now = export_positions(imported, raised);
        if !imported.contains(MessageId { id: (raised - 1) as usize }) {
            assert(now == earlier.push(raised - 1));
            assert(now[earlier.len() as int] == raised - 1);
            assert forall|p: int| now.contains(p) <==> 0 <= p < raised && !imported.contains(
                MessageId { id: p as usize },
            ) by {
                if now.contains(p) {
                    let k = choose|k: int| 0 <= k < now.len() && now[k] == p;
                    if k < earlier.len() {
                        assert(earlier[k] == p);
                        assert(earlier.contains(p));
                    }
                }
                if 0 <= p < raised && !imported.contains(MessageId { id: p as usize }) {
                    if p < raised - 1 {
                        assert(earlier.contains(p));
                        let k = choose|k: int| 0 <= k < earlier.len() && earlier[k] == p;
                        assert(now[k] == p);
                    }
                }
            }
            assert forall|j: int, k: int| 0 <= j < k < now.len() implies now[j] < now[k] by {
                if k == earlier.len() {
                    assert(earlier.contains(earlier[j]));
                }
            }
        }
    }
}

/// The items that export forwards when `raised` is what the local stream
/// holds: those whose identity is not in the ledger, in stream order.
pub open spec fn due_for_export<M>(imported: Seq<MessageId>, raised: Seq<M>) -> Seq<M> {
    export_positions(imported, raised.len()).map_values(|p: int| raised[p])
}

/// The export positions among the first `raised` items of a stream on which
/// import raised `imported` items after `before` earlier ones.
proof fn lemma_export_positions_around_import(before: nat, imported: nat, raised: nat)
    requires
        raised <= usize::MAX,
        before + imported <= usize::MAX,
    ensures
        export_positions(fresh_ids(before, imported), raised) =~= if raised <= before + imported {
            Seq::new(if raised <= before { raised } else { before }, |p: int| p)
        } else {
            Seq::new(before, |p: int| p) + Seq::new(
                (raised - before - imported) as nat,
                |p: int| before + imported + p,
            )
        },
    decreases raised,
{
    if raised > 0 {
        let ledger = fresh_ids(before, imported);
        let last = raised - 1;
        let id = MessageId { id: last as usize };
        lemma_export_positions_around_import(before, imported, last as nat);
        if before <= last < before + imported {
            assert(ledger[last - before] == id);
        }
        if ledger.contains(id) {
            let k = choose|k: int| 0 <= k < ledger.len() && ledger[k] == id;
            assert(last == before + k);
        }
    }
}

/// Loop prevention. Let import raise `imported` on a stream that holds
/// `before`, and let the simulation raise `later` after that. Then export
/// forwards what was on the stream before and what the simulation raised
/// itself, in that order, and none of the imported items.
pub proof fn lemma_imported_items_are_not_exported<M>(
    before: Seq<M>,
    imported: Seq<M>,
    later: Seq<M>,
)
    requires
        before.len() + imported.len() + later.len() <= usize::MAX,
    ensures
        due_for_export(fresh_ids(before.len(), imported.len()), before + imported + later)
            == before + later,
{
    let raised = before + imported + later;
    lemma_export_positions_around_import(before.len(), imported.len(), raised.len());
    assert(due_for_export(fresh_ids(before.len(), imported.len()), raised) =~= before + later);
}

/// The import phase, given what was drained from the inbound channel: the
/// ledger is cleared, every item is raised on the local stream in arrival
/// order, and the ledger ends up holding the identities they got.
pub fn import_messages<M>(
    drained: Vec<M>,
    imported_message_ids: &mut ImportedMessageIds<M>,
    messages: &mut Messages<M>,
)
    ensures
        final(messages)@ == old(messages)@ + drained@,
        final(imported_message_ids)@ == fresh_ids(old(messages)@.len(), drained@.len()),
{
    imported_message_ids.clear();
    let ghost items = drained@;
    let ghost start = messages@.len();
    for message in it: drained.into_iter()
        invariant
            it.seq() == items,
            start == old(messages)@.len(),
            messages@ == old(messages)@ + items.take(it.index()),
            imported_message_ids@ == fresh_ids(start, it.index() as nat),
    {
        let ghost before = messages@;
        let ghost ledger = imported_message_ids@;
        let message_id = messages.write(message);
        imported_message_ids.push(message_id);
        proof {
            let i = it.index();
            assert(items.take(i + 1) =~= items.take(i).push(items[i]));
            assert(messages@ =~= old(messages)@ + items.take(i + 1));
            assert(before.len() == start + i);
            assert(imported_message_ids@ =~= fresh_ids(start, (i + 1) as nat));
        }
    }
    proof {
        assert(items.take(items.len() as int) =~= items);
    }
}

/// The import phase of a simulation tick: drains the inbound channel and
/// raises what arrived on the local stream, keeping the ledger.
///
/// Whatever arrived, the stream only grows, and the ledger holds exactly the
/// identities of what was added.
pub fn import_and_send_leptos_messages<R, M>(
    rx: &R,
    imported_message_ids: &mut ImportedMessageIds<M>,
    messages: &mut Messages<M>,
) where R: HasReceiver<M>
    ensures
        old(messages)@.is_prefix_of(final(messages)@),
        final(imported_message_ids)@ == fresh_ids(
            old(messages)@.len(),
            (final(messages)@.len() - old(messages)@.len()) as nat,
        ),
{
    let drained = drain(rx.rx());
    import_messages(drained, imported_message_ids, messages);
}

/// What the export phase forwards: a clone of every item on the local
/// stream that the ledger does not hold, in stream order.
pub fn select_exports<M: Clone>(
    imported_message_ids: &ImportedMessageIds<M>,
    messages: &Messages<M>,
) -> (exports: Vec<M>)
    ensures
        cloned_each(due_for_export(imported_message_ids@, messages@), exports@),
{
    let mut exports: Vec<M> = Vec::new();
    let count = messages.len();
    let mut i: usize = 0;
    while i < count
        invariant
            i <= count,
            count == messages@.len(),
            cloned_each(
                export_positions(imported_message_ids@, i as nat).map_values(
                    |p: int| messages@[p],
                ),
                exports@,
            ),
        decreases count - i,
    {
        let id = MessageId { id: i };
        if !imported_message_ids.contains(&id) {
            match messages.get(id) {
                Some(message) => {
                    let ghost before = exports@;
                    let copy = message.clone();
                    exports.push(copy);
                    proof {
                        let earlier = export_positions(imported_message_ids@, i as nat);
                        let now = export_positions(imported_message_ids@, (i + 1) as nat);
                        assert(now == earlier.push(i as int));
                        assert(now.map_values(|p: int| messages@[p]) =~= earlier.map_values(
                            |p: int| messages@[p],
                        ).push(messages@[i as int]));
                        assert(exports@ == before.push(copy));
                    }
                },
                None => {},
            }
        }
        i += 1;
    }
    exports
}

/// Sends `items` in order and stops at the first one the channel refuses,
/// which the error hands back.
pub fn send_all<M>(tx: &Sender<M>, items: Vec<M>) -> (sent: Result<(), Disconnected<M>>)
    ensures
        sent matches Err(e) ==> items@.contains(e.message),
        items@.len() == 0 ==> sent is Ok,
{
    let ghost all = items@;
    for item in it: items.into_iter()
        invariant
            it.seq() == all,
    {
        match send(tx, item) {
            Ok(()) => {},
            Err(e) => {
                assert(all[it.index()] == e.message);
                return Err(e);
            },
        }
    }
    Ok(())
}

/// The export phase of a simulation tick: forwards to the outbound channel
/// what the simulation raised on its local stream, and nothing that import
/// put there in this tick.
///
/// A disconnected channel ends the phase with the item that could not be
/// forwarded, which is a clone of an item that was due for export.
pub fn read_and_export_leptos_messages<S, M>(
    tx: &S,
    imported_message_ids: &ImportedMessageIds<M>,
    messages: &Messages<M>,
) -> (sent: Result<(), Disconnected<M>>) where S: HasSender<M>, M: Clone
    ensures
        sent matches Err(e) ==> exists|k: int|
            0 <= k < due_for_export(imported_message_ids@, messages@).len() && cloned(
                #[trigger] due_for_export(imported_message_ids@, messages@)[k],
                e.message,
            ),
        due_for_export(imported_message_ids@, messages@).len() == 0 ==> sent is Ok,
{
    let exports = select_exports(imported_message_ids, messages);
    let ghost due = due_for_export(imported_message_ids@, messages@);
    let ghost copies = exports@;
    let sent = send_all(tx.tx(), exports);
    proof {
        if sent is Err {
            let e = sent->Err_0;
            let k = choose|k: int| 0 <= k < copies.len() && copies[k] == e.message;
            assert(cloned(due[k], copies[k]));
        }
    }
    sent
}

/// Whether the shared-state bridge pushes the mirror's value outward in this
/// tick: it changed since the last tick and was not only just initialized.
pub open spec fn pushes_resource(changed: bool, added: bool) -> bool {
    changed && !added
}

/// The inbound half of the shared-state bridge, given what was drained:
/// every value is applied to the mirror in arrival order, so that the last
/// one stays. The mirror's change detection does not count these writes.
pub fn apply_to_resource<R>(resource: &mut Watched<R>, drained: Vec<R>)
    ensures
        final(resource).value() == latest(old(resource).value(), drained@),
        final(resource).changed() == old(resource).changed(),
        final(resource).added() == old(resource).added(),
{
    let ghost items = drained@;
    for event in it: drained.into_iter()
        invariant
            it.seq() == items,
            resource.value() == latest(
                old(resource).value(),
                items.take(it.index()),
            ),
            resource.changed() == old(resource).changed(),
            resource.added() == old(resource).added(),
    {
        resource.overwrite(event);
        proof {
            assert(items.take(it.index() + 1).last() == items[it.index()]);
        }
    }
    proof {
        assert(items.take(items.len() as int) =~= items);
    }
}

/// Decides from what change detection reports whether the shared-state
/// bridge pushes the mirror's value outward in this tick.
pub fn resource_changed(changed: bool, added: bool) -> (push: bool)
    ensures
        push == pushes_resource(changed, added),
{
    changed && !added
}

/// The outbound half of the shared-state bridge: a clone of the mirror's
/// value if it is to be pushed in this tick, and nothing otherwise.
pub fn resource_push<R: Clone>(resource: &Watched<R>) -> (push: Option<R>)
    ensures
        push is Some <==> pushes_resource(resource.changed(), resource.added()),
        push matches Some(snapshot) ==> cloned(resource.value(), snapshot),
{
    if resource_changed(resource.is_changed(), resource.is_added()) {
        Some(resource.get().clone())
    } else {
        None
    }
}

/// The shared-state bridge's part of a simulation tick.
///
/// If the mirror changed since the last tick and was not only just
/// initialized, its value is pushed outward, once. Then the inbound channel
/// is drained and every value is applied in arrival order. A disconnected
/// outbound channel ends the tick before anything is applied.
pub fn sync_signal_resource<D, R>(resource: &mut Watched<R>, sync: &D) -> (synced: Result<
    (),
    Disconnected<R>,
>) where R: Clone, D: HasReceiver<R> + HasSender<R>
    ensures
        final(resource).changed() == old(resource).changed(),
        final(resource).added() == old(resource).added(),
        !pushes_resource(old(resource).changed(), old(resource).added()) ==> synced is Ok,
        synced matches Err(e) ==> {
            &&& cloned(old(resource).value(), e.message)
            &&& final(resource).value() == old(resource).value()
        },
{
    match resource_push(resource) {
        Some(snapshot) => {
            match send(sync.tx(), snapshot) {
                Ok(()) => {},
                Err(e) => {
                    return Err(e);
                },
            }
        },
        None => {},
    }
    let drained = drain(sync.rx());
    apply_to_resource(resource, drained);
    Ok(())
}

/// The shared-state bridge for the current state of a state machine; the
/// state is mirrored exactly as any other piece of shared state.
pub fn sync_signal_state<D, S>(state: &mut Watched<S>, sync: &D) -> (synced: Result<
    (),
    Disconnected<S>,
>) where S: Clone, D: HasReceiver<S> + HasSender<S>
    ensures
        final(state).changed() == old(state).changed(),
        final(state).added() == old(state).added(),
        !pushes_resource(old(state).changed(), old(state).added()) ==> synced is Ok,
        synced matches Err(e) ==> {
            &&& cloned(old(state).value(), e.message)
            &&& final(state).value() == old(state).value()
        },
{
    sync_signal_resource(state, sync)
}

/// Whether the simulation is the authority over the selected entity in this
/// tick. It is when the entity only just appeared, when it just went away,
/// and when it is still there and the simulation changed one of its fields.
/// While no entity is selected, as before, there is nothing to report.
pub open spec fn query_changed(present: bool, prev_some: bool, fields_changed: bool) -> bool {
    if present {
        !prev_some || fields_changed
    } else {
        prev_some
    }
}

/// `after` is what the entity's fields are once the projections in `drained`
/// have been written to `before` in arrival order. An inbound absence writes
/// nothing.
pub open spec fn applied<D: QueryDataOwned>(
    drained: Seq<Option<D>>,
    before: D::Qdata,
    after: D::Qdata,
) -> bool
    decreases drained.len(),
{
    if drained.len() == 0 {
        after == before
    } else {
        let earlier = drained.drop_last();
        match drained.last() {
            Some(projection) => exists|mid: D::Qdata|
                applied(earlier, before, mid) && #[trigger] projection.writes(mid, after),
            None => applied(earlier, before, after),
        }
    }
}

/// The inbound half of the query bridge, given what was drained: every
/// projection is written to the live entity in arrival order.
pub fn apply_projections<D: QueryDataOwned>(drained: Vec<Option<D>>, item: &mut D::Qdata)
    ensures
        applied(drained@, *old(item), *final(item)),
{
    let ghost items = drained@;
    for message in it: drained.into_iter()
        invariant
            it.seq() == items,
            applied(items.take(it.index()), *old(item), *item),
    {
        let ghost mid = *item;
        let ghost next = items.take(it.index() + 1);
        proof {
            assert(next.drop_last() =~= items.take(it.index()));
            assert(next.last() == message);
        }
        match message {
            Some(projection) => {
                projection.set_query_data(item);
                proof {
                    assert(applied(next.drop_last(), *old(item), mid) && projection.writes(
                        mid,
                        *item,
                    ));
                    assert(applied(next, *old(item), *item));
                }
            },
            None => {
                proof {
                    assert(applied(next, *old(item), *item));
                }
            },
        }
    }
    proof {
        assert(items.take(items.len() as int) =~= items);
    }
}

/// Decides who is the authority in this tick from whether an entity is
/// selected, whether one was in the previous tick, and whether the
/// simulation changed one of its fields: `true` for the simulation.
pub fn query_authority(present: bool, prev_some: bool, fields_changed: bool) -> (changed: bool)
    ensures
        changed == query_changed(present, prev_some, fields_changed),
{
    if present {
        !prev_some || fields_changed
    } else {
        prev_some
    }
}

/// Whether the simulation is the authority in a tick in which `matches` are
/// the entities that pass the filter and `prev_some` is the presence flag.
pub open spec fn simulation_wins<D: QueryDataOwned>(matches: Seq<D::Qdata>, prev_some: bool) -> bool {
    query_changed(matches.len() > 0, prev_some, matches.len() > 0 && D::changed(matches[0]))
}

/// The outbound half of the query bridge. When the simulation is the
/// authority, a snapshot of the selected entity, which is the first match,
/// or its absence is what the bridge pushes; otherwise it pushes nothing.
/// The presence flag is brought up to date either way.
pub fn query_push<D: QueryDataOwned>(matches: &Vec<D::Qdata>, prev_some: &mut bool) -> (push:
    Option<Option<D>>)
    ensures
        *final(prev_some) == (matches@.len() > 0),
        push is Some <==> simulation_wins::<D>(matches@, *old(prev_some)),
        push matches Some(Some(projection)) ==> matches@.len() > 0 && D::projects(
            matches@[0],
            projection,
        ),
        push matches Some(None) ==> matches@.len() == 0,
{
    let present = matches.len() > 0;
    let fields_changed = present && D::is_changed(&matches[0]);
    let changed = query_authority(present, *prev_some, fields_changed);
    *prev_some = present;
    if changed {
        if present {
            Some(Some(D::from_query_data(&matches[0])))
        } else {
            Some(None)
        }
    } else {
        None
    }
}

/// The query bridge's part of a simulation tick. `matches` holds the live
/// fields of the entities that pass the filter, in the order in which the
/// simulation iterates them; the first one is the selected entity.
/// `prev_some` is the presence flag: whether an entity was selected in the
/// previous tick.
///
/// In a tick in which the simulation is the authority, a snapshot of the
/// selected entity, or its absence, is pushed outward, and nothing inbound
/// is looked at, let alone written. In any other tick the inbound channel is
/// drained and the projections are written to the selected entity in arrival
/// order, or dropped if there is none. Only the selected entity is ever
/// written.
pub fn sync_query<D: QueryDataOwned>(
    duplex: &BevyMessageDuplex<Option<D>>,
    matches: &mut Vec<D::Qdata>,
    prev_some: &mut bool,
) -> (synced: Result<(), Disconnected<Option<D>>>)
    ensures
        *final(prev_some) == (old(matches)@.len() > 0),
        final(matches)@.len() == old(matches)@.len(),
        forall|i: int| 1 <= i < old(matches)@.len() ==> final(matches)@[i] == old(matches)@[i],
        simulation_wins::<D>(old(matches)@, *old(prev_some)) ==> final(matches)@ == old(matches)@,
        synced matches Err(e) ==> {
            &&& simulation_wins::<D>(old(matches)@, *old(prev_some))
            &&& match e.message {
                Some(projection) => old(matches)@.len() > 0 && D::projects(
                    old(matches)@[0],
                    projection,
                ),
                None => old(matches)@.len() == 0,
            }
        },
        !simulation_wins::<D>(old(matches)@, *old(prev_some)) ==> synced is Ok,
        !simulation_wins::<D>(old(matches)@, *old(prev_some)) && old(matches)@.len() > 0
            ==> exists|drained: Seq<Option<D>>| #[trigger]
            applied(drained, old(matches)@[0], final(matches)@[0]),
{
    match query_push::<D>(matches, prev_some) {
        Some(snapshot) => send(duplex.tx(), snapshot),
        None => {
            let drained = drain(duplex.rx());
            if matches.len() > 0 {
                let ghost items = drained@;
                let mut item = matches.remove(0);
                apply_projections(drained, &mut item);
                matches.insert(0, item);
                proof {
                    assert(applied(items, old(matches)@[0], matches@[0]));
                }
            }
            Ok(())
        },
    }
}

/// Of the projections written in one tick, the last one is what the entity
/// shows afterwards: it is the result of that one write.
pub proof fn lemma_last_projection_wins<D: QueryDataOwned>(
    drained: Seq<Option<D>>,
    before: D::Qdata,
    after: D::Qdata,
)
    requires
        applied(drained, before, after),
        drained.len() > 0,
        drained.last() is Some,
    ensures
        exists|mid: D::Qdata| #[trigger] drained.last()->0.writes(mid, after),
{
    let projection = drained.last()->0;
    let mid = choose|mid: D::Qdata|
        applied(drained.drop_last(), before, mid) && #[trigger] projection.writes(mid, after);
    assert(projection.writes(mid, after));
}

} // verus!
