//! Teardown of an embedded simulation.
//!
//! The reactive side owns a one-shot channel to the simulation. What it
//! sends is imported like any other message; once the simulation sees it on
//! its local stream it raises an exit request, and the loop that drives the
//! simulation stops after the tick in which one was raised.

use crate::channel::drain;
use crate::messages::BevyMessageReceiver;
use crate::stream::Messages;
use crate::systems::{import_messages, ImportedMessageIds};
use crate::traits::HasReceiver;
use vstd::prelude::*;

verus! {

/// The teardown sentinel.
#[derive(Debug, Clone, Copy, PartialEq, Eq)]
pub struct LeptosBevyCanvasCleanup;

/// A request to the loop that drives the simulation to stop after the
/// current tick.
#[derive(Clone, Copy, Debug, PartialEq, Eq, Structural)]
pub enum AppExit {
    Success,
}

/// The exit requests that `count` sentinels give rise to.
pub open spec fn exit_requests(count: nat) -> Seq<AppExit> {
    Seq::new(count, |i: int| AppExit::Success)
}

/// Raises one exit request for every teardown sentinel on the local stream.
pub fn cleanup(cleanup_messages: &Messages<LeptosBevyCanvasCleanup>, exit: &mut Messages<AppExit>)
    ensures
        final(exit)@ == old(exit)@ + exit_requests(cleanup_messages@.len()),
{
    let count = cleanup_messages.len();
    let mut seen: usize = 0;
    while seen < count
        invariant
            seen <= count,
            exit@ == old(exit)@ + exit_requests(seen as nat),
        decreases count - seen,
    {
        exit.write(AppExit::Success);
        seen += 1;
        proof {
            assert(exit@ =~= old(exit)@ + exit_requests(seen as nat));
        }
    }
    proof {
        assert(old(exit)@ + exit_requests(0) =~= old(exit)@);
    }
}

/// The simulation's side of the teardown channel: the receiver, the local
/// stream on which the sentinel is raised, and that stream's import ledger.
pub struct LeptosBevyCanvasPlugin {
    shutdown: BevyMessageReceiver<LeptosBevyCanvasCleanup>,
    imported_message_ids: ImportedMessageIds<LeptosBevyCanvasCleanup>,
    cleanup_messages: Messages<LeptosBevyCanvasCleanup>,
}

impl LeptosBevyCanvasPlugin {
    /// The receiving handle of the teardown channel.
    pub closed spec fn shutdown(&self) -> BevyMessageReceiver<LeptosBevyCanvasCleanup> {
        self.shutdown
    }

    /// The teardown bridge on the handle `shutdown`.
    pub fn new(shutdown: BevyMessageReceiver<LeptosBevyCanvasCleanup>) -> (plugin: Self)
        ensures
            plugin.shutdown() == shutdown,
    {
        LeptosBevyCanvasPlugin {
            shutdown,
            imported_message_ids: ImportedMessageIds::default(),
            cleanup_messages: Messages::new(),
        }
    }

    /// The teardown bridge's part of a simulation tick, given what was
    /// drained from the teardown channel: an exit request is raised for
    /// every sentinel that arrived, in the tick in which it arrived.
    pub fn observe(&mut self, drained: Vec<LeptosBevyCanvasCleanup>, exit: &mut Messages<AppExit>)
        ensures
            final(exit)@ == old(exit)@ + exit_requests(drained@.len()),
            drained@.len() > 0 ==> final(exit)@.len() > 0,
            final(self).shutdown() == old(self).shutdown(),
    {
        self.cleanup_messages.update();
        import_messages(drained, &mut self.imported_message_ids, &mut self.cleanup_messages);
        cleanup(&self.cleanup_messages, exit);
    }

    /// The teardown bridge's part of a simulation tick. Earlier exit
    /// requests stay; new ones are raised iff a sentinel arrived, one for
    /// each.
    pub fn update(&mut self, exit: &mut Messages<AppExit>)
        ensures
            final(exit)@ == old(exit)@ + exit_requests(
                (final(exit)@.len() - old(exit)@.len()) as nat,
            ),
            final(self).shutdown() == old(self).shutdown(),
    {
        let drained = drain(self.shutdown.rx());
        self.observe(drained, exit);
    }
}

/// Whether the loop that drives the simulation has to stop after this tick:
/// it has to iff an exit request was raised.
pub fn should_exit(exit: &Messages<AppExit>) -> (stop: bool)
    ensures
        stop == (exit@.len() > 0),
{
    !exit.is_empty()
}

} // verus!
