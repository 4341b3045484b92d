//! A read/write value cell on the reactive side that mirrors a resource of the
//! simulation.

use crate::channel::{drain, open, send, Disconnected, CHANNEL_CAPACITY};
use crate::events::BevyEventDuplex;
use crate::traits::{HasReceiver, HasSender};
use crate::utils::apply_drained;
use crossbeam_channel::{Receiver, Sender};
use vstd::prelude::*;

verus! {

/// A value cell whose writes are pushed to the simulation at once and which
/// takes in what the simulation sends whenever it is polled.
#[verifier::reject_recursive_types(T)]
pub struct RwSignalResource<T> {
    rw_signal: T,
    tx: Sender<T>,
    rx: Receiver<T>,
}

impl<T> View for RwSignalResource<T> {
    type V = T;

    /// The value the cell shows.
    closed spec fn view(&self) -> T {
        self.rw_signal
    }
}

impl<T> HasSender<T> for RwSignalResource<T> {
    fn tx(&self) -> (end: &Sender<T>)
        ensures
            *end == self.sender(),
    {
        &self.tx
    }
}

impl<T> HasReceiver<T> for RwSignalResource<T> {
    fn rx(&self) -> (end: &Receiver<T>)
        ensures
            *end == self.receiver(),
    {
        &self.rx
    }
}

impl<T> RwSignalResource<T> {
    /// The receiving end that the handle carries.
    pub closed spec fn receiver(&self) -> Receiver<T> {
        self.rx
    }

    /// The sending end that the handle carries.
    pub closed spec fn sender(&self) -> Sender<T> {
        self.tx
    }

    /// The value the cell shows.
    pub fn get(&self) -> (current: &T)
        ensures
            *current == self@,
    {
        &self.rw_signal
    }

    /// Writes `value` into the cell and pushes a clone of it to the
    /// simulation, without waiting for the next poll. The cell holds the new
    /// value even if the simulation is gone; the error then hands back the
    /// clone.
    pub fn set(&mut self, value: T) -> (sent: Result<(), Disconnected<T>>) where T: Clone
        ensures
            final(self)@ == value,
            sent matches Err(e) ==> cloned(value, e.message),
            final(self).sender() == old(self).sender(),
            final(self).receiver() == old(self).receiver(),
    {
        let copy = value.clone();
        self.rw_signal = value;
        send(&self.tx, copy)
    }

    /// One poll: drains what the simulation sent and shows the last value
    /// that arrived. Dependents are to be notified once iff `notify` is set,
    /// which is the case iff anything was drained; otherwise the cell is
    /// untouched.
    pub fn poll(&mut self) -> (notify: bool)
        ensures
            !notify ==> final(self)@ == old(self)@,
            final(self).sender() == old(self).sender(),
            final(self).receiver() == old(self).receiver(),
    {
        let drained = drain(&self.rx);
        apply_drained(&mut self.rw_signal, drained)
    }
}

/// Creates a cell that mirrors a resource and shows `initial_value`, and the duplex handle
/// with which the simulation keeps its side in step. A clone of the initial
/// value is the first thing put on the way to the simulation.
pub fn signal_resource<T>(initial_value: T) -> (pair: (RwSignalResource<T>, BevyEventDuplex<T>)) where
    T: Clone,

    ensures
        pair.0@ == initial_value,
{
    let (tx_l2b, rx_l2b) = open(CHANNEL_CAPACITY);
    let (tx_b2l, rx_b2l) = open(CHANNEL_CAPACITY);
    // Both ends of the new channel are alive here and it has room, so the
    // send is not refused; nothing below depends on that.
    let _ = send(&tx_l2b, initial_value.clone());
    (
        RwSignalResource { rw_signal: initial_value, tx: tx_l2b, rx: rx_b2l },
        BevyEventDuplex::new(rx_l2b, tx_b2l),
    )
}

} // verus!
