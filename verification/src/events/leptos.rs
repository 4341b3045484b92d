//! The reactive-side ends of the event bridges.

use crate::channel::{clone_sender, drain, send, Disconnected};
use crate::traits::HasReceiver;
use crate::utils::apply_drained_some;
use crossbeam_channel::{Receiver, Sender};
use vstd::prelude::*;

verus! {

/// Implemented by the reactive-side handles that can send.
pub trait LeptosChannelEventSender {
    type Event;

    fn tx(&self) -> &Sender<Self::Event>;

    /// Sends `event` to the simulation at once. A failure hands the
    /// event back.
    #[inline]
    fn send(&self, event: Self::Event) -> (sent: Result<(), Disconnected<Self::Event>>)
        ensures
            sent matches Err(e) ==> e.message == event,
    {
        send(self.tx(), event)
    }
}

/// Sends events to the simulation.
#[verifier::reject_recursive_types(E)]
pub struct LeptosEventSender<E> {
    tx: Sender<E>,
}

impl<E> Clone for LeptosEventSender<E> {
    fn clone(&self) -> (handle: Self) {
        Self { tx: clone_sender(&self.tx) }
    }
}

impl<E> LeptosChannelEventSender for LeptosEventSender<E> {
    type Event = E;

    fn tx(&self) -> (end: &Sender<Self::Event>)
        ensures
            *end == self.sender(),
    {
        &self.tx
    }
}

impl<E> LeptosEventSender<E> {
    /// The sending end that the handle carries.
    pub closed spec fn sender(&self) -> Sender<E> {
        self.tx
    }

    pub fn new(tx: Sender<E>) -> (handle: Self)
        ensures
            handle.sender() == tx,
    {
        Self { tx }
    }
}

/// Receives events from the simulation and shows the latest one.
#[verifier::reject_recursive_types(E)]
pub struct LeptosEventReceiver<E> {
    rx: Receiver<E>,
    rx_signal: Option<E>,
}

impl<E> View for LeptosEventReceiver<E> {
    type V = Option<E>;

    /// The latest event, if one has arrived yet.
    closed spec fn view(&self) -> Option<E> {
        self.rx_signal
    }
}

impl<E> HasReceiver<E> for LeptosEventReceiver<E> {
    fn rx(&self) -> (end: &Receiver<E>)
        ensures
            *end == self.receiver(),
    {
        &self.rx
    }
}

impl<E> LeptosEventReceiver<E> {
    /// The receiving end that the handle carries.
    pub closed spec fn receiver(&self) -> Receiver<E> {
        self.rx
    }

    #[inline]
    pub fn new(rx: Receiver<E>, signal: Option<E>) -> (handle: Self)
        ensures
            handle@ == signal,
            handle.receiver() == rx,
    {
        Self { rx, rx_signal: signal }
    }

    /// The latest event, if one has arrived yet.
    pub fn get(&self) -> (current: &Option<E>)
        ensures
            *current == self@,
    {
        &self.rx_signal
    }

    /// One poll: drains the channel and shows the last item that arrived.
    /// Dependents are to be notified once iff `notify` is set, which is the
    /// case iff anything was drained; otherwise the cell is untouched.
    pub fn poll(&mut self) -> (notify: bool)
        ensures
            notify ==> final(self)@ is Some,
            !notify ==> final(self)@ == old(self)@,
            final(self).receiver() == old(self).receiver(),
    {
        let drained = drain(&self.rx);
        apply_drained_some(&mut self.rx_signal, drained)
    }
}

/// Sends events to the simulation, receives events from it and shows the
/// latest one.
#[verifier::reject_recursive_types(E)]
pub struct LeptosEventDuplex<E> {
    tx: Sender<E>,
    rx: Receiver<E>,
    rx_signal: Option<E>,
}

impl<E> View for LeptosEventDuplex<E> {
    type V = Option<E>;

    /// The latest event, if one has arrived yet.
    closed spec fn view(&self) -> Option<E> {
        self.rx_signal
    }
}

impl<E> LeptosChannelEventSender for LeptosEventDuplex<E> {
    type Event = E;

    #[inline]
    fn tx(&self) -> (end: &Sender<Self::Event>)
        ensures
            *end == self.sender(),
    {
        &self.tx
    }
}

impl<E> HasReceiver<E> for LeptosEventDuplex<E> {
    fn rx(&self) -> (end: &Receiver<E>)
        ensures
            *end == self.receiver(),
    {
        &self.rx
    }
}

impl<E> LeptosEventDuplex<E> {
    /// The receiving end that the handle carries.
    pub closed spec fn receiver(&self) -> Receiver<E> {
        self.rx
    }

    /// The sending end that the handle carries.
    pub closed spec fn sender(&self) -> Sender<E> {
        self.tx
    }

    #[inline]
    pub fn new(rx: Receiver<E>, rx_signal: Option<E>, tx: Sender<E>) -> (handle: Self)
        ensures
            handle@ == rx_signal,
            handle.receiver() == rx,
            handle.sender() == tx,
    {
        Self { tx, rx, rx_signal }
    }

    /// The latest event, if one has arrived yet.
    pub fn get(&self) -> (current: &Option<E>)
        ensures
            *current == self@,
    {
        &self.rx_signal
    }

    /// One poll: drains the channel and shows the last item that arrived.
    /// Dependents are to be notified once iff `notify` is set, which is the
    /// case iff anything was drained; otherwise the cell is untouched.
    pub fn poll(&mut self) -> (notify: bool)
        ensures
            notify ==> final(self)@ is Some,
            !notify ==> final(self)@ == old(self)@,
            final(self).receiver() == old(self).receiver(),
            final(self).sender() == old(self).sender(),
    {
        let drained = drain(&self.rx);
        apply_drained_some(&mut self.rx_signal, drained)
    }
}

} // verus!
