//! The reactive-side ends of the message bridges.

use crate::channel::{clone_sender, drain, send, Disconnected};
use crate::traits::HasReceiver;
use crate::utils::apply_drained_some;
use crossbeam_channel::{Receiver, Sender};
use vstd::prelude::*;

verus! {

/// Implemented by the reactive-side handles that can send.
pub trait LeptosChannelMessageSender {
    type Message;

    fn tx(&self) -> &Sender<Self::Message>;

    /// Sends `message` to the simulation at once. A failure hands the
    /// message back.
    #[inline]
    fn send(&self, message: Self::Message) -> (sent: Result<(), Disconnected<Self::Message>>)
        ensures
            sent matches Err(e) ==> e.message == message,
    {
        send(self.tx(), message)
    }
}

/// Sends messages to the simulation.
#[verifier::reject_recursive_types(M)]
pub struct LeptosMessageSender<M> {
    tx: Sender<M>,
}

impl<M> Clone for LeptosMessageSender<M> {
    fn clone(&self) -> (handle: Self) {
        Self { tx: clone_sender(&self.tx) }
    }
}

impl<M> LeptosChannelMessageSender for LeptosMessageSender<M> {
    type Message = M;

    fn tx(&self) -> (end: &Sender<Self::Message>)
        ensures
            *end == self.sender(),
    {
        &self.tx
    }
}

impl<M> LeptosMessageSender<M> {
    /// The sending end that the handle carries.
    pub closed spec fn sender(&self) -> Sender<M> {
        self.tx
    }

    pub fn new(tx: Sender<M>) -> (handle: Self)
        ensures
            handle.sender() == tx,
    {
        Self { tx }
    }
}

/// Receives messages from the simulation and shows the latest one.
#[verifier::reject_recursive_types(M)]
pub struct LeptosMessageReceiver<M> {
    rx: Receiver<M>,
    rx_signal: Option<M>,
}

impl<M> View for LeptosMessageReceiver<M> {
    type V = Option<M>;

    /// The latest message, if one has arrived yet.
    closed spec fn view(&self) -> Option<M> {
        self.rx_signal
    }
}

impl<M> HasReceiver<M> for LeptosMessageReceiver<M> {
    fn rx(&self) -> (end: &Receiver<M>)
        ensures
            *end == self.receiver(),
    {
        &self.rx
    }
}

impl<M> LeptosMessageReceiver<M> {
    /// The receiving end that the handle carries.
    pub closed spec fn receiver(&self) -> Receiver<M> {
        self.rx
    }

    #[inline]
    pub fn new(rx: Receiver<M>, signal: Option<M>) -> (handle: Self)
        ensures
            handle@ == signal,
            handle.receiver() == rx,
    {
        Self { rx, rx_signal: signal }
    }

    /// The latest message, if one has arrived yet.
    pub fn get(&self) -> (current: &Option<M>)
        ensures
            *current == self@,
    {
        &self.rx_signal
    }

    /// One poll: drains the channel and shows the last item that arrived.
    /// Dependents are to be notified once iff `notify` is set, which is the
    /// case iff anything was drained; otherwise the cell is untouched.
    pub fn poll(&mut self) -> (notify: bool)
        ensures
            notify ==> final(self)@ is Some,
            !notify ==> final(self)@ == old(self)@,
            final(self).receiver() == old(self).receiver(),
    {
        let drained = drain(&self.rx);
        apply_drained_some(&mut self.rx_signal, drained)
    }
}

/// Sends messages to the simulation, receives messages from it and shows the
/// latest one.
#[verifier::reject_recursive_types(M)]
pub struct LeptosMessageDuplex<M> {
    tx: Sender<M>,
    rx: Receiver<M>,
    rx_signal: Option<M>,
}

impl<M> View for LeptosMessageDuplex<M> {
    type V = Option<M>;

    /// The latest message, if one has arrived yet.
    closed spec fn view(&self) -> Option<M> {
        self.rx_signal
    }
}

impl<M> LeptosChannelMessageSender for LeptosMessageDuplex<M> {
    type Message = M;

    #[inline]
    fn tx(&self) -> (end: &Sender<Self::Message>)
        ensures
            *end == self.sender(),
    {
        &self.tx
    }
}

impl<M> HasReceiver<M> for LeptosMessageDuplex<M> {
    fn rx(&self) -> (end: &Receiver<M>)
        ensures
            *end == self.receiver(),
    {
        &self.rx
    }
}

impl<M> LeptosMessageDuplex<M> {
    /// The receiving end that the handle carries.
    pub closed spec fn receiver(&self) -> Receiver<M> {
        self.rx
    }

    /// The sending end that the handle carries.
    pub closed spec fn sender(&self) -> Sender<M> {
        self.tx
    }

    #[inline]
    pub fn new(rx: Receiver<M>, rx_signal: Option<M>, tx: Sender<M>) -> (handle: Self)
        ensures
            handle@ == rx_signal,
            handle.receiver() == rx,
            handle.sender() == tx,
    {
        Self { tx, rx, rx_signal }
    }

    /// The latest message, if one has arrived yet.
    pub fn get(&self) -> (current: &Option<M>)
        ensures
            *current == self@,
    {
        &self.rx_signal
    }

    /// One poll: drains the channel and shows the last item that arrived.
    /// Dependents are to be notified once iff `notify` is set, which is the
    /// case iff anything was drained; otherwise the cell is untouched.
    pub fn poll(&mut self) -> (notify: bool)
        ensures
            notify ==> final(self)@ is Some,
            !notify ==> final(self)@ == old(self)@,
            final(self).receiver() == old(self).receiver(),
            final(self).sender() == old(self).sender(),
    {
        let drained = drain(&self.rx);
        apply_drained_some(&mut self.rx_signal, drained)
    }
}

} // verus!
