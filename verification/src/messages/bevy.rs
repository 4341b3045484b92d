//! The simulation-side ends of the message bridges.

use crate::channel::{clone_receiver, clone_sender};
use crate::traits::{HasReceiver, HasSender};
use crossbeam_channel::{Receiver, Sender};
use vstd::prelude::*;

verus! {

/// Handed to the simulation to receive messages from the reactive side.
#[derive(Debug)]
#[verifier::reject_recursive_types(M)]
pub struct BevyMessageReceiver<M> {
    rx: Receiver<M>,
}

impl<M> Clone for BevyMessageReceiver<M> {
    fn clone(&self) -> (handle: Self) {
        Self { rx: clone_receiver(&self.rx) }
    }
}

impl<M> BevyMessageReceiver<M> {
    /// The receiving end that the handle carries.
    pub closed spec fn receiver(&self) -> Receiver<M> {
        self.rx
    }

    #[inline]
    pub fn new(rx: Receiver<M>) -> (handle: Self)
        ensures
            handle.receiver() == rx,
    {
        Self { rx }
    }
}

impl<M> HasReceiver<M> for BevyMessageReceiver<M> {
    fn rx(&self) -> (end: &Receiver<M>)
        ensures
            *end == self.receiver(),
    {
        &self.rx
    }
}

/// Handed to the simulation to send messages to the reactive side.
#[derive(Debug)]
#[verifier::reject_recursive_types(M)]
pub struct BevyMessageSender<M> {
    tx: Sender<M>,
}

impl<M> Clone for BevyMessageSender<M> {
    fn clone(&self) -> (handle: Self) {
        Self { tx: clone_sender(&self.tx) }
    }
}

impl<M> BevyMessageSender<M> {
    /// The sending end that the handle carries.
    pub closed spec fn sender(&self) -> Sender<M> {
        self.tx
    }

    #[inline]
    pub fn new(tx: Sender<M>) -> (handle: Self)
        ensures
            handle.sender() == tx,
    {
        Self { tx }
    }
}

impl<M> HasSender<M> for BevyMessageSender<M> {
    fn tx(&self) -> (end: &Sender<M>)
        ensures
            *end == self.sender(),
    {
        &self.tx
    }
}

/// Handed to the simulation to send and receive messages in both directions.
#[derive(Debug)]
#[verifier::reject_recursive_types(M)]
pub struct BevyMessageDuplex<M> {
    tx: Sender<M>,
    rx: Receiver<M>,
}

impl<M> Clone for BevyMessageDuplex<M> {
    fn clone(&self) -> (handle: Self) {
        Self { tx: clone_sender(&self.tx), rx: clone_receiver(&self.rx) }
    }
}

impl<M> BevyMessageDuplex<M> {
    /// The receiving end that the handle carries.
    pub closed spec fn receiver(&self) -> Receiver<M> {
        self.rx
    }

    /// The sending end that the handle carries.
    pub closed spec fn sender(&self) -> Sender<M> {
        self.tx
    }

    #[inline]
    pub fn new(rx: Receiver<M>, tx: Sender<M>) -> (handle: Self)
        ensures
            handle.receiver() == rx,
            handle.sender() == tx,
    {
        Self { tx, rx }
    }
}

impl<M> HasReceiver<M> for BevyMessageDuplex<M> {
    fn rx(&self) -> (end: &Receiver<M>)
        ensures
            *end == self.receiver(),
    {
        &self.rx
    }
}

impl<M> HasSender<M> for BevyMessageDuplex<M> {
    fn tx(&self) -> (end: &Sender<M>)
        ensures
            *end == self.sender(),
    {
        &self.tx
    }
}

} // verus!
