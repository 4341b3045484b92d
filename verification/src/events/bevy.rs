//! The simulation-side ends of the event bridges.

use crate::channel::{clone_receiver, clone_sender};
use crate::traits::{HasReceiver, HasSender};
use crossbeam_channel::{Receiver, Sender};
use vstd::prelude::*;

verus! {

/// Handed to the simulation to receive events from the reactive side.
#[derive(Debug)]
#[verifier::reject_recursive_types(E)]
pub struct BevyEventReceiver<E> {
    rx: Receiver<E>,
}

impl<E> Clone for BevyEventReceiver<E> {
    fn clone(&self) -> (handle: Self) {
        Self { rx: clone_receiver(&self.rx) }
    }
}

impl<E> BevyEventReceiver<E> {
    /// The receiving end that the handle carries.
    pub closed spec fn receiver(&self) -> Receiver<E> {
        self.rx
    }

    #[inline]
    pub fn new(rx: Receiver<E>) -> (handle: Self)
        ensures
            handle.receiver() == rx,
    {
        Self { rx }
    }
}

impl<E> HasReceiver<E> for BevyEventReceiver<E> {
    fn rx(&self) -> (end: &Receiver<E>)
        ensures
            *end == self.receiver(),
    {
        &self.rx
    }
}

/// Handed to the simulation to send events to the reactive side.
#[derive(Debug)]
#[verifier::reject_recursive_types(E)]
pub struct BevyEventSender<E> {
    tx: Sender<E>,
}

impl<E> Clone for BevyEventSender<E> {
    fn clone(&self) -> (handle: Self) {
        Self { tx: clone_sender(&self.tx) }
    }
}

impl<E> BevyEventSender<E> {
    /// The sending end that the handle carries.
    pub closed spec fn sender(&self) -> Sender<E> {
        self.tx
    }

    #[inline]
    pub fn new(tx: Sender<E>) -> (handle: Self)
        ensures
            handle.sender() == tx,
    {
        Self { tx }
    }
}

impl<E> HasSender<E> for BevyEventSender<E> {
    fn tx(&self) -> (end: &Sender<E>)
        ensures
            *end == self.sender(),
    {
        &self.tx
    }
}

/// Handed to the simulation to send and receive events in both directions.
#[derive(Debug)]
#[verifier::reject_recursive_types(E)]
pub struct BevyEventDuplex<E> {
    tx: Sender<E>,
    rx: Receiver<E>,
}

impl<E> Clone for BevyEventDuplex<E> {
    fn clone(&self) -> (handle: Self) {
        Self { tx: clone_sender(&self.tx), rx: clone_receiver(&self.rx) }
    }
}

impl<E> BevyEventDuplex<E> {
    /// The receiving end that the handle carries.
    pub closed spec fn receiver(&self) -> Receiver<E> {
        self.rx
    }

    /// The sending end that the handle carries.
    pub closed spec fn sender(&self) -> Sender<E> {
        self.tx
    }

    #[inline]
    pub fn new(rx: Receiver<E>, tx: Sender<E>) -> (handle: Self)
        ensures
            handle.receiver() == rx,
            handle.sender() == tx,
    {
        Self { tx, rx }
    }
}

impl<E> HasReceiver<E> for BevyEventDuplex<E> {
    fn rx(&self) -> (end: &Receiver<E>)
        ensures
            *end == self.receiver(),
    {
        &self.rx
    }
}

impl<E> HasSender<E> for BevyEventDuplex<E> {
    fn tx(&self) -> (end: &Sender<E>)
        ensures
            *end == self.sender(),
    {
        &self.tx
    }
}

} // verus!
