//! Event bridges: one-way in either direction, or both at once.

pub mod bevy;
pub mod leptos;

pub use crate::events::bevy::{BevyEventDuplex, BevyEventReceiver, BevyEventSender};
pub use crate::events::leptos::{
    LeptosChannelEventSender, LeptosEventDuplex, LeptosEventReceiver, LeptosEventSender,
};

use crate::channel::{open, CHANNEL_CAPACITY};
use vstd::prelude::*;

verus! {

/// A sender for the reactive side and the receiver that the simulation
/// imports from.
pub fn event_l2b<E>() -> (pair: (LeptosEventSender<E>, BevyEventReceiver<E>)) {
    let (tx, rx) = open(CHANNEL_CAPACITY);
    (LeptosEventSender::new(tx), BevyEventReceiver::new(rx))
}

/// A receiver for the reactive side, which shows the latest event and has
/// none yet, and the sender that the simulation exports to.
pub fn event_b2l<E>() -> (pair: (LeptosEventReceiver<E>, BevyEventSender<E>))
    ensures
        pair.0@ == None::<E>,
{
    let (tx, rx) = open(CHANNEL_CAPACITY);
    (LeptosEventReceiver::new(rx, None), BevyEventSender::new(tx))
}

/// Both directions at once, over two channels: the reactive side's handle,
/// with no event yet, and the simulation's.
pub fn event_duplex<E>() -> (pair: (LeptosEventDuplex<E>, BevyEventDuplex<E>))
    ensures
        pair.0@ == None::<E>,
{
    let (tx_l2b, rx_l2b) = open(CHANNEL_CAPACITY);
    let (tx_b2l, rx_b2l) = open(CHANNEL_CAPACITY);
    (LeptosEventDuplex::new(rx_b2l, None, tx_l2b), BevyEventDuplex::new(rx_l2b, tx_b2l))
}

} // verus!
