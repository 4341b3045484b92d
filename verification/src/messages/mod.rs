//! Message bridges: one-way in either direction, or both at once.

pub mod bevy;
pub mod leptos;

pub use crate::messages::bevy::{BevyMessageDuplex, BevyMessageReceiver, BevyMessageSender};
pub use crate::messages::leptos::{
    LeptosChannelMessageSender, LeptosMessageDuplex, LeptosMessageReceiver, LeptosMessageSender,
};

use crate::channel::{open, CHANNEL_CAPACITY};
use vstd::prelude::*;

verus! {

/// A sender for the reactive side and the receiver that the simulation
/// imports from.
pub fn message_l2b<M>() -> (pair: (LeptosMessageSender<M>, BevyMessageReceiver<M>)) {
    let (tx, rx) = open(CHANNEL_CAPACITY);
    (LeptosMessageSender::new(tx), BevyMessageReceiver::new(rx))
}

/// A receiver for the reactive side, which shows the latest message and has
/// none yet, and the sender that the simulation exports to.
pub fn message_b2l<M>() -> (pair: (LeptosMessageReceiver<M>, BevyMessageSender<M>))
    ensures
        pair.0@ == None::<M>,
{
    let (tx, rx) = open(CHANNEL_CAPACITY);
    (LeptosMessageReceiver::new(rx, None), BevyMessageSender::new(tx))
}

/// Both directions at once, over two channels: the reactive side's handle,
/// with no message yet, and the simulation's.
pub fn message_duplex<M>() -> (pair: (LeptosMessageDuplex<M>, BevyMessageDuplex<M>))
    ensures
        pair.0@ == None::<M>,
{
    let (tx_l2b, rx_l2b) = open(CHANNEL_CAPACITY);
    let (tx_b2l, rx_b2l) = open(CHANNEL_CAPACITY);
    (LeptosMessageDuplex::new(rx_b2l, None, tx_l2b), BevyMessageDuplex::new(rx_l2b, tx_b2l))
}

} // verus!
