//! Access to the channel ends that a bridge handle carries.

use crossbeam_channel::{Receiver, Sender};
use vstd::prelude::*;

verus! {

/// A handle that can be drained: it carries the receiving end of a channel.
pub trait HasReceiver<T> {
    fn rx(&self) -> &Receiver<T>;
}

/// A handle that can be pushed to: it carries the sending end of a channel.
pub trait HasSender<T> {
    fn tx(&self) -> &Sender<T>;
}

} // verus!
