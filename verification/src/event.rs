//! What a wait on the channel can hand back.

use vstd::prelude::*;

verus! {

/// One event from the channel. `T` is what a command is known as at the
/// layer that holds the event: its header first, its decoding later.
#[derive(Debug, PartialEq, Eq)]
pub enum Event<T> {
    /// A request from the host.
    Command(T),
    /// The periodic tick.
    Ticker,
    /// Any other system event.
    Other,
}

} // verus!
