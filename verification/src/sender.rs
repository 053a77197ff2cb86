use vstd::prelude::*;

use crate::channel::channel_send;
use std::sync::mpsc;

verus! {

/// The sending end of a channel of values.
#[verifier::reject_recursive_types(T)]
pub struct Sender<T> {
    pub sender_endpoint: mpsc::Sender<T>,
}

impl<T> Sender<T> {
    /// A sender over a channel's sending end.
    pub fn new(endpoint: mpsc::Sender<T>) -> (s: Sender<T>)
        ensures
            s.sender_endpoint == endpoint,
    {
        Sender { sender_endpoint: endpoint }
    }

    /// Sends a value; `false` when the receiving end is gone.
    pub fn send_data(&self, data: T) -> bool {
        channel_send(&self.sender_endpoint, data)
    }
}

} // verus!
