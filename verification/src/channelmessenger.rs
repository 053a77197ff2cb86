use vstd::prelude::*;

use crate::channel::channel_send;
use std::sync::mpsc;

verus! {

/// A producing side that sends copies of the values it is given.
#[verifier::reject_recursive_types(T)]
pub struct ChannelMessenger<T> {
    pub sender_endpoint: mpsc::Sender<T>,
}

impl<T: Clone> ChannelMessenger<T> {
    /// A messenger over a channel's sending end.
    pub fn new(endpoint: mpsc::Sender<T>) -> (c: ChannelMessenger<T>)
        ensures
            c.sender_endpoint == endpoint,
    {
        ChannelMessenger { sender_endpoint: endpoint }
    }

    /// Sends a clone of the value; `false` when the receiving end is gone.
    pub fn send_data(&self, data: &T) -> bool {
        let data_copy: T = data.clone();
        channel_send(&self.sender_endpoint, data_copy)
    }
}

} // verus!
