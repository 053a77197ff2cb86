use vstd::prelude::*;

use crate::channel::channel_send;
use crate::data::DataPacket;
use std::sync::mpsc;

verus! {

/// The producing side of the packet channel.
pub struct ChannelMessenger {
    pub sender_endpoint: mpsc::Sender<DataPacket>,
}

impl ChannelMessenger {
    /// A messenger over a channel's sending end.
    pub fn new(endpoint: mpsc::Sender<DataPacket>) -> (c: ChannelMessenger)
        ensures
            c.sender_endpoint == endpoint,
    {
        ChannelMessenger { sender_endpoint: endpoint }
    }

    /// Sends a packet; `false` when the receiving end is gone.
    pub fn send_data(&self, data: DataPacket) -> bool {
        channel_send(&self.sender_endpoint, data)
    }
}

} // verus!
