use vstd::prelude::*;

verus! {

/// The receiving side's buffer of values, uploaded and emptied whenever it
/// holds more than `buffer_capacity` of them.
pub struct Receiver<T> {
    pub buffer: Vec<T>,
    pub buffer_capacity: usize,
    pub database: String,
    pub table: String,
}

impl<T> Receiver<T> {
    /// Handles one attempt to receive: a received value is buffered, and a
    /// buffer over its capacity is uploaded and emptied. Returns whether a
    /// value was received.
    pub fn receive_data(&mut self, received: Option<T>) -> (got: bool)
        ensures
            got == received is Some,
            final(self).buffer_capacity == old(self).buffer_capacity,
            final(self).database == old(self).database,
            final(self).table == old(self).table,
            ({
                let grown = match received {
                    Some(v) => old(self).buffer@.push(v),
                    None => old(self).buffer@,
                };
                if grown.len() > old(self).buffer_capacity {
                    final(self).buffer@.len() == 0
                } else {
                    final(self).buffer@ == grown
                }
            }),
            old(self).buffer@.len() <= old(self).buffer_capacity ==> final(self).buffer@.len()
                <= final(self).buffer_capacity,
    {
        let got = match received {
            Some(data) => {
                self.buffer.push(data);
                true
            },
            None => false,
        };
        if self.buffer.len() > self.buffer_capacity {
            self.upload_data();
        }
        got
    }

    /// Uploads the buffered values (no upload target is wired up) and empties the buffer.
    pub fn upload_data(&mut self)
        ensures
            final(self).buffer@.len() == 0,
            final(self).buffer_capacity == old(self).buffer_capacity,
            final(self).database == old(self).database,
            final(self).table == old(self).table,
    {
        self.buffer.clear();
    }
}

} // verus!
