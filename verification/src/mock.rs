//! Mock transport for hosted demonstrations and tests: remembers the last
//! byte string sent and replays it on receive.

use vstd::prelude::*;
use vstd::slice::slice_to_vec;

verus! {

/// A loopback transport holding at most the most recently sent bytes.
pub struct MockTransport {
    last_sent: Option<Vec<u8>>,
}

impl MockTransport {
    /// The bytes most recently sent, if any.
    pub closed spec fn last_sent(&self) -> Option<Seq<u8>> {
        match self.last_sent {
            Some(v) => Some(v@),
            None => None,
        }
    }

    /// A transport that has sent nothing yet.
    pub fn new() -> (r: Self)
        ensures
            r.last_sent() is None,
    {
        MockTransport { last_sent: None }
    }

    /// Records the bytes as the last transmission.
    pub fn send(&mut self, data: &[u8])
        ensures
            final(self).last_sent() == Some(data@),
    {
        self.last_sent = Some(slice_to_vec(data));
    }

    /// Replays the last transmission; fails when nothing was ever sent.
    pub fn receive(&self) -> (r: Result<Vec<u8>, String>)
        ensures
            match r {
                Ok(v) => self.last_sent() == Some(v@),
                Err(_) => self.last_sent() is None,
            },
    {
        match &self.last_sent {
            Some(data) => Ok(slice_to_vec(data.as_slice())),
            None => Err(String::from_str("No data available")),
        }
    }
}

} // verus!
