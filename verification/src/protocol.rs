//! Fixed-size protocol frame for the embedded transmit path: a command
//! identifier with up to eight payload bytes held in a fixed array, as the
//! hardware CAN peripheral expects them.

use vstd::prelude::*;

verus! {

/// Errors of the embedded transmit and receive path.
#[derive(Debug, Clone, Copy, PartialEq, Eq, Structural)]
pub enum SpaceCANError {
    /// The payload exceeds the eight-byte frame capacity.
    PayloadTooLarge,
    /// The peripheral had no frame pending.
    NoFrameReceived,
    /// The peripheral was busy; the operation should be retried.
    WouldBlock,
    /// Any other peripheral failure.
    Other,
}

/// A protocol frame in the fixed-size layout of the CAN peripheral: the
/// payload occupies the first `payload_len` array bytes, the rest are zero.
#[derive(Debug)]
pub struct SpaceCANFrame {
    /// The command identifier.
    pub command_id: u16,
    /// The payload bytes, zero-padded to the frame capacity.
    pub payload: [u8; 8],
    /// How many leading payload bytes are meaningful.
    pub payload_len: usize,
}

impl SpaceCANFrame {
    /// The frame's meaningful payload bytes in place, zero padding after.
    pub open spec fn wf(self) -> bool {
        self.payload_len <= 8
    }

    /// Builds a frame from a payload of at most eight bytes; the payload
    /// is copied to the front of the fixed array and the rest zeroed.
    pub fn new(command_id: u16, payload: &[u8]) -> (r: Result<Self, SpaceCANError>)
        ensures
            match r {
                Ok(f) => payload@.len() <= 8 && f.wf() && f.command_id == command_id
                    && f.payload_len == payload@.len() && f.payload@ == payload@ + Seq::new(
                    (8 - payload@.len()) as nat,
                    |i: int| 0u8,
                ),
                Err(e) => payload@.len() > 8 && e == SpaceCANError::PayloadTooLarge,
            },
    {
        if payload.len() > 8 {
            return Err(SpaceCANError::PayloadTooLarge);
        }
        let mut frame_payload = [0u8; 8];
        let mut i: usize = 0;
        while i < payload.len()
            invariant
                payload@.len() <= 8,
                0 <= i <= payload@.len(),
                frame_payload@.len() == 8,
                forall|k: int| 0 <= k < i ==> frame_payload@[k] == payload@[k],
                forall|k: int| i <= k < 8 ==> frame_payload@[k] == 0u8,
            decreases payload@.len() - i,
        {
            frame_payload[i] = *vstd::slice::slice_index_get(payload, i);
            i = i + 1;
        }
        proof {
            assert(frame_payload@ =~= payload@ + Seq::new((8 - payload@.len()) as nat, |i: int| 0u8));
        }
        Ok(SpaceCANFrame { command_id, payload: frame_payload, payload_len: payload.len() })
    }
}

} // verus!
