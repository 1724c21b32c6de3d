//! CAN frame codec: 11-bit identifiers split into a function-code band and a
//! node id, a payload of at most eight bytes, and the two-byte wire encoding
//! of the identifier used by the software transport.

use vstd::prelude::*;
use vstd::slice::{slice_index_get, slice_subrange, slice_to_vec};

verus! {

/// Whole 11-bit identifier space.
pub const FULL_MASK: u32 = 0x7FF;
/// High sub-field of the identifier: the function code band.
pub const FUNCTION_MASK: u32 = 0x780;
/// Low sub-field of the identifier: the node id.
pub const NODE_MASK: u32 = 0x07F;
/// A CAN frame carries at most eight payload bytes.
pub const MAX_DATA_LENGTH: usize = 8;

/// Identifier of the sync signal frame.
pub const ID_SYNC: u32 = 0x080;
/// Identifier of the heartbeat signal frame.
pub const ID_HEARTBEAT: u32 = 0x700;
/// Identifier of the spacecraft-elapsed-time distribution frame.
pub const ID_SCET: u32 = 0x180;
/// Identifier of the UTC distribution frame.
pub const ID_UTC: u32 = 0x200;
/// Base identifier of telecommand frames; offset by the destination node id.
pub const ID_TC: u32 = 0x280;
/// Base identifier of telemetry frames; offset by the source node id.
pub const ID_TM: u32 = 0x300;
/// Base identifier of generic message frames.
pub const ID_MESSAGE: u32 = 0x380;

/// Compact function-code ordinal of the sync band.
pub const FUNC_SYNC: u32 = 1;
/// Compact function-code ordinal of the spacecraft-elapsed-time band.
pub const FUNC_SCET: u32 = 3;
/// Compact function-code ordinal of the UTC band.
pub const FUNC_UTC: u32 = 4;
/// Compact function-code ordinal of the telecommand band.
pub const FUNC_TC: u32 = 5;
/// Compact function-code ordinal of the telemetry band.
pub const FUNC_TM: u32 = 6;
/// Compact function-code ordinal of the generic message band.
pub const FUNC_MESSAGE: u32 = 7;
/// Compact function-code ordinal of the heartbeat band.
pub const FUNC_HEARTBEAT: u32 = 14;

/// Errors of the frame layer.
#[derive(Debug, Clone, Copy, PartialEq, Eq, Structural)]
pub enum CanFrameError {
    /// The payload exceeds eight bytes.
    DataTooLong,
    /// The identifier does not fit in eleven bits (carries the offending id).
    InvalidCanId(u32),
    /// The underlying bus rejected a transmission.
    SendFailed,
}

/// Mathematical model of a CAN frame: an identifier and a payload byte string.
pub ghost struct FrameView {
    pub id: u32,
    pub data: Seq<u8>,
}

impl FrameView {
    /// A representable frame: 11-bit identifier, at most eight payload bytes.
    pub open spec fn wf(self) -> bool {
        self.id <= FULL_MASK && self.data.len() <= MAX_DATA_LENGTH
    }

    /// Node id sub-field of the identifier.
    pub open spec fn node_id(self) -> u32 {
        self.id & NODE_MASK
    }

    /// Function code of the identifier, as a compact ordinal.
    pub open spec fn func_id(self) -> u32 {
        (self.id & FUNCTION_MASK) >> 7u32
    }

    /// Wire encoding: two identifier bytes followed by the payload.
    pub open spec fn bytes(self) -> Seq<u8> {
        seq![(self.id >> 3u32) as u8, (self.id & 0x07) as u8] + self.data
    }
}

/// Frame model with the given identifier and payload.
pub open spec fn frame_view(id: u32, data: Seq<u8>) -> FrameView {
    FrameView { id, data }
}

/// Identifier recovered from the two leading wire bytes.
pub open spec fn decode_id(b0: u8, b1: u8) -> u32 {
    ((b0 as u32) << 3u32) | ((b1 as u32) & 0x07)
}

/// Function code ordinal of a raw identifier.
pub open spec fn spec_func_of(id: u32) -> u32 {
    (id & FUNCTION_MASK) >> 7u32
}

/// A CAN frame: identifier plus payload, valid by construction.
#[derive(Debug)]
pub struct CanFrame {
    can_id: u32,
    data: Vec<u8>,
}

impl View for CanFrame {
    type V = FrameView;

    closed spec fn view(&self) -> FrameView {
        FrameView { id: self.can_id, data: self.data@ }
    }
}

impl Clone for CanFrame {
    fn clone(&self) -> (r: Self)
        ensures
            r@ == self@,
    {
        proof {
            use_type_invariant(self);
        }
        CanFrame { can_id: self.can_id, data: slice_to_vec(self.data.as_slice()) }
    }
}

impl CanFrame {
    /// Every frame value satisfies the representation bounds.
    #[verifier::type_invariant]
    pub closed spec fn inv(self) -> bool {
        self@.wf()
    }

    /// Constructs a frame, rejecting identifiers above eleven bits and
    /// payloads longer than eight bytes; a missing payload means empty.
    pub fn new(can_id: u32, data: Option<Vec<u8>>) -> (r: Result<Self, CanFrameError>)
        ensures
            ({
                let d = match data {
                    Some(v) => v@,
                    None => Seq::<u8>::empty(),
                };
                match r {
                    Ok(f) => can_id <= FULL_MASK && d.len() <= MAX_DATA_LENGTH && f@.id == can_id
                        && f@.data == d,
                    Err(CanFrameError::InvalidCanId(bad)) => can_id > FULL_MASK && bad == can_id,
                    Err(CanFrameError::DataTooLong) => can_id <= FULL_MASK && d.len()
                        > MAX_DATA_LENGTH,
                    Err(CanFrameError::SendFailed) => false,
                }
            }),
    {
        if can_id > FULL_MASK {
            return Err(CanFrameError::InvalidCanId(can_id));
        }
        let data = match data {
            Some(v) => v,
            None => Vec::new(),
        };
        if data.len() > MAX_DATA_LENGTH {
            return Err(CanFrameError::DataTooLong);
        }
        Ok(CanFrame { can_id, data })
    }

    /// Payload length.
    pub fn len(&self) -> (r: usize)
        ensures
            r == self@.data.len(),
    {
        self.data.len()
    }

    /// Node id sub-field of the identifier.
    pub fn get_node_id(&self) -> (r: u32)
        ensures
            r == self@.node_id(),
    {
        self.can_id & NODE_MASK
    }

    /// Function code of the identifier, as a compact ordinal.
    pub fn get_func_id(&self) -> (r: u32)
        ensures
            r == self@.func_id(),
    {
        (self.can_id & FUNCTION_MASK) >> 7u32
    }

    /// Wire encoding: identifier packed into two leading bytes, then payload.
    pub fn to_bytes(&self) -> (r: Vec<u8>)
        ensures
            r@ == self@.bytes(),
    {
        let mut frame_bytes: Vec<u8> = Vec::new();
        frame_bytes.push((self.can_id >> 3u32) as u8);
        frame_bytes.push((self.can_id & 0x07) as u8);
        let mut tail = slice_to_vec(self.data.as_slice());
        frame_bytes.append(&mut tail);
        assert(frame_bytes@ =~= self@.bytes());
        frame_bytes
    }

    /// Inverse of the wire encoding. Fails when the two identifier bytes are
    /// missing, or when more than eight payload bytes follow them.
    pub fn from_bytes(bytes: &[u8]) -> (r: Result<Self, CanFrameError>)
        ensures
            match r {
                Ok(f) => 2 <= bytes@.len() <= 10 && f@.id == decode_id(bytes@[0], bytes@[1])
                    && f@.data == bytes@.subrange(2, bytes@.len() as int),
                Err(CanFrameError::InvalidCanId(bad)) => bytes@.len() < 2 && bad == 0,
                Err(CanFrameError::DataTooLong) => bytes@.len() > 10,
                Err(CanFrameError::SendFailed) => false,
            },
    {
        if bytes.len() < 2 {
            return Err(CanFrameError::InvalidCanId(0));
        }
        let b0: u8 = *slice_index_get(bytes, 0);
        let b1: u8 = *slice_index_get(bytes, 1);
        let can_id = ((b0 as u32) << 3u32) | ((b1 as u32) & 0x07);
        proof {
            lemma_decode_id_in_range(b0, b1);
        }
        let rest = slice_subrange(bytes, 2, bytes.len());
        let data = slice_to_vec(rest);
        Self::new(can_id, Some(data))
    }

    /// Raw identifier.
    pub fn can_id(&self) -> (r: u32)
        ensures
            r == self@.id,
    {
        self.can_id
    }

    /// Payload bytes.
    pub fn data(&self) -> (r: &Vec<u8>)
        ensures
            r@ == self@.data,
    {
        &self.data
    }
}

/// The band identifiers fall on their compact function-code ordinals, and
/// a band identifier offset by any node id stays in its band.
pub proof fn lemma_func_codes()
    ensures
        spec_func_of(ID_SYNC) == FUNC_SYNC,
        spec_func_of(ID_SCET) == FUNC_SCET,
        spec_func_of(ID_UTC) == FUNC_UTC,
        spec_func_of(ID_TC) == FUNC_TC,
        spec_func_of(ID_TM) == FUNC_TM,
        spec_func_of(ID_MESSAGE) == FUNC_MESSAGE,
        spec_func_of(ID_HEARTBEAT) == FUNC_HEARTBEAT,
        forall|n: u32| n <= 0x7F ==> #[trigger] spec_func_of((ID_TC + n) as u32) == FUNC_TC,
        forall|n: u32| n <= 0x7F ==> #[trigger] spec_func_of((ID_TM + n) as u32) == FUNC_TM,
        forall|n: u32| n <= 0x7F ==> #[trigger] (((ID_TC + n) as u32) & NODE_MASK) == n,
        forall|n: u32| n <= 0x7F ==> #[trigger] (((ID_TM + n) as u32) & NODE_MASK) == n,
{
    assert((0x080u32 & 0x780) >> 7 == 1) by (bit_vector);
    assert((0x180u32 & 0x780) >> 7 == 3) by (bit_vector);
    assert((0x200u32 & 0x780) >> 7 == 4) by (bit_vector);
    assert((0x280u32 & 0x780) >> 7 == 5) by (bit_vector);
    assert((0x300u32 & 0x780) >> 7 == 6) by (bit_vector);
    assert((0x380u32 & 0x780) >> 7 == 7) by (bit_vector);
    assert((0x700u32 & 0x780) >> 7 == 14) by (bit_vector);
    assert(forall|n: u32|
        n <= 0x7F ==> #[trigger] ((((0x280u32 + n) as u32) & 0x780) >> 7) == 5) by (bit_vector);
    assert(forall|n: u32|
        n <= 0x7F ==> #[trigger] ((((0x300u32 + n) as u32) & 0x780) >> 7) == 6) by (bit_vector);
    assert(forall|n: u32|
        n <= 0x7F ==> #[trigger] (((0x280u32 + n) as u32) & 0x07F) == n) by (bit_vector);
    assert(forall|n: u32|
        n <= 0x7F ==> #[trigger] (((0x300u32 + n) as u32) & 0x07F) == n) by (bit_vector);
}

/// Any two wire bytes decode to an identifier within the 11-bit space.
pub proof fn lemma_decode_id_in_range(b0: u8, b1: u8)
    ensures
        decode_id(b0, b1) <= FULL_MASK,
{
    assert(((b0 as u32) << 3u32) | ((b1 as u32) & 0x07) <= 0x7FF) by (bit_vector);
}

/// Round trip of the identifier packing: the two leading wire bytes of a
/// valid identifier decode back to that identifier.
pub proof fn lemma_id_round_trip(id: u32)
    requires
        id <= FULL_MASK,
    ensures
        decode_id((id >> 3u32) as u8, (id & 0x07) as u8) == id,
{
    assert((((id >> 3u32) as u8) as u32) << 3u32 | ((((id & 0x07) as u8) as u32) & 0x07) == id)
        by (bit_vector)
        requires
            id <= 0x7FF,
    ;
}

/// Decoding the wire bytes of any representable frame recovers exactly its
/// identifier and payload.
pub proof fn lemma_frame_round_trip(f: FrameView)
    requires
        f.wf(),
    ensures
        2 <= f.bytes().len() <= 10,
        decode_id(f.bytes()[0], f.bytes()[1]) == f.id,
        f.bytes().subrange(2, f.bytes().len() as int) == f.data,
{
    lemma_id_round_trip(f.id);
    assert(f.bytes().subrange(2, f.bytes().len() as int) =~= f.data);
}

} // verus!
