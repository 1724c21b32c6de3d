//! Frame parsing helpers for callers that deal in plain bytes and report
//! errors as text: thin wrappers over the frame codec, with the error
//! rendered as a human-readable message.

use vstd::prelude::*;
use crate::frame::{decode_id, CanFrame, CanFrameError};

verus! {

/// Decimal digit as a character.
pub open spec fn digit_char(d: int) -> char {
    if d == 0 {
        '0'
    } else if d == 1 {
        '1'
    } else if d == 2 {
        '2'
    } else if d == 3 {
        '3'
    } else if d == 4 {
        '4'
    } else if d == 5 {
        '5'
    } else if d == 6 {
        '6'
    } else if d == 7 {
        '7'
    } else if d == 8 {
        '8'
    } else {
        '9'
    }
}

/// Decimal rendering of a non-negative number, most significant digit
/// first, without leading zeroes (a single zero for zero).
pub open spec fn dec_str(n: int) -> Seq<char>
    decreases n,
{
    if n < 0 {
        Seq::empty()
    } else if n < 10 {
        seq![digit_char(n)]
    } else {
        dec_str(n / 10).push(digit_char(n % 10))
    }
}

/// Appends the decimal rendering of `n` to `out`.
fn push_decimal(out: &mut String, n: u32)
    ensures
        final(out)@ == old(out)@ + dec_str(n as int),
    decreases n,
{
    if n >= 10 {
        push_decimal(out, n / 10);
    }
    let d = n % 10;
    let digit: &str = if d == 0 {
        "0"
    } else if d == 1 {
        "1"
    } else if d == 2 {
        "2"
    } else if d == 3 {
        "3"
    } else if d == 4 {
        "4"
    } else if d == 5 {
        "5"
    } else if d == 6 {
        "6"
    } else if d == 7 {
        "7"
    } else if d == 8 {
        "8"
    } else {
        "9"
    };
    proof {
        reveal_strlit("0");
        reveal_strlit("1");
        reveal_strlit("2");
        reveal_strlit("3");
        reveal_strlit("4");
        reveal_strlit("5");
        reveal_strlit("6");
        reveal_strlit("7");
        reveal_strlit("8");
        reveal_strlit("9");
        assert(digit@ =~= seq![digit_char(d as int)]);
    }
    out.append(digit);
    proof {
        if n < 10 {
            assert(dec_str(n as int) =~= seq![digit_char(n as int)]);
            assert(final(out)@ =~= old(out)@ + dec_str(n as int));
        } else {
            assert(dec_str(n as int) == dec_str(n as int / 10).push(digit_char(n as int % 10)));
            assert(final(out)@ =~= old(out)@ + dec_str(n as int));
        }
    }
}

impl CanFrameError {
    /// The error's message text.
    pub open spec fn message_view(self) -> Seq<char> {
        match self {
            CanFrameError::DataTooLong => "Data length exceeds 8 bytes"@,
            CanFrameError::InvalidCanId(id) => "Invalid CAN ID: "@ + dec_str(id as int),
            CanFrameError::SendFailed => "CAN frame send failed"@,
        }
    }

    /// Renders the error as its message text.
    pub fn message(&self) -> (r: String)
        ensures
            r@ == self.message_view(),
    {
        match self {
            CanFrameError::DataTooLong => String::from_str("Data length exceeds 8 bytes"),
            CanFrameError::InvalidCanId(id) => {
                let mut out = String::from_str("Invalid CAN ID: ");
                push_decimal(&mut out, *id);
                out
            },
            CanFrameError::SendFailed => String::from_str("CAN frame send failed"),
        }
    }
}

/// Decodes a wire byte string into a frame; a failure is reported as the
/// codec error's message text. Succeeds exactly on byte strings of two
/// identifier bytes followed by at most eight payload bytes.
pub fn decode_frame(data: &[u8]) -> (r: Result<CanFrame, String>)
    ensures
        match r {
            Ok(f) => 2 <= data@.len() <= 10 && f@.id == decode_id(data@[0], data@[1]) && f@.data
                == data@.subrange(2, data@.len() as int),
            Err(m) => (data@.len() < 2 && m@ == CanFrameError::InvalidCanId(0).message_view()) || (
            data@.len() > 10 && m@ == CanFrameError::DataTooLong.message_view()),
        },
{
    match CanFrame::from_bytes(data) {
        Ok(f) => Ok(f),
        Err(e) => Err(e.message()),
    }
}

/// Encodes a frame into its wire byte string; never fails.
pub fn encode_frame(frame: &CanFrame) -> (r: Result<Vec<u8>, String>)
    ensures
        match r {
            Ok(b) => b@ == frame@.bytes(),
            Err(_) => false,
        },
{
    Ok(frame.to_bytes())
}

} // verus!
