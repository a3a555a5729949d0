//! Shared code for EZO sensor chips. These chips are used for sensing aquatic
//! media.
//!
//! Only the chips' I2C mode is covered.
use vstd::prelude::*;
use vstd::string::*;

pub mod command;
pub mod engine;
pub mod errors;
pub mod response;
pub mod text;

use crate::errors::{err_of, ErrorKind, EzoError, Result};
use crate::text::{all_ascii, ascii_chars, string_from_ascii};

verus! {

/// Default buffer size for ASCII data responses.
pub const MAX_DATA: usize = 42;

/// Known response codes from EZO chip interactions.
#[derive(Copy, Clone, Debug, PartialEq, Eq, Structural)]
pub enum ResponseCode {
    /// `0xFF`: the command yields no data.
    NoDataExpected,
    /// `0xFE`: the chip is still processing.
    Pending,
    /// `0x02`: the chip rejected the command.
    DeviceError,
    /// `0x01`: the command succeeded.
    Success,
    /// Any other byte; never sent by the chips.
    UnknownError,
}

/// The response code that a status byte stands for.
pub open spec fn spec_response_code(code_byte: u8) -> ResponseCode {
    if code_byte == 0xFF {
        ResponseCode::NoDataExpected
    } else if code_byte == 0xFE {
        ResponseCode::Pending
    } else if code_byte == 0x02 {
        ResponseCode::DeviceError
    } else if code_byte == 0x01 {
        ResponseCode::Success
    } else {
        ResponseCode::UnknownError
    }
}

/// Determines the response code sent by the EZO chip.
pub fn response_code(code_byte: u8) -> (r: ResponseCode)
    ensures
        r == spec_response_code(code_byte),
{
    match code_byte {
        0xFF => ResponseCode::NoDataExpected,
        0xFE => ResponseCode::Pending,
        0x02 => ResponseCode::DeviceError,
        0x01 => ResponseCode::Success,
        _ => ResponseCode::UnknownError,
    }
}


/// Allowable baudrates used when changing the chip to UART mode.
#[derive(Copy, Clone, Debug, PartialEq, Eq, Structural)]
pub enum BpsRate {
    Bps300,
    Bps1200,
    Bps2400,
    Bps9600,
    Bps19200,
    Bps38400,
    Bps57600,
    Bps115200,
}

impl BpsRate {
    /// The rate in bits per second.
    pub open spec fn rate(self) -> u32 {
        match self {
            BpsRate::Bps300 => 300,
            BpsRate::Bps1200 => 1200,
            BpsRate::Bps2400 => 2400,
            BpsRate::Bps9600 => 9600,
            BpsRate::Bps19200 => 19200,
            BpsRate::Bps38400 => 38400,
            BpsRate::Bps57600 => 57600,
            BpsRate::Bps115200 => 115200,
        }
    }

    /// The allowable rate of the given number of bits per second, if there is one.
    pub open spec fn of_rate(n: u32) -> Option<BpsRate> {
        if n == 300 {
            Some(BpsRate::Bps300)
        } else if n == 1200 {
            Some(BpsRate::Bps1200)
        } else if n == 2400 {
            Some(BpsRate::Bps2400)
        } else if n == 9600 {
            Some(BpsRate::Bps9600)
        } else if n == 19200 {
            Some(BpsRate::Bps19200)
        } else if n == 38400 {
            Some(BpsRate::Bps38400)
        } else if n == 57600 {
            Some(BpsRate::Bps57600)
        } else if n == 115200 {
            Some(BpsRate::Bps115200)
        } else {
            None
        }
    }

    /// Returns the `BpsRate` from a `u32` value.
    pub fn parse_u32(bps_rate: u32) -> (r: Result<BpsRate>)
        ensures
            r == match BpsRate::of_rate(bps_rate) {
                Some(b) => Ok(b),
                None => err_of::<BpsRate>(ErrorKind::BpsRateParse),
            },
            r matches Ok(b) ==> b.rate() == bps_rate,
    {
        match bps_rate {
            300 => Ok(BpsRate::Bps300),
            1200 => Ok(BpsRate::Bps1200),
            2400 => Ok(BpsRate::Bps2400),
            9600 => Ok(BpsRate::Bps9600),
            19200 => Ok(BpsRate::Bps19200),
            38400 => Ok(BpsRate::Bps38400),
            57600 => Ok(BpsRate::Bps57600),
            115200 => Ok(BpsRate::Bps115200),
            _ => Err(EzoError { kind: ErrorKind::BpsRateParse }),
        }
    }

    /// Returns the BpsRate as a `u32` value.
    pub fn parse(&self) -> (r: u32)
        ensures
            r == self.rate(),
            BpsRate::of_rate(r) == Some(*self),
    {
        match *self {
            BpsRate::Bps300 => 300,
            BpsRate::Bps1200 => 1200,
            BpsRate::Bps2400 => 2400,
            BpsRate::Bps9600 => 9600,
            BpsRate::Bps19200 => 19200,
            BpsRate::Bps38400 => 38400,
            BpsRate::Bps57600 => 57600,
            BpsRate::Bps115200 => 115200,
        }
    }
}

/// The bytes with their high bit cleared.
pub open spec fn clear_high_bits(v: Seq<u8>) -> Seq<u8> {
    v.map_values(|b: u8| b & 0x7f)
}

/// Turns off the high bit in each of the bytes of `v`. The I2C hardware of
/// some hosts sets the high bit of some of the bytes it reads.
pub fn turn_off_high_bits(v: &mut [u8])
    ensures
        final(v)@ == clear_high_bits(old(v)@),
{
    let n = v.len();
    let mut i: usize = 0;
    while i < n
        invariant
            n == old(v)@.len(),
            v@.len() == n,
            i <= n,
            forall|j: int| 0 <= j < i ==> #[trigger] v@[j] == old(v)@[j] & 0x7f,
            forall|j: int| i <= j < n ==> #[trigger] v@[j] == old(v)@[j],
        decreases n - i,
    {
        let b = v[i];
        v[i] = b & 0x7f;
        i = i + 1;
    }
    assert(v@ =~= clear_high_bits(old(v)@));
}

/// A byte with its high bit cleared is a 7-bit code, and a 7-bit code is kept.
pub proof fn lemma_clear_high_bit(b: u8)
    ensures
        b & 0x7f < 0x80,
        (b & 0x7f) & 0x7f == b & 0x7f,
        b < 0x80 ==> b & 0x7f == b,
        (b & 0x7f == 0) <==> (b == 0 || b == 0x80),
{
    assert(b & 0x7f < 0x80) by (bit_vector);
    assert((b & 0x7f) & 0x7f == b & 0x7f) by (bit_vector);
    assert(b < 0x80 ==> b & 0x7f == b) by (bit_vector);
    assert((b & 0x7f == 0) <==> (b == 0 || b == 0x80)) by (bit_vector);
}

/// Cleared bytes are 7-bit codes.
pub proof fn lemma_cleared_is_ascii(v: Seq<u8>)
    ensures
        all_ascii(clear_high_bits(v)),
{
    assert forall|i: int| 0 <= i < v.len() implies #[trigger] clear_high_bits(v)[i] < 0x80 by {
        lemma_clear_high_bit(v[i]);
    }
}

/// The text of a nul-terminated string as `CStr::from_bytes_with_nul` reads it:
/// the bytes must end with their only nul.
pub open spec fn nul_terminated(bytes: Seq<u8>) -> Option<Seq<u8>> {
    if bytes.len() > 0 && bytes.last() == 0 && (forall|i: int|
        0 <= i < bytes.len() - 1 ==> #[trigger] bytes[i] != 0) {
        Some(bytes.drop_last())
    } else {
        None
    }
}

/// The text that a reply payload holds: the payload with its high bits cleared
/// must be a nul-terminated string; its bytes are then 7-bit ASCII codes.
pub open spec fn response_text(response: Seq<u8>) -> Option<Seq<char>> {
    match nul_terminated(clear_high_bits(response)) {
        Some(t) => Some(ascii_chars(t)),
        None => None,
    }
}

/// Converts a slice of bytes, as they come raw from the i2c buffer, into an
/// owned String. The high bit of each byte is cleared first.
///
/// The response must be a nul-terminated string, whose only nul is its last
/// byte. Pass the reply buffer without its first byte, the response code.
pub fn string_from_response_data(response: &[u8]) -> (r: Result<String>)
    ensures
        r matches Ok(s) ==> response_text(response@) == Some(s@),
        r is Err ==> response_text(response@) is None && r == err_of::<String>(
            ErrorKind::MalformedResponse,
        ),
{
    let mut buf = vstd::slice::slice_to_vec(response);
    turn_off_high_bits(buf.as_mut_slice());
    let ghost clean = buf@;
    proof {
        lemma_cleared_is_ascii(response@);
    }
    let n = buf.len();
    if n == 0 || buf[n - 1] != 0 {
        return Err(EzoError { kind: ErrorKind::MalformedResponse });
    }
    let mut text: Vec<u8> = Vec::new();
    let mut i: usize = 0;
    while i < n - 1
        invariant
            buf@ == clean,
            clean == clear_high_bits(response@),
            n == clean.len(),
            n > 0,
            i <= n - 1,
            text@ == clean.subrange(0, i as int),
            forall|j: int| 0 <= j < i ==> #[trigger] clean[j] != 0,
        decreases n - 1 - i,
    {
        let b = buf[i];
        if b == 0 {
            return Err(EzoError { kind: ErrorKind::MalformedResponse });
        }
        text.push(b);
        i = i + 1;
        assert(text@ =~= clean.subrange(0, i as int));
    }
    assert(text@ =~= clean.drop_last());
    assert(all_ascii(text@));
    Ok(string_from_ascii(text))
}


/// `k` is the index of the first nul byte of `v`.
pub open spec fn is_first_nul(v: Seq<u8>, k: int) -> bool {
    0 <= k < v.len() && v[k] == 0 && forall|j: int| 0 <= j < k ==> #[trigger] v[j] != 0
}

/// What a whole reply buffer stands for: its first byte is the response code;
/// on success the payload runs from the second byte up to and including the
/// first nul, and must be a nul-terminated string once its high bits are
/// cleared.
pub open spec fn reply_payload(buf: Seq<u8>) -> core::result::Result<Seq<char>, ErrorKind> {
    if buf.len() == 0 {
        Err(ErrorKind::MalformedResponse)
    } else {
        match spec_response_code(buf[0]) {
            ResponseCode::Success => {
                if exists|k: int| is_first_nul(buf, k) {
                    let k = choose|k: int| is_first_nul(buf, k);
                    match response_text(buf.subrange(1, k + 1)) {
                        Some(t) => Ok(t),
                        None => Err(ErrorKind::MalformedResponse),
                    }
                } else {
                    Err(ErrorKind::MalformedResponse)
                }
            },
            ResponseCode::Pending => Err(ErrorKind::PendingResponse),
            ResponseCode::DeviceError => Err(ErrorKind::DeviceErrorResponse),
            ResponseCode::NoDataExpected => Err(ErrorKind::NoDataExpectedResponse),
            ResponseCode::UnknownError => Err(ErrorKind::MalformedResponse),
        }
    }
}

/// Decodes a whole reply buffer, as read from the chip, into its text.
pub fn response_payload(buf: &[u8]) -> (r: Result<String>)
    ensures
        r matches Ok(s) ==> reply_payload(buf@) == Ok::<Seq<char>, ErrorKind>(s@),
        r matches Err(e) ==> reply_payload(buf@) == Err::<Seq<char>, ErrorKind>(e.kind),
{
    let n = buf.len();
    if n == 0 {
        return Err(EzoError { kind: ErrorKind::MalformedResponse });
    }
    match response_code(buf[0]) {
        ResponseCode::Success => {
            let mut k: usize = 1;
            while k < n && buf[k] != 0
                invariant
                    n == buf@.len(),
                    1 <= k <= n,
                    buf@[0] == 1,
                    forall|j: int| 0 <= j < k ==> #[trigger] buf@[j] != 0,
                decreases n - k,
            {
                k = k + 1;
            }
            if k == n {
                assert(!exists|j: int| is_first_nul(buf@, j));
                return Err(EzoError { kind: ErrorKind::MalformedResponse });
            }
            assert(is_first_nul(buf@, k as int));
            let ghost c = choose|j: int| is_first_nul(buf@, j);
            assert(c == k) by {
                if c < k {
                    assert(buf@[c] != 0);
                } else if c > k {
                    assert(buf@[k as int] != 0);
                }
            }
            let payload = vstd::slice::slice_subrange(buf, 1, k + 1);
            string_from_response_data(payload)
        },
        ResponseCode::Pending => Err(EzoError { kind: ErrorKind::PendingResponse }),
        ResponseCode::DeviceError => Err(EzoError { kind: ErrorKind::DeviceErrorResponse }),
        ResponseCode::NoDataExpected => Err(EzoError { kind: ErrorKind::NoDataExpectedResponse }),
        ResponseCode::UnknownError => Err(EzoError { kind: ErrorKind::MalformedResponse }),
    }
}

/// Every status byte stands for exactly one response code: `0x01`, `0x02`,
/// `0xFE` and `0xFF` for the four named codes, any other byte for
/// `UnknownError`.
pub proof fn lemma_response_code_total(b: u8)
    ensures
        (spec_response_code(b) == ResponseCode::Success) <==> b == 0x01,
        (spec_response_code(b) == ResponseCode::DeviceError) <==> b == 0x02,
        (spec_response_code(b) == ResponseCode::Pending) <==> b == 0xFE,
        (spec_response_code(b) == ResponseCode::NoDataExpected) <==> b == 0xFF,
        (spec_response_code(b) == ResponseCode::UnknownError) <==> (b != 0x01 && b != 0x02 && b
            != 0xFE && b != 0xFF),
{
}

/// Clearing the high bits twice is clearing them once, and bytes that are
/// already 7-bit ASCII are left as they are.
pub proof fn lemma_clear_high_bits_idempotent(v: Seq<u8>)
    ensures
        clear_high_bits(clear_high_bits(v)) == clear_high_bits(v),
        all_ascii(v) ==> clear_high_bits(v) == v,
{
    assert forall|i: int| 0 <= i < v.len() implies #[trigger] clear_high_bits(clear_high_bits(v))[i]
        == clear_high_bits(v)[i] by {
        lemma_clear_high_bit(v[i]);
    }
    assert(clear_high_bits(clear_high_bits(v)) =~= clear_high_bits(v));
    if all_ascii(v) {
        assert forall|i: int| 0 <= i < v.len() implies #[trigger] clear_high_bits(v)[i] == v[i] by {
            lemma_clear_high_bit(v[i]);
        }
        assert(clear_high_bits(v) =~= v);
    }
}

/// Setting the high bit of any payload byte leaves the decoded text as it was:
/// a byte `0xC1` reads as `A`.
pub proof fn lemma_high_bit_ignored(v: Seq<u8>, i: int)
    requires
        0 <= i < v.len(),
    ensures
        response_text(v.update(i, v[i] | 0x80)) == response_text(v),
{
    let b = v[i];
    assert((b | 0x80) & 0x7f == b & 0x7f) by (bit_vector);
    assert(clear_high_bits(v.update(i, v[i] | 0x80)) =~= clear_high_bits(v));
}


/// The bytes written to the chip for a command text: its UTF-8 bytes and a
/// closing nul. A text that holds a nul byte cannot be sent.
pub fn command_bytes(cmd: &str) -> (r: Result<Vec<u8>>)
    ensures
        r is Err <==> cmd.spec_bytes().contains(0),
        r matches Ok(b) ==> b@ == cmd.spec_bytes().push(0),
        r matches Err(e) ==> e.kind == ErrorKind::UnwritableCommand,
{
    let bytes = cmd.as_bytes();
    let n = bytes.len();
    let mut out: Vec<u8> = Vec::new();
    let mut i: usize = 0;
    while i < n
        invariant
            bytes@ == cmd.spec_bytes(),
            n == bytes@.len(),
            i <= n,
            out@ == bytes@.subrange(0, i as int),
            forall|j: int| 0 <= j < i ==> #[trigger] bytes@[j] != 0,
        decreases n - i,
    {
        let b = bytes[i];
        if b == 0 {
            return Err(EzoError { kind: ErrorKind::UnwritableCommand });
        }
        out.push(b);
        i = i + 1;
        assert(out@ =~= bytes@.subrange(0, i as int));
    }
    assert(out@ =~= bytes@);
    assert(!bytes@.contains(0)) by {
        if bytes@.contains(0) {
            let j = choose|j: int| 0 <= j < bytes@.len() && bytes@[j] == 0;
            assert(bytes@[j] != 0);
        }
    }
    out.push(0);
    Ok(out)
}

} // verus!
