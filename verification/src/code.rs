//! The passcode value type and its codec.

use vstd::prelude::*;
use vstd::string::StringExecFns;
use crate::rng::sample_in_range;

verus! {

/// Number of bytes in a passcode.
pub const LEN: usize = 24;

/// The ASCII code of the digit `'0'`.
pub const DIGIT_LO: u8 = 48;

/// The ASCII code of the digit `'9'`.
pub const DIGIT_HI: u8 = 57;

/// Whether a byte is one of the ASCII digit codes `'0'` through `'9'`.
pub open spec fn is_digit_byte(b: u8) -> bool {
    DIGIT_LO <= b <= DIGIT_HI
}

/// Whether every byte of a sequence is an ASCII digit.
pub open spec fn all_digit_bytes(s: Seq<u8>) -> bool {
    forall|i: int| 0 <= i < s.len() ==> is_digit_byte(s[i])
}

/// Whether a byte sequence is a valid passcode image: exactly `LEN`
/// bytes, every one an ASCII digit.
pub open spec fn valid_code_bytes(s: Seq<u8>) -> bool {
    s.len() == LEN && all_digit_bytes(s)
}

/// Marker for the storage column type that holds a passcode. The column's
/// wire payload is the `LEN` raw digit bytes themselves.
#[derive(Debug, Clone, Copy)]
pub struct CodeType;

/// Why a raw buffer was rejected when decoding a passcode.
#[derive(Debug, Clone, Copy, PartialEq, Eq, Structural)]
pub enum DecodeError {
    /// The buffer does not hold exactly `LEN` bytes.
    LengthMismatch,
    /// The buffer holds a byte outside `'0'..='9'`.
    InvalidDigit,
}

/// A passcode: exactly `LEN` bytes, each an ASCII digit. Constructed
/// only by generation or by a validating decode, and immutable after
/// construction, so the digit and length invariants always hold.
#[derive(Debug)]
pub struct Code {
    bytes: Vec<u8>,
}

impl View for Code {
    type V = Seq<u8>;

    closed spec fn view(&self) -> Seq<u8> {
        self.bytes@
    }
}

impl Code {
    #[verifier::type_invariant]
    spec fn inv(self) -> bool {
        valid_code_bytes(self.bytes@)
    }

    /// Draws `LEN` independent, uniformly distributed digit bytes from
    /// the operating system's random source.
    pub fn generate(rng: &mut rand::rngs::OsRng) -> (r: Code)
        ensures
            r@.len() == LEN,
            all_digit_bytes(r@),
    {
        generate(rng)
    }

    /// Validates a raw storage buffer and copies it into a passcode.
    /// Succeeds exactly on buffers of `LEN` ASCII digit bytes; a buffer
    /// of any other length is a `LengthMismatch`, and one of the right
    /// length holding a non-digit byte is an `InvalidDigit`.
    pub fn decode(bytes: &[u8]) -> (r: Result<Code, DecodeError>)
        ensures
            valid_code_bytes(bytes@) ==> (r matches Ok(c) && c@ == bytes@),
            bytes@.len() != LEN ==> r == Err::<Code, DecodeError>(DecodeError::LengthMismatch),
            bytes@.len() == LEN && !all_digit_bytes(bytes@) ==> r == Err::<Code, DecodeError>(
                DecodeError::InvalidDigit,
            ),
    {
        if bytes.len() != LEN {
            return Err(DecodeError::LengthMismatch);
        }
        let mut copied: Vec<u8> = Vec::new();
        let mut i: usize = 0;
        while i < LEN
            invariant
                bytes@.len() == LEN,
                i <= LEN,
                copied@ == bytes@.subrange(0, i as int),
                forall|j: int| 0 <= j < i ==> is_digit_byte(bytes@[j]),
            decreases LEN - i,
        {
            let b = bytes[i];
            if b < DIGIT_LO || b > DIGIT_HI {
                return Err(DecodeError::InvalidDigit);
            }
            copied.push(b);
            i += 1;
        }
        proof {
            assert(copied@ =~= bytes@);
        }
        Ok(Code { bytes: copied })
    }

    /// Serializes to exactly `LEN` raw bytes, in storage order, with no
    /// framing or transformation: the result is the stored digit bytes.
    pub fn encode(&self) -> (r: Vec<u8>)
        ensures
            r@ == self@,
    {
        let mut out: Vec<u8> = Vec::new();
        let mut i: usize = 0;
        while i < self.bytes.len()
            invariant
                i <= self.bytes@.len(),
                out@ == self.bytes@.subrange(0, i as int),
            decreases self.bytes@.len() - i,
        {
            out.push(self.bytes[i]);
            i += 1;
        }
        proof {
            assert(out@ =~= self.bytes@);
        }
        out
    }

    /// Consumes the passcode and hands out the backing digit bytes.
    pub fn into_inner(self) -> (r: Vec<u8>)
        ensures
            r@ == self@,
    {
        self.bytes
    }

    /// Read-only view of the stored digit bytes.
    pub fn as_bytes(&self) -> (r: &Vec<u8>)
        ensures
            r@ == self@,
    {
        &self.bytes
    }

    /// The stored bytes, each reinterpreted as its ASCII character.
    pub fn as_chars(&self) -> (r: Vec<char>)
        ensures
            r@.len() == self@.len(),
            forall|i: int| 0 <= i < self@.len() ==> r@[i] == (self@[i] as char),
    {
        let mut chars: Vec<char> = Vec::new();
        let mut i: usize = 0;
        while i < self.bytes.len()
            invariant
                i <= self.bytes@.len(),
                chars@.len() == i,
                forall|j: int| 0 <= j < i ==> chars@[j] == (self.bytes@[j] as char),
            decreases self.bytes@.len() - i,
        {
            let c = self.bytes[i] as char;
            chars.push(c);
            i += 1;
        }
        chars
    }

    /// Human-readable form: the `LEN` digit characters, in storage order.
    pub fn render_as_text(&self) -> (r: String)
        ensures
            r@.len() == self@.len(),
            forall|i: int| 0 <= i < self@.len() ==> r@[i] == (self@[i] as char),
    {
        proof {
            use_type_invariant(&*self);
        }
        let mut text = String::new();
        let mut i: usize = 0;
        while i < self.bytes.len()
            invariant
                valid_code_bytes(self.bytes@),
                i <= self.bytes@.len(),
                text@.len() == i,
                forall|j: int| 0 <= j < i ==> text@[j] == (self.bytes@[j] as char),
            decreases self.bytes@.len() - i,
        {
            let d = digit_str(self.bytes[i]);
            text.append(d);
            i += 1;
        }
        text
    }
}

/// The one-character string holding an ASCII digit byte's character.
fn digit_str(b: u8) -> (r: &'static str)
    requires
        is_digit_byte(b),
    ensures
        r@.len() == 1,
        r@[0] == b as char,
{
    proof {
        reveal_strlit("0");
        reveal_strlit("1");
        reveal_strlit("2");
        reveal_strlit("3");
        reveal_strlit("4");
        reveal_strlit("5");
        reveal_strlit("6");
        reveal_strlit("7");
        reveal_strlit("8");
        reveal_strlit("9");
    }
    if b == 48 {
        "0"
    } else if b == 49 {
        "1"
    } else if b == 50 {
        "2"
    } else if b == 51 {
        "3"
    } else if b == 52 {
        "4"
    } else if b == 53 {
        "5"
    } else if b == 54 {
        "6"
    } else if b == 55 {
        "7"
    } else if b == 56 {
        "8"
    } else {
        "9"
    }
}

/// Round trip of the codec: decoding a valid buffer yields a passcode
/// whose encoding is the buffer itself. `decoded` stands for what
/// `decode` returns on `buffer`, and `encoded` for what `encode` then
/// returns on it, each as the function's contract describes it.
pub proof fn lemma_decode_encode_roundtrip(buffer: Seq<u8>, decoded: Code, encoded: Seq<u8>)
    requires
        valid_code_bytes(buffer),
        decoded@ == buffer,
        encoded == decoded@,
    ensures
        encoded == buffer,
{
}

/// Draws `LEN` independent, uniformly distributed digit bytes from the
/// operating system's random source.
pub fn generate(rng: &mut rand::rngs::OsRng) -> (r: Code)
    ensures
        r@.len() == LEN,
        all_digit_bytes(r@),
{
    let mut bytes: Vec<u8> = Vec::new();
    while bytes.len() < LEN
        invariant
            bytes@.len() <= LEN,
            all_digit_bytes(bytes@),
        decreases LEN - bytes@.len(),
    {
        let b = sample_in_range(rng, DIGIT_LO, DIGIT_HI);
        bytes.push(b);
    }
    Code { bytes }
}

} // verus!
