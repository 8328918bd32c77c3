//! Parsers for the numeric command-line values: a packet length bounded
//! by the datagram limit, and a general non-zero count. Both read an
//! optional leading plus sign followed by decimal digits, as the byte
//! sequence of the input string.

use vstd::prelude::*;
use vstd::string::StringSliceAdditionalSpecFns;

use crate::config::MAX_PACKET_LENGTH;
use crate::config::MIN_PACKET_LENGTH;

verus! {

/// Why a string failed to read as a decimal number.
#[derive(Debug, Clone, Copy, PartialEq, Eq, Structural)]
pub enum IntParseError {
    /// No digits at all, after the optional sign.
    Empty,
    /// A byte that is not a decimal digit among the digits.
    InvalidDigit,
    /// The digits name a number larger than the machine can count.
    Overflow,
}

/// An ASCII decimal digit.
pub open spec fn is_dec_digit(b: u8) -> bool {
    48 <= b && b <= 57
}

/// The numeric value of one ASCII decimal digit.
pub open spec fn digit_val(b: u8) -> nat {
    (b - 48) as nat
}

/// Every byte of `s` is an ASCII decimal digit.
pub open spec fn all_dec_digits(s: Seq<u8>) -> bool {
    forall|i: int| 0 <= i < s.len() ==> is_dec_digit(#[trigger] s[i])
}

/// The number the digit bytes of `s` name, read left to right in base
/// ten.
pub open spec fn dec_value(s: Seq<u8>) -> nat
    decreases s.len(),
{
    if s.len() == 0 {
        0
    } else {
        dec_value(s.drop_last()) * 10 + digit_val(s.last())
    }
}

/// The bytes of `s` past an optional leading plus sign.
pub open spec fn digits_of(s: Seq<u8>) -> Seq<u8> {
    if s.len() > 0 && s[0] == 43 {
        s.subrange(1, s.len() as int)
    } else {
        s
    }
}

/// A prefix of a digit string never names a larger number than the whole
/// string.
proof fn lemma_dec_value_prefix(t: Seq<u8>, k: int)
    requires
        0 <= k <= t.len(),
        all_dec_digits(t),
    ensures
        dec_value(t.subrange(0, k)) <= dec_value(t),
    decreases t.len() - k,
{
    if k == t.len() {
        assert(t.subrange(0, k) =~= t);
    } else {
        let shorter = t.subrange(0, k);
        let longer = t.subrange(0, k + 1);
        assert(longer.drop_last() =~= shorter);
        assert(dec_value(longer) == dec_value(shorter) * 10 + digit_val(t[k]));
        lemma_dec_value_prefix(t, k + 1);
    }
}

/// Read an unsigned decimal number, with an optional leading plus sign,
/// from the whole of `s`.
fn parse_usize(s: &str) -> (r: Result<usize, IntParseError>)
    ensures
        ({
            let ds = digits_of(s.spec_bytes());
            match r {
                Ok(v) => ds.len() > 0 && all_dec_digits(ds) && v == dec_value(ds),
                Err(e) => match e {
                    IntParseError::Empty => ds.len() == 0,
                    IntParseError::InvalidDigit => ds.len() > 0 && !all_dec_digits(ds),
                    IntParseError::Overflow => ds.len() > 0 && all_dec_digits(ds) && dec_value(ds)
                        > usize::MAX,
                },
            }
        }),
{
    let bytes = s.as_bytes();
    let n = bytes.len();
    let ghost ds = digits_of(s.spec_bytes());
    let start: usize = if n > 0 && bytes[0] == 43 {
        1
    } else {
        0
    };
    proof {
        assert(ds =~= bytes@.subrange(start as int, n as int));
    }
    if start == n {
        return Err(IntParseError::Empty);
    }
    let mut i = start;
    while i < n
        invariant
            start <= i <= n,
            n == bytes@.len(),
            ds == digits_of(s.spec_bytes()),
            bytes@ == s.spec_bytes(),
            ds =~= bytes@.subrange(start as int, n as int),
            forall|k: int| start <= k < i ==> is_dec_digit(#[trigger] bytes@[k]),
        decreases n - i,
    {
        let b = bytes[i];
        if b < 48 || b > 57 {
            proof {
                assert(ds[i - start as int] == bytes@[i as int]);
                assert(!all_dec_digits(ds));
            }
            return Err(IntParseError::InvalidDigit);
        }
        i += 1;
    }
    proof {
        assert forall|k: int| 0 <= k < ds.len() implies is_dec_digit(#[trigger] ds[k]) by {
            assert(ds[k] == bytes@[start + k]);
        }
    }
    let mut value: usize = 0;
    let mut j = start;
    while j < n
        invariant
            start <= j <= n,
            n == bytes@.len(),
            ds == digits_of(s.spec_bytes()),
            bytes@ == s.spec_bytes(),
            ds =~= bytes@.subrange(start as int, n as int),
            all_dec_digits(ds),
            value == dec_value(bytes@.subrange(start as int, j as int)),
        decreases n - j,
    {
        proof {
            assert(ds[j - start as int] == bytes@[j as int]);
        }
        let d = (bytes[j] - 48) as usize;
        let ghost pre = bytes@.subrange(start as int, j as int);
        let ghost post = bytes@.subrange(start as int, j + 1 as int);
        proof {
            assert(post.drop_last() =~= pre);
            assert(dec_value(post) == value * 10 + digit_val(bytes@[j as int]));
            assert(post =~= ds.subrange(0, j + 1 - start as int));
        }
        let scaled = match value.checked_mul(10) {
            Some(scaled) => scaled,
            None => {
                proof {
                    lemma_dec_value_prefix(ds, j + 1 - start as int);
                }
                return Err(IntParseError::Overflow);
            },
        };
        value = match scaled.checked_add(d) {
            Some(v) => v,
            None => {
                proof {
                    lemma_dec_value_prefix(ds, j + 1 - start as int);
                }
                return Err(IntParseError::Overflow);
            },
        };
        j += 1;
    }
    proof {
        assert(bytes@.subrange(start as int, n as int) =~= ds);
    }
    Ok(value)
}

/// A size in bytes for one UDP packet: a decimal number within
/// `[MIN_PACKET_LENGTH, MAX_PACKET_LENGTH]`.
#[derive(Debug, Clone, Copy, PartialEq, Eq, Structural)]
pub enum PacketLengthError {
    InvalidFormat(IntParseError),
    Overflow,
    Underflow,
}

/// A count that must not be zero.
#[derive(Debug, Clone, Copy, PartialEq, Eq, Structural)]
pub enum NonZeroUsizeError {
    InvalidFormat(IntParseError),
    ZeroValue,
}

/// Read a packet length: a decimal number within the range
/// `[MIN_PACKET_LENGTH, MAX_PACKET_LENGTH]`.
pub fn parse_packet_length(length: &str) -> (r: Result<usize, PacketLengthError>)
    ensures
        ({
            let ds = digits_of(length.spec_bytes());
            match r {
                Ok(v) => ds.len() > 0 && all_dec_digits(ds) && v == dec_value(ds)
                    && MIN_PACKET_LENGTH <= v <= MAX_PACKET_LENGTH,
                Err(e) => match e {
                    PacketLengthError::InvalidFormat(k) => match k {
                        IntParseError::Empty => ds.len() == 0,
                        IntParseError::InvalidDigit => ds.len() > 0 && !all_dec_digits(ds),
                        IntParseError::Overflow => ds.len() > 0 && all_dec_digits(ds) && dec_value(
                            ds,
                        ) > usize::MAX,
                    },
                    PacketLengthError::Underflow => ds.len() > 0 && all_dec_digits(ds) && dec_value(
                        ds,
                    ) < MIN_PACKET_LENGTH,
                    PacketLengthError::Overflow => ds.len() > 0 && all_dec_digits(ds)
                        && MAX_PACKET_LENGTH < dec_value(ds) <= usize::MAX,
                },
            }
        }),
{
    let value = match parse_usize(length) {
        Ok(value) => value,
        Err(e) => {
            return Err(PacketLengthError::InvalidFormat(e));
        },
    };
    if value < MIN_PACKET_LENGTH {
        Err(PacketLengthError::Underflow)
    } else if value > MAX_PACKET_LENGTH {
        Err(PacketLengthError::Overflow)
    } else {
        Ok(value)
    }
}

/// Read a non-zero count: a decimal number from one up to the largest
/// count the machine holds.
pub fn parse_non_zero_usize(number: &str) -> (r: Result<usize, NonZeroUsizeError>)
    ensures
        ({
            let ds = digits_of(number.spec_bytes());
            match r {
                Ok(v) => ds.len() > 0 && all_dec_digits(ds) && v == dec_value(ds) && v >= 1,
                Err(e) => match e {
                    NonZeroUsizeError::InvalidFormat(k) => match k {
                        IntParseError::Empty => ds.len() == 0,
                        IntParseError::InvalidDigit => ds.len() > 0 && !all_dec_digits(ds),
                        IntParseError::Overflow => ds.len() > 0 && all_dec_digits(ds) && dec_value(
                            ds,
                        ) > usize::MAX,
                    },
                    NonZeroUsizeError::ZeroValue => ds.len() > 0 && all_dec_digits(ds) && dec_value(
                        ds,
                    ) == 0,
                },
            }
        }),
{
    let value = match parse_usize(number) {
        Ok(value) => value,
        Err(e) => {
            return Err(NonZeroUsizeError::InvalidFormat(e));
        },
    };
    if value == 0 {
        Err(NonZeroUsizeError::ZeroValue)
    } else {
        Ok(value)
    }
}

impl IntParseError {
    /// The text `message` returns, as a sequence of characters.
    pub open spec fn message_spec(&self) -> Seq<char> {
        match self {
            IntParseError::Empty => "cannot parse integer from empty string"@,
            IntParseError::InvalidDigit => "invalid digit found in string"@,
            IntParseError::Overflow => "number too large to fit in target type"@,
        }
    }

    /// A short description of the failure, for reporting.
    pub fn message(&self) -> (r: &'static str)
        ensures
            r@ == self.message_spec(),
    {
        match self {
            IntParseError::Empty => "cannot parse integer from empty string",
            IntParseError::InvalidDigit => "invalid digit found in string",
            IntParseError::Overflow => "number too large to fit in target type",
        }
    }
}

impl PacketLengthError {
    /// The text `message` returns, as a sequence of characters.
    pub open spec fn message_spec(&self) -> Seq<char> {
        match self {
            PacketLengthError::InvalidFormat(k) => k.message_spec(),
            PacketLengthError::Overflow => "The value is too big"@,
            PacketLengthError::Underflow => "The value is too small"@,
        }
    }

    /// A short description of the failure, for reporting.
    pub fn message(&self) -> (r: &'static str)
        ensures
            r@ == self.message_spec(),
    {
        match self {
            PacketLengthError::InvalidFormat(k) => k.message(),
            PacketLengthError::Overflow => "The value is too big",
            PacketLengthError::Underflow => "The value is too small",
        }
    }
}

impl NonZeroUsizeError {
    /// The text `message` returns, as a sequence of characters.
    pub open spec fn message_spec(&self) -> Seq<char> {
        match self {
            NonZeroUsizeError::InvalidFormat(k) => k.message_spec(),
            NonZeroUsizeError::ZeroValue => "The value equals to zero"@,
        }
    }

    /// A short description of the failure, for reporting.
    pub fn message(&self) -> (r: &'static str)
        ensures
            r@ == self.message_spec(),
    {
        match self {
            NonZeroUsizeError::InvalidFormat(k) => k.message(),
            NonZeroUsizeError::ZeroValue => "The value equals to zero",
        }
    }
}

} // verus!
