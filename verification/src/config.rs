//! What the service reads from its configuration at startup.

use vstd::prelude::*;
use vstd::string::StringSliceAdditionalSpecFns;

verus! {

/// Why the configuration is refused.
#[derive(Clone, Copy, PartialEq, Eq, Structural, Debug)]
pub enum ConfigError {
    /// The configured port is not a decimal number from 0 to 65535.
    InvalidPort,
}

impl ConfigError {
    /// The text that explains the refusal.
    pub fn message(self) -> (r: &'static str)
        ensures
            r@ == "Cannot parse PORT"@,
    {
        "Cannot parse PORT"
    }
}

/// The port on which the service listens where none is configured.
pub const DEFAULT_PORT: u16 = 3000;

/// The name of the configuration variable that holds the port.
pub fn port_variable() -> (r: &'static str)
    ensures
        r@ == "PORT"@,
{
    "PORT"
}

/// The address on which the service listens: every interface.
pub fn listen_host() -> (r: &'static str)
    ensures
        r@ == "::"@,
{
    "::"
}

/// Whether `byte` is an ASCII decimal digit.
pub open spec fn is_digit(byte: u8) -> bool {
    48 <= byte <= 57
}

/// Whether `bytes` holds decimal digits only.
pub open spec fn all_digits(bytes: Seq<u8>) -> bool {
    forall|i: int| 0 <= i < bytes.len() ==> is_digit(#[trigger] bytes[i])
}

/// The number that a run of decimal digits denotes.
pub open spec fn decimal(digits: Seq<u8>) -> int
    decreases digits.len(),
{
    if digits.len() == 0 {
        0
    } else {
        decimal(digits.drop_last()) * 10 + (digits.last() - 48)
    }
}

/// The bytes that are left once one leading plus sign is set aside.
pub open spec fn unsigned_part(bytes: Seq<u8>) -> Seq<u8> {
    if bytes.len() > 0 && bytes[0] == 43 {
        bytes.skip(1)
    } else {
        bytes
    }
}

/// The port that `bytes` denotes: an optional plus sign, then one or more
/// decimal digits and nothing else, with a value of at most 65535. Leading
/// zeros are accepted; blanks, a minus sign and an empty text are not.
pub open spec fn port_of(bytes: Seq<u8>) -> Option<u16> {
    let digits = unsigned_part(bytes);
    if digits.len() > 0 && all_digits(digits) && decimal(digits) <= 65535 {
        Some(decimal(digits) as u16)
    } else {
        None
    }
}

/// A run of digits denotes at least what any of its prefixes denotes.
proof fn decimal_grows(digits: Seq<u8>, k: int)
    requires
        all_digits(digits),
        0 <= k <= digits.len(),
    ensures
        0 <= decimal(digits.take(k)) <= decimal(digits),
    decreases digits.len() - k,
{
    if k == digits.len() {
        assert(digits.take(k) =~= digits);
        decimal_is_natural(digits);
    } else {
        decimal_grows(digits, k + 1);
        assert(digits.take(k + 1).drop_last() =~= digits.take(k));
        assert(is_digit(digits[k]));
        decimal_is_natural(digits.take(k));
    }
}

/// A run of digits denotes no negative number.
proof fn decimal_is_natural(digits: Seq<u8>)
    requires
        all_digits(digits),
    ensures
        0 <= decimal(digits),
    decreases digits.len(),
{
    if digits.len() > 0 {
        decimal_is_natural(digits.drop_last());
        assert(is_digit(digits.last()));
    }
}

/// Reads a port from `text`.
pub fn parse_port(text: &str) -> (r: Option<u16>)
    ensures
        r == port_of(text.spec_bytes()),
{
    let bytes = text.as_bytes();
    let n: usize = bytes.len();
    let mut i: usize = 0;
    if n > 0 && bytes[0] == 43u8 {
        i = 1;
    }
    let start: usize = i;
    let ghost digits = unsigned_part(bytes@);
    if i == n {
        return None;
    }
    let mut value: u32 = 0;
    while i < n
        invariant
            start <= i <= n,
            n == bytes@.len(),
            start <= 1,
            bytes@ == text.spec_bytes(),
            digits == unsigned_part(bytes@),
            digits.len() == n - start,
            forall|j: int| 0 <= j < digits.len() ==> digits[j] == bytes@[j + start],
            all_digits(digits.take(i - start)),
            value == decimal(digits.take(i - start)),
            value <= 65535,
        decreases n - i,
    {
        let byte: u8 = bytes[i];
        let ghost k = i - start;
        proof {
            assert(digits[k] == byte);
            assert(digits.take(k + 1).drop_last() =~= digits.take(k));
        }
        if byte < 48u8 || byte > 57u8 {
            assert(!is_digit(digits[k]));
            return None;
        }
        let digit: u32 = (byte - 48u8) as u32;
        value = value * 10 + digit;
        proof {
            assert forall|j: int| 0 <= j < k + 1 implies is_digit(
                #[trigger] digits.take(k + 1)[j],
            ) by {
                if j < k {
                    assert(digits.take(k)[j] == digits.take(k + 1)[j]);
                }
            }
        }
        if value > 65535 {
            proof {
                if all_digits(digits) {
                    decimal_grows(digits, k + 1);
                }
            }
            return None;
        }
        i = i + 1;
    }
    proof {
        assert(digits.take(i - start) =~= digits);
    }
    Some(value as u16)
}

/// The port on which the service listens: the configured one, or
/// [`DEFAULT_PORT`] where the configuration is silent. A configured text
/// that denotes no port is refused, not replaced by the default.
pub fn listen_port(configured: Option<&str>) -> (r: Result<u16, ConfigError>)
    ensures
        r == match configured {
            None => Ok::<u16, ConfigError>(3000),
            Some(text) => match port_of(text.spec_bytes()) {
                Some(port) => Ok(port),
                None => Err(ConfigError::InvalidPort),
            },
        },
{
    match configured {
        None => Ok(DEFAULT_PORT),
        Some(text) => match parse_port(text) {
            Some(port) => Ok(port),
            None => Err(ConfigError::InvalidPort),
        },
    }
}

} // verus!
