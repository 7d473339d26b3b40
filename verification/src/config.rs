//! The hub's configuration: the port to listen on and the channel's
//! capacity, each given as text or left to its default, checked once when
//! the hub starts.

use vstd::prelude::*;
use vstd::string::StringSliceAdditionalSpecFns;

verus! {

/// The port used when none is configured.
pub const DEFAULT_PORT: u16 = 9400;

/// The channel capacity used when none is configured.
pub const DEFAULT_CAPACITY: usize = 100;

/// Why a configuration was refused.
#[derive(Clone, Copy, Debug, PartialEq, Eq, Structural)]
pub enum ConfigError {
    /// The port is not a decimal number from 0 to 65535.
    BadPort,
    /// The capacity is not a decimal number, is zero, or does not fit the
    /// machine's word.
    BadCapacity,
}

impl ConfigError {
    /// A sentence for the operator that says what is wrong.
    pub fn describe(&self) -> (text: &'static str)
        ensures
            text@ == match self {
                ConfigError::BadPort => "the port must be a decimal number from 0 to 65535"@,
                ConfigError::BadCapacity => "the channel capacity must be a positive decimal number"@,
            },
    {
        match self {
            ConfigError::BadPort => "the port must be a decimal number from 0 to 65535",
            ConfigError::BadCapacity => "the channel capacity must be a positive decimal number",
        }
    }
}

/// Whether a byte is an ASCII decimal digit.
pub open spec fn is_digit(byte: u8) -> bool {
    0x30 <= byte <= 0x39
}

/// The number that a run of decimal digits writes, most significant first.
pub open spec fn digits_value(digits: Seq<u8>) -> nat
    decreases digits.len(),
{
    if digits.len() == 0 {
        0
    } else {
        (digits_value(digits.drop_last()) * 10 + (digits.last() - 0x30)) as nat
    }
}

/// The digits of a number's text: the text itself, without one leading `+`
/// if it has one.
pub open spec fn digits_of(text: Seq<u8>) -> Seq<u8> {
    if text.len() > 0 && text[0] == 0x2b {
        text.drop_first()
    } else {
        text
    }
}

/// The number that `text` writes in decimal: an optional `+` followed by one
/// or more ASCII digits and nothing else. Other text writes no number.
pub open spec fn number_in(text: Seq<u8>) -> Option<nat> {
    let digits = digits_of(text);
    if digits.len() > 0 && (forall|i: int| 0 <= i < digits.len() ==> is_digit(#[trigger] digits[i])) {
        Some(digits_value(digits))
    } else {
        None
    }
}

/// The port that a setting stands for: the default where it is absent, else
/// the number it writes, which must be a port number.
pub open spec fn port_in(setting: Option<Seq<u8>>) -> Result<u16, ConfigError> {
    match setting {
        None => Ok(DEFAULT_PORT),
        Some(text) => match number_in(text) {
            Some(n) => if n <= u16::MAX {
                Ok(n as u16)
            } else {
                Err(ConfigError::BadPort)
            },
            None => Err(ConfigError::BadPort),
        },
    }
}

/// The capacity that a setting stands for: the default where it is absent,
/// else the number it writes, which must be positive and fit a `usize`.
pub open spec fn capacity_in(setting: Option<Seq<u8>>) -> Result<usize, ConfigError> {
    match setting {
        None => Ok(DEFAULT_CAPACITY),
        Some(text) => match number_in(text) {
            Some(n) => if 0 < n <= usize::MAX {
                Ok(n as usize)
            } else {
                Err(ConfigError::BadCapacity)
            },
            None => Err(ConfigError::BadCapacity),
        },
    }
}

/// A longer run of digits never writes a smaller number than its beginning.
proof fn lemma_digits_value_grows(digits: Seq<u8>, k: int)
    requires
        0 <= k <= digits.len(),
        forall|i: int| 0 <= i < digits.len() ==> is_digit(#[trigger] digits[i]),
    ensures
        digits_value(digits.subrange(0, k)) <= digits_value(digits),
    decreases digits.len() - k,
{
    if k == digits.len() {
        assert(digits.subrange(0, k) =~= digits);
    } else {
        let front = digits.drop_last();
        assert(front.subrange(0, k) =~= digits.subrange(0, k));
        lemma_digits_value_grows(front, k);
    }
}

/// Reads an unsigned decimal number: an optional `+`, then digits only.
/// Gives the number if the text writes one that fits 64 bits.
pub fn parse_decimal(text: &str) -> (parsed: Option<u64>)
    ensures
        parsed == match number_in(text.spec_bytes()) {
            Some(n) => if n <= u64::MAX {
                Some(n as u64)
            } else {
                None
            },
            None => None,
        },
{
    let bytes = text.as_bytes();
    let start: usize = if bytes.len() > 0 && bytes[0] == 0x2b {
        1
    } else {
        0
    };
    if start == bytes.len() {
        return None;
    }
    let ghost digits = digits_of(bytes@);
    let mut value: u64 = 0;
    let mut i: usize = start;
    while i < bytes.len()
        invariant
            start <= i <= bytes.len(),
            bytes@ == text.spec_bytes(),
            digits == digits_of(bytes@),
            digits == bytes@.subrange(start as int, bytes.len() as int),
            forall|j: int| 0 <= j < i - start ==> is_digit(#[trigger] digits[j]),
            value == digits_value(digits.subrange(0, i - start)),
        decreases bytes.len() - i,
    {
        let byte: u8 = bytes[i];
        if byte < 0x30 || byte > 0x39 {
            assert(!is_digit(digits[i - start]));
            return None;
        }
        let digit: u64 = (byte - 0x30) as u64;
        let ghost longer = digits.subrange(0, i - start + 1);
        assert(longer.drop_last() =~= digits.subrange(0, i - start));
        if value > (u64::MAX - digit) / 10 {
            proof {
                if forall|j: int| 0 <= j < digits.len() ==> is_digit(#[trigger] digits[j]) {
                    lemma_digits_value_grows(digits, i - start + 1);
                }
            }
            return None;
        }
        value = value * 10 + digit;
        i = i + 1;
    }
    assert(digits.subrange(0, i - start) =~= digits);
    Some(value)
}

/// The settings a hub starts with. The capacity is always positive.
#[derive(Clone, Copy, Debug)]
pub struct HubConfig {
    port: u16,
    capacity: usize,
}

/// A configuration as plain values.
pub struct ConfigView {
    pub port: u16,
    pub capacity: usize,
}

impl View for HubConfig {
    type V = ConfigView;

    closed spec fn view(&self) -> ConfigView {
        ConfigView { port: self.port, capacity: self.capacity }
    }
}

impl HubConfig {
    /// Every configuration has a positive capacity.
    #[verifier::type_invariant]
    pub open spec fn inv(self) -> bool {
        self@.capacity > 0
    }

    /// A configuration from numbers. A capacity of zero is refused.
    pub fn new(port: u16, capacity: usize) -> (made: Result<HubConfig, ConfigError>)
        ensures
            capacity == 0 ==> made == Err::<HubConfig, ConfigError>(ConfigError::BadCapacity),
            capacity > 0 ==> made is Ok && made->Ok_0@ == (ConfigView { port, capacity }),
    {
        if capacity == 0 {
            Err(ConfigError::BadCapacity)
        } else {
            Ok(HubConfig { port, capacity })
        }
    }

    /// A configuration from the text of its settings, as read from the
    /// environment; an absent setting takes its default. A bad port is
    /// reported before a bad capacity.
    pub fn from_settings(port: Option<&str>, capacity: Option<&str>) -> (made: Result<
        HubConfig,
        ConfigError,
    >)
        ensures
            ({
                let port_text = match port {
                    Some(text) => Some(text.spec_bytes()),
                    None => None,
                };
                let capacity_text = match capacity {
                    Some(text) => Some(text.spec_bytes()),
                    None => None,
                };
                match (port_in(port_text), capacity_in(capacity_text)) {
                    (Err(e), _) => made == Err::<HubConfig, ConfigError>(e),
                    (Ok(_), Err(e)) => made == Err::<HubConfig, ConfigError>(e),
                    (Ok(p), Ok(c)) => made is Ok && made->Ok_0@ == (ConfigView {
                        port: p,
                        capacity: c,
                    }),
                }
            }),
    {
        let port_number: u16 = match port {
            None => DEFAULT_PORT,
            Some(text) => match parse_decimal(text) {
                Some(n) => {
                    if n > 65535 {
                        return Err(ConfigError::BadPort);
                    }
                    n as u16
                },
                None => {
                    return Err(ConfigError::BadPort);
                },
            },
        };
        let capacity_number: usize = match capacity {
            None => DEFAULT_CAPACITY,
            Some(text) => match parse_decimal(text) {
                Some(n) => {
                    if n == 0 || n > usize::MAX as u64 {
                        return Err(ConfigError::BadCapacity);
                    }
                    n as usize
                },
                None => {
                    return Err(ConfigError::BadCapacity);
                },
            },
        };
        Ok(HubConfig { port: port_number, capacity: capacity_number })
    }

    /// The port to listen on.
    pub fn port(&self) -> (port: u16)
        ensures
            port == self@.port,
    {
        self.port
    }

    /// The channel's capacity; never zero.
    pub fn capacity(&self) -> (capacity: usize)
        ensures
            capacity == self@.capacity,
    {
        self.capacity
    }
}

impl Default for HubConfig {
    /// The default port and the default capacity.
    fn default() -> (made: HubConfig)
        ensures
            made@ == (ConfigView { port: DEFAULT_PORT, capacity: DEFAULT_CAPACITY }),
    {
        HubConfig { port: DEFAULT_PORT, capacity: DEFAULT_CAPACITY }
    }
}

} // verus!
