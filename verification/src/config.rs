//! The three values a deployment is configured with: the port to listen on
//! and the two tokens. They are read once, before the store is made.

use crate::text::text_of;
use vstd::prelude::*;
use vstd::string::{is_ascii_spec_bytes, StringSliceAdditionalSpecFns};

verus! {

/// The section of the configuration file that holds the three values.
pub const SECTION: &'static str = "keyvaluestore";

/// The name under which the configuration file gives the port.
pub const PORT_KEY: &'static str = "port";

/// The name under which the configuration file gives the read token.
pub const READ_TOKEN_KEY: &'static str = "read_token";

/// The name under which the configuration file gives the write token.
pub const WRITE_TOKEN_KEY: &'static str = "write_token";

/// Why a configuration was turned down. Each is fatal: without a complete
/// configuration no store is made and nothing is served.
#[derive(Clone, Copy, Debug, PartialEq, Eq, Structural)]
pub enum ConfigError {
    /// No port was given.
    MissingPort,
    /// The port is not a decimal number from 0 to 65535.
    InvalidPort,
    /// No read token was given.
    MissingReadToken,
    /// No write token was given.
    MissingWriteToken,
}

/// What an [`AppConfig`] holds, as mathematical values.
pub struct AppConfigView {
    /// The port to listen on.
    pub port: u16,
    /// The token that authorizes reads.
    pub read_token: Seq<char>,
    /// The token that authorizes writes.
    pub write_token: Seq<char>,
}

/// A complete configuration.
#[derive(Debug, PartialEq, Eq)]
pub struct AppConfig {
    /// The port to listen on.
    pub port: u16,
    /// The token that authorizes reads.
    pub read_token: String,
    /// The token that authorizes writes.
    pub write_token: String,
}

impl View for AppConfig {
    type V = AppConfigView;

    open spec fn view(&self) -> AppConfigView {
        AppConfigView {
            port: self.port,
            read_token: self.read_token@,
            write_token: self.write_token@,
        }
    }
}

/// Whether `c` is one of the ten decimal digits `0` to `9`.
pub open spec fn is_digit(c: char) -> bool {
    '0' <= c <= '9'
}

/// The number that the digit `c` stands for.
pub open spec fn digit_value(c: char) -> nat {
    if is_digit(c) {
        (c as u32 - '0' as u32) as nat
    } else {
        0
    }
}

/// Whether `text` is made of decimal digits alone.
pub open spec fn all_digits(text: Seq<char>) -> bool {
    forall|i: int| 0 <= i < text.len() ==> is_digit(#[trigger] text[i])
}

/// The number that the digits of `text` write in base ten.
pub open spec fn decimal_value(text: Seq<char>) -> nat
    decreases text.len(),
{
    if text.len() == 0 {
        0
    } else {
        10 * decimal_value(text.drop_last()) + digit_value(text.last())
    }
}

/// `text` without its leading `+`, if it has one.
pub open spec fn without_sign(text: Seq<char>) -> Seq<char> {
    if text.len() > 0 && text[0] == '+' {
        text.drop_first()
    } else {
        text
    }
}

/// The port that `text` names: an optional `+` and then one or more decimal
/// digits that write a number up to 65535. Leading zeros are allowed;
/// spaces, a `-` and any other character are not.
pub open spec fn port_of(text: Seq<char>) -> Option<u16> {
    let digits = without_sign(text);
    if digits.len() > 0 && all_digits(digits) && decimal_value(digits) <= u16::MAX {
        Some(decimal_value(digits) as u16)
    } else {
        None
    }
}

/// The configuration that the three values make, or the first thing that is
/// wrong with them, taking the port first, then the read token, then the
/// write token.
pub open spec fn config_of(
    port: Option<Seq<char>>,
    read_token: Option<Seq<char>>,
    write_token: Option<Seq<char>>,
) -> Result<AppConfigView, ConfigError> {
    match port {
        None => Err(ConfigError::MissingPort),
        Some(port_text) => match port_of(port_text) {
            None => Err(ConfigError::InvalidPort),
            Some(port) => match read_token {
                None => Err(ConfigError::MissingReadToken),
                Some(read_token) => match write_token {
                    None => Err(ConfigError::MissingWriteToken),
                    Some(write_token) => Ok(AppConfigView { port, read_token, write_token }),
                },
            },
        },
    }
}

/// What the outcome of putting a configuration together holds, as
/// mathematical values.
pub open spec fn config_view(config: Result<AppConfig, ConfigError>) -> Result<
    AppConfigView,
    ConfigError,
> {
    match config {
        Ok(config) => Ok(config@),
        Err(error) => Err(error),
    }
}

/// A number written with more digits is no smaller than the number its
/// first digits write.
pub proof fn lemma_decimal_value_grows(text: Seq<char>, n: int)
    requires
        0 <= n <= text.len(),
    ensures
        decimal_value(text.take(n)) <= decimal_value(text),
    decreases text.len() - n,
{
    if n == text.len() {
        assert(text.take(n) =~= text);
    } else {
        lemma_decimal_value_grows(text, n + 1);
        assert(text.take(n + 1).drop_last() =~= text.take(n));
    }
}

/// The byte of the character `+`.
const PLUS: u8 = 43;

/// The byte of the character `0`.
const DIGIT_ZERO: u8 = 48;

/// The byte of the character `9`.
const DIGIT_NINE: u8 = 57;

/// On a character of the ASCII range, being a digit and standing for a
/// number can be read off its byte.
proof fn lemma_digit_byte(c: char)
    requires
        c <= '\u{7f}',
    ensures
        is_digit(c) <==> DIGIT_ZERO <= c as u8 <= DIGIT_NINE,
        is_digit(c) ==> digit_value(c) == c as u8 - DIGIT_ZERO,
        c == '+' <==> c as u8 == PLUS,
{
}

/// Reads a port number. See [`port_of`] for what is accepted.
pub fn parse_port(text: &str) -> (port: Option<u16>)
    ensures
        port == port_of(text@),
{
    if !text.is_ascii() {
        proof {
            let i = choose|i: int|
                0 <= i < text@.len() && !('\0' <= #[trigger] text@[i] <= '\u{7f}');
            if i > 0 {
                assert(without_sign(text@)[i - 1] == text@[i] || without_sign(text@)[i]
                    == text@[i]);
            } else {
                assert(without_sign(text@)[0] == text@[0]);
            }
        }
        return None;
    }
    proof {
        is_ascii_spec_bytes(text);
    }
    let bytes = text.as_bytes();
    let n = bytes.len();
    let ghost digits = without_sign(text@);
    let mut i: usize = 0;
    if n > 0 && bytes[0] == PLUS {
        i = 1;
    }
    let ghost start = i as int;
    proof {
        if n > 0 {
            lemma_digit_byte(text@[0]);
        }
        assert(digits =~= text@.skip(start));
    }
    if i == n {
        return None;
    }
    let mut value: u32 = 0;
    while i < n
        invariant
            0 <= start <= i <= n,
            n == bytes@.len(),
            n == text@.len(),
            digits == text@.skip(start),
            digits == without_sign(text@),
            vstd::utf8::is_ascii_chars(text@),
            forall|j: int| 0 <= j < n ==> #[trigger] bytes@[j] == text@[j] as u8,
            all_digits(digits.take(i - start)),
            value == decimal_value(digits.take(i - start)),
            value <= u16::MAX,
        decreases n - i,
    {
        let byte = bytes[i];
        let ghost seen = digits.take(i - start);
        let ghost next = digits.take(i - start + 1);
        proof {
            assert(digits[i - start] == text@[i as int]);
            lemma_digit_byte(text@[i as int]);
            assert(byte == bytes@[i as int]);
        }
        if byte < DIGIT_ZERO || byte > DIGIT_NINE {
            assert(!is_digit(digits[i - start]));
            return None;
        }
        proof {
            assert(next.drop_last() =~= seen);
            assert(next.last() == digits[i - start]);
            assert forall|j: int| 0 <= j < next.len() implies is_digit(#[trigger] next[j]) by {
                if j < seen.len() {
                    assert(next[j] == seen[j]);
                }
            }
        }
        value = value * 10 + (byte - DIGIT_ZERO) as u32;
        if value > 65535u32 {
            proof {
                lemma_decimal_value_grows(digits, i - start + 1);
            }
            return None;
        }
        i += 1;
    }
    assert(digits.take(i - start) =~= digits);
    Some(value as u16)
}

impl AppConfig {
    /// Puts a configuration together from the three values as they were
    /// found, each `None` where it was missing.
    pub fn from_values(
        port: Option<String>,
        read_token: Option<String>,
        write_token: Option<String>,
    ) -> (config: Result<AppConfig, ConfigError>)
        ensures
            config_view(config) == config_of(text_of(port), text_of(read_token), text_of(write_token)),
    {
        let port_text = match port {
            Some(text) => text,
            None => { return Err(ConfigError::MissingPort); },
        };
        let port = match parse_port(port_text.as_str()) {
            Some(number) => number,
            None => { return Err(ConfigError::InvalidPort); },
        };
        let read_token = match read_token {
            Some(token) => token,
            None => { return Err(ConfigError::MissingReadToken); },
        };
        let write_token = match write_token {
            Some(token) => token,
            None => { return Err(ConfigError::MissingWriteToken); },
        };
        Ok(AppConfig { port, read_token, write_token })
    }
}

} // verus!
