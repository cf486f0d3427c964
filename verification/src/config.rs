//! The settings of the service, from the values that its environment gives.
//!
//! Reading the environment is left to the caller, who hands over what each
//! variable holds, or `None` for a variable that is not set.

use std::sync::Arc;
use vstd::prelude::*;
use vstd::string::*;

verus! {

/// How much is logged.
#[derive(Clone, Copy, Debug)]
pub enum LogLevel {
    Off,
    Error,
    Warn,
    Info,
    Debug,
    Trace,
}

/// The level that `log` reads from a text, `None` where it reads none.
pub uninterp spec fn level_filter(text: Seq<char>) -> Option<LogLevel>;

/// Calls `str::parse` for a `log::LevelFilter` and hands back the level under
/// its own name. Trusted: the level is taken to depend on the text alone,
/// named [`level_filter`].
#[verifier::external_body]
pub(crate) fn level_from_str(text: &str) -> (level: Option<LogLevel>)
    ensures
        level == level_filter(text@),
{
    match text.parse::<log::LevelFilter>() {
        Ok(log::LevelFilter::Off) => Some(LogLevel::Off),
        Ok(log::LevelFilter::Error) => Some(LogLevel::Error),
        Ok(log::LevelFilter::Warn) => Some(LogLevel::Warn),
        Ok(log::LevelFilter::Info) => Some(LogLevel::Info),
        Ok(log::LevelFilter::Debug) => Some(LogLevel::Debug),
        Ok(log::LevelFilter::Trace) => Some(LogLevel::Trace),
        Err(_) => None,
    }
}

/// Whether a character is a decimal digit.
pub open spec fn is_digit(c: char) -> bool {
    48 <= c as u32 <= 57
}

/// The value of a decimal digit.
pub open spec fn digit_value(c: char) -> nat {
    (c as u32 - 48) as nat
}

/// Whether a text holds nothing but decimal digits.
pub open spec fn is_digits(text: Seq<char>) -> bool {
    forall|i: int| 0 <= i < text.len() ==> is_digit(#[trigger] text[i])
}

/// The number that a text of decimal digits writes.
pub open spec fn decimal(text: Seq<char>) -> nat
    decreases text.len(),
{
    if text.len() == 0 {
        0
    } else {
        decimal(text.drop_last()) * 10 + digit_value(text.last())
    }
}

/// A text without the plus sign that may stand in front of a number.
pub open spec fn unsigned(text: Seq<char>) -> Seq<char> {
    if text.len() > 0 && text[0] == '+' {
        text.drop_first()
    } else {
        text
    }
}

/// The port that a text names: one or more decimal digits, with or without
/// a plus sign in front, that write a number up to 65535.
pub open spec fn port_number(text: Seq<char>) -> Option<u16> {
    let digits = unsigned(text);
    if digits.len() > 0 && is_digits(digits) && decimal(digits) <= 65535 {
        Some(decimal(digits) as u16)
    } else {
        None
    }
}

/// A number is at least what any of its leading digits write.
pub proof fn lemma_decimal_grows(text: Seq<char>, k: int)
    requires
        0 <= k <= text.len(),
    ensures
        decimal(text.subrange(0, k)) <= decimal(text),
    decreases text.len() - k,
{
    if k == text.len() {
        assert(text.subrange(0, k) =~= text);
    } else {
        lemma_decimal_grows(text.drop_last(), k);
        assert(text.drop_last().subrange(0, k) =~= text.subrange(0, k));
    }
}

/// Reads a port from a text.
pub fn parse_port(text: &str) -> (port: Option<u16>)
    ensures
        port == port_number(text@),
{
    let len = text.unicode_len();
    let start: usize = if len > 0 && text.get_char(0) == '+' {
        1
    } else {
        0
    };
    if start == len {
        return None;
    }
    let ghost digits = unsigned(text@);
    assert(digits =~= text@.subrange(start as int, len as int));
    let mut value: u32 = 0;
    let mut i: usize = start;
    assert(digits.subrange(0, 0) =~= Seq::<char>::empty());
    while i < len
        invariant
            start <= i <= len,
            len == text@.len(),
            digits == text@.subrange(start as int, len as int),
            digits == unsigned(text@),
            is_digits(digits.subrange(0, i - start)),
            value == decimal(digits.subrange(0, i - start)),
            value <= 65535,
        decreases len - i,
    {
        let c = text.get_char(i);
        let code: u32 = c as u32;
        assert(digits[i - start] == c);
        if code < 48 || code > 57 {
            assert(!is_digit(digits[i - start]));
            return None;
        }
        let next: u32 = value * 10 + (code - 48);
        proof {
            let longer = digits.subrange(0, i - start + 1);
            assert(longer.drop_last() =~= digits.subrange(0, i - start));
            assert(longer.last() == c);
            assert(decimal(longer) == next);
            assert forall|k: int| 0 <= k < longer.len() implies is_digit(#[trigger] longer[k]) by {
                if k < longer.len() - 1 {
                    assert(longer[k] == digits.subrange(0, i - start)[k]);
                }
            }
        }
        if next > 65535 {
            proof {
                lemma_decimal_grows(digits, i - start + 1);
            }
            return None;
        }
        value = next;
        i += 1;
    }
    assert(digits.subrange(0, i - start) =~= digits);
    Some(value as u16)
}

/// What the environment holds for each variable that the service reads.
#[derive(Debug)]
pub struct EnvValues {
    /// `DATABASE_URL_CHAT_SERVICE`
    pub database_url: Option<String>,
    /// `JWT_SECRET`
    pub jwt_secret: Option<String>,
    /// `CHAT_SERVICE_HOST`
    pub host: Option<String>,
    /// `CHAT_SERVICE_PORT`
    pub port: Option<String>,
    /// `USER_SERVICE_GRPC_PORT`
    pub grpc_port: Option<String>,
    /// `LOG_LEVEL`
    pub log_level: Option<String>,
}

/// The settings of the service.
pub struct Config {
    pub database_url: String,
    pub jwt_secret: Arc<String>,
    /// The host that the HTTP server listens on.
    pub host: String,
    /// The port that the HTTP server listens on.
    pub port: u16,
    /// The port of the identity service.
    pub grpc_port: u16,
    pub log_level: LogLevel,
}

/// The text of the identity service's port: what is set, or `50052`.
pub open spec fn grpc_port_text(values: EnvValues) -> Seq<char> {
    match values.grpc_port {
        Some(text) => text@,
        None => "50052"@,
    }
}

/// The text of the log level: what is set, or `info`.
pub open spec fn log_level_text(values: EnvValues) -> Seq<char> {
    match values.log_level {
        Some(text) => text@,
        None => "info"@,
    }
}

/// What is wrong with the values, if anything: the first variable, in the
/// order of the fields, that is needed and not set, or that does not read as
/// what it stands for.
pub open spec fn config_fault(values: EnvValues) -> Option<Seq<char>> {
    if values.database_url is None {
        Some("DATABASE_URL_CHAT_SERVICE must be set"@)
    } else if values.jwt_secret is None {
        Some("JWT_SECRET must be set"@)
    } else if values.host is None {
        Some("CHAT_SERVICE_HOST must be set"@)
    } else if values.port is None {
        Some("CHAT_SERVICE_PORT must be set"@)
    } else if port_number(values.port->Some_0@) is None {
        Some("CHAT_SERVICE_PORT must be a valid port number"@)
    } else if port_number(grpc_port_text(values)) is None {
        Some("USER_SERVICE_GRPC_PORT must be a valid port number"@)
    } else if level_filter(log_level_text(values)) is None {
        Some("LOG_LEVEL must be a valid log level (e.g., info, debug)"@)
    } else {
        None
    }
}

/// Whether `config` holds what `values` say.
pub open spec fn config_of(values: EnvValues, config: Config) -> bool {
    &&& values.database_url == Some(config.database_url)
    &&& values.jwt_secret == Some(*config.jwt_secret)
    &&& values.host == Some(config.host)
    &&& port_number(values.port->Some_0@) == Some(config.port)
    &&& port_number(grpc_port_text(values)) == Some(config.grpc_port)
    &&& level_filter(log_level_text(values)) == Some(config.log_level)
}

impl Config {
    /// The settings that the values of the environment give, or what is
    /// wrong with them.
    pub fn from_values(values: EnvValues) -> (r: Result<Config, String>)
        ensures
            match config_fault(values) {
                Some(message) => r is Err && r->Err_0@ == message,
                None => r is Ok && config_of(values, r->Ok_0),
            },
    {
        let database_url = match values.database_url {
            Some(url) => url,
            None => {
                return Err(String::from_str("DATABASE_URL_CHAT_SERVICE must be set"));
            },
        };
        let jwt_secret = match values.jwt_secret {
            Some(secret) => secret,
            None => {
                return Err(String::from_str("JWT_SECRET must be set"));
            },
        };
        let host = match values.host {
            Some(host) => host,
            None => {
                return Err(String::from_str("CHAT_SERVICE_HOST must be set"));
            },
        };
        let port_text = match values.port {
            Some(text) => text,
            None => {
                return Err(String::from_str("CHAT_SERVICE_PORT must be set"));
            },
        };
        let port = match parse_port(port_text.as_str()) {
            Some(port) => port,
            None => {
                return Err(String::from_str("CHAT_SERVICE_PORT must be a valid port number"));
            },
        };
        let grpc_port = match values.grpc_port {
            Some(text) => parse_port(text.as_str()),
            None => parse_port("50052"),
        };
        let grpc_port = match grpc_port {
            Some(port) => port,
            None => {
                return Err(String::from_str("USER_SERVICE_GRPC_PORT must be a valid port number"));
            },
        };
        let log_level = match values.log_level {
            Some(text) => level_from_str(text.as_str()),
            None => level_from_str("info"),
        };
        let log_level = match log_level {
            Some(level) => level,
            None => {
                return Err(
                    String::from_str("LOG_LEVEL must be a valid log level (e.g., info, debug)"),
                );
            },
        };
        Ok(Config { database_url, jwt_secret: Arc::new(jwt_secret), host, port, grpc_port, log_level })
    }

    /// The address of the HTTP server, for the resolver: the host, a colon
    /// and the port.
    pub fn http_addr(&self) -> (addr: String)
        ensures
            exists|port: String|
                to_string_from_display_ensures::<u16>(&self.port, port) && addr@ == self.host@
                    + ":"@ + port@,
    {
        let port = self.port.to_string();
        let mut addr = self.host.clone();
        addr.append(":");
        addr.append(port.as_str());
        addr
    }

    /// The address of the identity service: the local host under the
    /// service's port.
    pub fn grpc_addr(&self) -> (addr: String)
        ensures
            exists|port: String|
                to_string_from_display_ensures::<u16>(&self.grpc_port, port) && addr@
                    == "http://[::1]:"@ + port@,
    {
        let port = self.grpc_port.to_string();
        String::from_str("http://[::1]:").concat(port.as_str())
    }
}

} // verus!
