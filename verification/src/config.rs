//! Process configuration: the bind address and the persistence
//! collaborator's coordinates, assembled and validated from plain values.
//! Reading the environment is I/O and happens outside this crate; the
//! caller hands in each variable's value, or nothing where it is unset.

use vstd::prelude::*;
use crate::datetime::{is_digit, digit_val};
use crate::text::spec_u64_chars;
use crate::text::u64_to_string;
use vstd::string::StrSliceExecFns;
use vstd::string::StringExecFns;

verus! {

/// Server configuration.
pub struct Config {
    pub host: String,
    pub port: u16,
    pub db_host: String,
    pub db_port: u16,
    pub db_name: String,
    pub db_user: String,
    pub db_pass: String,
}

/// Why configuration assembly failed, in the order the variables are
/// checked.
#[derive(Clone, Copy, PartialEq, Eq, Structural, Debug)]
pub enum ConfigError {
    InvalidPort,
    MissingDbHost,
    MissingDbPort,
    InvalidDbPort,
    MissingDbName,
    MissingDbUser,
    MissingDbPass,
}

/// The value of a sequence of decimal digits, most significant first.
pub open spec fn dec_val(s: Seq<char>) -> int
    decreases s.len(),
{
    if s.len() == 0 {
        0
    } else {
        dec_val(s.drop_last()) * 10 + digit_val(s.last())
    }
}

/// The digits of a number text, with one optional leading plus sign
/// stripped.
pub open spec fn spec_digits_of(s: Seq<char>) -> Seq<char> {
    if s.len() > 0 && s[0] == '+' {
        s.skip(1)
    } else {
        s
    }
}

/// Whether a text parses as a 16-bit unsigned number: an optional plus
/// sign, then at least one digit, denoting a value within range.
pub open spec fn valid_u16_chars(s: Seq<char>) -> bool {
    let digits = spec_digits_of(s);
    &&& digits.len() > 0
    &&& forall|i: int| 0 <= i < digits.len() ==> is_digit(#[trigger] digits[i])
    &&& dec_val(digits) <= u16::MAX
}

/// A digit appended to the right can only grow the value.
proof fn lemma_dec_val_monotone(s: Seq<char>, k: int)
    requires
        0 <= k <= s.len(),
        forall|i: int| 0 <= i < s.len() ==> is_digit(#[trigger] s[i]),
    ensures
        dec_val(s.take(k)) <= dec_val(s),
    decreases s.len() - k,
{
    if k < s.len() {
        lemma_dec_val_monotone(s, k + 1);
        assert(s.take(k + 1).drop_last() =~= s.take(k));
        assert(s.take(k + 1).last() == s[k]);
        assert(dec_val(s.take(k)) * 10 + digit_val(s[k]) >= dec_val(s.take(k))) by {
            assert(dec_val(s.take(k)) >= 0) by {
                lemma_dec_val_nonneg(s.take(k));
            }
        }
    } else {
        assert(s.take(k) =~= s);
    }
}

/// The value of a digit text is never negative.
proof fn lemma_dec_val_nonneg(s: Seq<char>)
    ensures
        (forall|i: int| 0 <= i < s.len() ==> is_digit(#[trigger] s[i])) ==> dec_val(s) >= 0,
    decreases s.len(),
{
    if s.len() > 0 {
        lemma_dec_val_nonneg(s.drop_last());
    }
}

/// Parses a 16-bit unsigned number from text, as the original
/// configuration did: an optional plus sign, then decimal digits.
#[verifier::rlimit(60)]
pub fn parse_u16(s: &str) -> (r: Option<u16>)
    ensures
        r is Some <==> valid_u16_chars(s@),
        r is Some ==> r.unwrap() == dec_val(spec_digits_of(s@)),
{
    let n = s.unicode_len();
    let start: usize = if n > 0 && s.get_char(0) == '+' {
        1
    } else {
        0
    };
    let ghost digits = spec_digits_of(s@);
    proof {
        if start == 1 {
            assert(digits =~= s@.skip(1));
        }
    }
    if n == start {
        return None;
    }
    let mut acc: u32 = 0;
    let mut i: usize = start;
    proof {
        assert(digits.take(0) =~= Seq::<char>::empty());
    }
    while i < n
        invariant
            n == s@.len(),
            start <= i <= n,
            start <= 1,
            digits == spec_digits_of(s@),
            digits =~= s@.skip(start as int),
            n - start == digits.len(),
            forall|j: int| 0 <= j < i - start ==> is_digit(#[trigger] digits[j]),
            acc == dec_val(digits.take(i - start)),
            acc <= u16::MAX,
        decreases n - i,
    {
        let c = s.get_char(i);
        let u = c as u32;
        proof {
            assert(digits[i - start] == s@[i as int]);
        }
        if !(48 <= u && u <= 57) {
            proof {
                assert(!is_digit(digits[i - start]));
            }
            return None;
        }
        proof {
            assert(digits.take(i - start + 1).drop_last() =~= digits.take(i - start));
            assert(digits.take(i - start + 1).last() == digits[i - start]);
        }
        acc = acc * 10 + (u - 48);
        if acc > u16::MAX as u32 {
            proof {
                lemma_dec_val_monotone_partial(digits, i - start + 1);
            }
            return None;
        }
        i += 1;
    }
    proof {
        assert(digits.take(n - start) =~= digits);
    }
    Some(acc as u16)
}

/// Once a digit prefix exceeds the range, the whole text does.
proof fn lemma_dec_val_monotone_partial(s: Seq<char>, k: int)
    requires
        0 <= k <= s.len(),
        forall|i: int| 0 <= i < k ==> is_digit(#[trigger] s[i]),
        dec_val(s.take(k)) > u16::MAX,
    ensures
        (forall|i: int| 0 <= i < s.len() ==> is_digit(#[trigger] s[i])) ==> dec_val(s) > u16::MAX,
{
    if forall|i: int| 0 <= i < s.len() ==> is_digit(#[trigger] s[i]) {
        lemma_dec_val_monotone(s, k);
    }
}

/// The error, if any, that configuration assembly reports, checking the
/// variables in a fixed order.
pub open spec fn spec_config_check(
    port: Option<String>,
    db_host: Option<String>,
    db_port: Option<String>,
    db_name: Option<String>,
    db_user: Option<String>,
    db_pass: Option<String>,
) -> Option<ConfigError> {
    let ps = if port is Some {
        port.unwrap()@
    } else {
        "8080"@
    };
    if !valid_u16_chars(ps) {
        Some(ConfigError::InvalidPort)
    } else if db_host is None {
        Some(ConfigError::MissingDbHost)
    } else if db_port is None {
        Some(ConfigError::MissingDbPort)
    } else if !valid_u16_chars(db_port.unwrap()@) {
        Some(ConfigError::InvalidDbPort)
    } else if db_name is None {
        Some(ConfigError::MissingDbName)
    } else if db_user is None {
        Some(ConfigError::MissingDbUser)
    } else if db_pass is None {
        Some(ConfigError::MissingDbPass)
    } else {
        None
    }
}

impl Config {
    /// Assembles the configuration from the environment's values.  The
    /// bind host defaults to "127.0.0.1" and the port text to "8080"; the
    /// persistence variables must all be set.
    pub fn from_vars(
        host: Option<String>,
        port: Option<String>,
        db_host: Option<String>,
        db_port: Option<String>,
        db_name: Option<String>,
        db_user: Option<String>,
        db_pass: Option<String>,
    ) -> (r: Result<Config, ConfigError>)
        ensures
            spec_config_check(port, db_host, db_port, db_name, db_user, db_pass) matches Some(e)
                ==> r == Err::<Config, ConfigError>(e),
            spec_config_check(port, db_host, db_port, db_name, db_user, db_pass) is None ==> {
                &&& r is Ok
                &&& r.unwrap().host@ == (if host is Some {
                    host.unwrap()@
                } else {
                    "127.0.0.1"@
                })
                &&& r.unwrap().port == dec_val(
                    spec_digits_of(
                        if port is Some {
                            port.unwrap()@
                        } else {
                            "8080"@
                        },
                    ),
                )
                &&& r.unwrap().db_host@ == db_host.unwrap()@
                &&& r.unwrap().db_port == dec_val(spec_digits_of(db_port.unwrap()@))
                &&& r.unwrap().db_name@ == db_name.unwrap()@
                &&& r.unwrap().db_user@ == db_user.unwrap()@
                &&& r.unwrap().db_pass@ == db_pass.unwrap()@
            },
    {
        let host_value: String = match host {
            Some(h) => h,
            None => String::from_str("127.0.0.1"),
        };
        let port_text: String = match port {
            Some(p) => p,
            None => String::from_str("8080"),
        };
        let port_value: u16 = match parse_u16(port_text.as_str()) {
            Some(p) => p,
            None => {
                return Err(ConfigError::InvalidPort);
            },
        };
        let db_host_value: String = match db_host {
            Some(h) => h,
            None => {
                return Err(ConfigError::MissingDbHost);
            },
        };
        let db_port_text: String = match db_port {
            Some(p) => p,
            None => {
                return Err(ConfigError::MissingDbPort);
            },
        };
        let db_port_value: u16 = match parse_u16(db_port_text.as_str()) {
            Some(p) => p,
            None => {
                return Err(ConfigError::InvalidDbPort);
            },
        };
        let db_name_value: String = match db_name {
            Some(v) => v,
            None => {
                return Err(ConfigError::MissingDbName);
            },
        };
        let db_user_value: String = match db_user {
            Some(v) => v,
            None => {
                return Err(ConfigError::MissingDbUser);
            },
        };
        let db_pass_value: String = match db_pass {
            Some(v) => v,
            None => {
                return Err(ConfigError::MissingDbPass);
            },
        };
        Ok(Config {
            host: host_value,
            port: port_value,
            db_host: db_host_value,
            db_port: db_port_value,
            db_name: db_name_value,
            db_user: db_user_value,
            db_pass: db_pass_value,
        })
    }
}

/// The connection URL the persistence collaborator is reached under: the
/// password and its separator appear exactly when a password is set.
pub open spec fn spec_connection_url(c: Config) -> Seq<char> {
    if c.db_pass@.len() == 0 {
        "mysql://"@ + c.db_user@ + "@"@ + c.db_host@ + ":"@ + spec_u64_chars(c.db_port as int)
            + "/"@ + c.db_name@
    } else {
        "mysql://"@ + c.db_user@ + ":"@ + c.db_pass@ + "@"@ + c.db_host@ + ":"@ + spec_u64_chars(
            c.db_port as int,
        ) + "/"@ + c.db_name@
    }
}

/// Builds the persistence connection URL.
pub fn connection_url(config: &Config) -> (r: String)
    ensures
        r@ == spec_connection_url(*config),
{
    let mut url = String::from_str("mysql://");
    url.append(config.db_user.as_str());
    if config.db_pass.as_str().unicode_len() > 0 {
        url.append(":");
        url.append(config.db_pass.as_str());
    }
    url.append("@");
    url.append(config.db_host.as_str());
    url.append(":");
    url.append(u64_to_string(config.db_port as u64).as_str());
    url.append("/");
    url.append(config.db_name.as_str());
    proof {
        assert(url@ =~= spec_connection_url(*config));
    }
    url
}

} // verus!
