//! Settings the simulator is started with, and how they are read from the environment.

use crate::errors::ConfigError;
use crate::numeric::decimal_number;
use std::collections::HashMap;
use vstd::prelude::*;

verus! {

/// The settings of one running simulator.
#[derive(Debug, Clone)]
pub struct Config {
    /// Number of the TCP socket the service listens on.
    pub port: u16,
    /// When set, every fork is made from this endpoint and chain identifiers are not resolved.
    pub fork_url: Option<String>,
    /// Key handed to the engine for contract look-ups while tracing.
    pub etherscan_key: Option<String>,
    /// Key a caller has to present.
    pub api_key: Option<String>,
    /// Largest accepted request body, in bytes.
    pub max_request_size: u64,
    /// Endpoints set by the operator, by chain identifier.
    pub rpc_urls: HashMap<u64, String>,
}

/// The listening socket's number where the environment names none.
pub const DEFAULT_PORT: u16 = 8080;

/// The largest request body, in kibibytes, where the environment names none.
pub const DEFAULT_MAX_REQUEST_SIZE: u64 = 16;

/// The value of the variable `name` in an environment given as pairs of name and value; of
/// several entries with one name the last counts.
pub open spec fn env_value(vars: Seq<(String, String)>, name: Seq<char>) -> Option<Seq<char>>
    decreases vars.len(),
{
    if vars.len() == 0 {
        None
    } else if vars.last().0@ == name {
        Some(vars.last().1@)
    } else {
        env_value(vars.drop_last(), name)
    }
}

/// A value that counts only if it is not empty.
pub open spec fn non_empty(value: Option<Seq<char>>) -> Option<Seq<char>> {
    match value {
        Some(text) => if text.len() > 0 {
            Some(text)
        } else {
            None
        },
        None => None,
    }
}

/// The number that a text writes in decimal, if it is at most `max`: an optional `+`
/// followed by one digit or more and nothing else.
pub open spec fn parsed_integer(text: Seq<char>, max: nat) -> Option<nat> {
    let digits = if text.len() > 0 && text[0] == '+' {
        text.skip(1)
    } else {
        text
    };
    if digits.len() == 0 {
        None
    } else {
        match decimal_number(digits) {
            Some(number) => if number <= max {
                Some(number)
            } else {
                None
            },
            None => None,
        }
    }
}

/// Whether `text` starts with `prefix`.
pub open spec fn has_prefix(text: Seq<char>, prefix: Seq<char>) -> bool {
    prefix.len() <= text.len() && text.take(prefix.len() as int) == prefix
}

/// The entry that one variable adds to the operator's table of endpoints: a variable named
/// `RPC_URL_` and a chain identifier, with a value that is not empty.
pub open spec fn rpc_url_entry(name: Seq<char>, value: Seq<char>) -> Option<(u64, Seq<char>)> {
    if has_prefix(name, "RPC_URL_"@) && value.len() > 0 {
        match parsed_integer(name.skip("RPC_URL_"@.len() as int), u64::MAX as nat) {
            Some(chain_id) => Some((chain_id as u64, value)),
            None => None,
        }
    } else {
        None
    }
}

/// The operator's table of endpoints that an environment describes; of several entries for
/// one chain the last counts.
pub open spec fn rpc_url_table(vars: Seq<(String, String)>) -> Map<u64, Seq<char>>
    decreases vars.len(),
{
    if vars.len() == 0 {
        Map::empty()
    } else {
        match rpc_url_entry(vars.last().0@, vars.last().1@) {
            Some((chain_id, url)) => rpc_url_table(vars.drop_last()).insert(chain_id, url),
            None => rpc_url_table(vars.drop_last()),
        }
    }
}

/// The listening socket's number that an environment asks for: what `PORT` writes, 8080
/// without it.
pub open spec fn configured_port(vars: Seq<(String, String)>) -> Option<nat> {
    match env_value(vars, "PORT"@) {
        Some(text) => parsed_integer(text, u16::MAX as nat),
        None => Some(DEFAULT_PORT as nat),
    }
}

/// The largest request body in bytes that an environment asks for: 1024 times what
/// `MAX_REQUEST_SIZE` writes, 16 without it, if that fits in 64 bits.
pub open spec fn configured_max_request_size(vars: Seq<(String, String)>) -> Option<nat> {
    let kibibytes = match env_value(vars, "MAX_REQUEST_SIZE"@) {
        Some(text) => parsed_integer(text, u64::MAX as nat),
        None => Some(DEFAULT_MAX_REQUEST_SIZE as nat),
    };
    match kibibytes {
        Some(number) => if number * 1024 <= u64::MAX {
            Some(number * 1024)
        } else {
            None
        },
        None => None,
    }
}

/// The text of an optional string.
pub open spec fn text_of(value: Option<String>) -> Option<Seq<char>> {
    match value {
        Some(text) => Some(text@),
        None => None,
    }
}

impl Config {
    /// Whether these are the settings that an environment describes.
    pub open spec fn reads(self, vars: Seq<(String, String)>) -> bool {
        &&& configured_port(vars) == Some(self.port as nat)
        &&& configured_max_request_size(vars) == Some(self.max_request_size as nat)
        &&& text_of(self.fork_url) == non_empty(env_value(vars, "FORK_URL"@))
        &&& text_of(self.etherscan_key) == non_empty(env_value(vars, "ETHERSCAN_KEY"@))
        &&& text_of(self.api_key) == non_empty(env_value(vars, "API_KEY"@))
        &&& self.rpc_urls@.dom() == rpc_url_table(vars).dom()
        &&& forall|chain_id: u64| #[trigger]
            self.rpc_urls@.contains_key(chain_id) ==> self.rpc_urls@[chain_id]@ == rpc_url_table(
                vars,
            )[chain_id]
    }
}

/// Whether two texts are the same.
fn same_text(left: &str, right: &str) -> (same: bool)
    ensures
        same == (left@ == right@),
{
    let length = left.unicode_len();
    if length != right.unicode_len() {
        return false;
    }
    let mut i: usize = 0;
    while i < length
        invariant
            length == left@.len(),
            length == right@.len(),
            i <= length,
            left@.take(i as int) == right@.take(i as int),
        decreases length - i,
    {
        if left.get_char(i) != right.get_char(i) {
            return false;
        }
        assert(left@.take(i + 1) == left@.take(i as int).push(left@[i as int]));
        assert(right@.take(i + 1) == right@.take(i as int).push(right@[i as int]));
        i += 1;
    }
    assert(left@.take(i as int) == left@);
    assert(right@.take(i as int) == right@);
    true
}

/// Whether a text starts with a prefix.
fn starts_with(text: &str, prefix: &str) -> (found: bool)
    ensures
        found == has_prefix(text@, prefix@),
{
    let length = prefix.unicode_len();
    if length > text.unicode_len() {
        return false;
    }
    let mut i: usize = 0;
    while i < length
        invariant
            length == prefix@.len(),
            length <= text@.len(),
            i <= length,
            text@.take(i as int) == prefix@.take(i as int),
        decreases length - i,
    {
        if text.get_char(i) != prefix.get_char(i) {
            assert(text@.take(length as int)[i as int] != prefix@[i as int]);
            return false;
        }
        assert(text@.take(i + 1) == text@.take(i as int).push(text@[i as int]));
        assert(prefix@.take(i + 1) == prefix@.take(i as int).push(prefix@[i as int]));
        i += 1;
    }
    assert(prefix@.take(i as int) == prefix@);
    true
}

/// A run of decimal digits has a number, and its beginnings write numbers no greater.
proof fn lemma_decimal_prefix(digits: Seq<char>, length: int)
    requires
        0 <= length <= digits.len(),
        decimal_number(digits) is Some,
    ensures
        decimal_number(digits.take(length)) matches Some(front) && front <= decimal_number(
            digits,
        ).unwrap(),
    decreases digits.len() - length,
{
    if length == digits.len() {
        assert(digits.take(length) == digits);
    } else {
        assert(digits.drop_last().take(length) == digits.take(length));
        lemma_decimal_prefix(digits.drop_last(), length);
    }
}

/// Reads a number in decimal from the characters of `text` after the first `start`.
fn parse_integer(text: &str, start: usize, max: u64) -> (number: Option<u64>)
    requires
        start <= text@.len(),
    ensures
        number.is_some() == parsed_integer(text@.skip(start as int), max as nat).is_some(),
        number matches Some(value) ==> parsed_integer(text@.skip(start as int), max as nat)
            == Some(value as nat),
{
    let length = text.unicode_len();
    let ghost given = text@.skip(start as int);
    let mut i: usize = start;
    if i < length && text.get_char(i) == '+' {
        i += 1;
    }
    let first = i;
    let ghost digits = text@.skip(first as int);
    assert(digits == if given.len() > 0 && given[0] == '+' {
        given.skip(1)
    } else {
        given
    });
    if i == length {
        return None;
    }
    let mut value: u64 = 0;
    while i < length
        invariant
            length == text@.len(),
            first <= i <= length,
            first < length,
            digits == text@.skip(first as int),
            given == text@.skip(start as int),
            digits == if given.len() > 0 && given[0] == '+' {
                given.skip(1)
            } else {
                given
            },
            decimal_number(digits.take(i - first)) == Some(value as nat),
            value <= max,
        decreases length - i,
    {
        let c = text.get_char(i);
        assert(digits.take(i - first + 1).drop_last() == digits.take(i - first));
        assert(digits.take(i - first + 1).last() == c);
        if c < '0' || c > '9' {
            proof {
                assert(decimal_number(digits.take(i - first + 1)) is None);
                if decimal_number(digits) is Some {
                    lemma_decimal_prefix(digits, i - first + 1);
                }
            }
            return None;
        }
        let digit = (c as u8 - '0' as u8) as u64;
        let next: u128 = value as u128 * 10 + digit as u128;
        assert(decimal_number(digits.take(i - first + 1)) == Some(next as nat));
        if next > max as u128 {
            proof {
                if decimal_number(digits) is Some {
                    lemma_decimal_prefix(digits, i - first + 1);
                }
            }
            return None;
        }
        value = next as u64;
        i += 1;
    }
    assert(digits.take(i - first) == digits);
    Some(value)
}

/// Looks a variable up in an environment.
fn env_var(vars: &Vec<(String, String)>, name: &str) -> (found: Option<String>)
    ensures
        text_of(found) == env_value(vars@, name@),
{
    let mut found: Option<String> = None;
    let mut i: usize = 0;
    while i < vars.len()
        invariant
            i <= vars.len(),
            text_of(found) == env_value(vars@.take(i as int), name@),
        decreases vars.len() - i,
    {
        assert(vars@.take(i + 1).drop_last() == vars@.take(i as int));
        if same_text(vars[i].0.as_str(), name) {
            found = Some(vars[i].1.clone());
        }
        i += 1;
    }
    assert(vars@.take(i as int) == vars@);
    found
}

/// Drops a value that is empty.
fn filter_non_empty(value: Option<String>) -> (kept: Option<String>)
    ensures
        text_of(kept) == non_empty(text_of(value)),
{
    match value {
        Some(text) => if text.as_str().unicode_len() > 0 {
            Some(text)
        } else {
            None
        },
        None => None,
    }
}

/// Reads the settings from an environment given as pairs of name and value.
///
/// `PORT` and `MAX_REQUEST_SIZE` have to write numbers where they are set; `FORK_URL`,
/// `ETHERSCAN_KEY` and `API_KEY` count where they are not empty; every variable named
/// `RPC_URL_` and a chain identifier sets the endpoint of that chain, unless it is empty.
pub fn load_config(vars: &Vec<(String, String)>) -> (result: Result<Config, ConfigError>)
    ensures
        match result {
            Ok(config) => config.reads(vars@),
            Err(ConfigError::InvalidPort) => configured_port(vars@) is None,
            Err(ConfigError::InvalidMaxRequestSize) => configured_port(vars@) is Some
                && configured_max_request_size(vars@) is None,
        },
{
    let port_text = env_var(vars, "PORT");
    let size_text = env_var(vars, "MAX_REQUEST_SIZE");
    proof {
        if port_text is Some {
            assert(port_text.unwrap()@.skip(0) == port_text.unwrap()@);
        }
        if size_text is Some {
            assert(size_text.unwrap()@.skip(0) == size_text.unwrap()@);
        }
    }
    let port = match port_text {
        Some(text) => match parse_integer(text.as_str(), 0, 65535) {
            Some(port) => port as u16,
            None => {
                return Err(ConfigError::InvalidPort);
            },
        },
        None => DEFAULT_PORT,
    };
    let fork_url = filter_non_empty(env_var(vars, "FORK_URL"));
    let etherscan_key = filter_non_empty(env_var(vars, "ETHERSCAN_KEY"));
    let api_key = filter_non_empty(env_var(vars, "API_KEY"));
    let kibibytes = match size_text {
        Some(text) => match parse_integer(text.as_str(), 0, u64::MAX) {
            Some(number) => number,
            None => {
                return Err(ConfigError::InvalidMaxRequestSize);
            },
        },
        None => DEFAULT_MAX_REQUEST_SIZE,
    };
    let max_request_size = match kibibytes.checked_mul(1024) {
        Some(bytes) => bytes,
        None => {
            return Err(ConfigError::InvalidMaxRequestSize);
        },
    };
    let mut rpc_urls: HashMap<u64, String> = HashMap::new();
    let prefix = "RPC_URL_";
    let prefix_length = prefix.unicode_len();
    let mut i: usize = 0;
    while i < vars.len()
        invariant
            i <= vars.len(),
            prefix@ == "RPC_URL_"@,
            prefix_length == prefix@.len(),
            rpc_urls@.dom() == rpc_url_table(vars@.take(i as int)).dom(),
            forall|chain_id: u64| #[trigger]
                rpc_urls@.contains_key(chain_id) ==> rpc_urls@[chain_id]@ == rpc_url_table(
                    vars@.take(i as int),
                )[chain_id],
        decreases vars.len() - i,
    {
        assert(vars@.take(i + 1).drop_last() == vars@.take(i as int));
        let name = vars[i].0.as_str();
        if starts_with(name, prefix) && vars[i].1.as_str().unicode_len() > 0 {
            match parse_integer(name, prefix_length, u64::MAX) {
                Some(chain_id) => {
                    rpc_urls.insert(chain_id, vars[i].1.clone());
                },
                None => {},
            }
        }
        i += 1;
    }
    assert(vars@.take(i as int) == vars@);
    Ok(Config { port, fork_url, etherscan_key, api_key, max_request_size, rpc_urls })
}

} // verus!
