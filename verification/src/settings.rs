//! The agent's configuration, assembled from the key/value entries of a
//! configuration file. Reading the file is the host's concern; this module
//! holds the rules: which keys are required, the default poll interval, and
//! how a numeric value is read.

use vstd::prelude::*;
use vstd::string::*;

use crate::errors::Error;
use crate::update::string_eq;

verus! {

/// Credentials of a full platform client session.
pub struct TelegramClient {
    pub api_id: String,
    pub api_hash: String,
    pub server: String,
    pub phone: String,
}

/// The bot transport: its token and how often to poll for updates.
pub struct TelegramBot {
    pub auth_token: String,
    pub update_interval: u64,
}

impl TelegramBot {
    /// The poll interval used when the configuration names none.
    pub fn default_update_interval() -> (r: u64)
        ensures
            r == 200,
    {
        200
    }
}

/// Where the membership store lives.
pub struct Database {
    pub url: String,
}

/// Everything the agent is configured with.
pub struct Settings {
    pub telegram_bot: TelegramBot,
    pub telegram_client: TelegramClient,
    pub database: Database,
}

/// The value stored under `key`: the first entry that carries it.
pub open spec fn lookup(entries: Seq<(String, String)>, key: Seq<char>) -> Option<Seq<char>>
    decreases entries.len(),
{
    if entries.len() == 0 {
        None
    } else if entries.first().0@ == key {
        Some(entries.first().1@)
    } else {
        lookup(entries.drop_first(), key)
    }
}

/// A decimal digit.
pub open spec fn is_digit(c: char) -> bool {
    '0' <= c && c <= '9'
}

/// A non-empty, all-digit text.
pub open spec fn is_digits(s: Seq<char>) -> bool {
    s.len() > 0 && forall|i: int| 0 <= i < s.len() ==> is_digit(#[trigger] s[i])
}

/// The number an all-digit text denotes, most significant digit first.
pub open spec fn digits_value(s: Seq<char>) -> int
    decreases s.len(),
{
    if s.len() == 0 {
        0
    } else {
        digits_value(s.drop_last()) * 10 + (s.last() as int - '0' as int)
    }
}

proof fn lemma_digits_value_nonneg(s: Seq<char>)
    requires
        forall|i: int| 0 <= i < s.len() ==> is_digit(#[trigger] s[i]),
    ensures
        digits_value(s) >= 0,
    decreases s.len(),
{
    if s.len() > 0 {
        assert(forall|i: int|
            0 <= i < s.drop_last().len() ==> is_digit(#[trigger] s.drop_last()[i]));
        lemma_digits_value_nonneg(s.drop_last());
    }
}

/// Reading more digits never shrinks the value.
proof fn lemma_digits_value_grows(s: Seq<char>, i: int, j: int)
    requires
        forall|k: int| 0 <= k < s.len() ==> is_digit(#[trigger] s[k]),
        0 <= i <= j <= s.len(),
    ensures
        digits_value(s.take(i)) <= digits_value(s.take(j)),
    decreases j - i,
{
    if i < j {
        lemma_digits_value_grows(s, i, j - 1);
        let t = s.take(j);
        assert(t.drop_last() =~= s.take(j - 1));
        assert(forall|k: int| 0 <= k < s.take(j - 1).len() ==> is_digit(#[trigger] s.take(j - 1)[k]));
        lemma_digits_value_nonneg(s.take(j - 1));
        assert(t.last() == s[j - 1]);
        assert(t.last() as int - '0' as int >= 0);
        assert(digits_value(t) >= digits_value(s.take(j - 1)));
    }
}

/// Read a base-ten number. Returns the denoted value exactly when the text
/// is non-empty, all digits, and the value fits in a `u64`.
pub fn parse_u64(s: &String) -> (r: Option<u64>)
    ensures
        match r {
            Some(v) => is_digits(s@) && digits_value(s@) == v as int,
            None => !is_digits(s@) || digits_value(s@) > u64::MAX,
        },
{
    let n = s.as_str().unicode_len();
    if n == 0 {
        return None;
    }
    let mut v: u64 = 0;
    let mut i: usize = 0;
    while i < n
        invariant
            i <= n,
            n == s@.len(),
            forall|j: int| 0 <= j < i ==> is_digit(#[trigger] s@[j]),
            v as int == digits_value(s@.take(i as int)),
        decreases n - i,
    {
        let c = s.as_str().get_char(i);
        if c < '0' || c > '9' {
            return None;
        }
        let d: u64 = (c as u32 - '0' as u32) as u64;
        let ghost t1 = s@.take(i as int + 1);
        proof {
            assert(t1.drop_last() =~= s@.take(i as int));
            assert(t1.last() == s@[i as int]);
        }
        if v > (u64::MAX - d) / 10 {
            proof {
                assert(v as int * 10 + d as int > u64::MAX) by (nonlinear_arith)
                    requires
                        v as int > (u64::MAX as int - d as int) / 10,
                        0 <= d as int <= 9,
                {
                }
                assert(digits_value(t1) > u64::MAX);
                assert(forall|k: int| 0 <= k < s@.len() ==> is_digit(#[trigger] s@[k]) || !(
                is_digits(s@)));
                if is_digits(s@) {
                    lemma_digits_value_grows(s@, i as int + 1, s@.len() as int);
                    assert(s@.take(s@.len() as int) =~= s@);
                }
            }
            return None;
        }
        proof {
            assert(v as int * 10 + d as int <= u64::MAX) by (nonlinear_arith)
                requires
                    v as int <= (u64::MAX as int - d as int) / 10,
                    0 <= d as int <= 9,
            {
            }
        }
        v = v * 10 + d;
        i = i + 1;
        proof {
            assert(v as int == digits_value(t1));
        }
    }
    proof {
        assert(s@.take(n as int) =~= s@);
    }
    Some(v)
}

/// Look up the value stored under `key`.
fn lookup_value(entries: &Vec<(String, String)>, key: &str) -> (r: Option<String>)
    ensures
        match r {
            Some(v) => lookup(entries@, key@) == Some(v@),
            None => lookup(entries@, key@) is None,
        },
{
    let n = entries.len();
    let mut i: usize = 0;
    proof {
        assert(entries@.skip(0) =~= entries@);
    }
    while i < n
        invariant
            i <= n,
            n == entries.len(),
            lookup(entries@, key@) == lookup(entries@.skip(i as int), key@),
        decreases n - i,
    {
        proof {
            assert(entries@.skip(i as int).first() == entries@[i as int]);
            assert(entries@.skip(i as int).drop_first() =~= entries@.skip(i as int + 1));
        }
        if string_eq(&entries[i].0, key) {
            return Some(entries[i].1.clone());
        }
        i = i + 1;
    }
    proof {
        assert(entries@.skip(n as int) =~= Seq::<(String, String)>::empty());
    }
    None
}

/// Every key the configuration must carry.
pub open spec fn settings_complete(entries: Seq<(String, String)>) -> bool {
    &&& lookup(entries, "telegram_bot.auth_token"@) is Some
    &&& lookup(entries, "telegram_client.api_id"@) is Some
    &&& lookup(entries, "telegram_client.api_hash"@) is Some
    &&& lookup(entries, "telegram_client.server"@) is Some
    &&& lookup(entries, "telegram_client.phone"@) is Some
    &&& lookup(entries, "database.url"@) is Some
}

/// The poll interval, if present, is a number that fits in a `u64`.
pub open spec fn interval_ok(entries: Seq<(String, String)>) -> bool {
    match lookup(entries, "telegram_bot.update_interval"@) {
        None => true,
        Some(v) => is_digits(v) && digits_value(v) <= u64::MAX,
    }
}

/// The configured poll interval, with its default of 200.
pub open spec fn spec_interval(entries: Seq<(String, String)>) -> int {
    match lookup(entries, "telegram_bot.update_interval"@) {
        None => 200,
        Some(v) => digits_value(v),
    }
}

impl Settings {
    /// Assemble the settings from the configuration's key/value entries.
    /// Succeeds exactly when every required key is present and the poll
    /// interval, where given, is a number; each field is the looked-up
    /// value.
    pub fn try_fetch(entries: &Vec<(String, String)>) -> (r: Result<Settings, Error>)
        ensures
            r matches Ok(s) ==> {
                &&& settings_complete(entries@)
                &&& interval_ok(entries@)
                &&& lookup(entries@, "telegram_bot.auth_token"@) == Some(
                    s.telegram_bot.auth_token@,
                )
                &&& s.telegram_bot.update_interval as int == spec_interval(entries@)
                &&& lookup(entries@, "telegram_client.api_id"@) == Some(
                    s.telegram_client.api_id@,
                )
                &&& lookup(entries@, "telegram_client.api_hash"@) == Some(
                    s.telegram_client.api_hash@,
                )
                &&& lookup(entries@, "telegram_client.server"@) == Some(
                    s.telegram_client.server@,
                )
                &&& lookup(entries@, "telegram_client.phone"@) == Some(s.telegram_client.phone@)
                &&& lookup(entries@, "database.url"@) == Some(s.database.url@)
            },
            r matches Err(e) ==> e == Error::Config && !(settings_complete(entries@) && interval_ok(
                entries@,
            )),
    {
        let auth_token = match lookup_value(entries, "telegram_bot.auth_token") {
            Some(v) => v,
            None => {
                return Err(Error::Config);
            },
        };
        let update_interval = match lookup_value(entries, "telegram_bot.update_interval") {
            None => TelegramBot::default_update_interval(),
            Some(v) => match parse_u64(&v) {
                Some(x) => x,
                None => {
                    return Err(Error::Config);
                },
            },
        };
        let api_id = match lookup_value(entries, "telegram_client.api_id") {
            Some(v) => v,
            None => {
                return Err(Error::Config);
            },
        };
        let api_hash = match lookup_value(entries, "telegram_client.api_hash") {
            Some(v) => v,
            None => {
                return Err(Error::Config);
            },
        };
        let server = match lookup_value(entries, "telegram_client.server") {
            Some(v) => v,
            None => {
                return Err(Error::Config);
            },
        };
        let phone = match lookup_value(entries, "telegram_client.phone") {
            Some(v) => v,
            None => {
                return Err(Error::Config);
            },
        };
        let url = match lookup_value(entries, "database.url") {
            Some(v) => v,
            None => {
                return Err(Error::Config);
            },
        };
        Ok(
            Settings {
                telegram_bot: TelegramBot { auth_token, update_interval },
                telegram_client: TelegramClient { api_id, api_hash, server, phone },
                database: Database { url },
            },
        )
    }
}

} // verus!
