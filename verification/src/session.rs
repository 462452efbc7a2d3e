//! The session: where the files are, which remote they go to, and how often.

use vstd::prelude::*;
use vstd::string::*;
use crate::error::ConfigKey;
use crate::error::SyncError;

verus! {

/// Seconds between two passes where the command line gives no usable number.
pub const DEFAULT_INTERVAL: u64 = 1800;

/// The store's directory name under the home directory.
pub open spec fn store_name() -> Seq<char> {
    ".snowflakes"@
}

/// `name` as a path below `root`.
pub open spec fn path_under(root: Seq<char>, name: Seq<char>) -> Seq<char> {
    root + "/"@ + name
}

/// What a pass works on: fixed when the process starts, never changed after.
pub struct SyncSession {
    home_root: String,
    store_root: String,
    remote_url: String,
    username: String,
    tick_interval: u64,
}

/// The mathematical value of a `SyncSession`.
pub struct SyncSessionView {
    pub home_root: Seq<char>,
    pub store_root: Seq<char>,
    pub remote_url: Seq<char>,
    pub username: Seq<char>,
    pub tick_interval: u64,
}

impl View for SyncSession {
    type V = SyncSessionView;

    closed spec fn view(&self) -> SyncSessionView {
        SyncSessionView {
            home_root: self.home_root@,
            store_root: self.store_root@,
            remote_url: self.remote_url@,
            username: self.username@,
            tick_interval: self.tick_interval,
        }
    }
}

/// The view of an optional string.
pub open spec fn text_of(arg: Option<&str>) -> Option<Seq<char>> {
    match arg {
        Some(text) => Some(text@),
        None => None,
    }
}

/// The session that the command line and the configuration give, or the
/// first thing that is missing. A repository on the command line goes before
/// the configured one; a missing repository is reported before a missing
/// user name.
pub open spec fn resolved_session(
    home_root: Seq<char>,
    repository: Option<Seq<char>>,
    configured_repository: Option<Seq<char>>,
    configured_username: Option<Seq<char>>,
    interval: Option<Seq<char>>,
) -> Result<SyncSessionView, ConfigKey> {
    let remote = if repository is Some {
        repository
    } else {
        configured_repository
    };
    if remote is None {
        Err(ConfigKey::Repository)
    } else if configured_username is None {
        Err(ConfigKey::Username)
    } else {
        Ok(
            SyncSessionView {
                home_root,
                store_root: path_under(home_root, store_name()),
                remote_url: remote->0,
                username: configured_username->0,
                tick_interval: interval_of(interval),
            },
        )
    }
}

impl SyncSession {
    #[verifier::type_invariant]
    spec fn store_lies_under_home(&self) -> bool {
        self.store_root@ == path_under(self.home_root@, store_name())
    }

    /// Makes the session from what the command line and the configuration
    /// hold. Fails with `ConfigMissing` for the first value that neither gives.
    pub fn resolve(
        home_root: &str,
        repository: Option<&str>,
        configured_repository: Option<&str>,
        configured_username: Option<&str>,
        interval: Option<&str>,
    ) -> (r: Result<SyncSession, SyncError>)
        ensures
            match r {
                Ok(session) => resolved_session(
                    home_root@,
                    text_of(repository),
                    text_of(configured_repository),
                    text_of(configured_username),
                    text_of(interval),
                ) == Ok::<SyncSessionView, ConfigKey>(session@),
                Err(error) => error is ConfigMissing && resolved_session(
                    home_root@,
                    text_of(repository),
                    text_of(configured_repository),
                    text_of(configured_username),
                    text_of(interval),
                ) == Err::<SyncSessionView, ConfigKey>(error->key),
            },
    {
        let remote = match repository {
            Some(url) => Some(url),
            None => configured_repository,
        };
        let remote_url = match remote {
            Some(url) => url,
            None => {
                return Err(SyncError::ConfigMissing { key: ConfigKey::Repository });
            },
        };
        let username = match configured_username {
            Some(name) => name,
            None => {
                return Err(SyncError::ConfigMissing { key: ConfigKey::Username });
            },
        };
        let mut store_root = home_root.to_owned();
        store_root.append("/");
        store_root.append(".snowflakes");
        Ok(
            SyncSession {
                home_root: home_root.to_owned(),
                store_root,
                remote_url: remote_url.to_owned(),
                username: username.to_owned(),
                tick_interval: parse_interval(interval),
            },
        )
    }

    /// The user's home directory: the source of every tracked file.
    pub fn home_root(&self) -> (path: &str)
        ensures
            path@ == self@.home_root,
    {
        self.home_root.as_str()
    }

    /// The store's working copy: `.snowflakes` under the home directory.
    pub fn store_root(&self) -> (path: &str)
        ensures
            path@ == self@.store_root,
            path@ == path_under(self@.home_root, store_name()),
    {
        proof {
            use_type_invariant(self);
        }
        self.store_root.as_str()
    }

    /// The remote repository.
    pub fn remote_url(&self) -> (url: &str)
        ensures
            url@ == self@.remote_url,
    {
        self.remote_url.as_str()
    }

    /// The user's name with the remote.
    pub fn username(&self) -> (name: &str)
        ensures
            name@ == self@.username,
    {
        self.username.as_str()
    }

    /// Seconds between two passes.
    pub fn tick_interval(&self) -> (seconds: u64)
        ensures
            seconds == self@.tick_interval,
    {
        self.tick_interval
    }
}

/// Whether `c` is one of the ten decimal digits.
pub open spec fn is_digit(c: char) -> bool {
    '0' <= c <= '9'
}

/// The number that a digit stands for.
pub open spec fn digit_value(c: char) -> nat {
    (c as nat - '0' as nat) as nat
}

/// The number that a sequence of digits writes in base ten; 0 for the empty one.
pub open spec fn decimal_value(digits: Seq<char>) -> nat
    decreases digits.len(),
{
    if digits.len() == 0 {
        0
    } else {
        decimal_value(digits.drop_last()) * 10 + digit_value(digits.last())
    }
}

/// `text` without a plus sign at its front.
pub open spec fn unsigned_part(text: Seq<char>) -> Seq<char> {
    if text.len() > 0 && text[0] == '+' {
        text.subrange(1, text.len() as int)
    } else {
        text
    }
}

/// The number of seconds that `text` writes: at least one decimal digit, an
/// optional plus sign before them, nothing else, and a value that a `u64`
/// holds. `None` for any other text.
pub open spec fn seconds_of(text: Seq<char>) -> Option<u64> {
    let digits = unsigned_part(text);
    if digits.len() > 0 && (forall|i: int| 0 <= i < digits.len() ==> is_digit(#[trigger] digits[i]))
        && decimal_value(digits) <= u64::MAX {
        Some(decimal_value(digits) as u64)
    } else {
        None
    }
}

/// The interval that an optional command-line argument asks for.
pub open spec fn interval_of(arg: Option<Seq<char>>) -> u64 {
    match arg {
        Some(text) => match seconds_of(text) {
            Some(seconds) => seconds,
            None => DEFAULT_INTERVAL,
        },
        None => DEFAULT_INTERVAL,
    }
}

/// A longer sequence of digits writes no smaller number than its front part.
pub proof fn decimal_value_grows(digits: Seq<char>, n: int)
    requires
        0 <= n <= digits.len(),
    ensures
        decimal_value(digits.subrange(0, n)) <= decimal_value(digits),
    decreases digits.len(),
{
    if n == digits.len() {
        assert(digits.subrange(0, n) =~= digits);
    } else {
        decimal_value_grows(digits.drop_last(), n);
        assert(digits.drop_last().subrange(0, n) =~= digits.subrange(0, n));
    }
}

/// Reads a number of seconds, as `seconds_of` defines it.
pub fn parse_seconds(text: &str) -> (seconds: Option<u64>)
    ensures
        seconds == seconds_of(text@),
{
    let len: usize = text.unicode_len();
    let mut start: usize = 0;
    if len > 0 && text.get_char(0) == '+' {
        start = 1;
    }
    if start == len {
        return None;
    }
    let ghost digits = unsigned_part(text@);
    assert(digits =~= text@.subrange(start as int, len as int));
    let mut value: u64 = 0;
    let mut i: usize = start;
    while i < len
        invariant
            start <= i <= len,
            start <= 1,
            len == text@.len(),
            digits == unsigned_part(text@),
            digits =~= text@.subrange(start as int, len as int),
            forall|k: int| 0 <= k < i - start ==> is_digit(#[trigger] digits[k]),
            value == decimal_value(digits.subrange(0, i - start)),
        decreases len - i,
    {
        let c: char = text.get_char(i);
        assert(c == digits[i - start]);
        if c < '0' || c > '9' {
            assert(!is_digit(digits[i - start]));
            return None;
        }
        let d: u64 = (c as u32 - '0' as u32) as u64;
        proof {
            let front = digits.subrange(0, i - start + 1);
            assert(front.drop_last() =~= digits.subrange(0, i - start));
            assert(front.last() == c);
            assert(decimal_value(front) == value * 10 + d);
            decimal_value_grows(digits, i - start + 1);
        }
        if value > (u64::MAX - d) / 10 {
            return None;
        }
        value = value * 10 + d;
        i = i + 1;
    }
    assert(digits.subrange(0, len - start) =~= digits);
    Some(value)
}

/// The interval between two passes: the number that the argument writes,
/// and `DEFAULT_INTERVAL` where there is no argument or it writes none.
pub fn parse_interval(arg: Option<&str>) -> (seconds: u64)
    ensures
        seconds == interval_of(text_of(arg)),
{
    match arg {
        Some(text) => match parse_seconds(text) {
            Some(seconds) => seconds,
            None => DEFAULT_INTERVAL,
        },
        None => DEFAULT_INTERVAL,
    }
}

} // verus!
