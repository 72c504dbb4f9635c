//! The claims a token carries.
use vstd::prelude::*;
use vstd::string::*;

verus! {

/// The claims of a token. The times are UTC timestamps: seconds since the
/// epoch.
#[derive(Debug, Clone, PartialEq, Eq)]
pub struct Claims {
    /// Audience.
    pub aud: String,
    /// Expiration time.
    pub exp: usize,
    /// Issue time.
    pub iat: usize,
    /// Issuer.
    pub iss: String,
    /// Not-before time.
    pub nbf: usize,
    /// Subject.
    pub sub: String,
    pub user_id: String,
    pub auth_id: String,
}

/// `a + b` modulo the width of `usize`.
pub open spec fn wrapped_sum(a: usize, b: usize) -> usize {
    if a + b > usize::MAX {
        (a + b - (usize::MAX + 1)) as usize
    } else {
        (a + b) as usize
    }
}

/// The time from the epoch to `t`, as `SystemTime::duration_since` gives
/// it: `None` where `t` stands before the epoch.
pub uninterp spec fn since_epoch_of(t: std::time::SystemTime) -> Option<std::time::Duration>;

/// The whole seconds of the span `d`, as `Duration::as_secs` gives them.
pub uninterp spec fn whole_seconds_of(d: std::time::Duration) -> u64;

/// Reads the system clock with `SystemTime::now`. Nothing is claimed of the
/// reading, which depends on the time of the call.
#[verifier::external_body]
fn system_now() -> (r: std::time::SystemTime) {
    std::time::SystemTime::now()
}

/// Calls `SystemTime::duration_since` with the epoch, dropping the error it
/// hands back for a time before the epoch. The answer depends on `t` alone.
#[verifier::external_body]
fn since_epoch(t: &std::time::SystemTime) -> (r: Option<std::time::Duration>)
    ensures
        r == since_epoch_of(*t),
{
    t.duration_since(std::time::UNIX_EPOCH).ok()
}

/// Calls `Duration::as_secs`, whose answer depends on `d` alone.
#[verifier::external_body]
fn whole_seconds(d: &std::time::Duration) -> (r: u64)
    ensures
        r == whole_seconds_of(*d),
{
    d.as_secs()
}

/// The whole seconds from the epoch to a reading of the system clock, or
/// `None` when that reading stands before the epoch.
fn now_seconds() -> (r: Option<u64>)
    ensures
        match r {
            Some(s) => exists|t: std::time::SystemTime, d: std::time::Duration|
                #![trigger since_epoch_of(t), whole_seconds_of(d)]
                since_epoch_of(t) == Some(d) && s == whole_seconds_of(d),
            None => exists|t: std::time::SystemTime| #[trigger] since_epoch_of(t) is None,
        },
{
    let t = system_now();
    match since_epoch(&t) {
        Some(d) => Some(whole_seconds(&d)),
        None => None,
    }
}

/// Whether `iat` is the whole seconds from the epoch to some reading of the
/// system clock, as a `usize`.
pub open spec fn read_from_clock(iat: usize) -> bool {
    exists|t: std::time::SystemTime, d: std::time::Duration|
        #![trigger since_epoch_of(t), whole_seconds_of(d)]
        since_epoch_of(t) == Some(d) && iat == whole_seconds_of(d) as usize
}

/// Whether some reading of the system clock stands before the epoch.
pub open spec fn clock_before_epoch() -> bool {
    exists|t: std::time::SystemTime| #[trigger] since_epoch_of(t) is None
}

impl Claims {
    /// Whether these claims belong to `user_id` and `auth_id`, were issued
    /// at `iat`, are valid from then on, expire `ttl_seconds` later (counted
    /// modulo the width of `usize`), and name no audience, issuer or
    /// subject.
    pub open spec fn issued(self, user_id: Seq<char>, auth_id: Seq<char>, ttl_seconds: i64) -> bool {
        &&& self.user_id@ == user_id
        &&& self.auth_id@ == auth_id
        &&& self.nbf == self.iat
        &&& self.exp == wrapped_sum(self.iat, ttl_seconds as usize)
        &&& (0 <= ttl_seconds && self.iat + ttl_seconds <= usize::MAX) ==> self.exp == self.iat
            + ttl_seconds
        &&& self.aud@.len() == 0
        &&& self.iss@.len() == 0
        &&& self.sub@.len() == 0
    }

    /// The claims of a token issued now for `user_id` and `auth_id`, living
    /// `ttl_seconds` seconds: `iat` is the clock's reading in whole seconds
    /// since the epoch. `None` when the system clock stands before the epoch.
    pub fn new(user_id: &str, auth_id: &str, ttl_seconds: i64) -> (r: Option<Claims>)
        ensures
            match r {
                Some(c) => c.issued(user_id@, auth_id@, ttl_seconds) && read_from_clock(c.iat),
                None => clock_before_epoch(),
            },
    {
        match now_seconds() {
            Some(now) => {
                let c = Self::issued_at(user_id, auth_id, now, ttl_seconds);
                proof {
                    let (t, d) = choose|t: std::time::SystemTime, d: std::time::Duration|
                        #![trigger since_epoch_of(t), whole_seconds_of(d)]
                        since_epoch_of(t) == Some(d) && now == whole_seconds_of(d);
                    assert(since_epoch_of(t) == Some(d) && c.iat == whole_seconds_of(d) as usize);
                }
                Some(c)
            },
            None => None,
        }
    }

    /// The claims of a token issued at `now_seconds` (seconds since the
    /// epoch) for `user_id` and `auth_id`, living `ttl_seconds` seconds.
    pub fn issued_at(user_id: &str, auth_id: &str, now_seconds: u64, ttl_seconds: i64) -> (r:
        Claims)
        ensures
            r.issued(user_id@, auth_id@, ttl_seconds),
            r.iat == now_seconds as usize,
    {
        let now = now_seconds as usize;
        let expire = now.wrapping_add(ttl_seconds as usize);
        Claims {
            aud: String::new(),
            exp: expire,
            iat: now,
            iss: String::new(),
            nbf: now,
            sub: String::new(),
            user_id: String::from_str(user_id),
            auth_id: String::from_str(auth_id),
        }
    }
}

} // verus!
