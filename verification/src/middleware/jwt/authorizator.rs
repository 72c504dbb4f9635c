//! The paths that need no token, the black list of revoked tokens, and the
//! decision an authoriser takes on a request.
use vstd::prelude::*;
use vstd::string::*;
use crate::middleware::jwt::claims::{clock_before_epoch, read_from_clock, Claims};
use crate::middleware::jwt::error::AuthError;

verus! {

/// The views of a list of strings.
pub open spec fn string_views(v: Seq<String>) -> Seq<Seq<char>> {
    v.map_values(|s: String| s@)
}

/// The paths that are served without a token.
pub struct PathWhiteList {
    paths: Vec<String>,
}

impl View for PathWhiteList {
    type V = Seq<Seq<char>>;

    /// The paths, in the order they were added.
    closed spec fn view(&self) -> Seq<Seq<char>> {
        string_views(self.paths@)
    }
}

impl PathWhiteList {
    /// An empty white list.
    pub fn new() -> (r: PathWhiteList)
        ensures
            r@ == Seq::<Seq<char>>::empty(),
    {
        let r = PathWhiteList { paths: Vec::new() };
        assert(r@ =~= Seq::<Seq<char>>::empty());
        r
    }

    /// Adds `path` at the end of the list.
    pub fn add_path(&mut self, path: &str)
        ensures
            final(self)@ == old(self)@.push(path@),
    {
        self.paths.push(String::from_str(path));
        assert(string_views(self.paths@) =~= string_views(old(self).paths@).push(path@));
    }

    /// Whether `path` is on the list.
    pub fn contains(&self, path: &str) -> (r: bool)
        ensures
            r == self@.contains(path@),
    {
        list_contains(&self.paths, path)
    }
}

/// Whether one of the strings of `v` equals `s`.
fn list_contains(v: &Vec<String>, s: &str) -> (r: bool)
    ensures
        r == string_views(v@).contains(s@),
{
    let p = String::from_str(s);
    let n = v.len();
    let mut i: usize = 0;
    while i < n
        invariant
            i <= n == v@.len(),
            p@ == s@,
            forall|j: int| 0 <= j < i ==> v@[j]@ != s@,
        decreases n - i,
    {
        if v[i] == p {
            assert(string_views(v@)[i as int] == s@);
            return true;
        }
        i = i + 1;
    }
    assert(!string_views(v@).contains(s@)) by {
        if string_views(v@).contains(s@) {
            let j = choose|j: int| 0 <= j < string_views(v@).len() && string_views(v@)[j] == s@;
            assert(v@[j]@ == s@);
        }
    }
    false
}

/// After `add_path(p)` the list contains `p`, and it still contains every
/// path it contained before.
pub proof fn lemma_add_then_contains(before: Seq<Seq<char>>, p: Seq<char>, q: Seq<char>)
    ensures
        before.push(p).contains(p),
        before.contains(q) ==> before.push(p).contains(q),
        before.push(p).contains(q) ==> before.contains(q) || q == p,
{
    assert(before.push(p)[before.len() as int] == p);
    if before.contains(q) {
        let j = choose|j: int| 0 <= j < before.len() && before[j] == q;
        assert(before.push(p)[j] == q);
    }
    if before.push(p).contains(q) {
        let j = choose|j: int| 0 <= j < before.len() + 1 && before.push(p)[j] == q;
        if j < before.len() {
            assert(before[j] == q);
        }
    }
}

/// Revoked tokens, kept in two buffers of which one is current.
pub struct TokenBlacklist {
    tokens_buff: [Vec<String>; 2],
    index: usize,
}

impl TokenBlacklist {
    /// The buffer in use is one of the two.
    #[verifier::type_invariant]
    closed spec fn wf(self) -> bool {
        self.index < 2
    }

    /// The tokens in the current buffer, in the order they were added.
    pub closed spec fn current(self) -> Seq<Seq<char>> {
        string_views(self.tokens_buff@[self.index as int]@)
    }

    /// The tokens in the other buffer.
    pub closed spec fn other(self) -> Seq<Seq<char>> {
        string_views(self.tokens_buff@[1 - self.index as int]@)
    }

    /// An empty black list.
    pub fn new() -> (r: TokenBlacklist)
        ensures
            r.current() == Seq::<Seq<char>>::empty(),
            r.other() == Seq::<Seq<char>>::empty(),
    {
        let r = TokenBlacklist { tokens_buff: [Vec::new(), Vec::new()], index: 0 };
        assert(r.current() =~= Seq::<Seq<char>>::empty());
        assert(r.other() =~= Seq::<Seq<char>>::empty());
        r
    }

    /// Whether `token` is on the list, in either buffer.
    pub open spec fn listed(self, token: Seq<char>) -> bool {
        self.current().contains(token) || self.other().contains(token)
    }

    /// Whether `token` is on the list, in either buffer.
    pub fn contains(&self, token: &str) -> (r: bool)
        ensures
            r == self.listed(token@),
    {
        proof {
            use_type_invariant(self);
        }
        let a = list_contains(&self.tokens_buff[0], token);
        let b = list_contains(&self.tokens_buff[1], token);
        a || b
    }

    /// Adds `token` to the current buffer.
    pub fn add_token(&mut self, token: &str)
        ensures
            final(self).current() == old(self).current().push(token@),
            final(self).other() == old(self).other(),
    {
        self.push_current(token);
    }

    /// Records `token` under deletion: it is added to the current buffer,
    /// exactly as `add_token` does.
    pub fn del_token(&mut self, token: &str)
        ensures
            final(self).current() == old(self).current().push(token@),
            final(self).other() == old(self).other(),
    {
        self.push_current(token);
    }

    fn push_current(&mut self, token: &str)
        ensures
            final(self).current() == old(self).current().push(token@),
            final(self).other() == old(self).other(),
    {
        proof {
            use_type_invariant(&*self);
        }
        let t = String::from_str(token);
        let i = self.index;
        let mut bufs: [Vec<String>; 2] = [Vec::new(), Vec::new()];
        std::mem::swap(&mut bufs, &mut self.tokens_buff);
        bufs[i].push(t);
        self.tokens_buff = bufs;
        assert(self.current() =~= old(self).current().push(token@));
        assert(self.other() =~= old(self).other());
    }
}

/// Once a token is added to the black list (on logout) it is listed, and
/// every token listed before stays listed.
pub proof fn lemma_added_token_listed(
    before: TokenBlacklist,
    after: TokenBlacklist,
    token: Seq<char>,
    q: Seq<char>,
)
    requires
        after.current() == before.current().push(token),
        after.other() == before.other(),
    ensures
        after.listed(token),
        before.listed(q) ==> after.listed(q),
{
    lemma_add_then_contains(before.current(), token, q);
}

/// Who a token was issued to.
pub struct AuthorizationInfo {
    user_id: String,
    auth_id: String,
}

/// What an authoriser decides on a request.
#[derive(Debug, Clone, PartialEq, Eq)]
pub enum AuthorizationResponse {
    /// The token was valid and carried these claims.
    Success(Claims),
    /// The path needs no token.
    NotNeed,
    /// The token was refused, for this reason.
    Failure(String),
}

/// Issues tokens and decides on requests. The token codec itself, which
/// needs the signing keys, is held by the caller.
pub struct Authorizator {
    whitelist: PathWhiteList,
    ttl_seconds: i64,
    blacklist: TokenBlacklist,
}

impl Authorizator {
    /// The paths served without a token.
    pub closed spec fn whitelisted(self) -> Seq<Seq<char>> {
        self.whitelist@
    }

    /// How long an issued token lives, in seconds.
    pub closed spec fn ttl(self) -> i64 {
        self.ttl_seconds
    }

    /// The revoked tokens.
    pub closed spec fn revoked(self) -> TokenBlacklist {
        self.blacklist
    }

    /// An authoriser with the given white list, token lifetime in seconds
    /// and black list.
    pub fn new(whitelist: PathWhiteList, ttl_seconds: i64, blacklist: TokenBlacklist) -> (r:
        Authorizator)
        ensures
            r.whitelisted() == whitelist@,
            r.ttl() == ttl_seconds,
            r.revoked() == blacklist,
    {
        Authorizator { whitelist, ttl_seconds, blacklist }
    }

    /// The claims of a token issued now to `user_id` and `auth_id`, which
    /// the caller encodes into the token: `iat` is the clock's reading in
    /// whole seconds; `None` when the system clock stands before the epoch.
    pub fn claims_for(&self, user_id: &str, auth_id: &str) -> (r: Option<Claims>)
        ensures
            match r {
                Some(c) => c.issued(user_id@, auth_id@, self.ttl()) && read_from_clock(c.iat),
                None => clock_before_epoch(),
            },
    {
        Claims::new(user_id, auth_id, self.ttl_seconds)
    }

    /// Whether a request for `path` carrying `token` needs the token
    /// decoded: the path is not white-listed and the token is not revoked.
    pub fn needs_decoding(&self, path: &str, token: &str) -> (r: bool)
        ensures
            r == (!self.whitelisted().contains(path@) && !self.revoked().listed(token@)),
    {
        !self.whitelist.contains(path) && !self.blacklist.contains(token)
    }

    /// The decision on a request for `path` carrying `token`, where
    /// `decoded` is what decoding the token gave, if it was decoded: no
    /// token is needed on a white-listed path; a revoked token is refused
    /// as invalid; otherwise decoded claims are a success, a decoding error
    /// a failure with its message, and a token left undecoded is refused as
    /// invalid.
    pub fn validate(&self, path: &str, token: &str, decoded: Option<Result<Claims, AuthError>>) -> (r:
        AuthorizationResponse)
        ensures
            self.whitelisted().contains(path@) ==> r == AuthorizationResponse::NotNeed,
            !self.whitelisted().contains(path@) && self.revoked().listed(token@) ==> (r matches AuthorizationResponse::Failure(m) && m@ == AuthError::InvalidToken.spec_message()),
            !self.whitelisted().contains(path@) && !self.revoked().listed(token@) ==> match decoded {
                Some(Ok(c)) => r == AuthorizationResponse::Success(c),
                Some(Err(e)) => (r matches AuthorizationResponse::Failure(m) && m@ == e.spec_message()),
                None => (r matches AuthorizationResponse::Failure(m) && m@ == AuthError::InvalidToken.spec_message()),
            },
    {
        if self.whitelist.contains(path) {
            return AuthorizationResponse::NotNeed;
        }
        if self.blacklist.contains(token) {
            return AuthorizationResponse::Failure(AuthError::InvalidToken.to_string());
        }
        match decoded {
            Some(Ok(claims)) => AuthorizationResponse::Success(claims),
            Some(Err(err)) => AuthorizationResponse::Failure(err.to_string()),
            None => AuthorizationResponse::Failure(AuthError::InvalidToken.to_string()),
        }
    }
}

} // verus!
