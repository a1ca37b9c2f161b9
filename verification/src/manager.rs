use crate::error::ApolError;
use crate::error::ApolErrorView;
use crate::http::HttpResponse;
use crate::scraper::credential_of;
use crate::scraper::is_token_result;
use crate::time::nanos_limit;
use crate::time::Duration;
use crate::time::Timestamp;
use crate::token::AppleMusicToken;
use crate::token::TokenView;
use vstd::prelude::*;

verus! {

/// A cached credential and the point in time at which it stops being served.
///
/// The credential of an entry is always an unauthenticated one.
#[derive(Debug, PartialEq, Eq)]
pub struct TokenData {
    token: AppleMusicToken,
    expiry: Timestamp,
}

impl TokenData {
    #[verifier::type_invariant]
    spec fn inv(self) -> bool {
        self.token@ is Unauthenticated
    }

    /// The credential of the entry.
    pub closed spec fn credential(self) -> TokenView {
        self.token@
    }

    /// The point in time, in nanoseconds since the Unix epoch, at which the
    /// entry stops being served.
    pub closed spec fn expires_at(self) -> nat {
        self.expiry.nanos()
    }

    /// The credential of the entry.
    pub fn token(&self) -> (r: &AppleMusicToken)
        ensures
            r@ == self.credential(),
            r@ is Unauthenticated,
    {
        proof {
            use_type_invariant(self);
        }
        &self.token
    }

    /// The point in time at which the entry stops being served.
    pub fn expiry(&self) -> (r: Timestamp)
        ensures
            r.nanos() == self.expires_at(),
    {
        self.expiry
    }
}

impl Clone for TokenData {
    /// A second entry with the same credential and the same expiry.
    fn clone(&self) -> (r: Self)
        ensures
            r.credential() == self.credential(),
            r.expires_at() == self.expires_at(),
    {
        proof {
            use_type_invariant(self);
        }
        TokenData { token: self.token.clone(), expiry: self.expiry }
    }
}

/// The cache of the one credential that all callers share: the entry, if
/// there is one, and the time to live that the next entry will get.
#[derive(Debug, PartialEq, Eq)]
pub struct AppleMusicTokenManager {
    current_token: Option<TokenData>,
    token_lifetime: Duration,
}

/// The mathematical value of an [`AppleMusicTokenManager`]: the cached
/// credential with its expiry, and the time to live, both in nanoseconds.
pub struct ManagerView {
    pub current: Option<(TokenView, nat)>,
    pub lifetime: nat,
}

/// What one whole `get` comes to: what the caller receives, the cache as it
/// is left, and how many times the scraper ran.
pub struct GetOutcome {
    pub result: Result<TokenView, ApolErrorView>,
    pub after: ManagerView,
    pub scrapes: nat,
}

impl ManagerView {
    /// Whether an entry is there and has not expired at `now`.
    pub open spec fn valid_at(self, now: nat) -> bool {
        self.current matches Some((_, expiry)) && now < expiry
    }

    /// What the cache serves at `now` without a scrape.
    pub open spec fn cached_at(self, now: nat) -> Option<TokenView> {
        match self.current {
            Some((token, expiry)) if now < expiry => Some(token),
            _ => None,
        }
    }

    /// The cache after `token` was scraped at `now`: the entry is replaced
    /// as a whole and expires one time to live after `now`.
    pub open spec fn refreshed(self, token: TokenView, now: nat) -> ManagerView {
        ManagerView { current: Some((token, now + self.lifetime)), lifetime: self.lifetime }
    }

    /// The cache without its entry.
    pub open spec fn cleared(self) -> ManagerView {
        ManagerView { current: None, lifetime: self.lifetime }
    }

    /// The cache with another time to live; the entry keeps its expiry.
    pub open spec fn with_lifetime(self, lifetime: nat) -> ManagerView {
        ManagerView { current: self.current, lifetime }
    }

    /// One whole `get` at `now`: the entry is served while it is valid;
    /// otherwise the scraper runs once, and `scraped` is what it gives. A
    /// scraped credential is stored, a failure leaves the cache as it was.
    pub open spec fn get(self, now: nat, scraped: Result<TokenView, ApolErrorView>) -> GetOutcome {
        match self.cached_at(now) {
            Some(token) => GetOutcome { result: Ok(token), after: self, scrapes: 0 },
            None => match scraped {
                Ok(token) => GetOutcome {
                    result: Ok(token),
                    after: self.refreshed(token, now),
                    scrapes: 1,
                },
                Err(e) => GetOutcome { result: Err(e), after: self, scrapes: 1 },
            },
        }
    }
}

impl View for AppleMusicTokenManager {
    type V = ManagerView;

    closed spec fn view(&self) -> ManagerView {
        ManagerView {
            current: match self.current_token {
                Some(entry) => Some((entry.credential(), entry.expires_at())),
                None => None,
            },
            lifetime: self.token_lifetime.total_nanos(),
        }
    }
}

/// The time to live of a new cache, in seconds.
pub const DEFAULT_LIFETIME_SECS: u64 = 3600;

impl AppleMusicTokenManager {
    /// An empty cache with a time to live of one hour.
    pub fn new() -> (r: Self)
        ensures
            r@ == (ManagerView {
                current: None,
                lifetime: (DEFAULT_LIFETIME_SECS * crate::time::NANOS_PER_SEC) as nat,
            }),
    {
        AppleMusicTokenManager {
            current_token: None,
            token_lifetime: Duration::from_secs(DEFAULT_LIFETIME_SECS),
        }
    }

    /// The entry, if there is one.
    pub fn current(&self) -> (r: Option<&TokenData>)
        ensures
            match r {
                Some(entry) => self@.current == Some((entry.credential(), entry.expires_at())),
                None => self@.current is None,
            },
    {
        self.current_token.as_ref()
    }

    /// The time to live that the next entry will get.
    pub fn token_lifetime(&self) -> (r: Duration)
        ensures
            r.total_nanos() == self@.lifetime,
    {
        self.token_lifetime
    }

    /// Whether an entry is there and has not expired at `now`.
    pub fn is_token_valid(&self, now: &Timestamp) -> (r: bool)
        ensures
            r == self@.valid_at(now.nanos()),
    {
        match &self.current_token {
            Some(entry) => now.is_before(&entry.expiry),
            None => false,
        }
    }

    /// The cached credential, if it is still valid at `now`. `None` asks for
    /// a scrape, whose script is then handed to [`Self::refresh`].
    pub fn get_token(&self, now: &Timestamp) -> (r: Option<AppleMusicToken>)
        ensures
            r.is_some() == self@.valid_at(now.nanos()),
            r matches Some(token) ==> self@.cached_at(now.nanos()) == Some(token@)
                && token@ is Unauthenticated,
    {
        match &self.current_token {
            Some(entry) => {
                if now.is_before(&entry.expiry) {
                    Some(entry.token().clone())
                } else {
                    None
                }
            },
            None => None,
        }
    }

    /// Stores the credential that the scraped `script` holds, to expire one
    /// time to live after `now`, and hands it out.
    ///
    /// A script that yields no credential leaves the cache as it was, and
    /// its error comes back.
    pub fn refresh(&mut self, script: &HttpResponse, now: &Timestamp) -> (r: Result<
        AppleMusicToken,
        ApolError,
    >)
        requires
            now.nanos() + old(self)@.lifetime < nanos_limit(),
        ensures
            is_token_result(r, credential_of(script@)),
            match credential_of(script@) {
                Ok(token) => final(self)@ == old(self)@.refreshed(token, now.nanos()),
                Err(_) => final(self)@ == old(self)@,
            },
    {
        match AppleMusicToken::new(script) {
            Ok(token) => {
                let expiry = now.checked_add(&self.token_lifetime).unwrap();
                self.current_token = Some(TokenData { token: token.clone(), expiry });
                Ok(token)
            },
            Err(e) => Err(e),
        }
    }

    /// Sets the time to live that later entries get. The entry that is
    /// there keeps its expiry.
    pub fn set_token_lifetime(&mut self, duration: Duration)
        ensures
            final(self)@ == old(self)@.with_lifetime(duration.total_nanos()),
    {
        self.token_lifetime = duration;
    }

    /// Drops the entry, whether it has expired or not.
    pub fn clear_token(&mut self)
        ensures
            final(self)@ == old(self)@.cleared(),
    {
        self.current_token = None;
    }
}

/// Two calls of `get` in a row, the second while the entry that the first
/// left is still valid, hand out the same credential, and the second does
/// not scrape: the scraper runs at most once for the two.
pub proof fn law_second_get_is_served_from_cache(
    cache: ManagerView,
    first_now: nat,
    second_now: nat,
    first_scrape: Result<TokenView, ApolErrorView>,
    second_scrape: Result<TokenView, ApolErrorView>,
)
    requires
        cache.get(first_now, first_scrape).result is Ok,
        first_now <= second_now,
        cache.get(first_now, first_scrape).after.valid_at(second_now),
    ensures
        ({
            let first = cache.get(first_now, first_scrape);
            let second = first.after.get(second_now, second_scrape);
            &&& second.result == first.result
            &&& second.after == first.after
            &&& second.scrapes == 0
            &&& first.scrapes + second.scrapes <= 1
        }),
{
}

/// A credential that was scraped at some time is served, without another
/// scrape, at every later time that is less than one time to live away.
pub proof fn law_scraped_credential_lasts_one_lifetime(
    cache: ManagerView,
    scraped_at: nat,
    token: TokenView,
    now: nat,
    scrape: Result<TokenView, ApolErrorView>,
)
    requires
        !cache.valid_at(scraped_at),
        scraped_at <= now < scraped_at + cache.lifetime,
    ensures
        ({
            let first = cache.get(scraped_at, Ok(token));
            let second = first.after.get(now, scrape);
            &&& first.scrapes == 1
            &&& second.result == Ok::<TokenView, ApolErrorView>(token)
            &&& second.scrapes == 0
        }),
{
}

/// A `get` at a time at which no valid entry is there scrapes exactly once;
/// the credential that the scraper gives is handed out and stored, and its
/// expiry is the time of the refresh plus the time to live.
pub proof fn law_get_after_expiry_scrapes_once(cache: ManagerView, now: nat, token: TokenView)
    requires
        !cache.valid_at(now),
    ensures
        ({
            let outcome = cache.get(now, Ok(token));
            &&& outcome.scrapes == 1
            &&& outcome.result == Ok::<TokenView, ApolErrorView>(token)
            &&& outcome.after.current == Some((token, now + cache.lifetime))
            &&& outcome.after.lifetime == cache.lifetime
        }),
{
}

/// After the cache was cleared, the next `get` scrapes, whatever was cached
/// before and whenever it would have expired.
pub proof fn law_get_after_clear_scrapes(
    cache: ManagerView,
    now: nat,
    scraped: Result<TokenView, ApolErrorView>,
)
    ensures
        cache.cleared().cached_at(now) is None,
        cache.cleared().get(now, scraped).scrapes == 1,
        cache.cleared().get(now, scraped).result == scraped,
{
}

/// A scrape that fails leaves the cache as it was, and its error is what the
/// caller receives.
pub proof fn law_failed_scrape_leaves_cache(cache: ManagerView, now: nat, error: ApolErrorView)
    requires
        !cache.valid_at(now),
    ensures
        cache.get(now, Err(error)).after == cache,
        cache.get(now, Err(error)).result == Err::<TokenView, ApolErrorView>(error),
{
}

/// A new time to live changes nothing of what is served now: the entry
/// keeps its expiry.
pub proof fn law_lifetime_is_for_later_entries(cache: ManagerView, lifetime: nat, now: nat)
    ensures
        cache.with_lifetime(lifetime).cached_at(now) == cache.cached_at(now),
{
}

} // verus!
