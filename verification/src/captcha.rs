//! CAPTCHA checks: per-address rate limits (per minute, per hour, and a
//! wait after failures), a cache of verified response tokens, the address
//! whitelist, and the decisions of a verification around the provider's
//! answer. The HTTP call to the provider and the score threshold are the
//! caller's.
use vstd::prelude::*;
use vstd::string::*;

use crate::counters::{inc32, bump32};
use crate::error::{ErrorKind, ServiceError, is_error, make_error};
use crate::strmap::StrMap;
use crate::text::str_eq;

verus! {

/// Whether a request from `ip` bypasses the CAPTCHA: the whitelist is
/// enabled and lists `ip` exactly.
pub fn ip_whitelisted(enabled: bool, whitelist: &Vec<String>, ip: Option<&str>) -> (r: bool)
    ensures
        r == (enabled && ip is Some && exists|i: int| 0 <= i < whitelist@.len() && #[trigger] whitelist@[i]@ == ip->Some_0@),
{
    if !enabled {
        return false;
    }
    let a = match ip {
        Some(a) => a,
        None => {
            return false;
        },
    };
    let mut i: usize = 0;
    while i < whitelist.len()
        invariant
            enabled,
            ip is Some && ip->Some_0@ == a@,
            i <= whitelist@.len(),
            forall|j: int| 0 <= j < i ==> #[trigger] whitelist@[j]@ != a@,
        decreases whitelist@.len() - i,
    {
        if str_eq(whitelist[i].as_str(), a) {
            assert(whitelist@[i as int]@ == ip->Some_0@);
            return true;
        }
        i = i + 1;
    }
    false
}

/// One minute and one hour, in milliseconds.
pub const MINUTE_MS: u64 = 60000;
pub const HOUR_MS: u64 = 3600000;

/// Above this many cached results, expired ones are dropped on insert.
pub const MAX_CACHED_RESULTS: usize = 10000;

/// A verification request.
#[derive(Debug)]
pub struct CaptchaRequest {
    pub response: String,
    pub remote_ip: Option<String>,
    pub challenge_data: Option<Vec<(String, String)>>,
}

/// The limits the service works with (from its configuration).
#[derive(Debug, Clone, Copy, PartialEq, Eq, Structural)]
pub struct CaptchaLimits {
    pub enabled: bool,
    pub max_attempts_per_minute: u32,
    pub max_attempts_per_hour: u32,
    pub enable_caching: bool,
    pub cache_ttl_ms: u64,
}

/// The rate limit state of one address; the last attempt is in
/// milliseconds.
#[derive(Debug, Clone, Copy, PartialEq, Eq, Structural)]
pub struct RateLimitState {
    pub attempts_this_minute: u32,
    pub attempts_this_hour: u32,
    pub last_attempt_ms: u64,
    pub consecutive_failures: u32,
}

/// A cached verification result and when it was cached (milliseconds).
#[derive(Debug, Clone, Copy, PartialEq, Eq, Structural)]
pub struct CachedResult {
    pub result: bool,
    pub cached_at_ms: u64,
}

/// How many addresses and results the caches hold.
#[derive(Debug, Clone, Copy, PartialEq, Eq, Structural)]
pub struct CaptchaStats {
    pub rate_limited_ips: usize,
    pub cached_verifications: usize,
}

/// What a verification does next.
#[derive(Debug)]
pub enum VerifyStep {
    /// Decided without the provider.
    Done(Result<bool, ServiceError>),
    /// The provider must check the response; then `finish_verify`.
    AskProvider,
}

/// Time from `then` to `now`, zero when the clock went back.
pub open spec fn since(now: u64, then: u64) -> u64 {
    if now >= then { (now - then) as u64 } else { 0 }
}

/// A state after the resets due at `now`: the minute count after a minute,
/// the hour count and the failures after an hour.
pub open spec fn reset_at(s: RateLimitState, now: u64) -> RateLimitState {
    let e = since(now, s.last_attempt_ms);
    RateLimitState {
        attempts_this_minute: if e > MINUTE_MS { 0 } else { s.attempts_this_minute },
        attempts_this_hour: if e > HOUR_MS { 0 } else { s.attempts_this_hour },
        consecutive_failures: if e > HOUR_MS { 0 } else { s.consecutive_failures },
        ..s
    }
}

/// The state of `ip` in `m`, a fresh one at `now` when it has none.
pub open spec fn state_of(m: Map<Seq<char>, RateLimitState>, ip: Seq<char>, now: u64) -> RateLimitState {
    if m.contains_key(ip) {
        m[ip]
    } else {
        RateLimitState { attempts_this_minute: 0, attempts_this_hour: 0, last_attempt_ms: now, consecutive_failures: 0 }
    }
}

/// Why an attempt in state `s` (resets done) at `now` is refused, if it is:
/// the minute's attempts, the hour's attempts, or the wait of `delay_ms`
/// after a failure.
pub open spec fn refusal_of(s: RateLimitState, limits: CaptchaLimits, now: u64, delay_ms: u64) -> Option<Seq<char>> {
    if s.attempts_this_minute >= limits.max_attempts_per_minute {
        Some("Too many CAPTCHA attempts per minute"@)
    } else if s.attempts_this_hour >= limits.max_attempts_per_hour {
        Some("Too many CAPTCHA attempts per hour"@)
    } else if s.consecutive_failures > 0 && since(now, s.last_attempt_ms) < delay_ms {
        Some("Please wait before attempting CAPTCHA verification again"@)
    } else {
        None
    }
}

/// The state after an attempt at `now` that passed.
pub open spec fn counted_attempt(s: RateLimitState, now: u64) -> RateLimitState {
    RateLimitState {
        attempts_this_minute: (s.attempts_this_minute + 1) as u32,
        attempts_this_hour: (s.attempts_this_hour + 1) as u32,
        last_attempt_ms: now,
        ..s
    }
}

/// A cached result of `token` that is fresh at `now`.
pub open spec fn fresh_result(m: Map<Seq<char>, CachedResult>, token: Seq<char>, now: u64, ttl: u64) -> Option<bool> {
    if m.contains_key(token) && since(now, m[token].cached_at_ms) < ttl {
        Some(m[token].result)
    } else {
        None
    }
}

/// The cache `after` caching `result` for `token` at `now` in cache
/// `before` (lifetime `ttl`): the entry is added, and when the cache then
/// holds too many entries, only those still fresh at `now` stay.
/// Verification caches only tokens the provider passed, with `result` true.
pub open spec fn cache_after(
    before: Map<Seq<char>, CachedResult>,
    token: Seq<char>,
    result: bool,
    now: u64,
    ttl: u64,
    after: Map<Seq<char>, CachedResult>,
) -> bool {
    let c1 = before.insert(token, CachedResult { result, cached_at_ms: now });
    if c1.len() > MAX_CACHED_RESULTS {
        &&& forall|k: Seq<char>| #[trigger] after.contains_key(k) == (c1.contains_key(k) && since(now, c1[k].cached_at_ms) < ttl)
        &&& forall|k: Seq<char>| #[trigger] after.contains_key(k) ==> after[k] == c1[k]
    } else {
        after == c1
    }
}

/// A result cached at `now` answers the checks of its token until the
/// cache lifetime has passed: a check at `t`, no earlier than `now` and
/// less than the lifetime after it, finds that result.
pub proof fn lemma_cached_result_found(
    before: Map<Seq<char>, CachedResult>,
    after: Map<Seq<char>, CachedResult>,
    token: Seq<char>,
    result: bool,
    now: u64,
    t: u64,
    ttl: u64,
)
    requires
        cache_after(before, token, result, now, ttl, after),
        now <= t,
        t - now < ttl,
    ensures
        fresh_result(after, token, t, ttl) == Some(result),
{
    let c1 = before.insert(token, CachedResult { result, cached_at_ms: now });
    assert(c1.contains_key(token) && c1[token] == CachedResult { result, cached_at_ms: now });
    if c1.len() > MAX_CACHED_RESULTS {
        assert(after.contains_key(token) == (c1.contains_key(token) && since(now, c1[token].cached_at_ms) < ttl));
    }
}

/// A check that passes counts one attempt and starts the minute again: at
/// the same time, an address whose attempts then reach the minute's limit
/// is refused for that reason, whatever wait applies.
pub proof fn lemma_minute_limit_reached(s: RateLimitState, limits: CaptchaLimits, now: u64, delay_ms: u64, next_delay_ms: u64)
    requires
        refusal_of(s, limits, now, delay_ms) is None,
        s.attempts_this_minute + 1 >= limits.max_attempts_per_minute,
    ensures
        refusal_of(reset_at(counted_attempt(s, now), now), limits, now, next_delay_ms) == Some(
            "Too many CAPTCHA attempts per minute"@,
        ),
{
}

/// What an attempt at `now` in state `s` does: the state after it (resets
/// done, and the attempt counted when it passes) and why it is refused, if
/// it is.
pub open spec fn attempt_outcome(s: RateLimitState, limits: CaptchaLimits, now: u64, delay_ms: u64) -> (RateLimitState, Option<Seq<char>>) {
    let r = reset_at(s, now);
    match refusal_of(r, limits, now, delay_ms) {
        Some(m) => (r, Some(m)),
        None => (counted_attempt(r, now), None),
    }
}

/// The state after attempts at `times`, one after another, from `s`.
pub open spec fn attempts_run(s: RateLimitState, limits: CaptchaLimits, times: Seq<u64>, delay_ms: u64) -> RateLimitState
    decreases times.len(),
{
    if times.len() == 0 {
        s
    } else {
        attempt_outcome(attempts_run(s, limits, times.drop_last(), delay_ms), limits, times.last(), delay_ms).0
    }
}

/// The `i`-th of `times` comes within an hour of the attempt before it (the
/// last attempt of `s` for the first), and, after the first, more than a
/// minute after it.
pub open spec fn spaced(s: RateLimitState, times: Seq<u64>, i: int) -> bool {
    if i == 0 {
        s.last_attempt_ms <= times[0] <= s.last_attempt_ms + HOUR_MS
    } else {
        times[i - 1] + MINUTE_MS < times[i] <= times[i - 1] + HOUR_MS
    }
}

/// Attempts spaced as `spaced` says, no more than the hour's limit, from a
/// state with no attempts this minute or hour and no failures, all pass and
/// are all counted in the hour.
proof fn lemma_spaced_attempts_pass(s: RateLimitState, limits: CaptchaLimits, times: Seq<u64>, delay_ms: u64)
    requires
        s.attempts_this_minute == 0,
        s.attempts_this_hour == 0,
        s.consecutive_failures == 0,
        limits.max_attempts_per_minute > 0,
        times.len() <= limits.max_attempts_per_hour,
        forall|i: int| 0 <= i < times.len() ==> #[trigger] spaced(s, times, i),
    ensures
        attempts_run(s, limits, times, delay_ms).attempts_this_hour == times.len(),
        attempts_run(s, limits, times, delay_ms).consecutive_failures == 0,
        times.len() == 0 ==> attempts_run(s, limits, times, delay_ms) == s,
        times.len() > 0 ==> attempts_run(s, limits, times, delay_ms).last_attempt_ms == times.last(),
        forall|i: int| 0 <= i < times.len() ==> (#[trigger] attempt_outcome(
            attempts_run(s, limits, times.take(i), delay_ms),
            limits,
            times[i],
            delay_ms,
        )).1 is None,
    decreases times.len(),
{
    if times.len() > 0 {
        let n = times.len() as int;
        let t = times.drop_last();
        assert forall|i: int| 0 <= i < t.len() implies #[trigger] spaced(s, t, i) by {
            assert(spaced(s, times, i));
        }
        lemma_spaced_attempts_pass(s, limits, t, delay_ms);
        assert(spaced(s, times, n - 1));
        assert(times.take(n - 1) =~= t);
        assert(times.last() == times[n - 1]);
        assert forall|i: int| 0 <= i < times.len() implies (#[trigger] attempt_outcome(
            attempts_run(s, limits, times.take(i), delay_ms),
            limits,
            times[i],
            delay_ms,
        )).1 is None by {
            if i < n - 1 {
                assert(times.take(i) =~= t.take(i));
                assert(times[i] == t[i]);
            }
        }
    }
}

/// The hour's limit holds however attempts are spaced: from a state with no
/// attempts this minute or hour and no failures, when an address has made
/// as many passed attempts as the hour allows, each within an hour of the
/// one before (and more than a minute apart, so the minute's limit plays no
/// part), all of them pass and the next attempt within the hour is refused
/// with "Too many CAPTCHA attempts per hour".
pub proof fn lemma_hourly_limit_for_spaced_attempts(
    s: RateLimitState,
    limits: CaptchaLimits,
    times: Seq<u64>,
    later: u64,
    delay_ms: u64,
)
    requires
        s.attempts_this_minute == 0,
        s.attempts_this_hour == 0,
        s.consecutive_failures == 0,
        limits.max_attempts_per_minute > 0,
        times.len() == limits.max_attempts_per_hour,
        forall|i: int| 0 <= i < times.len() + 1 ==> #[trigger] spaced(s, times.push(later), i),
    ensures
        forall|i: int| 0 <= i < times.len() ==> (#[trigger] attempt_outcome(
            attempts_run(s, limits, times.take(i), delay_ms),
            limits,
            times[i],
            delay_ms,
        )).1 is None,
        attempt_outcome(attempts_run(s, limits, times, delay_ms), limits, later, delay_ms).1 == Some(
            "Too many CAPTCHA attempts per hour"@,
        ),
{
    let all = times.push(later);
    assert forall|i: int| 0 <= i < times.len() implies #[trigger] spaced(s, times, i) by {
        assert(spaced(s, all, i));
        assert(all[i] == times[i]);
        if i > 0 {
            assert(all[i - 1] == times[i - 1]);
        }
    }
    lemma_spaced_attempts_pass(s, limits, times, delay_ms);
    let n = times.len() as int;
    assert(spaced(s, all, n));
    assert(all[n] == later);
    if n > 0 {
        assert(all[n - 1] == times[n - 1]);
        assert(times.last() == times[n - 1]);
    }
}

/// The CAPTCHA service.
pub struct Service {
    pub limits: CaptchaLimits,
    pub rate_limits: StrMap<RateLimitState>,
    pub verified: StrMap<CachedResult>,
}

impl Service {
    /// Well-formedness: the maps keep distinct keys.
    pub open spec fn wf(&self) -> bool {
        self.rate_limits.wf() && self.verified.wf()
    }

    /// A service with empty caches.
    pub fn new(limits: CaptchaLimits) -> (s: Self)
        ensures
            s.wf(),
            s.limits == limits,
            s.rate_limits@ == Map::<Seq<char>, RateLimitState>::empty(),
            s.verified@ == Map::<Seq<char>, CachedResult>::empty(),
    {
        Service { limits, rate_limits: StrMap::new(), verified: StrMap::new() }
    }

    /// What a provider's answer means: an answer that reports failure
    /// fails; for reCAPTCHA v3 the answer must carry a score that reaches
    /// the threshold (`score_passes` is that comparison, `None` when the
    /// answer has no score); for the other providers success suffices.
    pub fn process_verification_response(success: bool, recaptcha_v3: bool, score_passes: Option<bool>) -> (r: Result<
        bool,
        ServiceError,
    >)
        ensures
            r matches Ok(b) && b == (success && (!recaptcha_v3 || score_passes == Some(true))),
    {
        if !success {
            return Ok(false);
        }
        if recaptcha_v3 {
            match score_passes {
                Some(passes) => Ok(passes),
                None => Ok(false),
            }
        } else {
            Ok(true)
        }
    }

    /// The number of consecutive failures recorded for `ip`.
    pub fn consecutive_failures(&self, ip: &str) -> (n: u32)
        requires
            self.wf(),
        ensures
            n == (if self.rate_limits@.contains_key(ip@) { self.rate_limits@[ip@].consecutive_failures } else { 0 }),
    {
        match self.rate_limits.get(ip) {
            Some(s) => s.consecutive_failures,
            None => 0,
        }
    }

    /// Counts an attempt from `ip` at `now`, unless a limit refuses it:
    /// the attempts of the last minute, of the last hour, or the wait of
    /// `delay_ms` after a failure. The resets that are due are kept either
    /// way.
    pub fn check_rate_limit(&mut self, ip: &str, now: u64, delay_ms: u64) -> (r: Result<(), ServiceError>)
        requires
            old(self).wf(),
        ensures
            final(self).wf(),
            final(self).limits == old(self).limits,
            final(self).verified == old(self).verified,
            ({
                let s = reset_at(state_of(old(self).rate_limits@, ip@, now), now);
                match refusal_of(s, old(self).limits, now, delay_ms) {
                    Some(m) => (r matches Err(x) && is_error(x, ErrorKind::LimitExceeded, m))
                        && final(self).rate_limits@ == old(self).rate_limits@.insert(ip@, s),
                    None => r is Ok && final(self).rate_limits@ == old(self).rate_limits@.insert(ip@, counted_attempt(s, now)),
                }
            }),
    {
        let s0 = match self.rate_limits.get(ip) {
            Some(s) => *s,
            None => RateLimitState { attempts_this_minute: 0, attempts_this_hour: 0, last_attempt_ms: now, consecutive_failures: 0 },
        };
        let e = if now >= s0.last_attempt_ms { now - s0.last_attempt_ms } else { 0 };
        let s = RateLimitState {
            attempts_this_minute: if e > MINUTE_MS { 0 } else { s0.attempts_this_minute },
            attempts_this_hour: if e > HOUR_MS { 0 } else { s0.attempts_this_hour },
            consecutive_failures: if e > HOUR_MS { 0 } else { s0.consecutive_failures },
            ..s0
        };
        if s.attempts_this_minute >= self.limits.max_attempts_per_minute {
            self.rate_limits.insert(ip, s);
            return Err(make_error(ErrorKind::LimitExceeded, "Too many CAPTCHA attempts per minute"));
        }
        if s.attempts_this_hour >= self.limits.max_attempts_per_hour {
            self.rate_limits.insert(ip, s);
            return Err(make_error(ErrorKind::LimitExceeded, "Too many CAPTCHA attempts per hour"));
        }
        if s.consecutive_failures > 0 && e < delay_ms {
            self.rate_limits.insert(ip, s);
            return Err(make_error(ErrorKind::LimitExceeded, "Please wait before attempting CAPTCHA verification again"));
        }
        let t = RateLimitState {
            attempts_this_minute: s.attempts_this_minute + 1,
            attempts_this_hour: s.attempts_this_hour + 1,
            last_attempt_ms: now,
            ..s
        };
        self.rate_limits.insert(ip, t);
        Ok(())
    }

    /// Records the outcome of a verification for `ip`: a success clears its
    /// failures, a failure adds one (stopping at `u32::MAX`).
    pub fn update_rate_limit_state(&mut self, ip: &str, success: bool)
        requires
            old(self).wf(),
        ensures
            final(self).wf(),
            final(self).limits == old(self).limits,
            final(self).verified == old(self).verified,
            final(self).rate_limits@ == if old(self).rate_limits@.contains_key(ip@) {
                let s = old(self).rate_limits@[ip@];
                old(self).rate_limits@.insert(
                    ip@,
                    RateLimitState { consecutive_failures: if success { 0 } else { inc32(s.consecutive_failures) }, ..s },
                )
            } else {
                old(self).rate_limits@
            },
    {
        match self.rate_limits.get(ip) {
            Some(s) => {
                let t = RateLimitState {
                    consecutive_failures: if success { 0 } else { bump32(s.consecutive_failures) },
                    ..*s
                };
                self.rate_limits.insert(ip, t);
            },
            None => {},
        }
    }

    /// The cached result of response token `token` at `now`, if it is still
    /// fresh.
    pub fn check_verification_cache(&self, token: &str, now: u64) -> (r: Option<bool>)
        requires
            self.wf(),
        ensures
            r == fresh_result(self.verified@, token@, now, self.limits.cache_ttl_ms),
    {
        match self.verified.get(token) {
            Some(c) => {
                let e = if now >= c.cached_at_ms { now - c.cached_at_ms } else { 0 };
                if e < self.limits.cache_ttl_ms {
                    Some(c.result)
                } else {
                    None
                }
            },
            None => None,
        }
    }

    /// Keeps only the cached results still fresh at `now`; returns how many
    /// went.
    fn prune_verified(&mut self, now: u64) -> (removed: usize)
        requires
            old(self).wf(),
        ensures
            final(self).wf(),
            final(self).limits == old(self).limits,
            final(self).rate_limits == old(self).rate_limits,
            forall|k: Seq<char>| #[trigger] final(self).verified@.contains_key(k) == (old(self).verified@.contains_key(k)
                && since(now, old(self).verified@[k].cached_at_ms) < old(self).limits.cache_ttl_ms),
            forall|k: Seq<char>| #[trigger] final(self).verified@.contains_key(k) ==> final(self).verified@[k]
                == old(self).verified@[k],
    {
        let ttl = self.limits.cache_ttl_ms;
        let n = self.verified.len();
        let ghost pred = |c: CachedResult| since(now, c.cached_at_ms) < ttl;
        let mut keep: Vec<bool> = Vec::new();
        let mut i: usize = 0;
        while i < n
            invariant
                n == self.verified.spec_len(),
                i <= n,
                keep@.len() == i,
                pred == (|c: CachedResult| since(now, c.cached_at_ms) < ttl),
                forall|j: int| 0 <= j < i ==> keep@[j] == pred(#[trigger] self.verified.entries_seq()[j].1),
            decreases n - i,
        {
            let c = self.verified.value_at_index(i);
            let e = if now >= c.cached_at_ms { now - c.cached_at_ms } else { 0 };
            keep.push(e < ttl);
            i = i + 1;
        }
        self.verified.retain_marked(&keep, Ghost(pred))
    }

    /// Caches result `result` of response token `token` at `now`; past
    /// `MAX_CACHED_RESULTS` results, those no longer fresh are dropped.
    pub fn cache_verification_result(&mut self, token: &str, result: bool, now: u64)
        requires
            old(self).wf(),
        ensures
            final(self).wf(),
            final(self).limits == old(self).limits,
            final(self).rate_limits == old(self).rate_limits,
            cache_after(old(self).verified@, token@, result, now, old(self).limits.cache_ttl_ms, final(self).verified@),
    {
        self.verified.insert(token, CachedResult { result, cached_at_ms: now });
        if self.verified.len() > MAX_CACHED_RESULTS {
            self.prune_verified(now);
        }
    }

    /// The first part of a verification at `now`: a disabled service or a
    /// whitelisted address (`whitelisted`) passes; an address over its
    /// limits is refused (`delay_ms` is its wait after failures); a fresh
    /// cached result answers; otherwise the provider must be asked.
    pub fn begin_verify(&mut self, request: &CaptchaRequest, whitelisted: bool, now: u64, delay_ms: u64) -> (r: VerifyStep)
        requires
            old(self).wf(),
        ensures
            final(self).wf(),
            final(self).limits == old(self).limits,
            final(self).verified == old(self).verified,
            !old(self).limits.enabled ==> (r matches VerifyStep::Done(Ok(b)) && b) && final(self).rate_limits
                == old(self).rate_limits,
            old(self).limits.enabled && request.remote_ip is Some && whitelisted ==> (r matches VerifyStep::Done(Ok(b))
                && b) && final(self).rate_limits == old(self).rate_limits,
            old(self).limits.enabled && request.remote_ip is None ==> final(self).rate_limits == old(self).rate_limits
                && match (if old(self).limits.enable_caching {
                fresh_result(old(self).verified@, request.response@, now, old(self).limits.cache_ttl_ms)
            } else {
                None
            }) {
                Some(b) => r matches VerifyStep::Done(Ok(c)) && c == b,
                None => r is AskProvider,
            },
            old(self).limits.enabled && request.remote_ip is Some && !whitelisted ==> {
                let ip = request.remote_ip->0@;
                let s = reset_at(state_of(old(self).rate_limits@, ip, now), now);
                match refusal_of(s, old(self).limits, now, delay_ms) {
                    Some(m) => (r matches VerifyStep::Done(Err(x)) && is_error(x, ErrorKind::LimitExceeded, m))
                        && final(self).rate_limits@ == old(self).rate_limits@.insert(ip, s),
                    None => final(self).rate_limits@ == old(self).rate_limits@.insert(ip, counted_attempt(s, now))
                        && match (if old(self).limits.enable_caching {
                        fresh_result(old(self).verified@, request.response@, now, old(self).limits.cache_ttl_ms)
                    } else {
                        None
                    }) {
                        Some(b) => r matches VerifyStep::Done(Ok(c)) && c == b,
                        None => r is AskProvider,
                    },
                }
            },
    {
        if !self.limits.enabled {
            return VerifyStep::Done(Ok(true));
        }
        match &request.remote_ip {
            Some(ip) => {
                if whitelisted {
                    return VerifyStep::Done(Ok(true));
                }
                match self.check_rate_limit(ip.as_str(), now, delay_ms) {
                    Err(e) => {
                        return VerifyStep::Done(Err(e));
                    },
                    Ok(()) => {},
                }
            },
            None => {},
        }
        if self.limits.enable_caching {
            match self.check_verification_cache(request.response.as_str(), now) {
                Some(b) => {
                    return VerifyStep::Done(Ok(b));
                },
                None => {},
            }
        }
        VerifyStep::AskProvider
    }

    /// The last part of a verification at `now`, given the provider's
    /// `outcome`: the address's failures are updated (an error counts as a
    /// failure) and, when caching, a token the provider passed is cached as
    /// passed; a token it rejected is not cached.
    pub fn finish_verify(&mut self, request: &CaptchaRequest, outcome: Result<bool, ServiceError>, now: u64) -> (r: Result<
        bool,
        ServiceError,
    >)
        requires
            old(self).wf(),
        ensures
            final(self).wf(),
            final(self).limits == old(self).limits,
            r == outcome,
            match request.remote_ip {
                Some(ip) => final(self).rate_limits@ == if old(self).rate_limits@.contains_key(ip@) {
                    let s = old(self).rate_limits@[ip@];
                    old(self).rate_limits@.insert(
                        ip@,
                        RateLimitState {
                            consecutive_failures: if outcome is Ok { 0 } else { inc32(s.consecutive_failures) },
                            ..s
                        },
                    )
                } else {
                    old(self).rate_limits@
                },
                None => final(self).rate_limits@ == old(self).rate_limits@,
            },
            !(outcome == Ok::<bool, ServiceError>(true) && old(self).limits.enable_caching) ==> final(self).verified@
                == old(self).verified@,
            (outcome == Ok::<bool, ServiceError>(true) && old(self).limits.enable_caching) ==> cache_after(
                old(self).verified@,
                request.response@,
                true,
                now,
                old(self).limits.cache_ttl_ms,
                final(self).verified@,
            ),
    {
        let ok = outcome.is_ok();
        match &request.remote_ip {
            Some(ip) => {
                self.update_rate_limit_state(ip.as_str(), ok);
            },
            None => {},
        }
        let passed = match &outcome {
            Ok(b) => *b,
            Err(_) => false,
        };
        if passed && self.limits.enable_caching {
            self.cache_verification_result(request.response.as_str(), true, now);
        }
        outcome
    }

    /// How many addresses and cached results the service holds.
    pub fn get_stats(&self) -> (s: CaptchaStats)
        requires
            self.wf(),
        ensures
            s.rate_limited_ips == self.rate_limits@.len(),
            s.cached_verifications == self.verified@.len(),
    {
        CaptchaStats { rate_limited_ips: self.rate_limits.len(), cached_verifications: self.verified.len() }
    }

    /// Drops, at `now`, the addresses not seen for an hour and the cached
    /// results no longer fresh.
    pub fn cleanup_cache(&mut self, now: u64)
        requires
            old(self).wf(),
        ensures
            final(self).wf(),
            final(self).limits == old(self).limits,
            forall|k: Seq<char>| #[trigger] final(self).rate_limits@.contains_key(k) == (old(self).rate_limits@.contains_key(k)
                && since(now, old(self).rate_limits@[k].last_attempt_ms) < HOUR_MS),
            forall|k: Seq<char>| #[trigger] final(self).rate_limits@.contains_key(k) ==> final(self).rate_limits@[k]
                == old(self).rate_limits@[k],
            forall|k: Seq<char>| #[trigger] final(self).verified@.contains_key(k) == (old(self).verified@.contains_key(k)
                && since(now, old(self).verified@[k].cached_at_ms) < old(self).limits.cache_ttl_ms),
            forall|k: Seq<char>| #[trigger] final(self).verified@.contains_key(k) ==> final(self).verified@[k]
                == old(self).verified@[k],
    {
        let n = self.rate_limits.len();
        let ghost pred = |s: RateLimitState| since(now, s.last_attempt_ms) < HOUR_MS;
        let mut keep: Vec<bool> = Vec::new();
        let mut i: usize = 0;
        while i < n
            invariant
                n == self.rate_limits.spec_len(),
                i <= n,
                keep@.len() == i,
                pred == (|s: RateLimitState| since(now, s.last_attempt_ms) < HOUR_MS),
                forall|j: int| 0 <= j < i ==> keep@[j] == pred(#[trigger] self.rate_limits.entries_seq()[j].1),
            decreases n - i,
        {
            let s = self.rate_limits.value_at_index(i);
            let e = if now >= s.last_attempt_ms { now - s.last_attempt_ms } else { 0 };
            keep.push(e < HOUR_MS);
            i = i + 1;
        }
        self.rate_limits.retain_marked(&keep, Ghost(pred));
        self.prune_verified(now);
    }
}

} // verus!
