//! API errors and the request rate limiter.

use vstd::prelude::*;
use crate::clock::now_unix_secs;

verus! {

/// Standard error answer of the API.
#[derive(Debug, Clone)]
pub struct ApiError {
    /// Human-readable message.
    pub error: String,
    /// HTTP status code.
    pub code: u16,
}

impl ApiError {
    /// 404: the resource does not exist.
    pub fn not_found(msg: &str) -> (e: ApiError)
        ensures
            e.error@ == msg@,
            e.code == 404,
    {
        ApiError { error: String::from_str(msg), code: 404 }
    }

    /// 400: the request is malformed.
    pub fn bad_request(msg: &str) -> (e: ApiError)
        ensures
            e.error@ == msg@,
            e.code == 400,
    {
        ApiError { error: String::from_str(msg), code: 400 }
    }

    /// 500: the node failed.
    pub fn internal(msg: &str) -> (e: ApiError)
        ensures
            e.error@ == msg@,
            e.code == 500,
    {
        ApiError { error: String::from_str(msg), code: 500 }
    }

    /// 401: authentication is required.
    pub fn unauthorized() -> (e: ApiError)
        ensures
            e.error@ == "Autenticazione richiesta"@,
            e.code == 401,
    {
        ApiError { error: String::from_str("Autenticazione richiesta"), code: 401 }
    }

    /// 429: too many requests.
    pub fn rate_limited() -> (e: ApiError)
        ensures
            e.error@ == "Rate limit superato (max 100 req/s)"@,
            e.code == 429,
    {
        ApiError { error: String::from_str("Rate limit superato (max 100 req/s)"), code: 429 }
    }
}

/// Global rate limiter: a window of one second, at most `max_per_sec`
/// requests in it.
#[derive(Debug, Clone, Copy, PartialEq, Eq, Structural)]
pub struct RateLimiter {
    /// Requests counted in the current window (wrapping).
    pub count: u64,
    /// The current window (Unix seconds); 0 before the first request.
    pub current_sec: u64,
    /// Maximum requests per second.
    pub max_per_sec: u64,
}

/// The limiter after a request at second `now_sec`, and whether the request
/// is allowed. A request in a new second opens a window with it as the
/// first request, and is allowed when the limit is not zero; otherwise it is
/// counted (wrapping) and allowed when fewer than `max_per_sec` requests
/// preceded it in the window.
pub open spec fn limiter_step(l: RateLimiter, now_sec: u64) -> (RateLimiter, bool) {
    if now_sec != l.current_sec {
        (RateLimiter { count: 1, current_sec: now_sec, ..l }, l.max_per_sec > 0)
    } else {
        (
            RateLimiter { count: (if l.count == u64::MAX { 0 } else { l.count + 1 }) as u64, ..l },
            l.count < l.max_per_sec,
        )
    }
}

/// How many of `n` requests at second `now_sec` the limiter `l` allows.
pub open spec fn allowed_in_burst(l: RateLimiter, now_sec: u64, n: nat) -> nat
    decreases n,
{
    if n == 0 {
        0
    } else {
        let (l2, ok) = limiter_step(l, now_sec);
        (if ok { 1nat } else { 0nat }) + allowed_in_burst(l2, now_sec, (n - 1) as nat)
    }
}

impl RateLimiter {
    /// A limiter with an empty window.
    pub fn new(max_per_sec: u64) -> (l: RateLimiter)
        ensures
            l.count == 0,
            l.current_sec == 0,
            l.max_per_sec == max_per_sec,
    {
        RateLimiter { count: 0, current_sec: 0, max_per_sec }
    }

    /// Counts a request made at second `now_sec` and tells whether it is
    /// allowed (see `limiter_step`).
    pub fn check_at(&mut self, now_sec: u64) -> (ok: bool)
        ensures
            (*final(self), ok) == limiter_step(*old(self), now_sec),
    {
        if now_sec != self.current_sec {
            self.current_sec = now_sec;
            self.count = 1;
            return self.max_per_sec > 0;
        }
        let prev = self.count;
        self.count = prev.wrapping_add(1);
        prev < self.max_per_sec
    }

    /// Counts a request made now (see `limiter_step`); the second is read
    /// from the system clock.
    pub fn check(&mut self) -> (ok: bool)
        ensures
            exists|now_sec: u64| (*final(self), ok) == #[trigger] limiter_step(*old(self), now_sec),
    {
        let now = now_unix_secs();
        self.check_at(now)
    }
}

proof fn lemma_burst_in_window(l: RateLimiter, now_sec: u64, n: nat)
    requires
        l.current_sec == now_sec,
        l.count + n <= u64::MAX,
    ensures
        allowed_in_burst(l, now_sec, n) == (if l.count >= l.max_per_sec {
            0
        } else if l.max_per_sec - l.count <= n {
            (l.max_per_sec - l.count) as nat
        } else {
            n
        }),
    decreases n,
{
    if n > 0 {
        let (l2, ok) = limiter_step(l, now_sec);
        lemma_burst_in_window(l2, now_sec, (n - 1) as nat);
    }
}

/// A burst of `n` requests in a second that opens a new window is allowed
/// up to `max_per_sec` requests: exactly `min(n, max_per_sec)` pass, so a
/// window never passes more than the limit, and none pass with a limit of 0.
pub proof fn lemma_burst_admits_at_most_max(l: RateLimiter, now_sec: u64, n: nat)
    requires
        now_sec != l.current_sec,
        n <= u64::MAX,
    ensures
        allowed_in_burst(l, now_sec, n) == (if n == 0 {
            0
        } else if n <= l.max_per_sec {
            n
        } else {
            l.max_per_sec as nat
        }),
{
    if n > 0 {
        let (l2, ok) = limiter_step(l, now_sec);
        lemma_burst_in_window(l2, now_sec, (n - 1) as nat);
    }
}

} // verus!

verus! {

/// Whether a request passes the API key check: always when no key is
/// configured or the key is empty, and for reading requests (GET and
/// OPTIONS); otherwise only when the `X-API-Key` header holds the key.
pub open spec fn api_key_passes(expected: Option<Seq<char>>, method: Seq<char>, provided: Option<Seq<char>>) -> bool {
    match expected {
        None => true,
        Some(key) => key.len() == 0 || method == "GET"@ || method == "OPTIONS"@ || provided == Some(key),
    }
}

/// Reading requests are always public, whatever key is configured or sent;
/// with a non-empty key configured, a writing request without the key is
/// refused.
pub proof fn lemma_reads_are_public(expected: Option<Seq<char>>, provided: Option<Seq<char>>, method: Seq<char>)
    ensures
        api_key_passes(expected, "GET"@, provided),
        api_key_passes(expected, "OPTIONS"@, provided),
        expected matches Some(key) && key.len() > 0 && method != "GET"@ && method != "OPTIONS"@ && provided != Some(key)
            ==> !api_key_passes(expected, method, provided),
{
}

/// The API key check of a request with HTTP method `method` (see
/// `api_key_passes`).
pub fn api_key_allows(expected: Option<&str>, method: &str, provided: Option<&str>) -> (b: bool)
    ensures
        b == api_key_passes(
            match expected {
                Some(k) => Some(k@),
                None => None,
            },
            method@,
            match provided {
                Some(p) => Some(p@),
                None => None,
            },
        ),
{
    match expected {
        None => true,
        Some(key) => {
            if key.unicode_len() == 0 {
                return true;
            }
            if crate::text::str_eq(method, "GET") || crate::text::str_eq(method, "OPTIONS") {
                return true;
            }
            match provided {
                Some(p) => crate::text::str_eq(p, key),
                None => false,
            }
        },
    }
}

} // verus!
