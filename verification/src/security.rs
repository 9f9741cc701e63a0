//! The admission checks a request passes before any tool may run:
//! bearer authentication, origin allow-listing, the content-length cap
//! and the dual-scope rate limit.

use vstd::prelude::*;
use core::num::NonZeroU32;
use crate::errors::AppError;
use crate::text::{is_prefix_of, str_eq, starts_with};

verus! {

/// The view of an optional header value.
pub open spec fn opt_view(o: Option<&str>) -> Option<Seq<char>> {
    match o {
        Some(s) => Some(s@),
        None => None,
    }
}

/// The bearer a request presented: the suffix of an Authorization
/// header that begins with the bearer scheme.
pub open spec fn bearer_of(auth: Option<Seq<char>>) -> Option<Seq<char>> {
    match auth {
        Some(a) => if is_prefix_of("Bearer "@, a) {
            Some(a.subrange("Bearer "@.len() as int, a.len() as int))
        } else {
            None
        },
        None => None,
    }
}

/// Require a well-formed bearer equal to the configured token.
pub fn require_bearer(auth: Option<&str>, expected: &str) -> (r: Result<(), AppError>)
    ensures
        r is Ok <==> bearer_of(opt_view(auth)) == Some(expected@),
        r is Err ==> r->Err_0 is Unauthorized,
{
    match auth {
        None => Err(AppError::Unauthorized),
        Some(a) => {
            if !starts_with(a, "Bearer ") {
                return Err(AppError::Unauthorized);
            }
            proof {
                reveal_strlit("Bearer ");
            }
            let alen = a.unicode_len();
            let token = a.substring_char(7, alen);
            if str_eq(token, expected) {
                Ok(())
            } else {
                Err(AppError::Unauthorized)
            }
        },
    }
}

/// The bearer presented by the request, if any.
pub fn extract_bearer(auth: Option<&str>) -> (r: Option<String>)
    ensures
        match r {
            Some(t) => bearer_of(opt_view(auth)) == Some(t@),
            None => bearer_of(opt_view(auth)) is None,
        },
{
    match auth {
        None => None,
        Some(a) => {
            if !starts_with(a, "Bearer ") {
                return None;
            }
            proof {
                reveal_strlit("Bearer ");
            }
            let alen = a.unicode_len();
            Some(String::from_str(a.substring_char(7, alen)))
        },
    }
}

/// The origin is present and exactly matches an allowed one.
pub open spec fn origin_allowed(origin: Option<Seq<char>>, allowed: Seq<String>) -> bool {
    match origin {
        Some(o) => exists|i: int| 0 <= i < allowed.len() && allowed[i]@ == o,
        None => false,
    }
}

/// Require the Origin header to match the allow-list exactly; a
/// missing origin is a denial.
pub fn check_origin(origin: Option<&str>, allowed: &Vec<String>) -> (r: Result<(), AppError>)
    ensures
        r is Ok <==> origin_allowed(opt_view(origin), allowed@),
        r is Err ==> r->Err_0 is OriginDenied,
{
    match origin {
        None => Err(AppError::OriginDenied),
        Some(o) => {
            let mut i: usize = 0;
            while i < allowed.len()
                invariant
                    i <= allowed@.len(),
                    opt_view(origin) == Some(o@),
                    forall|j: int| 0 <= j < i ==> allowed@[j]@ != o@,
                decreases allowed@.len() - i,
            {
                if str_eq(allowed[i].as_str(), o) {
                    proof {
                        assert(0 <= (i as int) && (i as int) < allowed@.len() && allowed@[i as int]@
                            == o@);
                    }
                    return Ok(());
                }
                i = i + 1;
            }
            Err(AppError::OriginDenied)
        },
    }
}

/// Accept the declared content length only under the cap; a request
/// that declares none passes here and is bounded by the transport.
pub fn content_length_ok(len: Option<usize>, max_kb: usize) -> (r: Result<(), AppError>)
    requires
        max_kb <= usize::MAX / 1024,
    ensures
        r is Ok <==> match len {
            Some(n) => n <= max_kb * 1024,
            None => true,
        },
        r is Err ==> r->Err_0 is RequestTooLarge,
{
    match len {
        Some(n) => {
            if n > max_kb * 1024 {
                Err(AppError::RequestTooLarge)
            } else {
                Ok(())
            }
        },
        None => Ok(()),
    }
}

/// The outcome the rate limit owes, given what the two buckets said:
/// the global bucket is consulted first, the principal's only after it.
pub open spec fn rate_decision(global_ok: bool, keyed_ok: Option<bool>) -> Result<(), AppError> {
    if !global_ok {
        Err(AppError::RequestTooLarge)
    } else {
        match keyed_ok {
            Some(false) => Err(AppError::RequestTooLarge),
            _ => Ok(()),
        }
    }
}

/// Fold the two bucket outcomes into the admission result.
pub fn admit_rate(global_ok: bool, keyed_ok: Option<bool>) -> (r: Result<(), AppError>)
    ensures
        r == rate_decision(global_ok, keyed_ok),
{
    if !global_ok {
        return Err(AppError::RequestTooLarge);
    }
    match keyed_ok {
        Some(false) => Err(AppError::RequestTooLarge),
        _ => Ok(()),
    }
}

/// The process-wide token bucket and the per-principal keyed buckets.
/// Opaque to the verifier; the methods below carry what is trusted of
/// the governor crate.
#[verifier::external_body]
pub struct RateLimiters {
    global: std::sync::Arc<
        governor::RateLimiter<
            governor::state::NotKeyed,
            governor::state::InMemoryState,
            governor::clock::DefaultClock,
        >,
    >,
    per_token: std::sync::Arc<
        governor::RateLimiter<
            String,
            governor::state::keyed::DefaultKeyedStateStore<String>,
            governor::clock::DefaultClock,
        >,
    >,
}

impl RateLimiters {
    /// Relies on governor's Quota and RateLimiter constructors: a
    /// direct bucket refilling at `global_per_sec` with burst
    /// `global_burst`, and lazily created per-key buckets refilling at
    /// `per_token_per_sec` with burst `per_token_burst`. The
    /// constructors take the rates as nonzero values.
    #[verifier::external_body]
    pub fn new(
        global_per_sec: u32,
        global_burst: u32,
        per_token_per_sec: u32,
        per_token_burst: u32,
    ) -> (r: RateLimiters)
        requires
            global_per_sec >= 1,
            global_burst >= 1,
            per_token_per_sec >= 1,
            per_token_burst >= 1,
    {
        let gq = governor::Quota::per_second(NonZeroU32::new(global_per_sec).unwrap())
            .allow_burst(NonZeroU32::new(global_burst).unwrap());
        let pq = governor::Quota::per_second(NonZeroU32::new(per_token_per_sec).unwrap())
            .allow_burst(NonZeroU32::new(per_token_burst).unwrap());
        RateLimiters {
            global: std::sync::Arc::new(governor::RateLimiter::direct(gq)),
            per_token: std::sync::Arc::new(governor::RateLimiter::keyed(pq)),
        }
    }

    /// Relies on governor RateLimiter::check: takes one token from the
    /// global bucket when one is available; the outcome depends on the
    /// clock.
    #[verifier::external_body]
    fn check_global(&self) -> (ok: bool) {
        self.global.check().is_ok()
    }

    /// Relies on governor RateLimiter::check_key: takes one token from
    /// the bucket of `key`, created at full burst on first sight; the
    /// outcome depends on the clock.
    #[verifier::external_body]
    fn check_keyed(&self, key: &str) -> (ok: bool) {
        self.per_token.check_key(&key.to_string()).is_ok()
    }

    /// Consult the global bucket, then the principal's: the bearer
    /// token's bucket, or the bucket of the literal `anonymous` when
    /// no bearer was presented, so an anonymous caller draws on one
    /// shared per-principal budget. Which tokens are available depends
    /// on the clock; the folding of the two answers is exact in
    /// `rate_decision`.
    pub fn check(&self, token: Option<&str>) -> (r: Result<(), AppError>)
        ensures
            r is Err ==> r->Err_0 is RequestTooLarge,
    {
        let g = self.check_global();
        let k = if g {
            match token {
                Some(t) => Some(self.check_keyed(t)),
                None => Some(self.check_keyed("anonymous")),
            }
        } else {
            None
        };
        admit_rate(g, k)
    }
}

} // verus!
