//! The delivery service: the request for a batch, and the follow-up of each
//! delivery attempt.

use vstd::prelude::*;
use crate::dsn::{dsn_outcome, endpoint_of, parse_dsn_to_endpoint};
use crate::error::SinkError;

verus! {

#[verifier::external_type_specification]
#[verifier::external_body]
pub struct ExUri(http::Uri);

/// A name for whether `http::Uri` accepts a text as a URI.
pub uninterp spec fn uri_accepts(s: Seq<char>) -> bool;

/// Relies on `<http::Uri as FromStr>::from_str`: the URI a text spells, where
/// it spells one.
#[verifier::external_body]
fn parse_uri(s: &str) -> (r: Option<http::Uri>)
    ensures
        r is Some == uri_accepts(s@),
{
    s.parse::<http::Uri>().ok()
}

/// The value of the authentication header for a public key.
pub open spec fn auth_header_of(public_key: Seq<char>) -> Seq<char> {
    "Sentry sentry_version=7, sentry_client=sentry.vector.sink/0.1.0, sentry_key="@ + public_key
}

/// Builds the HTTP request that carries an envelope to the ingestion endpoint.
#[derive(Debug)]
pub struct SentryServiceRequestBuilder {
    pub uri: http::Uri,
    pub endpoint: String,
    pub public_key: String,
}

impl SentryServiceRequestBuilder {
    /// Resolves the DSN into the endpoint and the key the requests carry.
    pub fn new(dsn: &str) -> (r: Result<Self, SinkError>)
        ensures
            match dsn_outcome(dsn@) {
                Err(e) => r == Err::<Self, SinkError>(SinkError::InvalidDsn(e)),
                Ok(d) => if uri_accepts(endpoint_of(d)) {
                    r matches Ok(b) && b.endpoint@ == endpoint_of(d) && b.public_key@ == d.public_key
                } else {
                    r == Err::<Self, SinkError>(SinkError::InvalidEndpoint)
                },
            },
    {
        let (endpoint, public_key) = parse_dsn_to_endpoint(dsn)?;
        match parse_uri(endpoint.as_str()) {
            Some(uri) => Ok(SentryServiceRequestBuilder { uri, endpoint, public_key }),
            None => Err(SinkError::InvalidEndpoint),
        }
    }

    /// The headers of each request, in order: the content type, the
    /// authentication header and the user agent.
    pub fn headers(&self) -> (r: Vec<(String, String)>)
        ensures
            r@.len() == 3,
            r@[0].0@ == "Content-Type"@,
            r@[0].1@ == "application/x-sentry-envelope"@,
            r@[1].0@ == "X-Sentry-Auth"@,
            r@[1].1@ == auth_header_of(self.public_key@),
            r@[2].0@ == "User-Agent"@,
            r@[2].1@ == "sentry.vector.sink/0.1.0"@,
    {
        let mut auth = String::from_str(
            "Sentry sentry_version=7, sentry_client=sentry.vector.sink/0.1.0, sentry_key=",
        );
        auth.append(self.public_key.as_str());
        let mut r: Vec<(String, String)> = Vec::new();
        r.push(
            (String::from_str("Content-Type"), String::from_str("application/x-sentry-envelope")),
        );
        r.push((String::from_str("X-Sentry-Auth"), auth));
        r.push((String::from_str("User-Agent"), String::from_str("sentry.vector.sink/0.1.0")));
        r
    }
}

/// What one delivery attempt came back with.
#[derive(Clone, Copy, Debug, PartialEq, Eq, Structural)]
pub enum AttemptOutcome {
    /// The endpoint answered with this HTTP status.
    Status(u16),
    /// The request did not reach the endpoint, or no answer came back.
    TransportError,
}

/// How an attempt's outcome is classed.
#[derive(Clone, Copy, Debug, PartialEq, Eq, Structural)]
pub enum ResponseClass {
    Success,
    Retryable,
    Permanent,
}

/// Any 2xx status is success; 429, any 5xx and a transport error are worth
/// another attempt; every other status is a permanent failure.
pub open spec fn class_of(outcome: AttemptOutcome) -> ResponseClass {
    match outcome {
        AttemptOutcome::Status(s) => if 200 <= s < 300 {
            ResponseClass::Success
        } else if s == 429 || 500 <= s < 600 {
            ResponseClass::Retryable
        } else {
            ResponseClass::Permanent
        },
        AttemptOutcome::TransportError => ResponseClass::Retryable,
    }
}

/// Classes an attempt's outcome.
pub fn classify(outcome: AttemptOutcome) -> (r: ResponseClass)
    ensures
        r == class_of(outcome),
{
    match outcome {
        AttemptOutcome::Status(s) => {
            if 200 <= s && s < 300 {
                ResponseClass::Success
            } else if s == 429 || (500 <= s && s < 600) {
                ResponseClass::Retryable
            } else {
                ResponseClass::Permanent
            }
        },
        AttemptOutcome::TransportError => ResponseClass::Retryable,
    }
}

/// The retry budget: at most `max_attempts` attempts, the wait before the
/// second being `initial_backoff_ms` and doubling after each attempt, never
/// beyond `max_backoff_ms`.
#[derive(Clone, Copy, Debug, PartialEq, Eq, Structural)]
pub struct RetryPolicy {
    pub max_attempts: u32,
    pub initial_backoff_ms: u64,
    pub max_backoff_ms: u64,
}

/// The wait after the attempt numbered `attempt` (from one) failed.
pub open spec fn backoff_ms(policy: RetryPolicy, attempt: nat) -> u64
    decreases attempt,
{
    if attempt <= 1 {
        if policy.initial_backoff_ms <= policy.max_backoff_ms {
            policy.initial_backoff_ms
        } else {
            policy.max_backoff_ms
        }
    } else {
        let prev = backoff_ms(policy, (attempt - 1) as nat);
        if prev > policy.max_backoff_ms / 2 {
            policy.max_backoff_ms
        } else {
            (prev * 2) as u64
        }
    }
}

/// What follows a delivery attempt.
#[derive(Clone, Copy, Debug, PartialEq, Eq, Structural)]
pub enum DeliveryStep {
    /// The batch is accepted: its records are delivered.
    Delivered,
    /// The batch failed for good: its records are reported failed.
    Failed,
    /// Try again after this many milliseconds.
    RetryAfter(u64),
}

/// The step after attempt number `attempt` (from one) came back with `outcome`.
pub open spec fn step_after(policy: RetryPolicy, attempt: nat, outcome: AttemptOutcome) -> DeliveryStep {
    match class_of(outcome) {
        ResponseClass::Success => DeliveryStep::Delivered,
        ResponseClass::Permanent => DeliveryStep::Failed,
        ResponseClass::Retryable => if attempt >= policy.max_attempts {
            DeliveryStep::Failed
        } else {
            DeliveryStep::RetryAfter(backoff_ms(policy, attempt))
        },
    }
}

impl RetryPolicy {
    /// The wait after the attempt numbered `attempt` (from one) failed.
    pub fn backoff(&self, attempt: u32) -> (r: u64)
        ensures
            r == backoff_ms(*self, attempt as nat),
            r <= self.max_backoff_ms,
    {
        let mut wait: u64 = if self.initial_backoff_ms <= self.max_backoff_ms {
            self.initial_backoff_ms
        } else {
            self.max_backoff_ms
        };
        let mut k: u32 = 1;
        while k < attempt
            invariant
                1 <= k,
                k <= attempt || (attempt == 0 && k == 1),
                wait == backoff_ms(*self, k as nat),
                wait <= self.max_backoff_ms,
            decreases attempt - k,
        {
            wait = if wait > self.max_backoff_ms / 2 {
                self.max_backoff_ms
            } else {
                wait * 2
            };
            k = k + 1;
        }
        assert(backoff_ms(*self, 0) == backoff_ms(*self, 1));
        wait
    }
}

/// The follow-up of one batch's delivery: the attempts made so far.
pub struct Delivery {
    policy: RetryPolicy,
    attempts: u32,
}

impl Delivery {
    pub closed spec fn policy(&self) -> RetryPolicy {
        self.policy
    }

    /// The attempts made so far.
    pub closed spec fn attempts(&self) -> nat {
        self.attempts as nat
    }

    /// A delivery with no attempt made yet.
    pub fn new(policy: RetryPolicy) -> (r: Self)
        ensures
            r.policy() == policy,
            r.attempts() == 0,
    {
        Delivery { policy, attempts: 0 }
    }

    /// Records the outcome of the next attempt and says what follows it.
    /// Once `max_attempts` attempts are made no further one is asked for.
    pub fn record(&mut self, outcome: AttemptOutcome) -> (r: DeliveryStep)
        requires
            old(self).attempts() < u32::MAX,
        ensures
            final(self).policy() == old(self).policy(),
            final(self).attempts() == old(self).attempts() + 1,
            r == step_after(old(self).policy(), final(self).attempts(), outcome),
            r is RetryAfter ==> final(self).attempts() < old(self).policy().max_attempts,
    {
        self.attempts = self.attempts + 1;
        match classify(outcome) {
            ResponseClass::Success => DeliveryStep::Delivered,
            ResponseClass::Permanent => DeliveryStep::Failed,
            ResponseClass::Retryable => {
                if self.attempts >= self.policy.max_attempts {
                    DeliveryStep::Failed
                } else {
                    DeliveryStep::RetryAfter(self.policy.backoff(self.attempts))
                }
            },
        }
    }
}

/// An attempt that meets a server error is retried after the first wait,
/// and an accepted retry ends the delivery as delivered, for any budget of
/// at least two attempts.
pub proof fn server_error_then_success(policy: RetryPolicy, error: u16, success: u16)
    requires
        policy.max_attempts >= 2,
        500 <= error < 600,
        200 <= success < 300,
    ensures
        step_after(policy, 1, AttemptOutcome::Status(error)) == DeliveryStep::RetryAfter(
            backoff_ms(policy, 1),
        ),
        step_after(policy, 2, AttemptOutcome::Status(success)) == DeliveryStep::Delivered,
{
}

} // verus!
