use vstd::prelude::*;

verus! {

/// Timeout and retry settings of the HTTP client.
#[derive(Clone, Copy, Debug)]
pub struct HttpClientBuilder {
    pub timeout_secs: u64,
    pub max_retries: usize,
    pub retry_base_ms: u64,
}

impl Default for HttpClientBuilder {
    fn default() -> (r: Self)
        ensures
            r.timeout_secs == 10,
            r.max_retries == 3,
            r.retry_base_ms == 1000,
    {
        HttpClientBuilder { timeout_secs: 10, max_retries: 3, retry_base_ms: 1000 }
    }
}

impl HttpClientBuilder {
    /// Ten seconds of timeout, three retries, a base delay of one second.
    pub fn new() -> (r: Self)
        ensures
            r.timeout_secs == 10,
            r.max_retries == 3,
            r.retry_base_ms == 1000,
    {
        Self::default()
    }

    pub fn timeout_secs(self, secs: u64) -> (r: Self)
        ensures
            r == (HttpClientBuilder { timeout_secs: secs, ..self }),
    {
        let mut b = self;
        b.timeout_secs = secs;
        b
    }

    pub fn max_retries(self, retries: usize) -> (r: Self)
        ensures
            r == (HttpClientBuilder { max_retries: retries, ..self }),
    {
        let mut b = self;
        b.max_retries = retries;
        b
    }

    pub fn retry_base_ms(self, ms: u64) -> (r: Self)
        ensures
            r == (HttpClientBuilder { retry_base_ms: ms, ..self }),
    {
        let mut b = self;
        b.retry_base_ms = ms;
        b
    }
}

/// How one request attempt ended.
#[derive(Clone, Copy, Debug, PartialEq, Eq, Structural)]
pub enum AttemptOutcome {
    /// A 2xx response whose body was read.
    Success,
    /// A 4xx response: a defect of the request, never retried.
    ClientError,
    /// Anything else: a network error, a timeout, another status, a body that
    /// could not be read or parsed.
    Failure,
}

/// What to do after an attempt.
#[derive(Clone, Copy, Debug, PartialEq, Eq, Structural)]
pub enum RetryStep {
    /// Hand the response to the caller.
    Done,
    /// Wait (before jitter) this many milliseconds, then try again.
    Retry { delay_ms: u64 },
    /// Stop and surface the last error.
    GiveUp,
}

/// The outcome of a response with this status code, once its body was read.
pub open spec fn status_outcome(status: u16) -> AttemptOutcome {
    if 200 <= status && status <= 299 {
        AttemptOutcome::Success
    } else if 400 <= status && status <= 499 {
        AttemptOutcome::ClientError
    } else {
        AttemptOutcome::Failure
    }
}

/// Classifies a response by its status code.
pub fn classify_status(status: u16) -> (r: AttemptOutcome)
    ensures
        r == status_outcome(status),
{
    if 200 <= status && status <= 299 {
        AttemptOutcome::Success
    } else if 400 <= status && status <= 499 {
        AttemptOutcome::ClientError
    } else {
        AttemptOutcome::Failure
    }
}

/// The delay before retry number `k + 1` of an exponential backoff from
/// `base` milliseconds: `base` to the power `k + 1`, saturating at `u64::MAX`.
pub open spec fn backoff_ms(base: u64, k: nat) -> u64
    decreases k,
{
    if k == 0 {
        base
    } else {
        let prev = backoff_ms(base, (k - 1) as nat);
        if prev as int * base as int > u64::MAX as int {
            u64::MAX
        } else {
            (prev * base) as u64
        }
    }
}

/// Relies on tokio_retry's `ExponentialBackoff`: from `base` milliseconds it
/// yields `base`, then multiplies by `base` at each step, saturating, and
/// never ends.
#[verifier::external_body]
fn nth_backoff_ms(base: u64, k: usize) -> (r: u64)
    ensures
        r == backoff_ms(base, k as nat),
{
    let mut delays = tokio_retry::strategy::ExponentialBackoff::from_millis(base);
    delays.nth(k).unwrap_or_default().as_millis() as u64
}

/// The decision after attempt number `attempt` (counted from one) ended with
/// `outcome`: success is handed on, a client error ends at once, and any
/// other failure is retried while fewer than `max_retries` retries were made.
pub open spec fn retry_step(b: HttpClientBuilder, attempt: nat, outcome: AttemptOutcome) -> RetryStep {
    match outcome {
        AttemptOutcome::Success => RetryStep::Done,
        AttemptOutcome::ClientError => RetryStep::GiveUp,
        AttemptOutcome::Failure => if attempt >= 1 && attempt - 1 < b.max_retries {
            RetryStep::Retry { delay_ms: backoff_ms(b.retry_base_ms, (attempt - 1) as nat) }
        } else {
            RetryStep::GiveUp
        },
    }
}

impl HttpClientBuilder {
    /// Decides what follows attempt number `attempt` (counted from one).
    pub fn next_step(&self, attempt: usize, outcome: AttemptOutcome) -> (r: RetryStep)
        ensures
            r == retry_step(*self, attempt as nat, outcome),
    {
        match outcome {
            AttemptOutcome::Success => RetryStep::Done,
            AttemptOutcome::ClientError => RetryStep::GiveUp,
            AttemptOutcome::Failure => if attempt >= 1 && attempt - 1 < self.max_retries {
                RetryStep::Retry { delay_ms: nth_backoff_ms(self.retry_base_ms, attempt - 1) }
            } else {
                RetryStep::GiveUp
            },
        }
    }
}

/// The number of attempts made when the attempts from number `made + 1` on
/// end as `outcomes[made]`, `outcomes[made + 1]`, and so on; running out of
/// outcomes stops the count.
pub open spec fn attempts_made(b: HttpClientBuilder, outcomes: Seq<AttemptOutcome>, made: nat) -> nat
    decreases outcomes.len() - made,
{
    if made >= outcomes.len() {
        made
    } else if retry_step(b, made + 1, outcomes[made as int]) is Retry {
        attempts_made(b, outcomes, made + 1)
    } else {
        made + 1
    }
}

/// With no retries configured exactly one attempt is made, whatever its
/// outcome; a client error on the first attempt ends after that attempt even
/// when retries are configured; and no run makes more than one attempt plus
/// the configured number of retries.
pub proof fn lemma_retry_attempts(b: HttpClientBuilder, outcomes: Seq<AttemptOutcome>)
    requires
        outcomes.len() >= 1,
    ensures
        b.max_retries == 0 ==> attempts_made(b, outcomes, 0) == 1,
        outcomes[0] == AttemptOutcome::ClientError ==> attempts_made(b, outcomes, 0) == 1,
        attempts_made(b, outcomes, 0) <= b.max_retries + 1,
{
    lemma_attempts_bound(b, outcomes, 0);
}

proof fn lemma_attempts_bound(b: HttpClientBuilder, outcomes: Seq<AttemptOutcome>, made: nat)
    requires
        made <= b.max_retries,
    ensures
        attempts_made(b, outcomes, made) <= b.max_retries + 1,
        made <= attempts_made(b, outcomes, made),
    decreases outcomes.len() - made,
{
    if made < outcomes.len() && retry_step(b, made + 1, outcomes[made as int]) is Retry {
        lemma_attempts_bound(b, outcomes, made + 1);
    }
}

/// The value of the `Authorization` header that carries a bearer token.
pub fn bearer_header(token: &str) -> (r: String)
    ensures
        r@ == "Bearer "@ + token@,
{
    let prefix = "Bearer ".to_owned();
    prefix.concat(token)
}

} // verus!
