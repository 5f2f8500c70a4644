//! Ingestion strategies: the decisions each command source makes.
//!
//! Exactly one strategy is active per run. The TCP listener admits a
//! bounded number of concurrent connections through a counting semaphore
//! with bounded retry; the GPIO monitor turns pin levels into fist
//! commands; the idle/EMG strategy turns classification responses into
//! follow-up commands through a lookup table. The loops that read sockets,
//! pins and timers live outside this crate and call these decisions.

use crate::sgcp::Request;
use crate::sgcp::Resource;
use vstd::prelude::*;

verus! {

/// Default number of attempts for the bounded retry helper.
pub const RETRY_MAX_ATTEMPTS: u64 = 5;

/// Default delay between retry attempts, in milliseconds.
pub const RETRY_INTERVAL_MS: u64 = 100;

/// The bounded-retry policy: how often an operation is attempted and how
/// long the caller sleeps in between. Retrying applies only to connection
/// admission and to writing response frames — never to resource task
/// execution itself.
#[derive(Clone, Copy, PartialEq, Eq, Structural, Debug)]
pub struct RetryPolicy {
    pub max_retries: u64,
    pub interval_ms: u64,
}

impl RetryPolicy {
    /// The default policy: five attempts, 100 ms apart.
    pub fn standard() -> (p: RetryPolicy)
        ensures
            p == (RetryPolicy { max_retries: RETRY_MAX_ATTEMPTS, interval_ms: RETRY_INTERVAL_MS }),
    {
        RetryPolicy { max_retries: RETRY_MAX_ATTEMPTS, interval_ms: RETRY_INTERVAL_MS }
    }

    /// Whether a failed operation should be attempted again after
    /// `retries_made` retries so far.
    pub fn should_retry(&self, retries_made: u64) -> (r: bool)
        ensures
            r == (retries_made <= self.max_retries),
    {
        retries_made <= self.max_retries
    }
}

/// The TCP listener's admission control: a counting semaphore sized to
/// the configured maximum number of concurrent connections. A connection
/// holds its permit for its whole lifetime and releases it when it ends.
pub struct TcpDispatcher {
    pub max_concurrent_connections: usize,
    pub active_connections: usize,
}

/// The semaphore never hands out more permits than it has.
pub open spec fn spec_admission_wf(s: TcpDispatcher) -> bool {
    s.active_connections <= s.max_concurrent_connections
}

/// State and outcome of one admission attempt.
pub open spec fn spec_try_acquire(s: TcpDispatcher) -> (TcpDispatcher, bool) {
    if s.active_connections < s.max_concurrent_connections {
        (
            TcpDispatcher { active_connections: (s.active_connections + 1) as usize, ..s },
            true,
        )
    } else {
        (s, false)
    }
}

/// State and outcome of an admission attempt with up to `attempts` tries.
/// While no permit is released, later tries see the same full semaphore.
pub open spec fn spec_acquire_with_retry(s: TcpDispatcher, attempts: nat) -> (TcpDispatcher, bool)
    decreases attempts,
{
    if attempts == 0 {
        (s, false)
    } else {
        let (s1, ok) = spec_try_acquire(s);
        if ok {
            (s1, true)
        } else {
            spec_acquire_with_retry(s1, (attempts - 1) as nat)
        }
    }
}

impl TcpDispatcher {
    /// Admission control for a listener with the given connection bound.
    pub fn new(max_concurrent_connections: usize) -> (s: Self)
        ensures
            s == (TcpDispatcher { max_concurrent_connections, active_connections: 0 }),
    {
        TcpDispatcher { max_concurrent_connections, active_connections: 0 }
    }

    /// Tries to take one connection permit. Succeeds exactly while fewer
    /// connections are active than the configured maximum.
    pub fn try_acquire(&mut self) -> (ok: bool)
        ensures
            (*final(self), ok) == spec_try_acquire(*old(self)),
    {
        if self.active_connections < self.max_concurrent_connections {
            self.active_connections = self.active_connections + 1;
            true
        } else {
            false
        }
    }

    /// Tries to take one connection permit up to `attempts` times. The
    /// caller sleeps between attempts; no permit can appear from within,
    /// so the outcome is decided by the first try.
    pub fn acquire_with_retry(&mut self, attempts: u64) -> (ok: bool)
        ensures
            (*final(self), ok) == spec_acquire_with_retry(*old(self), attempts as nat),
    {
        let mut tries_left = attempts;
        while tries_left > 0
            invariant
                spec_acquire_with_retry(*old(self), attempts as nat) == spec_acquire_with_retry(
                    *self,
                    tries_left as nat,
                ),
            decreases tries_left,
        {
            if self.try_acquire() {
                return true;
            }
            tries_left = tries_left - 1;
        }
        false
    }

    /// Returns a connection's permit when the connection ends.
    pub fn release(&mut self)
        requires
            old(self).active_connections > 0,
        ensures
            *final(self) == (TcpDispatcher {
                active_connections: (old(self).active_connections - 1) as usize,
                ..*old(self)
            }),
    {
        self.active_connections = self.active_connections - 1;
    }
}

/// The semaphore invariant holds in every reachable state: a fresh
/// dispatcher satisfies it, and acquisition — with or without retries —
/// preserves it.
pub proof fn lemma_admission_invariant(s: TcpDispatcher, attempts: nat)
    requires
        spec_admission_wf(s),
    ensures
        spec_admission_wf(spec_try_acquire(s).0),
        spec_admission_wf(spec_acquire_with_retry(s, attempts).0),
    decreases attempts,
{
    if attempts > 0 && !spec_try_acquire(s).1 {
        lemma_admission_invariant(spec_try_acquire(s).0, (attempts - 1) as nat);
    }
}

/// Retrying cannot conjure a permit: while the semaphore is full, every
/// bounded-retry acquisition fails and changes nothing.
pub proof fn lemma_retry_saturated(s: TcpDispatcher, attempts: nat)
    requires
        s.active_connections >= s.max_concurrent_connections,
    ensures
        spec_acquire_with_retry(s, attempts) == (s, false),
    decreases attempts,
{
    if attempts > 0 {
        lemma_retry_saturated(s, (attempts - 1) as nat);
    }
}

/// Admission control with a bound of one: the first connection is
/// admitted; a second connection opened while the first is still active
/// is rejected however often it retries, and the first keeps its permit.
pub proof fn lemma_admission_control(s: TcpDispatcher, attempts: nat)
    requires
        s.max_concurrent_connections == 1,
        s.active_connections == 0,
    ensures
        ({
            let (s1, ok1) = spec_try_acquire(s);
            &&& ok1
            &&& s1.active_connections == 1
            &&& spec_acquire_with_retry(s1, attempts) == (s1, false)
        }),
{
    let (s1, ok1) = spec_try_acquire(s);
    lemma_retry_saturated(s1, attempts);
}

// ---------------------------------------------------------------------------
// GPIO monitor strategy
// ---------------------------------------------------------------------------

/// The fist command for one GPIO poll: a high pin level opens the fist,
/// a low level closes it. This is the alternate command source used to
/// drive the arm from a physical button.
pub fn gpio_request(pin_high: bool) -> (r: Request)
    ensures
        r.resource == Resource::Maestro,
        pin_high ==> r@.task_code == "OPEN_FIST"@,
        !pin_high ==> r@.task_code == "CLOSE_FIST"@,
        r.task_data is None,
{
    let task_code = if pin_high {
        "OPEN_FIST".to_owned()
    } else {
        "CLOSE_FIST".to_owned()
    };
    Request { resource: Resource::Maestro, task_code, task_data: Option::None }
}

// ---------------------------------------------------------------------------
// Idle / EMG monitor strategy
// ---------------------------------------------------------------------------

/// The one-time calibration command issued when the EMG strategy starts.
pub fn calibrate_request() -> (r: Request)
    ensures
        r.resource == Resource::Emg,
        r@.task_code == "CALIBRATE"@,
        r.task_data is None,
{
    Request {
        resource: Resource::Emg,
        task_code: "CALIBRATE".to_owned(),
        task_data: Option::None,
    }
}

/// The periodic sampling command of the EMG strategy.
pub fn idle_request() -> (r: Request)
    ensures
        r.resource == Resource::Emg,
        r@.task_code == "IDLE"@,
        r.task_data is None,
{
    Request { resource: Resource::Emg, task_code: "IDLE".to_owned(), task_data: Option::None }
}

/// The first mapping entry whose response text equals `resp`: the task
/// code and resource of the follow-up command, if any entry matches.
pub open spec fn spec_find_follow_up(
    m: Seq<(String, String, Resource)>,
    resp: Seq<char>,
) -> Option<(String, Resource)>
    decreases m.len(),
{
    if m.len() == 0 {
        Option::None
    } else if m.first().0@ == resp {
        Option::Some((m.first().1, m.first().2))
    } else {
        spec_find_follow_up(m.drop_first(), resp)
    }
}

/// The standard EMG response-to-task table: an open-hand classification
/// triggers an open-fist command to the servo controller, a close-hand
/// classification a close-fist command.
pub fn emg_response_mapping() -> (m: Vec<(String, String, Resource)>)
    ensures
        m@.len() == 2,
        m@[0].0@ == "OPEN HAND"@ && m@[0].1@ == "OPEN_FIST"@ && m@[0].2 == Resource::Maestro,
        m@[1].0@ == "CLOSE HAND"@ && m@[1].1@ == "CLOSE_FIST"@ && m@[1].2 == Resource::Maestro,
{
    let mut m: Vec<(String, String, Resource)> = Vec::new();
    m.push(("OPEN HAND".to_owned(), "OPEN_FIST".to_owned(), Resource::Maestro));
    m.push(("CLOSE HAND".to_owned(), "CLOSE_FIST".to_owned(), Resource::Maestro));
    m
}

/// Turns a manager's idle response into the follow-up command of the
/// first matching table entry. An unrecognized response produces no
/// command and has no side effects.
pub fn handle_idle_response(mapping: &Vec<(String, String, Resource)>, response: &str) -> (r:
    Option<Request>)
    ensures
        r is Some <==> spec_find_follow_up(mapping@, response@) is Some,
        r is Some ==> ({
            let (code, resource) = spec_find_follow_up(mapping@, response@)->0;
            &&& r->0.resource == resource
            &&& r->0@.task_code == code@
            &&& r->0.task_data is None
        }),
{
    let mut i: usize = 0;
    let n = mapping.len();
    proof {
        assert(mapping@.skip(0) =~= mapping@);
    }
    while i < n
        invariant
            i <= n,
            n == mapping@.len(),
            spec_find_follow_up(mapping@, response@) == spec_find_follow_up(
                mapping@.skip(i as int),
                response@,
            ),
        decreases n - i,
    {
        let ghost rest = mapping@.skip(i as int);
        proof {
            assert(rest.first() == mapping@[i as int]);
            assert(rest.drop_first() =~= mapping@.skip(i as int + 1));
        }
        let entry = &mapping[i];
        if crate::utils::str_eq(entry.0.as_str(), response) {
            return Option::Some(
                Request {
                    resource: entry.2,
                    task_code: entry.1.clone(),
                    task_data: Option::None,
                },
            );
        }
        i = i + 1;
    }
    Option::None
}

} // verus!
