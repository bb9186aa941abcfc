use vstd::prelude::*;
use crate::delivery::DeliveryContext;
use crate::error::{ErrorClass, ObservabilityError};
use crate::ids::{hex_text, is_hex_text, new_span_id, new_trace_id, span_bits, trace_bits};
use crate::records::{Command, LogEntry, MetricData, TraceSpan};
use crate::text::same_text;
use tokio::sync::mpsc::{Receiver, Sender};

verus! {

/// How many commands the queue holds before it refuses more.
pub const QUEUE_CAPACITY: usize = 1027;

/// Calls of one kind closer together than this many milliseconds are refused
/// by the throttle.
pub const RATE_LIMIT_WINDOW_MS: u64 = 200;

#[verifier::external_type_specification]
#[verifier::external_body]
#[verifier::reject_recursive_types(T)]
pub struct ExSender<T>(Sender<T>);

#[verifier::external_type_specification]
#[verifier::external_body]
#[verifier::reject_recursive_types(T)]
pub struct ExReceiver<T>(Receiver<T>);

/// Why the queue refused a command.
#[derive(Clone, Copy, PartialEq, Eq, Structural, Debug)]
pub enum QueueRefusal {
    /// Every slot is taken.
    Full,
    /// The worker is gone.
    Closed,
}

/// Relies on `tokio::sync::mpsc::channel`: a bounded multi-producer,
/// single-consumer FIFO channel of `capacity` slots; it panics on a
/// capacity of 0 or above `usize::MAX >> 3`.
#[verifier::external_body]
fn open_queue(capacity: usize) -> (r: (Sender<Command>, Receiver<Command>))
    requires
        0 < capacity <= QUEUE_CAPACITY,
{
    tokio::sync::mpsc::channel(capacity)
}

/// Relies on `tokio::sync::mpsc::Sender::try_send`: it never blocks, and
/// refuses the command when the channel is full or its receiver is gone.
/// Whether it accepts depends on what the worker has taken out meanwhile,
/// so nothing is promised of the outcome.
#[verifier::external_body]
fn try_enqueue(sender: &Sender<Command>, command: Command) -> (r: Result<(), QueueRefusal>) {
    match sender.try_send(command) {
        Ok(()) => Ok(()),
        Err(tokio::sync::mpsc::error::TrySendError::Full(_)) => Err(QueueRefusal::Full),
        Err(tokio::sync::mpsc::error::TrySendError::Closed(_)) => Err(QueueRefusal::Closed),
    }
}

/// Relies on `std::time::SystemTime::now` and `duration_since(UNIX_EPOCH)`:
/// the wall-clock time in milliseconds, 0 for a clock set before the epoch.
/// Nothing is promised of its value.
#[verifier::external_body]
fn unix_millis_now() -> (r: u64) {
    std::time::SystemTime::now().duration_since(std::time::UNIX_EPOCH).map(
        |d| d.as_millis() as u64,
    ).unwrap_or(0)
}

/// The error a caller sees when the queue refused a `what`.
pub open spec fn refusal_error(refusal: QueueRefusal, what: Seq<char>) -> (ErrorClass, Seq<char>) {
    match refusal {
        QueueRefusal::Full => (ErrorClass::Api, "Failed to queue "@ + what + ": queue is full"@),
        QueueRefusal::Closed => (ErrorClass::Api, "Failed to queue "@ + what
            + ": worker has stopped"@),
    }
}

/// What the caller of an enqueue sees: success, or one of the two refusals.
pub open spec fn enqueue_reported(r: Result<(), ObservabilityError>, what: Seq<char>) -> bool {
    match r {
        Ok(()) => true,
        Err(e) => e@ == refusal_error(QueueRefusal::Full, what) || e@ == refusal_error(
            QueueRefusal::Closed,
            what,
        ),
    }
}

/// The result reported to the caller for the queue's answer `outcome` on
/// a `what`.
pub fn enqueue_outcome(outcome: Result<(), QueueRefusal>, what: &str) -> (r: Result<
    (),
    ObservabilityError,
>)
    ensures
        match outcome {
            Ok(()) => r is Ok,
            Err(refusal) => r matches Err(e) && e@ == refusal_error(refusal, what@),
        },
{
    match outcome {
        Ok(()) => Ok(()),
        Err(QueueRefusal::Full) => Err(
            ObservabilityError::ApiError(
                String::from_str("Failed to queue ").concat(what).concat(": queue is full"),
            ),
        ),
        Err(QueueRefusal::Closed) => Err(
            ObservabilityError::ApiError(
                String::from_str("Failed to queue ").concat(what).concat(": worker has stopped"),
            ),
        ),
    }
}

/// The last call time recorded for `key` in a throttle table, 0 if none.
pub open spec fn last_call(table: Seq<(String, u64)>, key: Seq<char>) -> u64 {
    if exists|i: int| 0 <= i < table.len() && (#[trigger] table[i]).0@ == key {
        table[choose|i: int| 0 <= i < table.len() && (#[trigger] table[i]).0@ == key].1
    } else {
        0
    }
}

/// No key occurs twice in a throttle table.
pub open spec fn table_keys_unique(table: Seq<(String, u64)>) -> bool {
    forall|i: int, j: int|
        0 <= i < j < table.len() ==> (#[trigger] table[i]).0@ != (#[trigger] table[j]).0@
}

/// A call at `now_ms` comes too soon after one at `last` (0: none yet).
/// A clock that went back (`now_ms < last`) does not throttle.
pub open spec fn too_soon(last: u64, now_ms: u64) -> bool {
    last != 0 && last <= now_ms && now_ms - last < RATE_LIMIT_WINDOW_MS
}

/// The handle through which callers enqueue telemetry for the background
/// worker.
pub struct ObservabilityClient {
    context: DeliveryContext,
    sender: Sender<Command>,
    rate_limits: Vec<(String, u64)>,
}

impl ObservabilityClient {
    /// The throttle table: for each kind of call, when it was last allowed.
    pub closed spec fn rate_table(&self) -> Seq<(String, u64)> {
        self.rate_limits@
    }

    pub closed spec fn context_view(&self) -> DeliveryContext {
        self.context
    }

    pub closed spec fn wf(&self) -> bool {
        table_keys_unique(self.rate_limits@)
    }

    /// A client for `project_id` whose credential source lies at
    /// `service_account_path`, with the receiving end of its queue, which
    /// the worker drains. Authentication is done before this is called.
    pub fn new(
        project_id: String,
        service_account_path: String,
        default_service_name: Option<String>,
    ) -> (r: (ObservabilityClient, Receiver<Command>))
        ensures
            r.0.wf(),
            r.0.context_view().project_id == project_id,
            r.0.context_view().service_account_path == service_account_path,
            r.0.context_view().default_service_name == default_service_name,
            r.0.rate_table().len() == 0,
    {
        let (sender, receiver) = open_queue(QUEUE_CAPACITY);
        let context = DeliveryContext { project_id, service_account_path, default_service_name };
        (ObservabilityClient { context, sender, rate_limits: Vec::new() }, receiver)
    }

    /// The configuration every delivery of this client sees.
    pub fn context(&self) -> (r: &DeliveryContext)
        ensures
            *r == self.context_view(),
    {
        &self.context
    }

    fn enqueue(&self, command: Command, what: &str) -> (r: Result<(), ObservabilityError>)
        ensures
            enqueue_reported(r, what@),
    {
        let outcome = try_enqueue(&self.sender, command);
        enqueue_outcome(outcome, what)
    }

    /// Queues a log line without blocking; reports only whether the queue
    /// took it.
    pub fn send_log(&self, entry: LogEntry) -> (r: Result<(), ObservabilityError>)
        ensures
            enqueue_reported(r, "log entry"@),
    {
        self.enqueue(Command::Log(entry), "log entry")
    }

    /// Queues a metric reading without blocking; reports only whether the
    /// queue took it.
    pub fn send_metric(&self, metric: MetricData) -> (r: Result<(), ObservabilityError>)
        ensures
            enqueue_reported(r, "metric"@),
    {
        self.enqueue(Command::Metric(metric), "metric")
    }

    /// Queues a span without blocking; reports only whether the queue took
    /// it.
    pub fn send_trace(&self, span: TraceSpan) -> (r: Result<(), ObservabilityError>)
        ensures
            enqueue_reported(r, "trace span"@),
    {
        self.enqueue(Command::Trace(span), "trace span")
    }

    /// Queues the shutdown signal: the worker stops when it reaches it, and
    /// drops whatever is queued behind it.
    pub fn shutdown(&self) -> (r: Result<(), ObservabilityError>)
        ensures
            enqueue_reported(r, "shutdown"@),
    {
        self.enqueue(Command::Shutdown, "shutdown")
    }

    /// A new trace identifier: 32 lower-case hexadecimal digits.
    pub fn generate_trace_id() -> (r: String)
        ensures
            r@.len() == 32,
            is_hex_text(r@),
            exists|bits: u128| r@ == hex_text(trace_bits(bits), 32),
    {
        new_trace_id()
    }

    /// A new span identifier: 16 lower-case hexadecimal digits.
    pub fn generate_span_id() -> (r: String)
        ensures
            r@.len() == 16,
            is_hex_text(r@),
            exists|bits: u128| r@ == hex_text(span_bits(bits), 16),
    {
        new_span_id()
    }

    /// Throttles calls of kind `api_type` made at `now_ms` to one per
    /// `RATE_LIMIT_WINDOW_MS`: a call too soon after the last allowed one
    /// of its kind is refused and changes nothing; any other is allowed and
    /// recorded as the last one of its kind.
    pub fn check_rate_limit_at(&mut self, api_type: &str, now_ms: u64) -> (r: Result<
        (),
        ObservabilityError,
    >)
        requires
            old(self).wf(),
        ensures
            final(self).wf(),
            final(self).context_view() == old(self).context_view(),
            too_soon(last_call(old(self).rate_table(), api_type@), now_ms) ==> (r matches Err(e)
                && e@ == (ErrorClass::RateLimit, "Rate limit exceeded for "@ + api_type@))
                && final(self).rate_table() == old(self).rate_table(),
            !too_soon(last_call(old(self).rate_table(), api_type@), now_ms) ==> r is Ok
                && last_call(final(self).rate_table(), api_type@) == now_ms && forall|k: Seq<char>|
                k != api_type@ ==> last_call(final(self).rate_table(), k) == last_call(
                old(self).rate_table(),
                k,
            ),
    {
        let n = self.rate_limits.len();
        let mut i: usize = 0;
        while i < n
            invariant
                n == self.rate_limits@.len(),
                self.rate_limits@ == old(self).rate_limits@,
                self.context == old(self).context,
                table_keys_unique(self.rate_limits@),
                i <= n,
                forall|k: int| 0 <= k < i ==> (#[trigger] self.rate_limits@[k]).0@ != api_type@,
            decreases n - i,
        {
            if same_text(self.rate_limits[i].0.as_str(), api_type) {
                let last = self.rate_limits[i].1;
                proof {
                    lemma_last_call_at(self.rate_limits@, api_type@, i as int);
                }
                if last != 0 && last <= now_ms && now_ms - last < RATE_LIMIT_WINDOW_MS {
                    return Err(
                        ObservabilityError::RateLimitError(
                            String::from_str("Rate limit exceeded for ").concat(api_type),
                        ),
                    );
                }
                let ghost before = self.rate_limits@;
                let key = self.rate_limits[i].0.clone();
                self.rate_limits.set(i, (key, now_ms));
                proof {
                    let after = self.rate_limits@;
                    assert(table_keys_unique(after)) by {
                        assert forall|a: int, b: int| 0 <= a < b < after.len() implies (#[trigger] after[a]).0@ != (#[trigger] after[b]).0@ by {
                            assert(after[a].0@ == before[a].0@);
                            assert(after[b].0@ == before[b].0@);
                        }
                    }
                    lemma_last_call_at(after, api_type@, i as int);
                    assert forall|k: Seq<char>| k != api_type@ implies last_call(after, k) == last_call(before, k) by {
                        lemma_last_call_other(before, after, k, i as int);
                    }
                }
                return Ok(());
            }
            i = i + 1;
        }
        let ghost before = self.rate_limits@;
        proof {
            assert(!exists|k: int| 0 <= k < before.len() && (#[trigger] before[k]).0@ == api_type@);
        }
        self.rate_limits.push((String::from_str(api_type), now_ms));
        proof {
            let after = self.rate_limits@;
            assert(after[n as int].0@ == api_type@);
            assert(table_keys_unique(after)) by {
                assert forall|a: int, b: int| 0 <= a < b < after.len() implies (#[trigger] after[a]).0@ != (#[trigger] after[b]).0@ by {
                    assert(after[a] == before[a]);
                    if b < n {
                        assert(after[b] == before[b]);
                    }
                }
            }
            lemma_last_call_at(after, api_type@, n as int);
            assert forall|k: Seq<char>| k != api_type@ implies last_call(after, k) == last_call(before, k) by {
                if exists|j: int| 0 <= j < before.len() && (#[trigger] before[j]).0@ == k {
                    let j = choose|j: int| 0 <= j < before.len() && (#[trigger] before[j]).0@ == k;
                    lemma_last_call_at(before, k, j);
                    assert(after[j] == before[j]);
                    lemma_last_call_at(after, k, j);
                } else {
                    assert forall|j: int| 0 <= j < after.len() implies (#[trigger] after[j]).0@ != k by {
                        if j < n {
                            assert(after[j] == before[j]);
                        }
                    }
                }
            }
        }
        Ok(())
    }

    /// Throttles calls of kind `api_type` made now (see `check_rate_limit_at`).
    pub fn check_rate_limit(&mut self, api_type: &str) -> (r: Result<(), ObservabilityError>)
        requires
            old(self).wf(),
        ensures
            final(self).wf(),
            final(self).context_view() == old(self).context_view(),
            r is Ok || (r matches Err(e) && e@ == (ErrorClass::RateLimit, "Rate limit exceeded for "@
                + api_type@)),
    {
        let now_ms = unix_millis_now();
        self.check_rate_limit_at(api_type, now_ms)
    }
}

proof fn lemma_last_call_at(table: Seq<(String, u64)>, key: Seq<char>, i: int)
    requires
        table_keys_unique(table),
        0 <= i < table.len(),
        table[i].0@ == key,
    ensures
        last_call(table, key) == table[i].1,
{
    let j = choose|j: int| 0 <= j < table.len() && (#[trigger] table[j]).0@ == key;
    if j != i {
        if j < i {
            assert(table[j].0@ != table[i].0@);
        } else {
            assert(table[i].0@ != table[j].0@);
        }
    }
}

proof fn lemma_last_call_other(
    before: Seq<(String, u64)>,
    after: Seq<(String, u64)>,
    key: Seq<char>,
    i: int,
)
    requires
        table_keys_unique(before),
        table_keys_unique(after),
        before.len() == after.len(),
        0 <= i < before.len(),
        before[i].0@ != key,
        after[i].0@ == before[i].0@,
        forall|j: int| 0 <= j < before.len() && j != i ==> after[j] == before[j],
    ensures
        last_call(after, key) == last_call(before, key),
{
    if exists|j: int| 0 <= j < before.len() && (#[trigger] before[j]).0@ == key {
        let j = choose|j: int| 0 <= j < before.len() && (#[trigger] before[j]).0@ == key;
        lemma_last_call_at(before, key, j);
        lemma_last_call_at(after, key, j);
    } else {
        assert forall|j: int| 0 <= j < after.len() implies (#[trigger] after[j]).0@ != key by {
            if j != i {
                assert(after[j] == before[j]);
            }
        }
    }
}

} // verus!
