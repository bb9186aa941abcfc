use vstd::prelude::*;
use crate::ids::{fresh_span_id_from_bits, hex_text, is_hex_text, random_bits, span_bits};

verus! {

/// The characters of an optional text.
pub open spec fn opt_text(o: Option<String>) -> Option<Seq<char>> {
    match o {
        Some(s) => Some(s@),
        None => None,
    }
}

/// The characters of each key and value of a list of pairs.
pub open spec fn pairs_text(p: Seq<(String, String)>) -> Seq<(Seq<char>, Seq<char>)> {
    p.map_values(|kv: (String, String)| (kv.0@, kv.1@))
}

/// No key occurs twice in a list of key/value pairs.
pub open spec fn keys_unique(p: Seq<(String, String)>) -> bool {
    forall|i: int, j: int| 0 <= i < j < p.len() ==> (#[trigger] p[i]).0@ != (#[trigger] p[j]).0@
}

/// A log line: severity and message are always present.
pub struct LogEntry {
    /// Severity name, such as INFO, WARNING or ERROR.
    pub severity: String,
    pub message: String,
    /// Service that wrote the line; when absent the delivery context's
    /// default service name is used.
    pub service_name: Option<String>,
    /// Log stream; when absent the library's own stream name is used.
    pub log_name: Option<String>,
}

impl LogEntry {
    pub fn new(severity: &str, message: &str) -> (r: LogEntry)
        ensures
            r.severity@ == severity@,
            r.message@ == message@,
            r.service_name is None,
            r.log_name is None,
    {
        LogEntry {
            severity: String::from_str(severity),
            message: String::from_str(message),
            service_name: None,
            log_name: None,
        }
    }

    pub fn with_service_name(self, service_name: &str) -> (r: LogEntry)
        ensures
            r.severity == self.severity,
            r.message == self.message,
            opt_text(r.service_name) == Some(service_name@),
            r.log_name == self.log_name,
    {
        LogEntry {
            severity: self.severity,
            message: self.message,
            service_name: Some(String::from_str(service_name)),
            log_name: self.log_name,
        }
    }

    pub fn with_log_name(self, log_name: &str) -> (r: LogEntry)
        ensures
            r.severity == self.severity,
            r.message == self.message,
            r.service_name == self.service_name,
            opt_text(r.log_name) == Some(log_name@),
    {
        LogEntry {
            severity: self.severity,
            message: self.message,
            service_name: self.service_name,
            log_name: Some(String::from_str(log_name)),
        }
    }
}

/// One reading of a metric.
///
/// The reading is a double-precision number, held as its IEEE-754 bit
/// pattern (`f64::to_bits`); the library never does arithmetic on it.
pub struct MetricData {
    /// Metric identifier, such as `custom.googleapis.com/requests`.
    pub metric_type: String,
    pub value_bits: u64,
    /// Value type, such as INT64 or DOUBLE: names the field that carries the reading.
    pub value_type: String,
    /// Metric kind, such as GAUGE.
    pub metric_kind: String,
    /// Labels; keys are unique.
    pub labels: Option<Vec<(String, String)>>,
}

impl MetricData {
    pub open spec fn wf(&self) -> bool {
        match self.labels {
            Some(l) => keys_unique(l@),
            None => true,
        }
    }

    pub fn new(metric_type: &str, value_bits: u64, value_type: &str, metric_kind: &str) -> (r:
        MetricData)
        ensures
            r.wf(),
            r.metric_type@ == metric_type@,
            r.value_bits == value_bits,
            r.value_type@ == value_type@,
            r.metric_kind@ == metric_kind@,
            r.labels is None,
    {
        MetricData {
            metric_type: String::from_str(metric_type),
            value_bits,
            value_type: String::from_str(value_type),
            metric_kind: String::from_str(metric_kind),
            labels: None,
        }
    }

    pub fn with_labels(self, labels: Vec<(String, String)>) -> (r: MetricData)
        requires
            keys_unique(labels@),
        ensures
            r.wf(),
            r.metric_type == self.metric_type,
            r.value_bits == self.value_bits,
            r.value_type == self.value_type,
            r.metric_kind == self.metric_kind,
            r.labels == Some(labels),
    {
        MetricData {
            metric_type: self.metric_type,
            value_bits: self.value_bits,
            value_type: self.value_type,
            metric_kind: self.metric_kind,
            labels: Some(labels),
        }
    }
}

/// Outcome of a span: a numeric code and an optional message.
pub struct SpanStatus {
    pub code: i32,
    pub message: Option<String>,
}

/// One timed operation within a distributed trace.
///
/// Times are milliseconds since the Unix epoch; the duration is in
/// milliseconds too.
pub struct TraceSpan {
    /// 32 hexadecimal digits, shared by every span of one trace.
    pub trace_id: String,
    /// 16 hexadecimal digits, unique within the process.
    pub span_id: String,
    pub display_name: String,
    pub start_ms: u64,
    pub duration_ms: u64,
    /// The span this one runs under, in the same trace.
    pub parent_span_id: Option<String>,
    /// Attributes; keys are unique.
    pub attributes: Vec<(String, String)>,
    pub status: Option<SpanStatus>,
}

impl TraceSpan {
    pub open spec fn wf(&self) -> bool {
        keys_unique(self.attributes@)
    }

    pub fn new(
        trace_id: String,
        span_id: String,
        display_name: &str,
        start_ms: u64,
        duration_ms: u64,
    ) -> (r: TraceSpan)
        ensures
            r.wf(),
            r.trace_id == trace_id,
            r.span_id == span_id,
            r.display_name@ == display_name@,
            r.start_ms == start_ms,
            r.duration_ms == duration_ms,
            r.parent_span_id is None,
            r.attributes@.len() == 0,
            r.status is None,
    {
        TraceSpan {
            trace_id,
            span_id,
            display_name: String::from_str(display_name),
            start_ms,
            duration_ms,
            parent_span_id: None,
            attributes: Vec::new(),
            status: None,
        }
    }

    pub fn with_parent_span_id(self, parent_span_id: String) -> (r: TraceSpan)
        requires
            self.wf(),
        ensures
            r.wf(),
            r.trace_id == self.trace_id,
            r.span_id == self.span_id,
            r.display_name == self.display_name,
            r.start_ms == self.start_ms,
            r.duration_ms == self.duration_ms,
            r.parent_span_id == Some(parent_span_id),
            r.attributes == self.attributes,
            r.status == self.status,
    {
        TraceSpan {
            trace_id: self.trace_id,
            span_id: self.span_id,
            display_name: self.display_name,
            start_ms: self.start_ms,
            duration_ms: self.duration_ms,
            parent_span_id: Some(parent_span_id),
            attributes: self.attributes,
            status: self.status,
        }
    }

    pub fn with_status(self, code: i32, message: Option<String>) -> (r: TraceSpan)
        requires
            self.wf(),
        ensures
            r.wf(),
            r.trace_id == self.trace_id,
            r.span_id == self.span_id,
            r.display_name == self.display_name,
            r.start_ms == self.start_ms,
            r.duration_ms == self.duration_ms,
            r.parent_span_id == self.parent_span_id,
            r.attributes == self.attributes,
            r.status == Some(SpanStatus { code, message }),
    {
        TraceSpan {
            trace_id: self.trace_id,
            span_id: self.span_id,
            display_name: self.display_name,
            start_ms: self.start_ms,
            duration_ms: self.duration_ms,
            parent_span_id: self.parent_span_id,
            attributes: self.attributes,
            status: Some(SpanStatus { code, message }),
        }
    }

    /// Sets attribute `key` to `value`, replacing an earlier value of the
    /// same key in place or adding the pair at the end.
    pub fn with_attribute(self, key: &str, value: &str) -> (r: TraceSpan)
        requires
            self.wf(),
        ensures
            r.wf(),
            r.trace_id == self.trace_id,
            r.span_id == self.span_id,
            r.display_name == self.display_name,
            r.start_ms == self.start_ms,
            r.duration_ms == self.duration_ms,
            r.parent_span_id == self.parent_span_id,
            r.status == self.status,
            pairs_text(r.attributes@) == set_pair(pairs_text(self.attributes@), key@, value@),
    {
        let mut attributes = self.attributes;
        let n = attributes.len();
        let mut i: usize = 0;
        while i < n
            invariant
                n == attributes@.len(),
                attributes@ == self.attributes@,
                keys_unique(attributes@),
                i <= n,
                forall|k: int| 0 <= k < i ==> (#[trigger] attributes@[k]).0@ != key@,
            decreases n - i,
        {
            if crate::text::same_text(attributes[i].0.as_str(), key) {
                let old_attributes = Ghost(attributes@);
                let k = String::from_str(key);
                attributes.set(i, (k, String::from_str(value)));
                proof {
                    assert(first_key_index(pairs_text(self.attributes@), key@) == i as int) by {
                        lemma_first_key_index(pairs_text(self.attributes@), key@, i as int);
                    }
                    assert(pairs_text(attributes@) =~= pairs_text(old_attributes@).update(
                        i as int,
                        (key@, value@),
                    ));
                    assert forall|a: int, b: int|
                        0 <= a < b < attributes@.len() implies (#[trigger] attributes@[a]).0@
                        != (#[trigger] attributes@[b]).0@ by {
                        if a != i && b != i {
                            assert(old_attributes@[a] == attributes@[a]);
                            assert(old_attributes@[b] == attributes@[b]);
                        } else if a == i {
                            assert(old_attributes@[b] == attributes@[b]);
                            assert(attributes@[a].0@ == key@);
                            assert(old_attributes@[a].0@ == key@);
                            assert(old_attributes@[a].0@ != old_attributes@[b].0@);
                        } else {
                            assert(old_attributes@[a] == attributes@[a]);
                            assert(attributes@[b].0@ == key@);
                            assert(old_attributes@[b].0@ == key@);
                            assert(old_attributes@[a].0@ != old_attributes@[b].0@);
                        }
                    }
                }
                return TraceSpan {
                    trace_id: self.trace_id,
                    span_id: self.span_id,
                    display_name: self.display_name,
                    start_ms: self.start_ms,
                    duration_ms: self.duration_ms,
                    parent_span_id: self.parent_span_id,
                    attributes,
                    status: self.status,
                };
            }
            i = i + 1;
        }
        let old_attributes = Ghost(attributes@);
        attributes.push((String::from_str(key), String::from_str(value)));
        proof {
            assert(first_key_index(pairs_text(self.attributes@), key@) == -1) by {
                lemma_first_key_index_absent(pairs_text(self.attributes@), key@);
            }
            assert(pairs_text(attributes@) =~= pairs_text(old_attributes@).push((key@, value@)));
            assert forall|a: int, b: int|
                0 <= a < b < attributes@.len() implies (#[trigger] attributes@[a]).0@
                != (#[trigger] attributes@[b]).0@ by {
                assert(attributes@[a] == old_attributes@[a]);
                if b < n {
                    assert(attributes@[b] == old_attributes@[b]);
                }
            }
        }
        TraceSpan {
            trace_id: self.trace_id,
            span_id: self.span_id,
            display_name: self.display_name,
            start_ms: self.start_ms,
            duration_ms: self.duration_ms,
            parent_span_id: self.parent_span_id,
            attributes,
            status: self.status,
        }
    }

    /// A child span of this one, whose span identifier is made from the
    /// given random bits: it shares the trace identifier, names this span
    /// as its parent, and has a span identifier that differs from this one's.
    pub fn child_from_bits(&self, bits: u128, display_name: &str, start_ms: u64, duration_ms: u64) -> (r:
        TraceSpan)
        ensures
            r.wf(),
            r.trace_id@ == self.trace_id@,
            r.span_id@ != self.span_id@,
            r.span_id@ == hex_text(span_bits(bits), 16) || r.span_id@ == hex_text(
                span_bits(bits ^ 1),
                16,
            ),
            r.span_id@.len() == 16,
            is_hex_text(r.span_id@),
            opt_text(r.parent_span_id) == Some(self.span_id@),
            r.display_name@ == display_name@,
            r.start_ms == start_ms,
            r.duration_ms == duration_ms,
            r.attributes@.len() == 0,
            r.status is None,
    {
        let span_id = fresh_span_id_from_bits(bits, self.span_id.as_str());
        TraceSpan {
            trace_id: self.trace_id.clone(),
            span_id,
            display_name: String::from_str(display_name),
            start_ms,
            duration_ms,
            parent_span_id: Some(self.span_id.clone()),
            attributes: Vec::new(),
            status: None,
        }
    }

    /// A child span of this one with a freshly generated span identifier.
    pub fn child(&self, display_name: &str, start_ms: u64, duration_ms: u64) -> (r: TraceSpan)
        ensures
            r.wf(),
            r.trace_id@ == self.trace_id@,
            r.span_id@ != self.span_id@,
            r.span_id@.len() == 16,
            is_hex_text(r.span_id@),
            opt_text(r.parent_span_id) == Some(self.span_id@),
            r.display_name@ == display_name@,
            r.start_ms == start_ms,
            r.duration_ms == duration_ms,
            r.attributes@.len() == 0,
            r.status is None,
    {
        let bits = random_bits();
        self.child_from_bits(bits, display_name, start_ms, duration_ms)
    }
}

/// Index of the first pair whose key is `key`, or -1.
pub open spec fn first_key_index(p: Seq<(Seq<char>, Seq<char>)>, key: Seq<char>) -> int
    decreases p.len(),
{
    if p.len() == 0 {
        -1
    } else if p.last().0 == key && first_key_index(p.drop_last(), key) == -1 {
        p.len() - 1
    } else {
        first_key_index(p.drop_last(), key)
    }
}

/// The pairs `p` with `key` set to `value`: the first pair of that key
/// gets the new value in place; without one, the pair is added at the end.
pub open spec fn set_pair(p: Seq<(Seq<char>, Seq<char>)>, key: Seq<char>, value: Seq<char>) -> Seq<
    (Seq<char>, Seq<char>),
> {
    let i = first_key_index(p, key);
    if i == -1 {
        p.push((key, value))
    } else {
        p.update(i, (key, value))
    }
}

proof fn lemma_first_key_index(p: Seq<(Seq<char>, Seq<char>)>, key: Seq<char>, i: int)
    requires
        0 <= i < p.len(),
        p[i].0 == key,
        forall|k: int| 0 <= k < i ==> (#[trigger] p[k]).0 != key,
    ensures
        first_key_index(p, key) == i,
    decreases p.len(),
{
    if i < p.len() - 1 {
        lemma_first_key_index(p.drop_last(), key, i);
    } else {
        lemma_first_key_index_absent(p.drop_last(), key);
    }
}

proof fn lemma_first_key_index_absent(p: Seq<(Seq<char>, Seq<char>)>, key: Seq<char>)
    requires
        forall|k: int| 0 <= k < p.len() ==> (#[trigger] p[k]).0 != key,
    ensures
        first_key_index(p, key) == -1,
    decreases p.len(),
{
    if p.len() > 0 {
        assert(p.last() == p[p.len() - 1]);
        lemma_first_key_index_absent(p.drop_last(), key);
    }
}

/// A unit of work for the background worker: a telemetry record to deliver,
/// or the signal to stop.
pub enum Command {
    Log(LogEntry),
    Metric(MetricData),
    Trace(TraceSpan),
    Shutdown,
}

impl Command {
    pub fn is_shutdown(&self) -> (r: bool)
        ensures
            r == (self is Shutdown),
    {
        matches!(self, Command::Shutdown)
    }
}

} // verus!
