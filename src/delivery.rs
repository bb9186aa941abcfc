use vstd::prelude::*;
use crate::error::{ErrorClass, ObservabilityError};
use crate::records::{
    opt_text, pairs_text, Command, LogEntry, MetricData, SpanStatus, TraceSpan,
};
use crate::text::{lower_of, lowercase};

verus! {

/// The latest instant, in milliseconds since the Unix epoch, that a payload
/// may carry (some 250,000 years from the epoch).
pub const MAX_TIMESTAMP_MS: u64 = 8_000_000_000_000_000;

/// What chrono writes for the UTC instant `ms` milliseconds after the Unix
/// epoch under the format `%Y-%m-%dT%H:%M:%S%.3fZ`.
pub uninterp spec fn utc_text_of(ms: int) -> Seq<char>;

/// Relies on `chrono::DateTime::<Utc>::from_timestamp_millis`, which returns
/// `Some` for every instant up to the year 262142 (far beyond
/// `MAX_TIMESTAMP_MS`), and on `DateTime::format`, whose text depends on the
/// instant and the format alone.
#[verifier::external_body]
pub(crate) fn utc_timestamp(ms: u64) -> (r: String)
    requires
        ms <= MAX_TIMESTAMP_MS,
    ensures
        r@ == utc_text_of(ms as int),
{
    chrono::DateTime::<chrono::Utc>::from_timestamp_millis(ms as i64).unwrap().format(
        "%Y-%m-%dT%H:%M:%S%.3fZ",
    ).to_string()
}

/// The read-only configuration that every delivery sees.
pub struct DeliveryContext {
    pub project_id: String,
    /// Where the credential source (a service-account key) lies.
    pub service_account_path: String,
    /// Service name for log lines that name none.
    pub default_service_name: Option<String>,
}

/// A log line as the collector receives it.
pub struct LogPayload {
    pub log_name: String,
    pub severity: String,
    pub text: String,
    pub timestamp: String,
    pub labels: Vec<(String, String)>,
}

/// A metric reading as the collector receives it.
pub struct MetricPayload {
    pub metric_type: String,
    pub metric_kind: String,
    pub labels: Vec<(String, String)>,
    pub end_time: String,
    /// Name of the field that carries the reading, such as `int64Value`.
    pub value_field: String,
    /// The reading, as the bit pattern of a double.
    pub value_bits: u64,
}

/// A span as the collector receives it.
pub struct SpanPayload {
    pub name: String,
    pub span_id: String,
    pub parent_span_id: Option<String>,
    pub display_name: String,
    pub start_time: String,
    pub end_time: String,
    pub attributes: Vec<(String, String)>,
    pub status: Option<SpanStatus>,
}

pub enum Payload {
    Log(LogPayload),
    Metric(MetricPayload),
    Span(SpanPayload),
}

/// One submission to make: where, under which operation name, and what.
pub struct Delivery {
    pub url: String,
    pub operation: String,
    pub payload: Payload,
}

pub open spec fn log_url() -> Seq<char> {
    "https://logging.googleapis.com/v2/entries:write"@
}

pub open spec fn metric_url(project: Seq<char>) -> Seq<char> {
    "https://monitoring.googleapis.com/v3/projects/"@ + project + "/timeSeries"@
}

pub open spec fn trace_url(project: Seq<char>) -> Seq<char> {
    "https://cloudtrace.googleapis.com/v2/projects/"@ + project + "/traces:batchWrite"@
}

/// The full name of a log stream; without a stream the library's own is used.
pub open spec fn log_name_text(project: Seq<char>, stream: Option<Seq<char>>) -> Seq<char> {
    "projects/"@ + project + "/logs/"@ + match stream {
        Some(s) => s,
        None => "gcp-observability-rs"@,
    }
}

/// The service a log line is filed under: its own, else the default.
pub open spec fn service_for(own: Option<Seq<char>>, default: Option<Seq<char>>) -> Option<
    Seq<char>,
> {
    match own {
        Some(s) => Some(s),
        None => default,
    }
}

/// The labels of a log line filed under `service`.
pub open spec fn log_labels(service: Option<Seq<char>>) -> Seq<(Seq<char>, Seq<char>)> {
    match service {
        Some(s) => seq![("service_name"@, s)],
        None => Seq::empty(),
    }
}

/// The labels of a metric: its own, or none at all.
pub open spec fn metric_labels(labels: Option<Vec<(String, String)>>) -> Seq<
    (Seq<char>, Seq<char>),
> {
    match labels {
        Some(l) => pairs_text(l@),
        None => Seq::empty(),
    }
}

/// The name of the field that carries a reading of type `value_type`.
pub open spec fn value_field_text(value_type: Seq<char>) -> Seq<char> {
    lower_of(value_type) + "Value"@
}

pub open spec fn span_name_text(project: Seq<char>, trace_id: Seq<char>, span_id: Seq<char>) -> Seq<
    char,
> {
    "projects/"@ + project + "/traces/"@ + trace_id + "/spans/"@ + span_id
}

/// The payload of a log line, delivered at `now_ms`.
pub open spec fn log_planned(e: LogEntry, ctx: DeliveryContext, now_ms: u64, d: Delivery) -> bool {
    &&& d.url@ == log_url()
    &&& d.operation@ == "Log"@
    &&& match d.payload {
        Payload::Log(p) => {
            &&& p.log_name@ == log_name_text(ctx.project_id@, opt_text(e.log_name))
            &&& p.severity@ == e.severity@
            &&& p.text@ == e.message@
            &&& p.timestamp@ == utc_text_of(now_ms as int)
            &&& pairs_text(p.labels@) == log_labels(
                service_for(opt_text(e.service_name), opt_text(ctx.default_service_name)),
            )
        },
        _ => false,
    }
}

/// The payload of a metric reading, taken at `now_ms`.
pub open spec fn metric_planned(m: MetricData, ctx: DeliveryContext, now_ms: u64, d: Delivery) -> bool {
    &&& d.url@ == metric_url(ctx.project_id@)
    &&& d.operation@ == "Metric"@
    &&& match d.payload {
        Payload::Metric(p) => {
            &&& p.metric_type@ == m.metric_type@
            &&& p.metric_kind@ == m.metric_kind@
            &&& pairs_text(p.labels@) == metric_labels(m.labels)
            &&& p.end_time@ == utc_text_of(now_ms as int)
            &&& p.value_field@ == value_field_text(m.value_type@)
            &&& p.value_bits == m.value_bits
        },
        _ => false,
    }
}

/// The payload of a span.
pub open spec fn span_planned(t: TraceSpan, ctx: DeliveryContext, d: Delivery) -> bool {
    &&& d.url@ == trace_url(ctx.project_id@)
    &&& d.operation@ == "Trace"@
    &&& match d.payload {
        Payload::Span(p) => {
            &&& p.name@ == span_name_text(ctx.project_id@, t.trace_id@, t.span_id@)
            &&& p.span_id@ == t.span_id@
            &&& opt_text(p.parent_span_id) == opt_text(t.parent_span_id)
            &&& p.display_name@ == t.display_name@
            &&& p.start_time@ == utc_text_of(t.start_ms as int)
            &&& p.end_time@ == utc_text_of(t.start_ms + t.duration_ms)
            &&& p.attributes == t.attributes
            &&& p.status == t.status
        },
        _ => false,
    }
}

/// A span can be written when it ends no later than `MAX_TIMESTAMP_MS`.
pub open spec fn span_in_range(t: TraceSpan) -> bool {
    t.start_ms + t.duration_ms <= MAX_TIMESTAMP_MS
}

pub open spec fn out_of_range_text() -> Seq<char> {
    "timestamp out of range"@
}

fn opt_clone(o: &Option<String>) -> (r: Option<String>)
    ensures
        opt_text(r) == opt_text(*o),
{
    match o {
        Some(s) => Some(s.clone()),
        None => None,
    }
}

fn out_of_range() -> (r: ObservabilityError)
    ensures
        r@ == (ErrorClass::Api, out_of_range_text()),
{
    ObservabilityError::ApiError(String::from_str("timestamp out of range"))
}

/// The delivery of a log line at `now_ms`.
pub fn plan_log(entry: LogEntry, ctx: &DeliveryContext, now_ms: u64) -> (r: Result<
    Delivery,
    ObservabilityError,
>)
    ensures
        now_ms <= MAX_TIMESTAMP_MS ==> (match r {
            Ok(d) => log_planned(entry, *ctx, now_ms, d),
            Err(_) => false,
        }),
        now_ms > MAX_TIMESTAMP_MS ==> (match r {
            Err(e) => e@ == (ErrorClass::Api, out_of_range_text()),
            Ok(_) => false,
        }),
{
    if now_ms > MAX_TIMESTAMP_MS {
        return Err(out_of_range());
    }
    let timestamp = utc_timestamp(now_ms);
    let stream = match &entry.log_name {
        Some(s) => s.as_str(),
        None => "gcp-observability-rs",
    };
    let log_name = String::from_str("projects/").concat(ctx.project_id.as_str()).concat(
        "/logs/",
    ).concat(stream);
    let service = match &entry.service_name {
        Some(s) => Some(s.clone()),
        None => opt_clone(&ctx.default_service_name),
    };
    let mut labels: Vec<(String, String)> = Vec::new();
    match service {
        Some(s) => {
            labels.push((String::from_str("service_name"), s));
        },
        None => {},
    }
    let ghost entry_view = entry;
    proof {
        assert(pairs_text(labels@) =~= log_labels(
            service_for(opt_text(entry_view.service_name), opt_text(ctx.default_service_name)),
        ));
    }
    let payload = LogPayload {
        log_name,
        severity: entry.severity,
        text: entry.message,
        timestamp,
        labels,
    };
    Ok(
        Delivery {
            url: String::from_str("https://logging.googleapis.com/v2/entries:write"),
            operation: String::from_str("Log"),
            payload: Payload::Log(payload),
        },
    )
}

/// The delivery of a metric reading taken at `now_ms`.
pub fn plan_metric(metric: MetricData, ctx: &DeliveryContext, now_ms: u64) -> (r: Result<
    Delivery,
    ObservabilityError,
>)
    ensures
        now_ms <= MAX_TIMESTAMP_MS ==> (match r {
            Ok(d) => metric_planned(metric, *ctx, now_ms, d),
            Err(_) => false,
        }),
        now_ms > MAX_TIMESTAMP_MS ==> (match r {
            Err(e) => e@ == (ErrorClass::Api, out_of_range_text()),
            Ok(_) => false,
        }),
{
    if now_ms > MAX_TIMESTAMP_MS {
        return Err(out_of_range());
    }
    let end_time = utc_timestamp(now_ms);
    let value_field = lowercase(metric.value_type.as_str()).concat("Value");
    let url = String::from_str("https://monitoring.googleapis.com/v3/projects/").concat(
        ctx.project_id.as_str(),
    ).concat("/timeSeries");
    let labels = match metric.labels {
        Some(l) => l,
        None => Vec::new(),
    };
    let payload = MetricPayload {
        metric_type: metric.metric_type,
        metric_kind: metric.metric_kind,
        labels,
        end_time,
        value_field,
        value_bits: metric.value_bits,
    };
    proof {
        assert(pairs_text(payload.labels@) =~= metric_labels(metric.labels));
    }
    Ok(Delivery { url, operation: String::from_str("Metric"), payload: Payload::Metric(payload) })
}

/// The delivery of a span.
pub fn plan_span(span: TraceSpan, ctx: &DeliveryContext) -> (r: Result<Delivery, ObservabilityError>)
    ensures
        span_in_range(span) ==> (match r {
            Ok(d) => span_planned(span, *ctx, d),
            Err(_) => false,
        }),
        !span_in_range(span) ==> (match r {
            Err(e) => e@ == (ErrorClass::Api, out_of_range_text()),
            Ok(_) => false,
        }),
{
    if span.start_ms > MAX_TIMESTAMP_MS || span.duration_ms > MAX_TIMESTAMP_MS - span.start_ms {
        return Err(out_of_range());
    }
    let start_time = utc_timestamp(span.start_ms);
    let end_time = utc_timestamp(span.start_ms + span.duration_ms);
    let name = String::from_str("projects/").concat(ctx.project_id.as_str()).concat(
        "/traces/",
    ).concat(span.trace_id.as_str()).concat("/spans/").concat(span.span_id.as_str());
    let url = String::from_str("https://cloudtrace.googleapis.com/v2/projects/").concat(
        ctx.project_id.as_str(),
    ).concat("/traces:batchWrite");
    let payload = SpanPayload {
        name,
        span_id: span.span_id,
        parent_span_id: span.parent_span_id,
        display_name: span.display_name,
        start_time,
        end_time,
        attributes: span.attributes,
        status: span.status,
    };
    Ok(Delivery { url, operation: String::from_str("Trace"), payload: Payload::Span(payload) })
}

/// What a command is planned as: the delivery of its record.
pub open spec fn command_planned(
    c: Command,
    ctx: DeliveryContext,
    now_ms: u64,
    r: Result<Delivery, ObservabilityError>,
) -> bool {
    match c {
        Command::Log(e) => if now_ms <= MAX_TIMESTAMP_MS {
            r matches Ok(d) && log_planned(e, ctx, now_ms, d)
        } else {
            r matches Err(e) && e@ == (ErrorClass::Api, out_of_range_text())
        },
        Command::Metric(m) => if now_ms <= MAX_TIMESTAMP_MS {
            r matches Ok(d) && metric_planned(m, ctx, now_ms, d)
        } else {
            r matches Err(e) && e@ == (ErrorClass::Api, out_of_range_text())
        },
        Command::Trace(t) => if span_in_range(t) {
            r matches Ok(d) && span_planned(t, ctx, d)
        } else {
            r matches Err(e) && e@ == (ErrorClass::Api, out_of_range_text())
        },
        Command::Shutdown => r matches Err(e) && e is Shutdown,
    }
}

impl Command {
    /// What executing this command submits, given the current time: the
    /// delivery of its record, or, for `Shutdown`, the `Shutdown` signal.
    pub fn plan(self, ctx: &DeliveryContext, now_ms: u64) -> (r: Result<Delivery, ObservabilityError>)
        ensures
            command_planned(self, *ctx, now_ms, r),
    {
        match self {
            Command::Log(e) => plan_log(e, ctx, now_ms),
            Command::Metric(m) => plan_metric(m, ctx, now_ms),
            Command::Trace(t) => plan_span(t, ctx),
            Command::Shutdown => Err(ObservabilityError::Shutdown),
        }
    }
}

/// A log line that names no service is filed under the context's default
/// service; a metric without labels is sent with an empty label list.
pub proof fn lemma_defaults_in_payload(
    e: LogEntry,
    m: MetricData,
    ctx: DeliveryContext,
    now_ms: u64,
    log: Delivery,
    metric: Delivery,
)
    requires
        e.service_name is None,
        m.labels is None,
        log_planned(e, ctx, now_ms, log),
        metric_planned(m, ctx, now_ms, metric),
    ensures
        log.payload matches Payload::Log(p) && pairs_text(p.labels@) == log_labels(
            opt_text(ctx.default_service_name),
        ),
        metric.payload matches Payload::Metric(p) && p.labels@.len() == 0,
{
    if let Payload::Metric(p) = metric.payload {
        assert(pairs_text(p.labels@).len() == p.labels@.len());
    }
}

} // verus!
