//! Client-side telemetry dispatch: log, metric and trace-span records are
//! queued by callers and delivered by a single background worker, which
//! authenticates and retries once credentials have expired.
//!
//! The library decides; the program around it does the I/O. It plans each
//! record into a delivery (`delivery`), steps the worker (`worker`), the
//! retry of a submission (`transport`), and the token requests and set-up of
//! the identity provider (`auth`).
use vstd::prelude::*;

pub mod auth;
pub mod client;
pub mod config;
pub mod delivery;
pub mod error;
pub mod ids;
pub mod pubsub;
pub mod records;
pub mod text;
pub mod transport;
pub mod worker;

pub use auth::{SetupStage, TokenAttempt, TokenKind, TokenStep};
pub use client::{ObservabilityClient, QueueRefusal, QUEUE_CAPACITY};
pub use config::EnvVarGetter;
pub use delivery::{Delivery, DeliveryContext, Payload};
pub use error::{ErrorClass, ObservabilityError};
pub use records::{Command, LogEntry, MetricData, SpanStatus, TraceSpan};
pub use transport::{HttpReply, SubmitAttempt, SubmitStep, MAX_RETRIES};
pub use worker::{Worker, WorkerAction};

verus! {

} // verus!
