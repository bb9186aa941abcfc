use vstd::prelude::*;

verus! {

/// The class of an [`ObservabilityError`], as contracts see it.
#[derive(Clone, Copy, PartialEq, Eq, Structural, Debug)]
pub enum ErrorClass {
    Authentication,
    Api,
    Setup,
    RateLimit,
    Shutdown,
}

/// Errors raised by the dispatch pipeline.
///
/// `Shutdown` is not a failure: it is the control signal that tells the
/// worker loop to stop.
#[derive(Debug)]
pub enum ObservabilityError {
    /// Credential activation, project binding, verification or refresh failed.
    AuthenticationError(String),
    /// A submission was rejected, could not be made, or could not be queued.
    ApiError(String),
    /// Prerequisite tooling is unavailable.
    SetupError(String),
    /// A call came sooner than the throttle allows.
    RateLimitError(String),
    /// The worker loop was asked to stop.
    Shutdown,
}

impl View for ObservabilityError {
    type V = (ErrorClass, Seq<char>);

    open spec fn view(&self) -> (ErrorClass, Seq<char>) {
        match self {
            ObservabilityError::AuthenticationError(m) => (ErrorClass::Authentication, m@),
            ObservabilityError::ApiError(m) => (ErrorClass::Api, m@),
            ObservabilityError::SetupError(m) => (ErrorClass::Setup, m@),
            ObservabilityError::RateLimitError(m) => (ErrorClass::RateLimit, m@),
            ObservabilityError::Shutdown => (ErrorClass::Shutdown, Seq::empty()),
        }
    }
}

/// The prefix that the human-readable form of an error of class `c` starts with.
pub open spec fn class_prefix(c: ErrorClass) -> Seq<char> {
    match c {
        ErrorClass::Authentication => "Authentication error: "@,
        ErrorClass::Api => "API error: "@,
        ErrorClass::Setup => "Setup error: "@,
        ErrorClass::RateLimit => "Rate limit error: "@,
        ErrorClass::Shutdown => "Shutdown requested"@,
    }
}

impl ObservabilityError {
    pub fn class(&self) -> (r: ErrorClass)
        ensures
            r == self@.0,
    {
        match self {
            ObservabilityError::AuthenticationError(_) => ErrorClass::Authentication,
            ObservabilityError::ApiError(_) => ErrorClass::Api,
            ObservabilityError::SetupError(_) => ErrorClass::Setup,
            ObservabilityError::RateLimitError(_) => ErrorClass::RateLimit,
            ObservabilityError::Shutdown => ErrorClass::Shutdown,
        }
    }

    /// Whether this is the shutdown signal rather than a failure.
    pub fn is_shutdown(&self) -> (r: bool)
        ensures
            r == (self@.0 == ErrorClass::Shutdown),
    {
        matches!(self, ObservabilityError::Shutdown)
    }

    /// The human-readable form of the error: a prefix naming its class,
    /// followed by its message.
    pub fn describe(&self) -> (r: String)
        ensures
            r@ == class_prefix(self@.0) + self@.1,
    {
        match self {
            ObservabilityError::AuthenticationError(m) => {
                String::from_str("Authentication error: ").concat(m.as_str())
            },
            ObservabilityError::ApiError(m) => String::from_str("API error: ").concat(m.as_str()),
            ObservabilityError::SetupError(m) => String::from_str("Setup error: ").concat(
                m.as_str(),
            ),
            ObservabilityError::RateLimitError(m) => String::from_str("Rate limit error: ").concat(
                m.as_str(),
            ),
            ObservabilityError::Shutdown => String::from_str("Shutdown requested"),
        }
    }
}

} // verus!
