use vstd::prelude::*;
use crate::error::{ErrorClass, ObservabilityError};
use crate::text::{contains_text, has_infix, lower_of, lowercase, trim_of, trimmed};

verus! {

/// The kind of bearer token asked of the identity provider.
#[derive(Clone, Copy, PartialEq, Eq, Structural, Debug)]
pub enum TokenKind {
    Access,
    Identity,
}

/// The words whose presence, in lower case, marks a provider failure as
/// an expired or missing login.
pub open spec fn mentions_expiry(lowered: Seq<char>) -> bool {
    has_infix(lowered, "not logged in"@) || has_infix(lowered, "authentication"@) || has_infix(
        lowered,
        "expired"@,
    )
}

/// Whether an already lower-cased failure message speaks of an expired or
/// missing login.
pub fn mentions_expiry_text(lowered: &str) -> (r: bool)
    ensures
        r == mentions_expiry(lowered@),
{
    contains_text(lowered, "not logged in") || contains_text(lowered, "authentication")
        || contains_text(lowered, "expired")
}

/// Whether a failure message of the identity provider speaks, in any
/// letter case, of an expired or missing login.
pub fn is_expiry_message(message: &str) -> (r: bool)
    ensures
        r == mentions_expiry(lower_of(message@)),
{
    let lowered = lowercase(message);
    mentions_expiry_text(lowered.as_str())
}

/// The message of the error that ends a token request failing with `message`.
pub open spec fn token_failure_text(kind: TokenKind, message: Seq<char>) -> Seq<char> {
    match kind {
        TokenKind::Access => "Failed to get access token: "@ + message,
        TokenKind::Identity => "Failed to get identity token: "@ + message,
    }
}

/// What the authenticator does after a failed token request.
pub enum TokenStep {
    /// Activate the credential source again, then ask once more.
    Reinstall,
    /// Give up with this error.
    Failed(ObservabilityError),
}

/// The retry state of one token request.
pub struct TokenAttempt {
    pub kind: TokenKind,
    /// The credential source was already activated again for this request.
    pub reinstalled: bool,
}

impl TokenAttempt {
    pub fn new(kind: TokenKind) -> (r: TokenAttempt)
        ensures
            r.kind == kind,
            !r.reinstalled,
    {
        TokenAttempt { kind, reinstalled: false }
    }

    /// Decides what follows a failure, given whether its message speaks of
    /// an expired login: the first such failure leads to one reinstall and
    /// one more request; any other failure is an `ApiError`.
    pub fn on_failure_classified(&mut self, message: &str, expired: bool) -> (r: TokenStep)
        ensures
            final(self).kind == old(self).kind,
            expired && !old(self).reinstalled ==> r is Reinstall && final(self).reinstalled,
            !(expired && !old(self).reinstalled) ==> (match r {
                TokenStep::Failed(e) => e@ == (ErrorClass::Api, token_failure_text(
                    old(self).kind,
                    message@,
                )),
                _ => false,
            }) && final(self).reinstalled == old(self).reinstalled,
    {
        if expired && !self.reinstalled {
            self.reinstalled = true;
            return TokenStep::Reinstall;
        }
        let text = match self.kind {
            TokenKind::Access => String::from_str("Failed to get access token: ").concat(message),
            TokenKind::Identity => String::from_str("Failed to get identity token: ").concat(
                message,
            ),
        };
        TokenStep::Failed(ObservabilityError::ApiError(text))
    }

    /// Decides what follows a failure whose message the provider gave as
    /// `message`.
    pub fn on_failure(&mut self, message: &str) -> (r: TokenStep)
        ensures
            final(self).kind == old(self).kind,
            mentions_expiry(lower_of(message@)) && !old(self).reinstalled ==> r is Reinstall
                && final(self).reinstalled,
            !(mentions_expiry(lower_of(message@)) && !old(self).reinstalled) ==> (match r {
                TokenStep::Failed(e) => e@ == (ErrorClass::Api, token_failure_text(
                    old(self).kind,
                    message@,
                )),
                _ => false,
            }) && final(self).reinstalled == old(self).reinstalled,
    {
        let expired = is_expiry_message(message);
        self.on_failure_classified(message, expired)
    }
}

/// The value of the `Authorization` header for a token printed by the
/// identity provider: the token without surrounding white space.
pub fn bearer_header(printed_token: &str) -> (r: String)
    ensures
        r@ == "Bearer "@ + trim_of(printed_token@),
{
    let token = trimmed(printed_token);
    String::from_str("Bearer ").concat(token.as_str())
}

/// The steps that make a client usable, in the order they are taken.
#[derive(Clone, Copy, PartialEq, Eq, Structural, Debug)]
pub enum SetupStage {
    /// See whether the identity provider's tool is installed.
    CheckTool,
    /// Install the tool.
    InstallTool,
    /// Activate the credential source.
    Activate,
    /// Bind the active identity to the target project.
    BindProject,
    /// Confirm that an active identity is registered.
    Verify,
    /// Authenticated: the client may submit.
    Ready,
}

/// The stage that follows `stage` when its step succeeded.
pub open spec fn next_stage(stage: SetupStage) -> SetupStage {
    match stage {
        SetupStage::CheckTool => SetupStage::Activate,
        SetupStage::InstallTool => SetupStage::Activate,
        SetupStage::Activate => SetupStage::BindProject,
        SetupStage::BindProject => SetupStage::Verify,
        _ => SetupStage::Ready,
    }
}

/// The error that a failed step of `stage` ends set-up with; `detail` is
/// what the tool wrote on its error stream.
pub open spec fn setup_failure(stage: SetupStage, detail: Seq<char>) -> (ErrorClass, Seq<char>) {
    match stage {
        SetupStage::InstallTool => (
            ErrorClass::Setup,
            "Failed to install gcloud CLI. Please install manually from https://cloud.google.com/sdk/docs/install"@,
        ),
        SetupStage::Activate => (
            ErrorClass::Authentication,
            "Failed to authenticate with service account: "@ + detail,
        ),
        SetupStage::BindProject => (ErrorClass::Authentication, "Failed to set project: "@ + detail),
        _ => (ErrorClass::Authentication, "Authentication verification failed"@),
    }
}

/// The next stage of set-up after the step of `stage` ran: on success the
/// following stage; a missing tool leads to its installation; any other
/// failure ends set-up with its error, and the client never becomes usable.
pub fn setup_next(stage: SetupStage, succeeded: bool, detail: &str) -> (r: Result<
    SetupStage,
    ObservabilityError,
>)
    requires
        stage != SetupStage::Ready,
    ensures
        succeeded ==> r == Ok::<SetupStage, ObservabilityError>(next_stage(stage)),
        !succeeded && stage == SetupStage::CheckTool ==> r == Ok::<
            SetupStage,
            ObservabilityError,
        >(SetupStage::InstallTool),
        !succeeded && stage != SetupStage::CheckTool ==> (match r {
            Err(e) => e@ == setup_failure(stage, detail@),
            Ok(_) => false,
        }),
{
    if succeeded {
        let next = match stage {
            SetupStage::CheckTool => SetupStage::Activate,
            SetupStage::InstallTool => SetupStage::Activate,
            SetupStage::Activate => SetupStage::BindProject,
            SetupStage::BindProject => SetupStage::Verify,
            _ => SetupStage::Ready,
        };
        return Ok(next);
    }
    match stage {
        SetupStage::CheckTool => Ok(SetupStage::InstallTool),
        SetupStage::InstallTool => Err(
            ObservabilityError::SetupError(
                String::from_str(
                    "Failed to install gcloud CLI. Please install manually from https://cloud.google.com/sdk/docs/install",
                ),
            ),
        ),
        SetupStage::Activate => Err(
            ObservabilityError::AuthenticationError(
                String::from_str("Failed to authenticate with service account: ").concat(detail),
            ),
        ),
        SetupStage::BindProject => Err(
            ObservabilityError::AuthenticationError(
                String::from_str("Failed to set project: ").concat(detail),
            ),
        ),
        _ => Err(
            ObservabilityError::AuthenticationError(
                String::from_str("Authentication verification failed"),
            ),
        ),
    }
}

/// Whether the provider's listing of identities (as JSON) shows an active one.
pub fn has_active_identity(listing: &str) -> (r: bool)
    ensures
        r == has_infix(listing@, "\"ACTIVE\""@),
{
    contains_text(listing, "\"ACTIVE\"")
}

} // verus!
