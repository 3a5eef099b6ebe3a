//! The analysis mode orchestrator: one request's state machine, from path
//! choice through primary attempt to success, fallback or failure. The host
//! application executes the chosen path (network call or local inference)
//! and hands the outcome back; every decision between the attempts is made
//! here.

use vstd::prelude::*;
use vstd::string::StringExecFns;

use crate::settings::{AnalysisMode, AppSettings};

verus! {

/// The two ways a request can be answered.
#[derive(Debug, Clone, Copy, PartialEq, Eq, Structural)]
pub enum AnalysisPath {
    Cloud,
    Offline,
}

/// The outcome of a finished analysis: the raw JSON text, which path
/// produced it, and whether the fallback path had to be used.
#[derive(Debug, Clone, PartialEq)]
pub struct AnalysisResult {
    pub data: String,
    pub mode_used: String,
    pub fallback_used: bool,
}

/// A failure surfaced by the orchestrator, tagged with the stage it came
/// from; it is carried verbatim, never swallowed.
#[derive(Debug, Clone, PartialEq)]
pub enum AnalysisError {
    /// The cloud path was requested but no credentials are present.
    MissingCredentials,
    /// The remote path failed; the message carries the remote error.
    RemoteFailed { message: String },
    /// The local path failed; the message carries the local error.
    LocalFailed { message: String },
}

impl AnalysisError {
    /// A human-readable description of the error, with its stage context.
    pub fn message(&self) -> (r: String)
        ensures
            self is MissingCredentials ==> r@
                == "RZEM_API_KEY or REMOTE_API_KEY environment variable not set"@,
            self matches AnalysisError::RemoteFailed { message } ==> r@ == "Remote API error: "@
                + message@,
            self matches AnalysisError::LocalFailed { message } ==> r@
                == "Offline analysis error: "@ + message@,
    {
        match self {
            AnalysisError::MissingCredentials => String::from_str(
                "RZEM_API_KEY or REMOTE_API_KEY environment variable not set",
            ),
            AnalysisError::RemoteFailed { message } => {
                let mut m = String::from_str("Remote API error: ");
                m.append(message.as_str());
                m
            },
            AnalysisError::LocalFailed { message } => {
                let mut m = String::from_str("Offline analysis error: ");
                m.append(message.as_str());
                m
            },
        }
    }
}

/// One in-flight analysis request. The machine starts by choosing a path,
/// lives through at most two attempts, and ends in `Succeeded` or `Failed`.
#[derive(Debug, Clone, PartialEq)]
pub enum OrchestratorState {
    /// The chosen primary path is being executed.
    AttemptingPrimary { path: AnalysisPath },
    /// The primary path failed and the local path runs instead. The
    /// fallback target is always local: remote is never a fallback.
    AttemptingFallback { primary_error: AnalysisError },
    /// The request finished with an answer.
    Succeeded { result: AnalysisResult },
    /// The request finished with an error, surfaced verbatim.
    Failed { error: AnalysisError },
}

/// Whether the mode and the credential situation choose the cloud path as
/// primary.
pub open spec fn chooses_cloud(mode: AnalysisMode, creds_present: bool) -> bool {
    (mode == AnalysisMode::CloudAPI || mode == AnalysisMode::Auto) && creds_present
}

/// Whether the local path is primary from the start: always in `Offline`
/// mode, and in `Auto` mode without credentials — a silent routing decision,
/// not a fallback.
pub open spec fn chooses_local_direct(mode: AnalysisMode, creds_present: bool) -> bool {
    mode == AnalysisMode::Offline || (mode == AnalysisMode::Auto && !creds_present)
}

/// Whether a state directs the caller to attempt the remote path. Only a
/// primary cloud attempt can: the fallback path is always local.
pub open spec fn directs_remote(s: OrchestratorState) -> bool {
    s matches OrchestratorState::AttemptingPrimary { path } && path == AnalysisPath::Cloud
}

/// What starting a request yields, as a relation between the settings, the
/// credential situation and the first state.
pub open spec fn start_spec(
    settings: AppSettings,
    creds_present: bool,
    r: OrchestratorState,
) -> bool {
    if chooses_cloud(settings.analysis_mode, creds_present) {
        r == (OrchestratorState::AttemptingPrimary { path: AnalysisPath::Cloud })
    } else if chooses_local_direct(settings.analysis_mode, creds_present) {
        r == (OrchestratorState::AttemptingPrimary { path: AnalysisPath::Offline })
    } else if settings.auto_fallback {
        // CloudAPI mode without credentials: an immediate primary failure
        // with no network attempt, proceeding per fallback policy.
        r == (OrchestratorState::AttemptingFallback {
            primary_error: AnalysisError::MissingCredentials,
        })
    } else {
        r == (OrchestratorState::Failed { error: AnalysisError::MissingCredentials })
    }
}

/// What the primary attempt's outcome yields: a success finishes with no
/// fallback recorded; a cloud failure falls back exactly when the policy
/// allows it; a local failure always fails the request.
pub open spec fn primary_outcome_spec(
    path: AnalysisPath,
    outcome: Result<String, String>,
    settings: AppSettings,
    r: OrchestratorState,
) -> bool {
    match outcome {
        Ok(data) => {
            &&& (r matches OrchestratorState::Succeeded { result })
            &&& (r matches OrchestratorState::Succeeded { result } ==> {
                &&& result.data == data
                &&& !result.fallback_used
                &&& (path == AnalysisPath::Cloud ==> result.mode_used@ == "cloud"@)
                &&& (path == AnalysisPath::Offline ==> result.mode_used@ == "offline"@)
            })
        },
        Err(msg) => {
            if path == AnalysisPath::Cloud {
                if settings.auto_fallback {
                    r matches OrchestratorState::AttemptingFallback { primary_error }
                        && primary_error matches AnalysisError::RemoteFailed { message }
                        && message == msg
                } else {
                    r matches OrchestratorState::Failed { error } && error
                        matches AnalysisError::RemoteFailed { message } && message == msg
                }
            } else {
                r matches OrchestratorState::Failed { error } && error
                    matches AnalysisError::LocalFailed { message } && message == msg
            }
        },
    }
}

/// What the fallback attempt's outcome yields: a success marked as reached
/// by fallback, or a failure carrying the local error.
pub open spec fn fallback_outcome_spec(outcome: Result<String, String>, r: OrchestratorState) -> bool {
    match outcome {
        Ok(data) => {
            &&& (r matches OrchestratorState::Succeeded { result })
            &&& (r matches OrchestratorState::Succeeded { result } ==> {
                &&& result.data == data
                &&& result.fallback_used
                &&& result.mode_used@ == "offline"@
            })
        },
        Err(msg) => r matches OrchestratorState::Failed { error } && error
            matches AnalysisError::LocalFailed { message } && message == msg,
    }
}

/// Choose the primary path for a request: cloud when the mode asks for it
/// and credentials are present; local in `Offline` mode and in `Auto` mode
/// without credentials; and in `CloudAPI` mode without credentials, an
/// immediate primary failure handled per fallback policy.
pub fn start_analysis(settings: &AppSettings, creds_present: bool) -> (r: OrchestratorState)
    ensures
        start_spec(*settings, creds_present, r),
{
    match settings.analysis_mode {
        AnalysisMode::CloudAPI => {
            if creds_present {
                OrchestratorState::AttemptingPrimary { path: AnalysisPath::Cloud }
            } else if settings.auto_fallback {
                OrchestratorState::AttemptingFallback {
                    primary_error: AnalysisError::MissingCredentials,
                }
            } else {
                OrchestratorState::Failed { error: AnalysisError::MissingCredentials }
            }
        },
        AnalysisMode::Offline => OrchestratorState::AttemptingPrimary {
            path: AnalysisPath::Offline,
        },
        AnalysisMode::Auto => {
            if creds_present {
                OrchestratorState::AttemptingPrimary { path: AnalysisPath::Cloud }
            } else {
                OrchestratorState::AttemptingPrimary { path: AnalysisPath::Offline }
            }
        },
    }
}

/// Advance the machine on the primary attempt's outcome.
pub fn on_primary_outcome(
    path: AnalysisPath,
    outcome: Result<String, String>,
    settings: &AppSettings,
) -> (r: OrchestratorState)
    ensures
        primary_outcome_spec(path, outcome, *settings, r),
{
    match outcome {
        Ok(data) => {
            let mode_used = match path {
                AnalysisPath::Cloud => String::from_str("cloud"),
                AnalysisPath::Offline => String::from_str("offline"),
            };
            OrchestratorState::Succeeded {
                result: AnalysisResult { data, mode_used, fallback_used: false },
            }
        },
        Err(msg) => match path {
            AnalysisPath::Cloud => {
                if settings.auto_fallback {
                    OrchestratorState::AttemptingFallback {
                        primary_error: AnalysisError::RemoteFailed { message: msg },
                    }
                } else {
                    OrchestratorState::Failed {
                        error: AnalysisError::RemoteFailed { message: msg },
                    }
                }
            },
            AnalysisPath::Offline => OrchestratorState::Failed {
                error: AnalysisError::LocalFailed { message: msg },
            },
        },
    }
}

/// Advance the machine on the fallback attempt's outcome.
pub fn on_fallback_outcome(outcome: Result<String, String>) -> (r: OrchestratorState)
    ensures
        fallback_outcome_spec(outcome, r),
{
    match outcome {
        Ok(data) => OrchestratorState::Succeeded {
            result: AnalysisResult {
                data,
                mode_used: String::from_str("offline"),
                fallback_used: true,
            },
        },
        Err(msg) => OrchestratorState::Failed {
            error: AnalysisError::LocalFailed { message: msg },
        },
    }
}

/// In `Offline` mode the remote path is never directed: the primary path is
/// local whatever the credentials, and when it fails the request fails
/// outright — no state of the run ever asks for a remote attempt.
pub proof fn lemma_offline_never_remote(
    settings: AppSettings,
    creds_present: bool,
    s0: OrchestratorState,
    outcome: Result<String, String>,
    s1: OrchestratorState,
)
    requires
        settings.analysis_mode == AnalysisMode::Offline,
        start_spec(settings, creds_present, s0),
        primary_outcome_spec(AnalysisPath::Offline, outcome, settings, s1),
    ensures
        s0 == (OrchestratorState::AttemptingPrimary { path: AnalysisPath::Offline }),
        !directs_remote(s0),
        !directs_remote(s1),
        !(s1 is AttemptingFallback),
        outcome matches Err(m) ==> (s1 matches OrchestratorState::Failed { error } && error
            matches AnalysisError::LocalFailed { message } && message == m),
{
}

/// In `CloudAPI` mode with the fallback disabled, a remote failure surfaces
/// as `Failed` carrying the remote error, and the local path is never
/// entered.
pub proof fn lemma_cloud_no_fallback_surfaces_error(
    settings: AppSettings,
    s0: OrchestratorState,
    err_msg: String,
    s1: OrchestratorState,
)
    requires
        settings.analysis_mode == AnalysisMode::CloudAPI,
        !settings.auto_fallback,
        start_spec(settings, true, s0),
        primary_outcome_spec(AnalysisPath::Cloud, Err(err_msg), settings, s1),
    ensures
        s0 == (OrchestratorState::AttemptingPrimary { path: AnalysisPath::Cloud }),
        s1 matches OrchestratorState::Failed { error } && error
            matches AnalysisError::RemoteFailed { message } && message == err_msg,
        !(s1 is AttemptingFallback),
        !(s1 is Succeeded),
{
}

/// In `Auto` mode without credentials the local path is chosen directly: no
/// remote attempt is directed, and a success reports `fallback_used` false —
/// a silent routing decision, not a fallback.
pub proof fn lemma_auto_no_creds_routes_local(
    settings: AppSettings,
    s0: OrchestratorState,
    data: String,
    s1: OrchestratorState,
)
    requires
        settings.analysis_mode == AnalysisMode::Auto,
        start_spec(settings, false, s0),
        primary_outcome_spec(AnalysisPath::Offline, Ok(data), settings, s1),
    ensures
        s0 == (OrchestratorState::AttemptingPrimary { path: AnalysisPath::Offline }),
        !directs_remote(s0),
        s1 matches OrchestratorState::Succeeded { result } && !result.fallback_used
            && result.data == data && result.mode_used@ == "offline"@,
{
}

} // verus!
