use rzem_mj_lora::orchestrator::{
    on_fallback_outcome, on_primary_outcome, start_analysis, AnalysisError, AnalysisPath,
    OrchestratorState,
};
use rzem_mj_lora::settings::{AnalysisMode, AppSettings};

fn settings(mode: AnalysisMode, auto_fallback: bool) -> AppSettings {
    let mut s = AppSettings::default();
    s.analysis_mode = mode;
    s.auto_fallback = auto_fallback;
    s
}

#[test]
fn test_offline_mode_never_directs_remote() {
    // Even with credentials present, Offline mode goes local, and a local
    // failure fails the request outright: no remote attempt anywhere.
    let s = settings(AnalysisMode::Offline, true);
    let st = start_analysis(&s, true);
    assert_eq!(st, OrchestratorState::AttemptingPrimary { path: AnalysisPath::Offline });
    let next = on_primary_outcome(AnalysisPath::Offline, Err("model not found".to_string()), &s);
    assert_eq!(
        next,
        OrchestratorState::Failed {
            error: AnalysisError::LocalFailed { message: "model not found".to_string() }
        }
    );
}

#[test]
fn test_cloud_mode_no_fallback_surfaces_remote_error() {
    let s = settings(AnalysisMode::CloudAPI, false);
    let st = start_analysis(&s, true);
    assert_eq!(st, OrchestratorState::AttemptingPrimary { path: AnalysisPath::Cloud });
    let next = on_primary_outcome(AnalysisPath::Cloud, Err("remote down".to_string()), &s);
    match next {
        OrchestratorState::Failed { error } => {
            assert_eq!(
                error,
                AnalysisError::RemoteFailed { message: "remote down".to_string() }
            );
            assert_eq!(error.message(), "Remote API error: remote down");
        }
        other => panic!("expected Failed, got {:?}", other),
    }
}

#[test]
fn test_auto_mode_without_credentials_routes_local() {
    let s = settings(AnalysisMode::Auto, true);
    let st = start_analysis(&s, false);
    assert_eq!(st, OrchestratorState::AttemptingPrimary { path: AnalysisPath::Offline });
    let next = on_primary_outcome(AnalysisPath::Offline, Ok("{\"ok\": 1}".to_string()), &s);
    match next {
        OrchestratorState::Succeeded { result } => {
            assert_eq!(result.data, "{\"ok\": 1}");
            assert_eq!(result.mode_used, "offline");
            assert_eq!(result.fallback_used, false);
        }
        other => panic!("expected Succeeded, got {:?}", other),
    }
}

#[test]
fn test_auto_mode_with_credentials_goes_cloud() {
    let s = settings(AnalysisMode::Auto, true);
    let st = start_analysis(&s, true);
    assert_eq!(st, OrchestratorState::AttemptingPrimary { path: AnalysisPath::Cloud });
    let next = on_primary_outcome(AnalysisPath::Cloud, Ok("{}".to_string()), &s);
    match next {
        OrchestratorState::Succeeded { result } => {
            assert_eq!(result.mode_used, "cloud");
            assert_eq!(result.fallback_used, false);
        }
        other => panic!("expected Succeeded, got {:?}", other),
    }
}

#[test]
fn test_cloud_failure_falls_back_then_succeeds() {
    let s = settings(AnalysisMode::CloudAPI, true);
    let st = start_analysis(&s, true);
    assert_eq!(st, OrchestratorState::AttemptingPrimary { path: AnalysisPath::Cloud });
    let mid = on_primary_outcome(AnalysisPath::Cloud, Err("503".to_string()), &s);
    assert_eq!(
        mid,
        OrchestratorState::AttemptingFallback {
            primary_error: AnalysisError::RemoteFailed { message: "503".to_string() }
        }
    );
    let done = on_fallback_outcome(Ok("{\"fb\": true}".to_string()));
    match done {
        OrchestratorState::Succeeded { result } => {
            assert_eq!(result.data, "{\"fb\": true}");
            assert_eq!(result.mode_used, "offline");
            assert_eq!(result.fallback_used, true);
        }
        other => panic!("expected Succeeded, got {:?}", other),
    }
}

#[test]
fn test_fallback_failure_carries_local_error() {
    let done = on_fallback_outcome(Err("no model".to_string()));
    match done {
        OrchestratorState::Failed { error } => {
            assert_eq!(error.message(), "Offline analysis error: no model");
        }
        other => panic!("expected Failed, got {:?}", other),
    }
}

#[test]
fn test_cloud_mode_missing_credentials() {
    // With fallback allowed: an immediate primary failure that proceeds to
    // the local path. Without it: the request fails at once.
    let s = settings(AnalysisMode::CloudAPI, true);
    assert_eq!(
        start_analysis(&s, false),
        OrchestratorState::AttemptingFallback {
            primary_error: AnalysisError::MissingCredentials
        }
    );
    let s = settings(AnalysisMode::CloudAPI, false);
    match start_analysis(&s, false) {
        OrchestratorState::Failed { error } => {
            assert_eq!(error, AnalysisError::MissingCredentials);
            assert_eq!(
                error.message(),
                "RZEM_API_KEY or REMOTE_API_KEY environment variable not set"
            );
        }
        other => panic!("expected Failed, got {:?}", other),
    }
}
