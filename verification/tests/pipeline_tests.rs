use xp_cli::download::ArtifactProbe;
use xp_cli::download::DownloadOutcome;
use xp_cli::extract::extraction_allowed;
use xp_cli::fetch::fetch_artifacts;
use xp_cli::orchestrate::OrchestrationState;
use xp_cli::orchestrate::run_lifecycle;
use xp_cli::pipeline::failed_artifact_names;
use xp_cli::pipeline::overall_success;
use xp_cli::request::SnapshotRequest;

fn request() -> SnapshotRequest {
    SnapshotRequest::new(
        "108987".to_string(),
        "/tmp/proj".to_string(),
        vec![
            "files.tar.gz".to_string(),
            "structure.sql".to_string(),
            "data.sql".to_string(),
        ],
    )
    .unwrap()
}

fn probe(local_exists: bool, remote_status: u16, transfer_ok: bool) -> ArtifactProbe {
    ArtifactProbe { local_exists, remote_status, transfer_ok }
}

#[test]
fn full_import_succeeds_end_to_end() {
    // the remote service reports 200 for all three artifacts and serves
    // valid bodies; the archive tool and every lifecycle step exit 0
    let q = request();
    let probes = vec![probe(false, 200, true), probe(false, 200, true), probe(false, 200, true)];
    let summary = fetch_artifacts(&q, "tok", &probes);
    for e in &summary.entries {
        assert!(matches!(e.outcome, DownloadOutcome::Downloaded { .. }));
    }
    assert!(extraction_allowed(&summary));
    let extraction_ok = true;
    let (results, state) = run_lifecycle(&vec![0, 0, 0]);
    assert_eq!(state, OrchestrationState::Up);
    assert_eq!(results.len(), 3);
    assert!(failed_artifact_names(&summary).is_empty());
    assert!(overall_success(&summary, extraction_ok, state));
}

#[test]
fn missing_data_dump_is_reported_but_not_fatal() {
    // the remote service reports 404 for data.sql; the primary archive
    // still arrives, so extraction and orchestration proceed, and the
    // failure surfaces as a warning rather than an abort
    let q = request();
    let probes = vec![probe(false, 200, true), probe(true, 0, false), probe(false, 404, false)];
    let summary = fetch_artifacts(&q, "tok", &probes);
    assert!(matches!(summary.entries[0].outcome, DownloadOutcome::Downloaded { .. }));
    assert!(matches!(summary.entries[1].outcome, DownloadOutcome::Skipped { .. }));
    assert!(matches!(summary.entries[2].outcome, DownloadOutcome::Failed { .. }));
    assert!(extraction_allowed(&summary));
    let (_, state) = run_lifecycle(&vec![0, 0, 0]);
    assert_eq!(failed_artifact_names(&summary), vec!["data.sql"]);
    assert!(overall_success(&summary, true, state));
}

#[test]
fn failed_primary_archive_is_fatal() {
    let q = request();
    let probes = vec![probe(false, 404, false), probe(false, 200, true), probe(false, 200, true)];
    let summary = fetch_artifacts(&q, "tok", &probes);
    assert!(!extraction_allowed(&summary));
    assert!(!overall_success(&summary, false, OrchestrationState::NotStarted));
}

#[test]
fn failed_orchestration_is_fatal() {
    let q = request();
    let probes = vec![probe(false, 200, true), probe(false, 200, true), probe(false, 200, true)];
    let summary = fetch_artifacts(&q, "tok", &probes);
    let (_, state) = run_lifecycle(&vec![0, 1]);
    assert!(!overall_success(&summary, true, state));
}

#[test]
fn failed_extraction_is_fatal() {
    let q = request();
    let probes = vec![probe(false, 200, true), probe(false, 200, true), probe(false, 200, true)];
    let summary = fetch_artifacts(&q, "tok", &probes);
    assert!(!overall_success(&summary, false, OrchestrationState::Up));
}
