use xp_cli::download::ArtifactProbe;
use xp_cli::download::DownloadOutcome;
use xp_cli::download::DownloadPhase;
use xp_cli::download::FailureReason;
use xp_cli::download::ProbeEvent;
use xp_cli::download::decide_outcome;
use xp_cli::download::download_step;
use xp_cli::request::ArtifactSpec;

fn spec_for(name: &str) -> ArtifactSpec {
    ArtifactSpec::new("/tmp/proj", name)
}

#[test]
fn existing_file_is_skipped() {
    let a = spec_for("data.sql");
    let p = ArtifactProbe { local_exists: true, remote_status: 0, transfer_ok: false };
    let o = decide_outcome(&a, "unused", p);
    match o {
        DownloadOutcome::Skipped { path } => assert_eq!(path, "/tmp/proj/data.sql"),
        _ => panic!("expected a skip"),
    }
}

#[test]
fn non_ok_status_fails_with_code_and_url() {
    let a = spec_for("data.sql");
    let p = ArtifactProbe { local_exists: false, remote_status: 404, transfer_ok: true };
    let o = decide_outcome(&a, "https://example.test/a", p);
    match o {
        DownloadOutcome::Failed { reason: FailureReason::RemoteStatus { code, url } } => {
            assert_eq!(code, 404);
            assert_eq!(url, "https://example.test/a");
        }
        _ => panic!("expected a remote-status failure"),
    }
}

#[test]
fn ok_status_and_transfer_downloads() {
    let a = spec_for("files.tar.gz");
    let p = ArtifactProbe { local_exists: false, remote_status: 200, transfer_ok: true };
    let o = decide_outcome(&a, "u", p);
    match o {
        DownloadOutcome::Downloaded { path } => assert_eq!(path, "/tmp/proj/files.tar.gz"),
        _ => panic!("expected a download"),
    }
}

#[test]
fn failed_transfer_fails() {
    let a = spec_for("files.tar.gz");
    let p = ArtifactProbe { local_exists: false, remote_status: 200, transfer_ok: false };
    let o = decide_outcome(&a, "u", p);
    assert!(matches!(
        o,
        DownloadOutcome::Failed { reason: FailureReason::TransferFailed }
    ));
}

#[test]
fn local_hit_completes_without_remote_step() {
    // idempotence: a local hit decides the outcome at the first step, so no
    // remote probe is ever requested
    let a = spec_for("data.sql");
    let next = download_step(
        DownloadPhase::LocalCheck,
        &a,
        "u",
        ProbeEvent::Local { exists: true },
    );
    match next {
        DownloadPhase::Complete { outcome: DownloadOutcome::Skipped { path } } => {
            assert_eq!(path, "/tmp/proj/data.sql");
        }
        _ => panic!("expected completion at the local check"),
    }
}

#[test]
fn machine_walks_local_remote_transfer() {
    let a = spec_for("data.sql");
    let s1 = download_step(
        DownloadPhase::LocalCheck,
        &a,
        "u",
        ProbeEvent::Local { exists: false },
    );
    assert!(matches!(s1, DownloadPhase::RemoteCheck));
    let s2 = download_step(s1, &a, "u", ProbeEvent::Remote { status: 200 });
    assert!(matches!(s2, DownloadPhase::Transfer));
    let s3 = download_step(s2, &a, "u", ProbeEvent::Transfer { ok: true });
    match s3 {
        DownloadPhase::Complete { outcome: DownloadOutcome::Downloaded { path } } => {
            assert_eq!(path, "/tmp/proj/data.sql");
        }
        _ => panic!("expected a downloaded outcome"),
    }
}

#[test]
fn machine_stops_at_failed_remote_check() {
    let a = spec_for("data.sql");
    let s1 = download_step(
        DownloadPhase::LocalCheck,
        &a,
        "u",
        ProbeEvent::Local { exists: false },
    );
    let s2 = download_step(s1, &a, "u", ProbeEvent::Remote { status: 500 });
    match s2 {
        DownloadPhase::Complete {
            outcome: DownloadOutcome::Failed { reason: FailureReason::RemoteStatus { code, url } },
        } => {
            assert_eq!(code, 500);
            assert_eq!(url, "u");
        }
        _ => panic!("expected a remote-status failure"),
    }
}
