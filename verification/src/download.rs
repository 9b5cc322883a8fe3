//! Per-artifact download decisions. One artifact's fetch is a little state
//! machine: a local existence check (skip if the destination is already on
//! disk, so repeated runs are idempotent), then a metadata-only remote check
//! judged on its status code, then the body transfer. The surrounding binary
//! performs the probes and feeds their results in as events; every decision
//! is taken here.

use vstd::prelude::*;

verus! {

/// Why an artifact's download failed.
pub enum FailureReason {
    /// The metadata-only remote check reported a status other than 200 for
    /// the given address; the body transfer was not attempted.
    RemoteStatus { code: u16, url: String },
    /// The body transfer itself reported failure.
    TransferFailed,
}

/// The outcome of one artifact's fetch.
pub enum DownloadOutcome {
    /// The destination already existed; nothing was fetched.
    Skipped { path: String },
    /// The artifact was fetched to the destination.
    Downloaded { path: String },
    /// The fetch failed; the destination was not written.
    Failed { reason: FailureReason },
}

/// Mathematical model of `FailureReason`.
pub enum FailureReasonModel {
    RemoteStatus { code: u16, url: Seq<char> },
    TransferFailed,
}

/// Mathematical model of `DownloadOutcome`.
pub enum OutcomeModel {
    Skipped { path: Seq<char> },
    Downloaded { path: Seq<char> },
    Failed { reason: FailureReasonModel },
}

impl View for FailureReason {
    type V = FailureReasonModel;

    open spec fn view(&self) -> FailureReasonModel {
        match self {
            FailureReason::RemoteStatus { code, url } => FailureReasonModel::RemoteStatus {
                code: *code,
                url: url@,
            },
            FailureReason::TransferFailed => FailureReasonModel::TransferFailed,
        }
    }
}

impl View for DownloadOutcome {
    type V = OutcomeModel;

    open spec fn view(&self) -> OutcomeModel {
        match self {
            DownloadOutcome::Skipped { path } => OutcomeModel::Skipped { path: path@ },
            DownloadOutcome::Downloaded { path } => OutcomeModel::Downloaded { path: path@ },
            DownloadOutcome::Failed { reason } => OutcomeModel::Failed { reason: reason@ },
        }
    }
}

/// The result of one probe performed by the surrounding binary.
#[derive(Clone, Copy, PartialEq, Eq, Structural, Debug)]
pub enum ProbeEvent {
    /// Whether the destination path already exists on disk.
    Local { exists: bool },
    /// The status code the remote service reported for the metadata check.
    Remote { status: u16 },
    /// Whether the body transfer reported success.
    Transfer { ok: bool },
}

/// Where one artifact's fetch stands.
pub enum DownloadPhase {
    /// Next action: check whether the destination already exists.
    LocalCheck,
    /// Next action: issue the metadata-only remote check.
    RemoteCheck,
    /// Next action: transfer the body to the destination.
    Transfer,
    /// Terminal: the outcome is decided.
    Complete { outcome: DownloadOutcome },
}

/// Mathematical model of `DownloadPhase`.
pub enum PhaseModel {
    LocalCheck,
    RemoteCheck,
    Transfer,
    Complete { outcome: OutcomeModel },
}

impl View for DownloadPhase {
    type V = PhaseModel;

    open spec fn view(&self) -> PhaseModel {
        match self {
            DownloadPhase::LocalCheck => PhaseModel::LocalCheck,
            DownloadPhase::RemoteCheck => PhaseModel::RemoteCheck,
            DownloadPhase::Transfer => PhaseModel::Transfer,
            DownloadPhase::Complete { outcome } => PhaseModel::Complete { outcome: outcome@ },
        }
    }
}

/// An event that involves the remote service: the metadata check or the
/// body transfer. A `Local` probe touches only the local filesystem.
pub open spec fn is_network_event(ev: ProbeEvent) -> bool {
    ev is Remote || ev is Transfer
}

/// One transition of the per-artifact machine. `dest` is the artifact's
/// destination path, `url` its remote address. An event that does not
/// belong to the current phase leaves the phase unchanged.
pub open spec fn step_model(
    ph: PhaseModel,
    dest: Seq<char>,
    url: Seq<char>,
    ev: ProbeEvent,
) -> PhaseModel {
    match (ph, ev) {
        (PhaseModel::LocalCheck, ProbeEvent::Local { exists }) => if exists {
            PhaseModel::Complete { outcome: OutcomeModel::Skipped { path: dest } }
        } else {
            PhaseModel::RemoteCheck
        },
        (PhaseModel::RemoteCheck, ProbeEvent::Remote { status }) => if status == 200 {
            PhaseModel::Transfer
        } else {
            PhaseModel::Complete {
                outcome: OutcomeModel::Failed {
                    reason: FailureReasonModel::RemoteStatus { code: status, url },
                },
            }
        },
        (PhaseModel::Transfer, ProbeEvent::Transfer { ok }) => if ok {
            PhaseModel::Complete { outcome: OutcomeModel::Downloaded { path: dest } }
        } else {
            PhaseModel::Complete {
                outcome: OutcomeModel::Failed { reason: FailureReasonModel::TransferFailed },
            }
        },
        (p, _) => p,
    }
}

/// Feed one probe result into the machine.
pub fn download_step(
    phase: DownloadPhase,
    artifact: &crate::request::ArtifactSpec,
    url: &str,
    ev: ProbeEvent,
) -> (next: DownloadPhase)
    ensures
        next@ == step_model(phase@, artifact.destination_path@, url@, ev),
{
    match (phase, ev) {
        (DownloadPhase::LocalCheck, ProbeEvent::Local { exists }) => {
            if exists {
                DownloadPhase::Complete {
                    outcome: DownloadOutcome::Skipped { path: artifact.destination_path.clone() },
                }
            } else {
                DownloadPhase::RemoteCheck
            }
        },
        (DownloadPhase::RemoteCheck, ProbeEvent::Remote { status }) => {
            if status == 200 {
                DownloadPhase::Transfer
            } else {
                DownloadPhase::Complete {
                    outcome: DownloadOutcome::Failed {
                        reason: FailureReason::RemoteStatus {
                            code: status,
                            url: String::from_str(url),
                        },
                    },
                }
            }
        },
        (DownloadPhase::Transfer, ProbeEvent::Transfer { ok }) => {
            if ok {
                DownloadPhase::Complete {
                    outcome: DownloadOutcome::Downloaded {
                        path: artifact.destination_path.clone(),
                    },
                }
            } else {
                DownloadPhase::Complete {
                    outcome: DownloadOutcome::Failed { reason: FailureReason::TransferFailed },
                }
            }
        },
        (p, _) => p,
    }
}

/// What the probes around one artifact reported. The remote fields are
/// only meaningful where the machine consults them: `remote_status` is
/// ignored when the destination exists locally, `transfer_ok` when the
/// remote check already failed.
#[derive(Clone, Copy, PartialEq, Eq, Structural, Debug)]
pub struct ArtifactProbe {
    pub local_exists: bool,
    pub remote_status: u16,
    pub transfer_ok: bool,
}

/// The outcome one artifact ends with, as a function of its own probe
/// results alone.
pub open spec fn outcome_model(p: ArtifactProbe, dest: Seq<char>, url: Seq<char>) -> OutcomeModel {
    if p.local_exists {
        OutcomeModel::Skipped { path: dest }
    } else if p.remote_status != 200 {
        OutcomeModel::Failed {
            reason: FailureReasonModel::RemoteStatus { code: p.remote_status, url },
        }
    } else if p.transfer_ok {
        OutcomeModel::Downloaded { path: dest }
    } else {
        OutcomeModel::Failed { reason: FailureReasonModel::TransferFailed }
    }
}

/// The events one artifact's fetch produces, in order: the machine stops
/// probing as soon as the outcome is decided, so a local hit produces no
/// remote event and a failed remote check produces no transfer event.
pub open spec fn probe_events(p: ArtifactProbe) -> Seq<ProbeEvent> {
    if p.local_exists {
        seq![ProbeEvent::Local { exists: true }]
    } else if p.remote_status != 200 {
        seq![
            ProbeEvent::Local { exists: false },
            ProbeEvent::Remote { status: p.remote_status },
        ]
    } else {
        seq![
            ProbeEvent::Local { exists: false },
            ProbeEvent::Remote { status: p.remote_status },
            ProbeEvent::Transfer { ok: p.transfer_ok },
        ]
    }
}

/// The machine after a whole sequence of events.
pub open spec fn run_machine(
    ph: PhaseModel,
    dest: Seq<char>,
    url: Seq<char>,
    evs: Seq<ProbeEvent>,
) -> PhaseModel
    decreases evs.len(),
{
    if evs.len() == 0 {
        ph
    } else {
        run_machine(step_model(ph, dest, url, evs[0]), dest, url, evs.drop_first())
    }
}

/// The machine, run on the events its probe produces, completes with
/// exactly the outcome that is a function of the probe alone. Outcomes are
/// therefore computable independently, per artifact.
pub proof fn lemma_machine_computes_outcome(p: ArtifactProbe, dest: Seq<char>, url: Seq<char>)
    ensures
        run_machine(PhaseModel::LocalCheck, dest, url, probe_events(p)) == (PhaseModel::Complete {
            outcome: outcome_model(p, dest, url),
        }),
{
    let evs = probe_events(p);
    let done = PhaseModel::Complete { outcome: outcome_model(p, dest, url) };
    if p.local_exists {
        assert(evs[0] == (ProbeEvent::Local { exists: true }));
        assert(step_model(PhaseModel::LocalCheck, dest, url, evs[0]) == done);
        assert(evs.drop_first().len() == 0);
        assert(run_machine(PhaseModel::LocalCheck, dest, url, evs) == run_machine(
            done,
            dest,
            url,
            evs.drop_first(),
        ));
    } else {
        let evs1 = evs.drop_first();
        assert(evs[0] == (ProbeEvent::Local { exists: false }));
        assert(step_model(PhaseModel::LocalCheck, dest, url, evs[0]) == PhaseModel::RemoteCheck);
        assert(run_machine(PhaseModel::LocalCheck, dest, url, evs) == run_machine(
            PhaseModel::RemoteCheck,
            dest,
            url,
            evs1,
        ));
        assert(evs1[0] == (ProbeEvent::Remote { status: p.remote_status }));
        if p.remote_status != 200 {
            assert(step_model(PhaseModel::RemoteCheck, dest, url, evs1[0]) == done);
            assert(evs1.drop_first().len() == 0);
            assert(run_machine(PhaseModel::RemoteCheck, dest, url, evs1) == run_machine(
                done,
                dest,
                url,
                evs1.drop_first(),
            ));
        } else {
            let evs2 = evs1.drop_first();
            assert(step_model(PhaseModel::RemoteCheck, dest, url, evs1[0])
                == PhaseModel::Transfer);
            assert(run_machine(PhaseModel::RemoteCheck, dest, url, evs1) == run_machine(
                PhaseModel::Transfer,
                dest,
                url,
                evs2,
            ));
            assert(evs2[0] == (ProbeEvent::Transfer { ok: p.transfer_ok }));
            assert(step_model(PhaseModel::Transfer, dest, url, evs2[0]) == done);
            assert(evs2.drop_first().len() == 0);
            assert(run_machine(PhaseModel::Transfer, dest, url, evs2) == run_machine(
                done,
                dest,
                url,
                evs2.drop_first(),
            ));
        }
    }
}

/// Idempotence of the fetch, per artifact: when the destination already
/// exists locally, the outcome is `Skipped` and the fetch makes no network
/// call at all — its event trace is the single local probe.
pub proof fn lemma_local_hit_skips_without_network(
    p: ArtifactProbe,
    dest: Seq<char>,
    url: Seq<char>,
)
    requires
        p.local_exists,
    ensures
        outcome_model(p, dest, url) == (OutcomeModel::Skipped { path: dest }),
        probe_events(p).len() == 1,
        forall|i: int| 0 <= i < probe_events(p).len() ==> !is_network_event(probe_events(p)[i]),
{
}

/// Decide one artifact's outcome from its probe results.
pub fn decide_outcome(
    artifact: &crate::request::ArtifactSpec,
    url: &str,
    p: ArtifactProbe,
) -> (o: DownloadOutcome)
    ensures
        o@ == outcome_model(p, artifact.destination_path@, url@),
{
    if p.local_exists {
        DownloadOutcome::Skipped { path: artifact.destination_path.clone() }
    } else if p.remote_status != 200 {
        DownloadOutcome::Failed {
            reason: FailureReason::RemoteStatus {
                code: p.remote_status,
                url: String::from_str(url),
            },
        }
    } else if p.transfer_ok {
        DownloadOutcome::Downloaded { path: artifact.destination_path.clone() }
    } else {
        DownloadOutcome::Failed { reason: FailureReason::TransferFailed }
    }
}

} // verus!
