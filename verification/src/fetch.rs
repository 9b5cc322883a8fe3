//! The fetch coordinator. One unit of work runs per artifact — the units
//! are independent and may run in any order or in parallel — and the
//! coordinator is a join barrier: it returns a summary only once every unit
//! has reported, one entry per requested artifact, in request order,
//! whatever each unit's outcome was.

use vstd::prelude::*;
use crate::download::ArtifactProbe;
use crate::download::DownloadOutcome;
use crate::download::OutcomeModel;
use crate::download::is_network_event;
use crate::download::outcome_model;
use crate::download::probe_events;
use crate::request::SnapshotRequest;
use crate::request::destination_path_model;
use crate::request::download_url;
use crate::request::download_url_model;

verus! {

/// One artifact's line in the summary.
pub struct FetchEntry {
    pub name: String,
    pub outcome: DownloadOutcome,
}

/// Mathematical model of `FetchEntry`.
pub struct EntryModel {
    pub name: Seq<char>,
    pub outcome: OutcomeModel,
}

impl View for FetchEntry {
    type V = EntryModel;

    open spec fn view(&self) -> EntryModel {
        EntryModel { name: self.name@, outcome: self.outcome@ }
    }
}

/// The fetch stage's hand-off artifact: artifact name to outcome, in
/// request order.
pub struct FetchSummary {
    pub entries: Vec<FetchEntry>,
}

impl View for FetchSummary {
    type V = Seq<EntryModel>;

    open spec fn view(&self) -> Seq<EntryModel> {
        Seq::new(self.entries@.len(), |i: int| self.entries@[i]@)
    }
}

/// The whole fetch stage as a function of the per-artifact probe results:
/// entry `i` pairs artifact `i` with the outcome computed from probe `i`
/// alone.
pub open spec fn summary_model(
    dir: Seq<char>,
    id: Seq<char>,
    token: Seq<char>,
    names: Seq<Seq<char>>,
    probes: Seq<ArtifactProbe>,
) -> Seq<EntryModel> {
    Seq::new(
        names.len(),
        |i: int|
            EntryModel {
                name: names[i],
                outcome: outcome_model(
                    probes[i],
                    destination_path_model(dir, names[i]),
                    download_url_model(id, names[i], token),
                ),
            },
    )
}

/// The join barrier: pair each artifact name with the outcome its unit
/// reported. Every name gets exactly one entry, in request order — a
/// failed unit fills its slot like any other.
pub fn collect_summary(names: &Vec<String>, outcomes: Vec<DownloadOutcome>) -> (s: FetchSummary)
    requires
        names@.len() == outcomes@.len(),
    ensures
        s@.len() == names@.len(),
        forall|i: int| 0 <= i < s@.len() ==> (#[trigger] s@[i]).name == names.deep_view()[i]
            && s@[i].outcome == outcomes@[i]@,
{
    let ghost orig = outcomes@;
    let mut outcomes = outcomes;
    let mut entries: Vec<FetchEntry> = Vec::new();
    let n = names.len();
    let mut i: usize = 0;
    while i < n
        invariant
            n == names@.len(),
            i <= n,
            orig.len() == n,
            outcomes@ =~= orig.subrange(i as int, n as int),
            entries@.len() == i,
            forall|j: int| 0 <= j < i ==> (#[trigger] entries@[j]).name@ == names@[j]@
                && entries@[j].outcome == orig[j],
        decreases n - i,
    {
        let o = outcomes.remove(0);
        proof {
            assert(o == orig[i as int]);
            assert(outcomes@ =~= orig.subrange(i as int + 1, n as int));
        }
        let e = FetchEntry { name: names[i].clone(), outcome: o };
        entries.push(e);
        i += 1;
    }
    let s = FetchSummary { entries };
    proof {
        assert forall|k: int| 0 <= k < s@.len() implies (#[trigger] s@[k]).name
            == names.deep_view()[k] && s@[k].outcome == orig[k]@ by {
            assert(s@[k] == s.entries@[k]@);
        }
    }
    s
}

/// Run the whole fetch stage from the per-artifact probe results: resolve
/// each artifact, decide its outcome from its own probe alone, and collect
/// the summary in request order.
pub fn fetch_artifacts(req: &SnapshotRequest, token: &str, probes: &Vec<ArtifactProbe>) -> (s:
    FetchSummary)
    requires
        probes@.len() == req.artifact_names@.len(),
    ensures
        s@ == summary_model(
            req.target_directory@,
            req.snapshot_id@,
            token@,
            req.artifact_names.deep_view(),
            probes@,
        ),
{
    let specs = req.artifact_specs();
    let mut outcomes: Vec<DownloadOutcome> = Vec::new();
    let n = specs.len();
    let mut i: usize = 0;
    while i < n
        invariant
            n == specs@.len(),
            n == req.artifact_names@.len(),
            n == probes@.len(),
            i <= n,
            outcomes@.len() == i,
            forall|j: int| 0 <= j < n ==> (#[trigger] specs@[j]).name@
                == req.artifact_names.deep_view()[j] && specs@[j].destination_path@
                == destination_path_model(
                req.target_directory@,
                req.artifact_names.deep_view()[j],
            ),
            forall|j: int| 0 <= j < i ==> (#[trigger] outcomes@[j])@ == outcome_model(
                probes@[j],
                destination_path_model(req.target_directory@, req.artifact_names.deep_view()[j]),
                download_url_model(
                    req.snapshot_id@,
                    req.artifact_names.deep_view()[j],
                    token@,
                ),
            ),
        decreases n - i,
    {
        let url = download_url(
            req.snapshot_id.as_str(),
            req.artifact_names[i].as_str(),
            token,
        );
        let o = crate::download::decide_outcome(&specs[i], url.as_str(), probes[i]);
        outcomes.push(o);
        i += 1;
    }
    let s = collect_summary(&req.artifact_names, outcomes);
    proof {
        assert(s@ =~= summary_model(
            req.target_directory@,
            req.snapshot_id@,
            token@,
            req.artifact_names.deep_view(),
            probes@,
        ));
    }
    s
}

/// Fan-out completeness: for N artifact names the summary always holds
/// exactly N entries, whatever the individual outcomes were, and entry
/// order matches request order.
pub proof fn lemma_fanout_completeness(
    dir: Seq<char>,
    id: Seq<char>,
    token: Seq<char>,
    names: Seq<Seq<char>>,
    probes: Seq<ArtifactProbe>,
)
    requires
        probes.len() == names.len(),
    ensures
        summary_model(dir, id, token, names, probes).len() == names.len(),
        forall|i: int| 0 <= i < names.len() ==> summary_model(dir, id, token, names, probes)[i].name
            == names[i],
{
}

/// The summary really is a mapping: with distinct artifact names in the
/// request — an ordered set — every name owns exactly one entry.
pub proof fn lemma_summary_names_unique(
    dir: Seq<char>,
    id: Seq<char>,
    token: Seq<char>,
    names: Seq<Seq<char>>,
    probes: Seq<ArtifactProbe>,
)
    requires
        probes.len() == names.len(),
        crate::request::names_distinct(names),
    ensures
        forall|i: int, j: int| 0 <= i < j < names.len() ==> summary_model(
            dir,
            id,
            token,
            names,
            probes,
        )[i].name != summary_model(dir, id, token, names, probes)[j].name,
{
}

/// Isolation: one artifact's entry depends on its own probe results alone.
/// Changing what the remote service did for the other artifacts — failures
/// included — leaves this entry unchanged.
pub proof fn lemma_outcome_isolation(
    dir: Seq<char>,
    id: Seq<char>,
    token: Seq<char>,
    names: Seq<Seq<char>>,
    a: Seq<ArtifactProbe>,
    b: Seq<ArtifactProbe>,
    i: int,
)
    requires
        a.len() == names.len(),
        b.len() == names.len(),
        0 <= i < names.len(),
        a[i] == b[i],
    ensures
        summary_model(dir, id, token, names, a)[i] == summary_model(dir, id, token, names, b)[i],
{
}

/// Idempotence of the fetch stage: when every destination already exists
/// on disk — as after a completed earlier run — every artifact's outcome is
/// `Skipped`, and no unit makes a network call: each unit's event trace is
/// its single local probe.
pub proof fn lemma_fetch_idempotence(
    dir: Seq<char>,
    id: Seq<char>,
    token: Seq<char>,
    names: Seq<Seq<char>>,
    probes: Seq<ArtifactProbe>,
)
    requires
        probes.len() == names.len(),
        forall|i: int| 0 <= i < probes.len() ==> (#[trigger] probes[i]).local_exists,
    ensures
        forall|i: int| 0 <= i < names.len() ==> summary_model(
            dir,
            id,
            token,
            names,
            probes,
        )[i].outcome == (OutcomeModel::Skipped { path: destination_path_model(dir, names[i]) }),
        forall|i: int, j: int| 0 <= i < names.len() && 0 <= j < probe_events(probes[i]).len()
            ==> !is_network_event(#[trigger] probe_events(probes[i])[j]),
{
    assert forall|i: int, j: int| 0 <= i < names.len() && 0 <= j < probe_events(
        probes[i],
    ).len() implies !is_network_event(#[trigger] probe_events(probes[i])[j]) by {
        crate::download::lemma_local_hit_skips_without_network(
            probes[i],
            destination_path_model(dir, names[i]),
            download_url_model(id, names[i], token),
        );
    }
}

} // verus!
