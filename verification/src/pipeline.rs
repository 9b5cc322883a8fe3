//! Cross-stage policy. Per-artifact download failures are recovered into
//! their summary entries and surface as warnings; the operation as a whole
//! succeeds only when the primary archive reached disk, extraction
//! succeeded, and the orchestration sequence ended in `Up`.

use vstd::prelude::*;
use crate::extract::primary_archive_ok;
use crate::fetch::EntryModel;
use crate::fetch::FetchSummary;
use crate::orchestrate::OrchestrationState;

verus! {

/// The names of the artifacts whose fetch failed, in request order.
pub open spec fn failed_names_model(s: Seq<EntryModel>) -> Seq<Seq<char>>
    decreases s.len(),
{
    if s.len() == 0 {
        Seq::empty()
    } else {
        let rest = failed_names_model(s.drop_last());
        if s.last().outcome is Failed {
            rest.push(s.last().name)
        } else {
            rest
        }
    }
}

/// Collect the artifacts whose fetch failed, for the per-artifact warning
/// report. The fetch itself never aborts on them.
pub fn failed_artifact_names(summary: &FetchSummary) -> (v: Vec<String>)
    ensures
        v.deep_view() == failed_names_model(summary@),
{
    let n = summary.entries.len();
    let mut v: Vec<String> = Vec::new();
    let mut i: usize = 0;
    proof {
        assert(summary@.take(0) =~= Seq::<EntryModel>::empty());
    }
    while i < n
        invariant
            n == summary.entries@.len(),
            n == summary@.len(),
            i <= n,
            v.deep_view() =~= failed_names_model(summary@.take(i as int)),
        decreases n - i,
    {
        let ghost prev = summary@.take(i as int);
        let failed = match &summary.entries[i].outcome {
            crate::download::DownloadOutcome::Failed { .. } => true,
            _ => false,
        };
        proof {
            assert(summary@[i as int] == summary.entries@[i as int]@);
            assert(summary@.take(i as int + 1).drop_last() =~= prev);
            assert(summary@.take(i as int + 1).last() == summary@[i as int]);
        }
        if failed {
            v.push(summary.entries[i].name.clone());
        }
        i += 1;
    }
    proof {
        assert(summary@.take(n as int) =~= summary@);
    }
    v
}

/// The overall verdict of one import operation: success exactly when the
/// primary archive reached disk, extraction succeeded, and orchestration
/// ended in the terminal `Up` state. Failed non-primary artifacts do not
/// enter the verdict; they are reported as warnings.
pub fn overall_success(
    summary: &FetchSummary,
    extraction_ok: bool,
    final_state: OrchestrationState,
) -> (r: bool)
    ensures
        r == (primary_archive_ok(summary@) && extraction_ok && final_state is Up),
{
    let primary = crate::extract::extraction_allowed(summary);
    let up = match final_state {
        OrchestrationState::Up => true,
        _ => false,
    };
    primary && extraction_ok && up
}

/// A failed non-primary artifact is a warning, not an abort: two fetch
/// summaries that agree on their primary-archive entries yield the same
/// overall verdict, whatever happened to the other artifacts.
pub proof fn lemma_nonprimary_failure_is_warning(
    a: Seq<EntryModel>,
    b: Seq<EntryModel>,
    extraction_ok: bool,
    final_state: OrchestrationState,
)
    requires
        a.len() == b.len(),
        forall|i: int| 0 <= i < a.len() ==> (#[trigger] a[i]).name == b[i].name,
        forall|i: int| 0 <= i < a.len() && (#[trigger] a[i]).name == "files.tar.gz"@ ==> a[i].outcome
            == b[i].outcome,
    ensures
        (primary_archive_ok(a) && extraction_ok && final_state is Up) == (primary_archive_ok(b)
            && extraction_ok && final_state is Up),
{
    if primary_archive_ok(a) {
        let i = choose|i: int| 0 <= i < a.len() && (#[trigger] a[i]).name == "files.tar.gz"@ && !(
        a[i].outcome is Failed);
        assert(b[i].name == "files.tar.gz"@ && !(b[i].outcome is Failed));
    }
    if primary_archive_ok(b) {
        let i = choose|i: int| 0 <= i < b.len() && (#[trigger] b[i]).name == "files.tar.gz"@ && !(
        b[i].outcome is Failed);
        assert(a[i].name == "files.tar.gz"@ && !(a[i].outcome is Failed));
    }
}

} // verus!
