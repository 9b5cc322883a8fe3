//! The extraction stage: which archive entries may be unpacked into the
//! target directory, and whether extraction may run at all. A fixed list of
//! path prefixes (version-control metadata, generated media, logs, caches,
//! reports) is never unpacked, and a file already present on disk is never
//! overwritten. Extraction is attempted only when the primary archive's
//! fetch outcome was `Downloaded` or `Skipped`.

use vstd::prelude::*;
use crate::fetch::FetchSummary;
use crate::strutil::starts_with;
use crate::strutil::str_eq;
use crate::strutil::str_starts_with;

verus! {

/// The path prefixes that are never unpacked.
pub open spec fn excluded_prefixes() -> Seq<Seq<char>> {
    seq![
        ".idea"@,
        "pub/media/catalog/product/"@,
        "media/catalog/product/"@,
        "var/log/"@,
        "var/report/"@,
        "var/cache/"@,
        "var/page_cache/"@,
    ]
}

/// An archive entry is excluded when its path begins with one of the fixed
/// prefixes.
pub open spec fn spec_is_excluded(path: Seq<char>) -> bool {
    exists|k: int| 0 <= k < excluded_prefixes().len() && starts_with(
        path,
        #[trigger] excluded_prefixes()[k],
    )
}

/// The fixed exclusion list, as the strings handed to the archive tool.
pub fn excluded_prefix_list() -> (v: Vec<&'static str>)
    ensures
        v@.len() == excluded_prefixes().len(),
        forall|k: int| 0 <= k < v@.len() ==> (#[trigger] v@[k])@ == excluded_prefixes()[k],
{
    let mut v: Vec<&'static str> = Vec::new();
    v.push(".idea");
    v.push("pub/media/catalog/product/");
    v.push("media/catalog/product/");
    v.push("var/log/");
    v.push("var/report/");
    v.push("var/cache/");
    v.push("var/page_cache/");
    proof {
        assert forall|k: int| 0 <= k < v@.len() implies (#[trigger] v@[k])@
            == excluded_prefixes()[k] by {
            if k == 0 {
            } else if k == 1 {
            } else if k == 2 {
            } else if k == 3 {
            } else if k == 4 {
            } else if k == 5 {
            } else {
                assert(k == 6);
            }
        }
    }
    v
}

/// Whether an archive entry falls under one of the fixed exclusion
/// prefixes.
pub fn is_excluded(path: &str) -> (r: bool)
    ensures
        r == spec_is_excluded(path@),
{
    let prefixes = excluded_prefix_list();
    let n = prefixes.len();
    let mut k: usize = 0;
    while k < n
        invariant
            n == prefixes@.len(),
            n == excluded_prefixes().len(),
            k <= n,
            forall|j: int| 0 <= j < n ==> (#[trigger] prefixes@[j])@ == excluded_prefixes()[j],
            forall|j: int| 0 <= j < k ==> !starts_with(path@, #[trigger] excluded_prefixes()[j]),
        decreases n - k,
    {
        if str_starts_with(path, prefixes[k]) {
            return true;
        }
        k += 1;
    }
    false
}

/// Extraction exclusion: an entry is written to disk exactly when its path
/// is under no excluded prefix and no file already exists at its
/// destination. `plan[i]` says whether entry `i` is unpacked.
pub fn extraction_plan(entries: &Vec<String>, already_present: &Vec<bool>) -> (plan: Vec<bool>)
    requires
        entries@.len() == already_present@.len(),
    ensures
        plan@.len() == entries@.len(),
        forall|i: int| 0 <= i < plan@.len() ==> plan@[i] == (!spec_is_excluded(
            entries.deep_view()[i],
        ) && !already_present@[i]),
{
    let n = entries.len();
    let mut plan: Vec<bool> = Vec::new();
    let mut i: usize = 0;
    while i < n
        invariant
            n == entries@.len(),
            n == already_present@.len(),
            i <= n,
            plan@.len() == i,
            forall|j: int| 0 <= j < i ==> plan@[j] == (!spec_is_excluded(entries.deep_view()[j])
                && !already_present@[j]),
        decreases n - i,
    {
        let keep = !is_excluded(entries[i].as_str()) && !already_present[i];
        plan.push(keep);
        i += 1;
    }
    plan
}

/// The exact argument list handed to the archive tool: gunzip and extract
/// the primary archive in place, never overwrite an existing file, and
/// exclude the fixed prefixes.
pub fn tar_arguments() -> (v: Vec<&'static str>)
    ensures
        v@.len() == 12,
        v@[0]@ == "--gunzip"@,
        v@[1]@ == "--extract"@,
        v@[2]@ == "--skip-old-files"@,
        v@[3]@ == "-f"@,
        v@[4]@ == "files.tar.gz"@,
        v@[5]@ == "--exclude=.idea"@,
        v@[6]@ == "--exclude=pub/media/catalog/product/*"@,
        v@[7]@ == "--exclude=media/catalog/product/*"@,
        v@[8]@ == "--exclude=var/log/*"@,
        v@[9]@ == "--exclude=var/report/*"@,
        v@[10]@ == "--exclude=var/cache/*"@,
        v@[11]@ == "--exclude=var/page_cache/*"@,
{
    let mut v: Vec<&'static str> = Vec::new();
    v.push("--gunzip");
    v.push("--extract");
    v.push("--skip-old-files");
    v.push("-f");
    v.push("files.tar.gz");
    v.push("--exclude=.idea");
    v.push("--exclude=pub/media/catalog/product/*");
    v.push("--exclude=media/catalog/product/*");
    v.push("--exclude=var/log/*");
    v.push("--exclude=var/report/*");
    v.push("--exclude=var/cache/*");
    v.push("--exclude=var/page_cache/*");
    v
}

/// The primary archive reached disk: its summary entry is `Downloaded` or
/// `Skipped`.
pub open spec fn primary_archive_ok(s: Seq<crate::fetch::EntryModel>) -> bool {
    exists|i: int| 0 <= i < s.len() && (#[trigger] s[i]).name == "files.tar.gz"@ && !(s[i].outcome
        is Failed)
}

/// The precondition of the extraction stage: it runs only when the
/// primary archive's outcome shows it is on disk. A failed non-primary
/// artifact does not block extraction.
pub fn extraction_allowed(summary: &FetchSummary) -> (r: bool)
    ensures
        r == primary_archive_ok(summary@),
{
    let n = summary.entries.len();
    let mut i: usize = 0;
    while i < n
        invariant
            n == summary.entries@.len(),
            i <= n,
            forall|j: int| 0 <= j < i ==> !((#[trigger] summary@[j]).name == "files.tar.gz"@ && !(
            summary@[j].outcome is Failed)),
        decreases n - i,
    {
        let name_matches = str_eq(summary.entries[i].name.as_str(), "files.tar.gz");
        let failed = match &summary.entries[i].outcome {
            crate::download::DownloadOutcome::Failed { .. } => true,
            _ => false,
        };
        if name_matches && !failed {
            proof {
                assert(summary@[i as int].name == "files.tar.gz"@ && !(summary@[i as int].outcome
                    is Failed));
            }
            return true;
        }
        proof {
            assert(summary@[i as int] == summary.entries@[i as int]@);
        }
        i += 1;
    }
    false
}

} // verus!
