//! The snapshot request and its validation: a digits-only snapshot
//! identifier, a target directory, and the ordered set of artifact names to
//! fetch, each artifact resolved to a destination path inside the target
//! directory.

use vstd::prelude::*;

verus! {

/// An ASCII digit.
pub open spec fn spec_is_digit(c: char) -> bool {
    '0' <= c && c <= '9'
}

/// A snapshot identifier is a non-empty string of digits.
pub open spec fn valid_snapshot_id(s: Seq<char>) -> bool {
    s.len() > 0 && forall|i: int| 0 <= i < s.len() ==> spec_is_digit(#[trigger] s[i])
}

/// What `char::is_alphanumeric` returns for a character; the result depends
/// on the character alone.
pub uninterp spec fn unicode_alphanumeric(c: char) -> bool;

/// Relies on `char::is_alphanumeric`: whether the character is alphabetic or
/// numeric according to the Unicode character properties.
#[verifier::external_body]
fn char_is_alphanumeric(c: char) -> (r: bool)
    ensures
        r == unicode_alphanumeric(c),
{
    c.is_alphanumeric()
}

/// A character allowed in a directory base name.
pub open spec fn valid_directory_char(c: char) -> bool {
    unicode_alphanumeric(c) || c == '-' || c == '_'
}

/// A directory base name holds only alphanumeric characters, hyphens and
/// underscores.
pub open spec fn valid_directory_name(s: Seq<char>) -> bool {
    forall|i: int| 0 <= i < s.len() ==> valid_directory_char(#[trigger] s[i])
}

/// Checks that a snapshot identifier is non-empty and digits-only.
pub fn is_valid_snapshot_id(s: &str) -> (r: bool)
    ensures
        r == valid_snapshot_id(s@),
{
    let len = s.unicode_len();
    if len == 0 {
        return false;
    }
    let mut i: usize = 0;
    while i < len
        invariant
            len == s@.len(),
            i <= len,
            forall|j: int| 0 <= j < i ==> spec_is_digit(#[trigger] s@[j]),
        decreases len - i,
    {
        let c = s.get_char(i);
        if !('0' <= c && c <= '9') {
            return false;
        }
        i += 1;
    }
    true
}

/// Checks that a directory base name holds only alphanumeric characters,
/// hyphens and underscores.
pub fn is_valid_directory_name(s: &str) -> (r: bool)
    ensures
        r == valid_directory_name(s@),
{
    let len = s.unicode_len();
    let mut i: usize = 0;
    while i < len
        invariant
            len == s@.len(),
            i <= len,
            forall|j: int| 0 <= j < i ==> valid_directory_char(#[trigger] s@[j]),
        decreases len - i,
    {
        let c = s.get_char(i);
        if !(char_is_alphanumeric(c) || c == '-' || c == '_') {
            return false;
        }
        i += 1;
    }
    true
}

/// The destination path of an artifact: `directory`/`name`.
pub open spec fn destination_path_model(directory: Seq<char>, name: Seq<char>) -> Seq<char> {
    directory + "/"@ + name
}

/// The remote address of an artifact of a snapshot, authorized by the
/// bearer token.
pub open spec fn download_url_model(
    snapshot_id: Seq<char>,
    name: Seq<char>,
    token: Seq<char>,
) -> Seq<char> {
    "https://merlin.experius.nl/backups/download/"@ + snapshot_id + "/"@ + name + "?token="@
        + token
}

/// Builds the destination path of an artifact inside the target directory.
pub fn destination_path(directory: &str, name: &str) -> (r: String)
    ensures
        r@ == destination_path_model(directory@, name@),
{
    let mut r = String::from_str(directory);
    r.append("/");
    r.append(name);
    r
}

/// Builds the download address for one artifact of a snapshot.
pub fn download_url(snapshot_id: &str, name: &str, token: &str) -> (r: String)
    ensures
        r@ == download_url_model(snapshot_id@, name@, token@),
{
    let mut r = String::from_str("https://merlin.experius.nl/backups/download/");
    r.append(snapshot_id);
    r.append("/");
    r.append(name);
    r.append("?token=");
    r.append(token);
    r
}

/// One artifact to fetch: its name and the path it is written to.
pub struct ArtifactSpec {
    pub name: String,
    pub destination_path: String,
}

impl ArtifactSpec {
    /// Resolves an artifact name against the target directory.
    pub fn new(target_directory: &str, name: &str) -> (r: ArtifactSpec)
        ensures
            r.name@ == name@,
            r.destination_path@ == destination_path_model(target_directory@, name@),
    {
        ArtifactSpec {
            name: String::from_str(name),
            destination_path: destination_path(target_directory, name),
        }
    }
}

/// Why a snapshot request was rejected.
#[derive(Clone, Copy, PartialEq, Eq, Structural, Debug)]
pub enum RequestError {
    /// The snapshot identifier is empty or holds a non-digit.
    InvalidSnapshotId,
    /// An artifact name is empty.
    EmptyArtifactName,
    /// The same artifact name appears twice.
    DuplicateArtifactName,
}

/// All artifact names are non-empty.
pub open spec fn names_nonempty(names: Seq<Seq<char>>) -> bool {
    forall|i: int| 0 <= i < names.len() ==> (#[trigger] names[i]).len() > 0
}

/// No artifact name appears twice.
pub open spec fn names_distinct(names: Seq<Seq<char>>) -> bool {
    forall|i: int, j: int| 0 <= i < j < names.len() ==> names[i] != names[j]
}

/// A validated snapshot request: which snapshot to fetch, where to put it,
/// and which artifacts belong to it, in order.
#[derive(Debug)]
pub struct SnapshotRequest {
    pub snapshot_id: String,
    pub target_directory: String,
    pub artifact_names: Vec<String>,
}

impl SnapshotRequest {
    /// The request's invariant, established by `new`.
    pub open spec fn well_formed(&self) -> bool {
        &&& valid_snapshot_id(self.snapshot_id@)
        &&& names_nonempty(self.artifact_names.deep_view())
        &&& names_distinct(self.artifact_names.deep_view())
    }

    /// Validates the inputs and builds the request: the snapshot identifier
    /// must be non-empty and digits-only, and the artifact names must be
    /// non-empty and pairwise distinct (they form an ordered set).
    pub fn new(snapshot_id: String, target_directory: String, artifact_names: Vec<String>) -> (r:
        Result<SnapshotRequest, RequestError>)
        ensures
            r is Ok <==> valid_snapshot_id(snapshot_id@) && names_nonempty(
                artifact_names.deep_view(),
            ) && names_distinct(artifact_names.deep_view()),
            (r matches Ok(q) ==> q.snapshot_id@ == snapshot_id@ && q.target_directory@
                == target_directory@ && q.artifact_names.deep_view()
                == artifact_names.deep_view() && q.well_formed()),
            !valid_snapshot_id(snapshot_id@) ==> r == Err::<SnapshotRequest, RequestError>(
                RequestError::InvalidSnapshotId,
            ),
            valid_snapshot_id(snapshot_id@) && !names_nonempty(artifact_names.deep_view()) ==> r
                == Err::<SnapshotRequest, RequestError>(RequestError::EmptyArtifactName),
            valid_snapshot_id(snapshot_id@) && names_nonempty(artifact_names.deep_view())
                && !names_distinct(artifact_names.deep_view()) ==> r == Err::<
                SnapshotRequest,
                RequestError,
            >(RequestError::DuplicateArtifactName),
    {
        if !is_valid_snapshot_id(snapshot_id.as_str()) {
            return Err(RequestError::InvalidSnapshotId);
        }
        let n = artifact_names.len();
        let mut i: usize = 0;
        while i < n
            invariant
                valid_snapshot_id(snapshot_id@),
                n == artifact_names@.len(),
                i <= n,
                forall|j: int| 0 <= j < i ==> (#[trigger] artifact_names.deep_view()[j]).len()
                    > 0,
            decreases n - i,
        {
            if artifact_names[i].as_str().is_empty() {
                proof {
                    assert(artifact_names.deep_view()[i as int] == artifact_names@[i as int]@);
                    assert(!names_nonempty(artifact_names.deep_view()));
                }
                return Err(RequestError::EmptyArtifactName);
            }
            i += 1;
        }
        let mut a: usize = 0;
        while a < n
            invariant
                valid_snapshot_id(snapshot_id@),
                names_nonempty(artifact_names.deep_view()),
                n == artifact_names@.len(),
                a <= n,
                forall|i2: int, j2: int| 0 <= i2 < j2 < n && i2 < a
                    ==> artifact_names.deep_view()[i2] != artifact_names.deep_view()[j2],
            decreases n - a,
        {
            let mut b: usize = a + 1;
            while b < n
                invariant
                    valid_snapshot_id(snapshot_id@),
                    names_nonempty(artifact_names.deep_view()),
                    n == artifact_names@.len(),
                    a < n,
                    a + 1 <= b <= n,
                    forall|j2: int| a < j2 < b ==> artifact_names.deep_view()[a as int]
                        != artifact_names.deep_view()[j2],
                decreases n - b,
            {
                if crate::strutil::str_eq(artifact_names[a].as_str(), artifact_names[b].as_str()) {
                    proof {
                        assert(artifact_names.deep_view()[a as int] == artifact_names@[
                            a as int
                        ]@);
                        assert(artifact_names.deep_view()[b as int] == artifact_names@[
                            b as int
                        ]@);
                        assert(!names_distinct(artifact_names.deep_view()));
                    }
                    return Err(RequestError::DuplicateArtifactName);
                }
                b += 1;
            }
            a += 1;
        }
        Ok(SnapshotRequest { snapshot_id, target_directory, artifact_names })
    }

    /// Resolves every artifact name of the request to its destination path,
    /// in request order.
    pub fn artifact_specs(&self) -> (r: Vec<ArtifactSpec>)
        ensures
            r@.len() == self.artifact_names@.len(),
            forall|i: int| 0 <= i < r@.len() ==> (#[trigger] r@[i]).name@
                == self.artifact_names.deep_view()[i] && r@[i].destination_path@
                == destination_path_model(
                self.target_directory@,
                self.artifact_names.deep_view()[i],
            ),
    {
        let mut r: Vec<ArtifactSpec> = Vec::new();
        let n = self.artifact_names.len();
        let mut i: usize = 0;
        while i < n
            invariant
                n == self.artifact_names@.len(),
                i <= n,
                r@.len() == i,
                forall|j: int| 0 <= j < i ==> (#[trigger] r@[j]).name@
                    == self.artifact_names.deep_view()[j] && r@[j].destination_path@
                    == destination_path_model(
                    self.target_directory@,
                    self.artifact_names.deep_view()[j],
                ),
            decreases n - i,
        {
            let s = ArtifactSpec::new(
                self.target_directory.as_str(),
                self.artifact_names[i].as_str(),
            );
            r.push(s);
            i += 1;
        }
        r
    }
}

/// The artifacts that belong to every snapshot, in fetch order: the primary
/// archive first, then the schema dump and the data dump.
pub fn default_artifact_names() -> (r: Vec<String>)
    ensures
        r@.len() == 3,
        r.deep_view()[0] == "files.tar.gz"@,
        r.deep_view()[1] == "structure.sql"@,
        r.deep_view()[2] == "data.sql"@,
{
    let mut r: Vec<String> = Vec::new();
    r.push(String::from_str("files.tar.gz"));
    r.push(String::from_str("structure.sql"));
    r.push(String::from_str("data.sql"));
    r
}

/// The name of the primary archive: the compressed file tree that must be
/// extracted into the target directory.
pub fn primary_archive_name() -> (r: &'static str)
    ensures
        r@ == "files.tar.gz"@,
{
    "files.tar.gz"
}

} // verus!
