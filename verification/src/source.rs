//! The source-control state of a checkout, and its renderings.
//!
//! The three probe commands (short commit hash, branch name, dirty check)
//! run outside this library; [`SourceVersion::extract`] takes their
//! outcomes and keeps the all-or-nothing invariant: tracked state is
//! recorded only when every probe succeeded, and any recoverable failure
//! degrades the whole state to no information.

use vstd::prelude::*;

use crate::probe::ProbeOutcome;
use crate::probe::get_status_code;
use crate::probe::read_output;

verus! {

/// What is known of the source-control state of the project directory.
pub enum SourceVersion {
    /// No source-control information is available: the tool is absent, the
    /// directory is not a repository, or a probe failed recoverably.
    Untracked,
    /// A tracked checkout: branch name, short commit hash, and whether the
    /// working tree differs from the current commit.
    Git { branch: String, hash: String, dirty: bool },
}

/// The marker a dirty working tree appends to a rendered hash.
pub open spec fn dirty_marker(dirty: bool) -> Seq<char> {
    if dirty {
        "+"@
    } else {
        Seq::<char>::empty()
    }
}

impl SourceVersion {
    /// The branch name, hash and dirty flag of a tracked state, as one
    /// optional tuple; `None` when nothing is tracked.
    pub open spec fn model(self) -> Option<(Seq<char>, Seq<char>, bool)> {
        match self {
            SourceVersion::Untracked => Option::None,
            SourceVersion::Git { branch, hash, dirty } => Some((branch@, hash@, dirty)),
        }
    }

    /// The source-detail segment of the full rendering:
    /// `"<branch>-<hash>"`, `"+"`-terminated when dirty, and empty when
    /// nothing is tracked.
    pub open spec fn full_spec(self) -> Seq<char> {
        match self {
            SourceVersion::Untracked => Seq::<char>::empty(),
            SourceVersion::Git { branch, hash, dirty } => branch@ + "-"@ + hash@
                + dirty_marker(dirty),
        }
    }

    /// The suffix the simple rendering appends to the package version:
    /// `"-<hash>"`, `"+"`-terminated when dirty, and empty when nothing is
    /// tracked.
    pub open spec fn simple_spec(self) -> Seq<char> {
        match self {
            SourceVersion::Untracked => Seq::<char>::empty(),
            SourceVersion::Git { hash, dirty, .. } => "-"@ + hash@ + dirty_marker(dirty),
        }
    }

    /// The short commit hash, or the sentinel `"N/A"` when nothing is
    /// tracked.
    pub open spec fn hash_spec(self) -> Seq<char> {
        match self {
            SourceVersion::Untracked => "N/A"@,
            SourceVersion::Git { hash, .. } => hash@,
        }
    }

    /// The source-control state that the three probe outcomes determine:
    /// tracked if and only if the hash and branch queries succeeded and the
    /// dirty check could be launched; `dirty` records that the dirty check
    /// exited unsuccessfully.
    pub open spec fn extract_spec(rev: ProbeOutcome, branch: ProbeOutcome, diff: ProbeOutcome) -> Option<
        (Seq<char>, Seq<char>, bool),
    > {
        match (rev.text(), branch.text(), diff.status()) {
            (Some(h), Some(b), Some(clean)) => Some((b, h, !clean)),
            _ => Option::None,
        }
    }

    /// Combine the outcomes of the three source-control probes: the short
    /// commit hash query, the branch query, and the dirty check, which is
    /// read for its exit status alone. All three must have succeeded for a
    /// tracked state; otherwise the state degrades to no information.
    pub fn extract(rev: ProbeOutcome, branch: ProbeOutcome, diff: ProbeOutcome) -> (r: Self)
        requires
            !rev.is_unexpected(),
            !branch.is_unexpected(),
            !diff.is_unexpected(),
        ensures
            r.model() == Self::extract_spec(rev, branch, diff),
    {
        let rev_out = read_output(rev);
        let branch_out = read_output(branch);
        let diff_status = get_status_code(diff);
        match (rev_out, branch_out, diff_status) {
            (Some(hash), Some(branch_name), Some(clean)) => SourceVersion::Git {
                branch: branch_name,
                hash,
                dirty: !clean,
            },
            _ => SourceVersion::Untracked,
        }
    }

    /// The source-detail segment of the full rendering, as a string.
    pub fn full(&self) -> (r: String)
        ensures
            r@ == self.full_spec(),
    {
        match self {
            SourceVersion::Untracked => String::new(),
            SourceVersion::Git { branch, hash, dirty } => {
                let mut s = branch.clone();
                s.append("-");
                s.append(hash.as_str());
                if *dirty {
                    s.append("+");
                }
                proof {
                    assert(s@ =~= self.full_spec());
                }
                s
            },
        }
    }

    /// The suffix the simple rendering appends, as a string.
    pub fn simple(&self) -> (r: String)
        ensures
            r@ == self.simple_spec(),
    {
        match self {
            SourceVersion::Untracked => String::new(),
            SourceVersion::Git { hash, dirty, .. } => {
                let mut s = String::from_str("-");
                s.append(hash.as_str());
                if *dirty {
                    s.append("+");
                }
                proof {
                    assert(s@ =~= self.simple_spec());
                }
                s
            },
        }
    }

    /// The short commit hash, or `"N/A"` when nothing is tracked.
    pub fn hash(&self) -> (r: String)
        ensures
            r@ == self.hash_spec(),
    {
        match self {
            SourceVersion::Untracked => String::from_str("N/A"),
            SourceVersion::Git { hash, .. } => hash.clone(),
        }
    }
}

/// The renderings of a source-control state depend only on the facts it
/// records: two states with the same branch, hash and dirty flag (or both
/// with none) render identically.
pub proof fn lemma_source_rendering_deterministic(a: SourceVersion, b: SourceVersion)
    requires
        a.model() == b.model(),
    ensures
        a.simple_spec() == b.simple_spec(),
        a.full_spec() == b.full_spec(),
        a.hash_spec() == b.hash_spec(),
{
    match (a, b) {
        (
            SourceVersion::Git { branch: b1, hash: h1, dirty: d1 },
            SourceVersion::Git { branch: b2, hash: h2, dirty: d2 },
        ) => {
            assert(b1@ == b2@ && h1@ == h2@ && d1 == d2);
        },
        _ => {},
    }
}

/// A recoverable failure of any one of the three probes degrades the whole
/// source-control state to no information; no partially filled state is
/// ever recorded.
pub proof fn lemma_probe_failure_degrades(
    rev: ProbeOutcome,
    branch: ProbeOutcome,
    diff: ProbeOutcome,
)
    requires
        rev.text() is None || branch.text() is None || diff.status() is None,
    ensures
        SourceVersion::extract_spec(rev, branch, diff) is None,
{
}

} // verus!
