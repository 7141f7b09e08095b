//! Decisions of the advisory update tool: which repository to open, what
//! to make of the CVSS vectors that an outside feed returns for an
//! advisory, and what to make of its reference links. Fetching and printing
//! are left to the caller.

use vstd::prelude::*;
use crate::text::str_eq;
use crate::v3::base::Base;

verus! {

/// What sort of output should be generated on stdout.
#[derive(Clone, Copy, Debug, PartialEq, Eq, Structural, Hash)]
pub enum OutputMode {
    /// Normal human readable logging
    HumanReadable,
    /// Output designed for use in a CI workflow
    GithubAction,
}

/// Arguments of the `update-advisories` command.
#[derive(Clone, Debug)]
pub struct UpdateAdvisoriesCmd {
    /// Whether to produce output for a CI workflow.
    pub github_action_output: bool,
    /// Path to the advisory database: none, or one.
    pub path: Vec<String>,
}

impl UpdateAdvisoriesCmd {
    /// The repository to open: the current directory when no path was
    /// given, the path when one was, and `None` (a usage error) for more.
    pub fn repo_path(&self) -> (r: Option<String>)
        ensures
            self.path@.len() == 0 ==> r is Some && r->0@ == "."@,
            self.path@.len() == 1 ==> r is Some && r->0@ == self.path@[0]@,
            self.path@.len() > 1 ==> r is None,
    {
        if self.path.len() == 0 {
            Some(".".to_owned())
        } else if self.path.len() == 1 {
            Some(self.path[0].clone())
        } else {
            None
        }
    }

    /// The output mode that the flags select.
    pub fn output_mode(&self) -> (r: OutputMode)
        ensures
            r == (if self.github_action_output { OutputMode::GithubAction } else { OutputMode::HumanReadable }),
    {
        if self.github_action_output {
            OutputMode::GithubAction
        } else {
            OutputMode::HumanReadable
        }
    }
}

/// Whether `v` holds `x`.
fn holds(v: &Vec<Base>, x: &Base) -> (r: bool)
    ensures
        r == v@.contains(*x),
{
    let mut i: usize = 0;
    while i < v.len()
        invariant
            i <= v@.len(),
            forall|j: int| 0 <= j < i ==> v@[j] != *x,
        decreases v@.len() - i,
    {
        if v[i] == *x {
            return true;
        }
        i += 1;
    }
    false
}

/// The distinct values among `candidates`, in the order they first occur.
pub fn distinct(candidates: &Vec<Base>) -> (r: Vec<Base>)
    ensures
        r@.no_duplicates(),
        r@.to_set() == candidates@.to_set(),
{
    let mut out: Vec<Base> = Vec::new();
    let mut i: usize = 0;
    while i < candidates.len()
        invariant
            i <= candidates@.len(),
            out@.no_duplicates(),
            out@.to_set() == candidates@.subrange(0, i as int).to_set(),
        decreases candidates@.len() - i,
    {
        let x = candidates[i];
        let ghost before = out@;
        assert(candidates@.subrange(0, i + 1) =~= candidates@.subrange(0, i as int).push(x));
        if !holds(&out, &x) {
            out.push(x);
            assert(out@ =~= before.push(x));
            proof {
                before.lemma_push_to_set_commute(x);
            }
        } else {
            assert(before.to_set().contains(x));
            assert(before.to_set() =~= before.to_set().insert(x));
        }
        proof {
            candidates@.subrange(0, i as int).lemma_push_to_set_commute(x);
        }
        i += 1;
    }
    assert(candidates@.subrange(0, i as int) =~= candidates@);
    out
}

/// What to do with an advisory's CVSS vector, given what a feed returned.
#[derive(Clone, Copy, Debug, PartialEq, Eq, Structural)]
pub enum CvssAction {
    /// The feed returned nothing.
    NoCandidate,
    /// The feed agrees with the advisory.
    Unchanged,
    /// The feed's one vector differs from the advisory's.
    Update(Base),
    /// The advisory has none; the feed has one.
    Add(Base),
    /// The feed returned this many distinct vectors.
    Inconsistent(usize),
}

/// The decision over the set of distinct vectors that the feed returned.
pub open spec fn spec_cvss_action(current: Option<Base>, found: Set<Base>) -> CvssAction {
    if found.len() == 0 {
        CvssAction::NoCandidate
    } else if found.len() == 1 {
        let x = found.choose();
        match current {
            Some(c) => if c == x { CvssAction::Unchanged } else { CvssAction::Update(x) },
            None => CvssAction::Add(x),
        }
    } else {
        CvssAction::Inconsistent(found.len() as usize)
    }
}

/// Decide what to do with an advisory's CVSS vector `current`, given the
/// vectors `candidates` that the feed returned (duplicates count once).
pub fn cvss_action(current: Option<Base>, candidates: &Vec<Base>) -> (r: CvssAction)
    ensures
        r == spec_cvss_action(current, candidates@.to_set()),
{
    let d = distinct(candidates);
    proof {
        d@.unique_seq_to_set();
    }
    if d.len() == 0 {
        CvssAction::NoCandidate
    } else if d.len() == 1 {
        let x = d[0];
        assert(d@.to_set() =~= set![x]) by {
            assert(d@ =~= seq![x]);
        }
        assert(set![x].contains(set![x].choose()));
        match current {
            Some(c) => if c == x { CvssAction::Unchanged } else { CvssAction::Update(x) },
            None => CvssAction::Add(x),
        }
    } else {
        CvssAction::Inconsistent(d.len())
    }
}

/// The first position at or after `i` where `p` occurs in `s`, or -1.
pub open spec fn find_from(s: Seq<char>, p: Seq<char>, i: nat) -> int
    decreases s.len() + 1 - i,
{
    if i + p.len() > s.len() {
        -1
    } else if s.subrange(i as int, (i + p.len()) as int) == p {
        i as int
    } else {
        find_from(s, p, i + 1)
    }
}

/// Whether `p` occurs in `s`.
pub open spec fn occurs(s: Seq<char>, p: Seq<char>) -> bool {
    find_from(s, p, 0) >= 0
}

/// The first position where `p` occurs in `s`, if any.
pub fn find(s: &str, p: &str) -> (r: Option<usize>)
    ensures
        match r {
            Some(i) => find_from(s@, p@, 0) == i,
            None => find_from(s@, p@, 0) == -1,
        },
{
    let n = s.unicode_len();
    let m = p.unicode_len();
    let mut i: usize = 0;
    while i <= n && m <= n - i
        invariant
            n == s@.len(),
            m == p@.len(),
            i <= n + 1,
            find_from(s@, p@, 0) == find_from(s@, p@, i as nat),
        decreases n + 1 - i,
    {
        if str_eq(s.substring_char(i, i + m), p) {
            return Some(i);
        }
        assert(m >= 1) by {
            if m == 0 {
                assert(s@.subrange(i as int, i as int) =~= p@);
            }
        }
        i += 1;
    }
    None
}

/// What a reference link of an advisory is.
#[derive(Clone, Debug, PartialEq, Eq)]
pub enum ReferenceKind {
    /// A link to the advisory database or to the crate registry: nothing
    /// to check.
    Known,
    /// A link that names a GitHub advisory: its identifier (`GHSA-` and 14
    /// more characters).
    Ghsa(String),
    /// Any other link, which the advisory should list.
    Other,
}

/// The model of a [`ReferenceKind`].
pub enum ReferenceKindModel {
    Known,
    Ghsa(Seq<char>),
    Other,
}

impl View for ReferenceKind {
    type V = ReferenceKindModel;

    open spec fn view(&self) -> ReferenceKindModel {
        match self {
            ReferenceKind::Known => ReferenceKindModel::Known,
            ReferenceKind::Ghsa(s) => ReferenceKindModel::Ghsa(s@),
            ReferenceKind::Other => ReferenceKindModel::Other,
        }
    }
}

/// The kind of a reference link: known when it mentions the advisory
/// database or the crate registry; else the first `GHSA-` identifier when
/// 19 characters from its start fit in the link; else other.
pub open spec fn spec_classify_reference(s: Seq<char>) -> ReferenceKindModel {
    if occurs(s, "rustsec"@) || occurs(s, "https://crates.io"@) || occurs(s, "RustSec"@) || occurs(s, "RUSTSEC-"@) {
        ReferenceKindModel::Known
    } else if occurs(s, "GHSA-"@) && find_from(s, "GHSA-"@, 0) + 19 <= s.len() {
        let b = find_from(s, "GHSA-"@, 0);
        ReferenceKindModel::Ghsa(s.subrange(b, b + 19))
    } else {
        ReferenceKindModel::Other
    }
}

/// Classify a reference link of an advisory.
pub fn classify_reference(s: &str) -> (r: ReferenceKind)
    ensures
        r@ == spec_classify_reference(s@),
{
    if find(s, "rustsec").is_some() || find(s, "https://crates.io").is_some() || find(s, "RustSec").is_some()
        || find(s, "RUSTSEC-").is_some() {
        return ReferenceKind::Known;
    }
    match find(s, "GHSA-") {
        Some(b) => {
            let n = s.unicode_len();
            if b <= n && 19 <= n - b {
                ReferenceKind::Ghsa(s.substring_char(b, b + 19).to_owned())
            } else {
                ReferenceKind::Other
            }
        },
        None => ReferenceKind::Other,
    }
}

} // verus!
