//! The vector-string codec shared by the groups: a vector is split
//! into components, checked for its prefix and version, and folded into a
//! table of metric values; the table is written back in canonical order.

use vstd::prelude::*;
use crate::error::{Error, ErrorModel};
use crate::metric::{Metric, MetricType};
use crate::text::{
    all_upper, ascii_upper, free_of, lemma_pair_of, lemma_split_nonempty, lemma_split_sep,
    lemma_split_single, lemma_upper_identity, pair_of, split, split_pair, str_eq, upper,
};
use crate::v3::base::{
    AttackComplexity, AttackVector, Availability, Confidentiality, Integrity, PrivilegesRequired, Scope,
    UserInteraction,
};
use crate::v3::environmental::{AvailabilityRequirement, ConfidentialityRequirement, IntegrityRequirement};
use crate::v3::temporal::{ExploitCodeMaturity, RemediationLevel, ReportConfidence};

verus! {

/// The group that a vector string is read as: it decides which kinds may
/// appear.
#[derive(Clone, Copy, Debug, PartialEq, Eq, Structural, Hash)]
pub enum Group {
    /// The eight Base metrics.
    Base,
    /// Base, then Exploit Code Maturity, Remediation Level, Report Confidence.
    Temporal,
    /// Base, then the requirements and the modified Base metrics.
    Environmental,
    /// The CVSS v4.0 Base metrics defined so far: Attack Vector and Attack
    /// Complexity.
    V4Base,
}

/// Whether kind `k` may appear in a vector of group `g`.
pub open spec fn allowed(g: Group, k: MetricType) -> bool {
    match k {
        MetricType::AV | MetricType::AC => true,
        MetricType::PR | MetricType::UI | MetricType::S | MetricType::C | MetricType::I
        | MetricType::A => g != Group::V4Base,
        MetricType::E | MetricType::RL | MetricType::RC => g == Group::Temporal,
        _ => g == Group::Environmental,
    }
}

/// A table with at most one value for each v3.x metric kind.
#[derive(Clone, Copy, Debug, PartialEq, Eq, Structural, Hash)]
pub struct Metrics {
    /// AV
    pub av: Option<AttackVector>,
    /// AC
    pub ac: Option<AttackComplexity>,
    /// PR
    pub pr: Option<PrivilegesRequired>,
    /// UI
    pub ui: Option<UserInteraction>,
    /// S
    pub s: Option<Scope>,
    /// C
    pub c: Option<Confidentiality>,
    /// I
    pub i: Option<Integrity>,
    /// A
    pub a: Option<Availability>,
    /// E
    pub e: Option<ExploitCodeMaturity>,
    /// RL
    pub rl: Option<RemediationLevel>,
    /// RC
    pub rc: Option<ReportConfidence>,
    /// CR
    pub cr: Option<ConfidentialityRequirement>,
    /// IR
    pub ir: Option<IntegrityRequirement>,
    /// AR
    pub ar: Option<AvailabilityRequirement>,
    /// MAV
    pub mav: Option<AttackVector>,
    /// MAC
    pub mac: Option<AttackComplexity>,
    /// MPR
    pub mpr: Option<PrivilegesRequired>,
    /// MUI
    pub mui: Option<UserInteraction>,
    /// MS
    pub ms: Option<Scope>,
    /// MC
    pub mc: Option<Confidentiality>,
    /// MI
    pub mi: Option<Integrity>,
    /// MA
    pub ma: Option<Availability>,
}

/// The number of v3.x metric kinds.
pub const KIND_COUNT: usize = 22;

/// The v3.x kinds in canonical order: Base, Temporal, Environmental.
pub open spec fn canonical_kind(n: int) -> MetricType {
    if n == 0 {
        MetricType::AV
    } else if n == 1 {
        MetricType::AC
    } else if n == 2 {
        MetricType::PR
    } else if n == 3 {
        MetricType::UI
    } else if n == 4 {
        MetricType::S
    } else if n == 5 {
        MetricType::C
    } else if n == 6 {
        MetricType::I
    } else if n == 7 {
        MetricType::A
    } else if n == 8 {
        MetricType::E
    } else if n == 9 {
        MetricType::RL
    } else if n == 10 {
        MetricType::RC
    } else if n == 11 {
        MetricType::CR
    } else if n == 12 {
        MetricType::IR
    } else if n == 13 {
        MetricType::AR
    } else if n == 14 {
        MetricType::MAV
    } else if n == 15 {
        MetricType::MAC
    } else if n == 16 {
        MetricType::MPR
    } else if n == 17 {
        MetricType::MUI
    } else if n == 18 {
        MetricType::MS
    } else if n == 19 {
        MetricType::MC
    } else if n == 20 {
        MetricType::MI
    } else {
        MetricType::MA
    }
}

/// The kind at position `n` of the canonical order.
pub fn kind_at(n: usize) -> (r: MetricType)
    requires
        n < KIND_COUNT,
    ensures
        r == canonical_kind(n as int),
{
    match n {
        0 => MetricType::AV,
        1 => MetricType::AC,
        2 => MetricType::PR,
        3 => MetricType::UI,
        4 => MetricType::S,
        5 => MetricType::C,
        6 => MetricType::I,
        7 => MetricType::A,
        8 => MetricType::E,
        9 => MetricType::RL,
        10 => MetricType::RC,
        11 => MetricType::CR,
        12 => MetricType::IR,
        13 => MetricType::AR,
        14 => MetricType::MAV,
        15 => MetricType::MAC,
        16 => MetricType::MPR,
        17 => MetricType::MUI,
        18 => MetricType::MS,
        19 => MetricType::MC,
        20 => MetricType::MI,
        _ => MetricType::MA,
    }
}

impl Metrics {
    /// The table with no value.
    pub open spec fn spec_empty() -> Metrics {
        Metrics {
            av: None,
            ac: None,
            pr: None,
            ui: None,
            s: None,
            c: None,
            i: None,
            a: None,
            e: None,
            rl: None,
            rc: None,
            cr: None,
            ir: None,
            ar: None,
            mav: None,
            mac: None,
            mpr: None,
            mui: None,
            ms: None,
            mc: None,
            mi: None,
            ma: None,
        }
    }

    /// The table with no value.
    pub fn empty() -> (r: Metrics)
        ensures
            r == Self::spec_empty(),
    {
        Metrics {
            av: None,
            ac: None,
            pr: None,
            ui: None,
            s: None,
            c: None,
            i: None,
            a: None,
            e: None,
            rl: None,
            rc: None,
            cr: None,
            ir: None,
            ar: None,
            mav: None,
            mac: None,
            mpr: None,
            mui: None,
            ms: None,
            mc: None,
            mi: None,
            ma: None,
        }
    }

    /// Whether the table holds a value of kind `k`.
    pub open spec fn spec_has(self, k: MetricType) -> bool {
        match k {
            MetricType::AV => self.av is Some,
            MetricType::AC => self.ac is Some,
            MetricType::PR => self.pr is Some,
            MetricType::UI => self.ui is Some,
            MetricType::S => self.s is Some,
            MetricType::C => self.c is Some,
            MetricType::I => self.i is Some,
            MetricType::A => self.a is Some,
            MetricType::E => self.e is Some,
            MetricType::RL => self.rl is Some,
            MetricType::RC => self.rc is Some,
            MetricType::CR => self.cr is Some,
            MetricType::IR => self.ir is Some,
            MetricType::AR => self.ar is Some,
            MetricType::MAV => self.mav is Some,
            MetricType::MAC => self.mac is Some,
            MetricType::MPR => self.mpr is Some,
            MetricType::MUI => self.mui is Some,
            MetricType::MS => self.ms is Some,
            MetricType::MC => self.mc is Some,
            MetricType::MI => self.mi is Some,
            MetricType::MA => self.ma is Some,
        }
    }

    /// The code of the value of kind `k` (empty when there is none).
    pub open spec fn spec_code_of(self, k: MetricType) -> Seq<char> {
        match k {
            MetricType::AV => match self.av { Some(v) => v.spec_code(), None => Seq::empty() },
            MetricType::AC => match self.ac { Some(v) => v.spec_code(), None => Seq::empty() },
            MetricType::PR => match self.pr { Some(v) => v.spec_code(), None => Seq::empty() },
            MetricType::UI => match self.ui { Some(v) => v.spec_code(), None => Seq::empty() },
            MetricType::S => match self.s { Some(v) => v.spec_code(), None => Seq::empty() },
            MetricType::C => match self.c { Some(v) => v.spec_code(), None => Seq::empty() },
            MetricType::I => match self.i { Some(v) => v.spec_code(), None => Seq::empty() },
            MetricType::A => match self.a { Some(v) => v.spec_code(), None => Seq::empty() },
            MetricType::E => match self.e { Some(v) => v.spec_code(), None => Seq::empty() },
            MetricType::RL => match self.rl { Some(v) => v.spec_code(), None => Seq::empty() },
            MetricType::RC => match self.rc { Some(v) => v.spec_code(), None => Seq::empty() },
            MetricType::CR => match self.cr { Some(v) => v.spec_code(), None => Seq::empty() },
            MetricType::IR => match self.ir { Some(v) => v.spec_code(), None => Seq::empty() },
            MetricType::AR => match self.ar { Some(v) => v.spec_code(), None => Seq::empty() },
            MetricType::MAV => match self.mav { Some(v) => v.spec_code(), None => Seq::empty() },
            MetricType::MAC => match self.mac { Some(v) => v.spec_code(), None => Seq::empty() },
            MetricType::MPR => match self.mpr { Some(v) => v.spec_code(), None => Seq::empty() },
            MetricType::MUI => match self.mui { Some(v) => v.spec_code(), None => Seq::empty() },
            MetricType::MS => match self.ms { Some(v) => v.spec_code(), None => Seq::empty() },
            MetricType::MC => match self.mc { Some(v) => v.spec_code(), None => Seq::empty() },
            MetricType::MI => match self.mi { Some(v) => v.spec_code(), None => Seq::empty() },
            MetricType::MA => match self.ma { Some(v) => v.spec_code(), None => Seq::empty() },
        }
    }

    /// The table with the value of kind `k` parsed from the code `v`, or
    /// `None` when `v` is no code of that kind.
    pub open spec fn spec_with(self, k: MetricType, v: Seq<char>) -> Option<Metrics> {
        match k {
            MetricType::AV => match AttackVector::spec_parse(v) { Some(x) => Some(Metrics { av: Some(x), ..self }), None => None },
            MetricType::AC => match AttackComplexity::spec_parse(v) { Some(x) => Some(Metrics { ac: Some(x), ..self }), None => None },
            MetricType::PR => match PrivilegesRequired::spec_parse(v) { Some(x) => Some(Metrics { pr: Some(x), ..self }), None => None },
            MetricType::UI => match UserInteraction::spec_parse(v) { Some(x) => Some(Metrics { ui: Some(x), ..self }), None => None },
            MetricType::S => match Scope::spec_parse(v) { Some(x) => Some(Metrics { s: Some(x), ..self }), None => None },
            MetricType::C => match Confidentiality::spec_parse(v) { Some(x) => Some(Metrics { c: Some(x), ..self }), None => None },
            MetricType::I => match Integrity::spec_parse(v) { Some(x) => Some(Metrics { i: Some(x), ..self }), None => None },
            MetricType::A => match Availability::spec_parse(v) { Some(x) => Some(Metrics { a: Some(x), ..self }), None => None },
            MetricType::E => match ExploitCodeMaturity::spec_parse(v) { Some(x) => Some(Metrics { e: Some(x), ..self }), None => None },
            MetricType::RL => match RemediationLevel::spec_parse(v) { Some(x) => Some(Metrics { rl: Some(x), ..self }), None => None },
            MetricType::RC => match ReportConfidence::spec_parse(v) { Some(x) => Some(Metrics { rc: Some(x), ..self }), None => None },
            MetricType::CR => match ConfidentialityRequirement::spec_parse(v) { Some(x) => Some(Metrics { cr: Some(x), ..self }), None => None },
            MetricType::IR => match IntegrityRequirement::spec_parse(v) { Some(x) => Some(Metrics { ir: Some(x), ..self }), None => None },
            MetricType::AR => match AvailabilityRequirement::spec_parse(v) { Some(x) => Some(Metrics { ar: Some(x), ..self }), None => None },
            MetricType::MAV => match AttackVector::spec_parse(v) { Some(x) => Some(Metrics { mav: Some(x), ..self }), None => None },
            MetricType::MAC => match AttackComplexity::spec_parse(v) { Some(x) => Some(Metrics { mac: Some(x), ..self }), None => None },
            MetricType::MPR => match PrivilegesRequired::spec_parse(v) { Some(x) => Some(Metrics { mpr: Some(x), ..self }), None => None },
            MetricType::MUI => match UserInteraction::spec_parse(v) { Some(x) => Some(Metrics { mui: Some(x), ..self }), None => None },
            MetricType::MS => match Scope::spec_parse(v) { Some(x) => Some(Metrics { ms: Some(x), ..self }), None => None },
            MetricType::MC => match Confidentiality::spec_parse(v) { Some(x) => Some(Metrics { mc: Some(x), ..self }), None => None },
            MetricType::MI => match Integrity::spec_parse(v) { Some(x) => Some(Metrics { mi: Some(x), ..self }), None => None },
            MetricType::MA => match Availability::spec_parse(v) { Some(x) => Some(Metrics { ma: Some(x), ..self }), None => None },
        }
    }

    /// Whether the table holds a value of kind `k`.
    pub fn has(&self, k: MetricType) -> (r: bool)
        ensures
            r == self.spec_has(k),
    {
        match k {
            MetricType::AV => self.av.is_some(),
            MetricType::AC => self.ac.is_some(),
            MetricType::PR => self.pr.is_some(),
            MetricType::UI => self.ui.is_some(),
            MetricType::S => self.s.is_some(),
            MetricType::C => self.c.is_some(),
            MetricType::I => self.i.is_some(),
            MetricType::A => self.a.is_some(),
            MetricType::E => self.e.is_some(),
            MetricType::RL => self.rl.is_some(),
            MetricType::RC => self.rc.is_some(),
            MetricType::CR => self.cr.is_some(),
            MetricType::IR => self.ir.is_some(),
            MetricType::AR => self.ar.is_some(),
            MetricType::MAV => self.mav.is_some(),
            MetricType::MAC => self.mac.is_some(),
            MetricType::MPR => self.mpr.is_some(),
            MetricType::MUI => self.mui.is_some(),
            MetricType::MS => self.ms.is_some(),
            MetricType::MC => self.mc.is_some(),
            MetricType::MI => self.mi.is_some(),
            MetricType::MA => self.ma.is_some(),
        }
    }

    /// Set the value of kind `k` from its code `v`.
    pub fn with(&self, k: MetricType, v: &str) -> (r: Option<Metrics>)
        ensures
            r == self.spec_with(k, v@),
    {
        match k {
            MetricType::AV => match AttackVector::parse(v) { Some(x) => Some(Metrics { av: Some(x), ..*self }), None => None },
            MetricType::AC => match AttackComplexity::parse(v) { Some(x) => Some(Metrics { ac: Some(x), ..*self }), None => None },
            MetricType::PR => match PrivilegesRequired::parse(v) { Some(x) => Some(Metrics { pr: Some(x), ..*self }), None => None },
            MetricType::UI => match UserInteraction::parse(v) { Some(x) => Some(Metrics { ui: Some(x), ..*self }), None => None },
            MetricType::S => match Scope::parse(v) { Some(x) => Some(Metrics { s: Some(x), ..*self }), None => None },
            MetricType::C => match Confidentiality::parse(v) { Some(x) => Some(Metrics { c: Some(x), ..*self }), None => None },
            MetricType::I => match Integrity::parse(v) { Some(x) => Some(Metrics { i: Some(x), ..*self }), None => None },
            MetricType::A => match Availability::parse(v) { Some(x) => Some(Metrics { a: Some(x), ..*self }), None => None },
            MetricType::E => match ExploitCodeMaturity::parse(v) { Some(x) => Some(Metrics { e: Some(x), ..*self }), None => None },
            MetricType::RL => match RemediationLevel::parse(v) { Some(x) => Some(Metrics { rl: Some(x), ..*self }), None => None },
            MetricType::RC => match ReportConfidence::parse(v) { Some(x) => Some(Metrics { rc: Some(x), ..*self }), None => None },
            MetricType::CR => match ConfidentialityRequirement::parse(v) { Some(x) => Some(Metrics { cr: Some(x), ..*self }), None => None },
            MetricType::IR => match IntegrityRequirement::parse(v) { Some(x) => Some(Metrics { ir: Some(x), ..*self }), None => None },
            MetricType::AR => match AvailabilityRequirement::parse(v) { Some(x) => Some(Metrics { ar: Some(x), ..*self }), None => None },
            MetricType::MAV => match AttackVector::parse(v) { Some(x) => Some(Metrics { mav: Some(x), ..*self }), None => None },
            MetricType::MAC => match AttackComplexity::parse(v) { Some(x) => Some(Metrics { mac: Some(x), ..*self }), None => None },
            MetricType::MPR => match PrivilegesRequired::parse(v) { Some(x) => Some(Metrics { mpr: Some(x), ..*self }), None => None },
            MetricType::MUI => match UserInteraction::parse(v) { Some(x) => Some(Metrics { mui: Some(x), ..*self }), None => None },
            MetricType::MS => match Scope::parse(v) { Some(x) => Some(Metrics { ms: Some(x), ..*self }), None => None },
            MetricType::MC => match Confidentiality::parse(v) { Some(x) => Some(Metrics { mc: Some(x), ..*self }), None => None },
            MetricType::MI => match Integrity::parse(v) { Some(x) => Some(Metrics { mi: Some(x), ..*self }), None => None },
            MetricType::MA => match Availability::parse(v) { Some(x) => Some(Metrics { ma: Some(x), ..*self }), None => None },
        }
    }

    /// The component `/ID:CODE` of kind `k`, empty when the table holds no
    /// value of that kind.
    pub open spec fn spec_component(self, k: MetricType) -> Seq<char> {
        if self.spec_has(k) {
            "/"@ + k.spec_name() + ":"@ + self.spec_code_of(k)
        } else {
            Seq::empty()
        }
    }

    /// The components of the first `n` kinds in canonical order.
    pub open spec fn spec_components_upto(self, n: nat) -> Seq<char>
        decreases n,
    {
        if n == 0 {
            Seq::empty()
        } else {
            self.spec_components_upto((n - 1) as nat) + self.spec_component(canonical_kind((n - 1) as int))
        }
    }

    /// All components, in canonical order.
    pub open spec fn spec_components(self) -> Seq<char> {
        self.spec_components_upto(KIND_COUNT as nat)
    }

    /// Whether every kind that the table holds may appear in group `g`.
    pub open spec fn within(self, g: Group) -> bool {
        forall|k: MetricType| #[trigger] self.spec_has(k) ==> allowed(g, k)
    }

    /// The code of the value of kind `k`, if the table holds one.
    pub fn code_str(&self, k: MetricType) -> (r: Option<&'static str>)
        ensures
            r is Some == self.spec_has(k),
            r is Some ==> r->0@ == self.spec_code_of(k),
    {
        match k {
            MetricType::AV => match self.av { Some(x) => Some(x.as_str()), None => None },
            MetricType::AC => match self.ac { Some(x) => Some(x.as_str()), None => None },
            MetricType::PR => match self.pr { Some(x) => Some(x.as_str()), None => None },
            MetricType::UI => match self.ui { Some(x) => Some(x.as_str()), None => None },
            MetricType::S => match self.s { Some(x) => Some(x.as_str()), None => None },
            MetricType::C => match self.c { Some(x) => Some(x.as_str()), None => None },
            MetricType::I => match self.i { Some(x) => Some(x.as_str()), None => None },
            MetricType::A => match self.a { Some(x) => Some(x.as_str()), None => None },
            MetricType::E => match self.e { Some(x) => Some(x.as_str()), None => None },
            MetricType::RL => match self.rl { Some(x) => Some(x.as_str()), None => None },
            MetricType::RC => match self.rc { Some(x) => Some(x.as_str()), None => None },
            MetricType::CR => match self.cr { Some(x) => Some(x.as_str()), None => None },
            MetricType::IR => match self.ir { Some(x) => Some(x.as_str()), None => None },
            MetricType::AR => match self.ar { Some(x) => Some(x.as_str()), None => None },
            MetricType::MAV => match self.mav { Some(x) => Some(x.as_str()), None => None },
            MetricType::MAC => match self.mac { Some(x) => Some(x.as_str()), None => None },
            MetricType::MPR => match self.mpr { Some(x) => Some(x.as_str()), None => None },
            MetricType::MUI => match self.mui { Some(x) => Some(x.as_str()), None => None },
            MetricType::MS => match self.ms { Some(x) => Some(x.as_str()), None => None },
            MetricType::MC => match self.mc { Some(x) => Some(x.as_str()), None => None },
            MetricType::MI => match self.mi { Some(x) => Some(x.as_str()), None => None },
            MetricType::MA => match self.ma { Some(x) => Some(x.as_str()), None => None },
        }
    }

    /// Append the components of this table to `out`, in canonical order.
    pub fn write_components(&self, out: &mut String)
        ensures
            final(out)@ == old(out)@ + self.spec_components(),
    {
        let ghost start = out@;
        let mut n: usize = 0;
        assert(out@ =~= start + self.spec_components_upto(0));
        while n < KIND_COUNT
            invariant
                n <= KIND_COUNT,
                out@ == start + self.spec_components_upto(n as nat),
            decreases KIND_COUNT - n,
        {
            let k = kind_at(n);
            let ghost before = out@;
            match self.code_str(k) {
                Some(code) => write_component(out, k, code),
                None => {},
            }
            assert(out@ =~= start + self.spec_components_upto((n + 1) as nat));
            n += 1;
        }
    }
}

/// Whether kind `k` may appear in a vector of group `g`.
pub fn is_allowed(g: Group, k: MetricType) -> (r: bool)
    ensures
        r == allowed(g, k),
{
    match k {
        MetricType::AV | MetricType::AC => true,
        MetricType::PR | MetricType::UI | MetricType::S | MetricType::C | MetricType::I
        | MetricType::A => g != Group::V4Base,
        MetricType::E | MetricType::RL | MetricType::RC => g == Group::Temporal,
        _ => g == Group::Environmental,
    }
}

/// The component `ID:VALUE` read into the table `m`. Acronym and code are
/// upper-cased first.
pub open spec fn step(g: Group, m: Metrics, id: Seq<char>, value: Seq<char>) -> Result<Metrics, ErrorModel> {
    let uid = upper(id);
    let uvalue = upper(value);
    match MetricType::spec_lookup(uid) {
        None => Err(ErrorModel::UnknownMetric(uid)),
        Some(k) => if !allowed(g, k) {
            Err(ErrorModel::UnknownMetric(uid))
        } else if m.spec_has(k) {
            Err(ErrorModel::DuplicateMetric(k))
        } else {
            match m.spec_with(k, uvalue) {
                None => Err(ErrorModel::InvalidMetric(k, uvalue)),
                Some(m2) => Ok(m2),
            }
        },
    }
}

/// The components `ID:VALUE`, read in order into an empty table; the first
/// failure is the result.
pub open spec fn fold(g: Group, ps: Seq<(Seq<char>, Seq<char>)>) -> Result<Metrics, ErrorModel>
    decreases ps.len(),
{
    if ps.len() == 0 {
        Ok(Metrics::spec_empty())
    } else {
        match fold(g, ps.drop_last()) {
            Err(e) => Err(e),
            Ok(m) => step(g, m, ps.last().0, ps.last().1),
        }
    }
}

/// Each component split at its `:`; the first one that does not hold
/// exactly one `:` is the failure.
pub open spec fn pairs(cs: Seq<Seq<char>>) -> Result<Seq<(Seq<char>, Seq<char>)>, ErrorModel>
    decreases cs.len(),
{
    if cs.len() == 0 {
        Ok(Seq::empty())
    } else {
        match pairs(cs.drop_last()) {
            Err(e) => Err(e),
            Ok(ps) => match pair_of(cs.last()) {
                None => Err(ErrorModel::InvalidComponent(cs.last())),
                Some(p) => Ok(ps.push(p)),
            },
        }
    }
}

/// The minor version that a version text names for group `g`: `3.0` or
/// `3.1` for the v3.x groups, `4.0` for the v4.0 one.
pub open spec fn minor_of(g: Group, v: Seq<char>) -> Option<u8> {
    if g == Group::V4Base {
        if v == "4.0"@ {
            Some(0)
        } else {
            None
        }
    } else if v == "3.0"@ {
        Some(0)
    } else if v == "3.1"@ {
        Some(1)
    } else {
        None
    }
}

/// The first component of the vector string of group `g` and a minor
/// version.
pub open spec fn version_prefix(g: Group, minor: u8) -> Seq<char> {
    if g == Group::V4Base {
        "CVSS:4.0"@
    } else if minor == 0 {
        "CVSS:3.0"@
    } else {
        "CVSS:3.1"@
    }
}

/// A vector string read as group `g`: `CVSS:major.minor` and then
/// components `ID:VALUE` separated by `/`, into the minor version and a
/// table.
pub open spec fn spec_read(s: Seq<char>, g: Group) -> Result<(u8, Metrics), ErrorModel> {
    match pairs(split(s, '/')) {
        Err(e) => Err(e),
        Ok(ps) => if ps.len() == 0 {
            Err(ErrorModel::InvalidPrefix(s))
        } else if ps[0].0 != "CVSS"@ {
            Err(ErrorModel::InvalidPrefix(ps[0].0))
        } else {
            match minor_of(g, ps[0].1) {
                None => Err(ErrorModel::UnsupportedVersion(ps[0].1)),
                Some(minor) => match fold(g, ps.drop_first()) {
                    Err(e) => Err(e),
                    Ok(m) => Ok((minor, m)),
                },
            }
        },
    }
}

/// The canonical vector string of group `g`, a minor version and a table.
pub open spec fn spec_write(g: Group, minor: u8, m: Metrics) -> Seq<char> {
    version_prefix(g, minor) + m.spec_components()
}

proof fn lemma_fold_err(g: Group, ps: Seq<(Seq<char>, Seq<char>)>, j: int)
    requires
        0 <= j <= ps.len(),
        fold(g, ps.subrange(0, j)) is Err,
    ensures
        fold(g, ps) == fold(g, ps.subrange(0, j)),
    decreases ps.len(),
{
    if j == ps.len() {
        assert(ps.subrange(0, j) =~= ps);
    } else {
        assert(ps.drop_last().subrange(0, j) =~= ps.subrange(0, j));
        lemma_fold_err(g, ps.drop_last(), j);
    }
}

/// The model of a list of split components.
pub open spec fn pairs_model(ps: Seq<(&str, &str)>) -> Seq<(Seq<char>, Seq<char>)> {
    ps.map_values(|p: (&str, &str)| (p.0@, p.1@))
}

/// Read a vector string as group `g` into its minor version and a table of
/// metric values.
pub fn read_vector(s: &str, g: Group) -> (r: Result<(u8, Metrics), Error>)
    ensures
        crate::error::result_model(r) == spec_read(s@, g),
{
    let n = s.unicode_len();
    let mut ps: Vec<(&str, &str)> = Vec::new();
    let mut failure: Option<Error> = None;
    let ghost mut done: Seq<Seq<char>> = Seq::empty();
    let mut start: usize = 0;
    let mut i: usize = 0;
    assert(s@.subrange(0, 0) =~= Seq::<char>::empty());
    assert(pairs_model(ps@) =~= Seq::<(Seq<char>, Seq<char>)>::empty());
    loop
        invariant_except_break
            start <= i <= n,
            split(s@.subrange(0, i as int), '/') == done.push(s@.subrange(start as int, i as int)),
            pairs(done) == match failure {
                Some(e) => Err(e@),
                None => Ok(pairs_model(ps@)),
            },
        invariant
            n == s@.len(),
        ensures
            split(s@, '/') == done,
            pairs(done) == match failure {
                Some(e) => Err(e@),
                None => Ok(pairs_model(ps@)),
            },
        decreases n - i,
    {
        let at_end = i == n;
        let at_sep = if at_end { false } else { s.get_char(i) == '/' };
        if at_end || at_sep {
            let comp = s.substring_char(start, i);
            let ghost old_done = done;
            proof {
                done = done.push(s@.subrange(start as int, i as int));
                assert(done.drop_last() =~= old_done);
            }
            if failure.is_none() {
                match split_pair(comp) {
                    None => {
                        failure = Some(Error::InvalidComponent { component: comp.to_owned() });
                    },
                    Some(p) => {
                        let ghost old_ps = ps@;
                        ps.push(p);
                        assert(pairs_model(ps@) =~= pairs_model(old_ps).push((p.0@, p.1@)));
                    },
                }
            }
            if at_end {
                assert(s@.subrange(0, n as int) =~= s@);
                break;
            }
            proof {
                let pre = s@.subrange(0, i as int);
                let post = s@.subrange(0, i + 1);
                assert(post.drop_last() =~= pre);
                assert(s@.subrange(i + 1, i + 1) =~= Seq::<char>::empty());
            }
            start = i + 1;
        } else {
            proof {
                let pre = s@.subrange(0, i as int);
                let post = s@.subrange(0, i + 1);
                assert(post.drop_last() =~= pre);
                assert(s@.subrange(start as int, i + 1) =~= s@.subrange(start as int, i as int).push(s@[i as int]));
                assert(done.push(s@.subrange(start as int, i as int)).update(done.len() as int, s@.subrange(start as int, i + 1))
                    =~= done.push(s@.subrange(start as int, i + 1)));
            }
        }
        i += 1;
    }
    if let Some(e) = failure {
        return Err(e);
    }
    let ghost model = pairs_model(ps@);
    proof {
        lemma_split_nonempty(s@, '/');
    }
    assert(model.len() == ps@.len());
    let (id0, version) = ps[0];
    if !str_eq(id0, "CVSS") {
        return Err(Error::InvalidPrefix { prefix: id0.to_owned() });
    }
    let minor: u8 = if g == Group::V4Base {
        if str_eq(version, "4.0") {
            0
        } else {
            return Err(Error::UnsupportedVersion { version: version.to_owned() });
        }
    } else if str_eq(version, "3.0") {
        0
    } else if str_eq(version, "3.1") {
        1
    } else {
        return Err(Error::UnsupportedVersion { version: version.to_owned() });
    };
    let ghost rest = model.drop_first();
    let mut m = Metrics::empty();
    let mut j: usize = 1;
    assert(rest.subrange(0, 0) =~= Seq::<(Seq<char>, Seq<char>)>::empty());
    while j < ps.len()
        invariant
            1 <= j <= ps@.len(),
            model == pairs_model(ps@),
            rest == model.drop_first(),
            fold(g, rest.subrange(0, j - 1)) == Ok::<Metrics, ErrorModel>(m),
            pairs(split(s@, '/')) == Ok::<_, ErrorModel>(model),
            model[0].0 == "CVSS"@,
            minor_of(g, model[0].1) == Some(minor),
        decreases ps@.len() - j,
    {
        let (id, value) = ps[j];
        let ghost pre = rest.subrange(0, j - 1);
        let ghost post = rest.subrange(0, j as int);
        assert(post.drop_last() =~= pre);
        assert(post.last() == (id@, value@));
        let uid = ascii_upper(id);
        let uvalue = ascii_upper(value);
        let step_result: Result<Metrics, Error> = match MetricType::lookup(uid.as_str()) {
            None => Err(Error::UnknownMetric { name: uid }),
            Some(k) => if !is_allowed(g, k) {
                Err(Error::UnknownMetric { name: uid })
            } else if m.has(k) {
                Err(Error::DuplicateMetric { metric_type: k })
            } else {
                match m.with(k, uvalue.as_str()) {
                    None => Err(Error::InvalidMetric { metric_type: k, value: uvalue }),
                    Some(m2) => Ok(m2),
                }
            },
        };
        proof {
            assert(crate::error::result_model(step_result) == step(g, m, id@, value@));
            assert(fold(g, post) == crate::error::result_model(step_result));
        }
        match step_result {
            Err(e) => {
                proof {
                    lemma_fold_err(g, rest, j as int);
                }
                return Err(e);
            },
            Ok(m2) => {
                m = m2;
            },
        }
        j += 1;
    }
    assert(rest.subrange(0, j - 1) =~= rest);
    Ok((minor, m))
}

/// Append one component `/ID:CODE` to `out`.
fn write_component(out: &mut String, k: MetricType, code: &str)
    ensures
        final(out)@ == old(out)@ + "/"@ + k.spec_name() + ":"@ + code@,
{
    out.append("/");
    out.append(k.name());
    out.append(":");
    out.append(code);
}

/// Write the canonical vector string of group `g`, a minor version and a
/// table.
pub fn write_vector(g: Group, minor: u8, m: &Metrics) -> (r: String)
    ensures
        r@ == spec_write(g, minor, *m),
{
    let mut out = String::new();
    if g == Group::V4Base {
        out.append("CVSS:4.0");
    } else if minor == 0 {
        out.append("CVSS:3.0");
    } else {
        out.append("CVSS:3.1");
    }
    m.write_components(&mut out);
    out
}

/// The position of kind `k` in the canonical order.
pub open spec fn canonical_index(k: MetricType) -> int {
    match k {
        MetricType::AV => 0,
        MetricType::AC => 1,
        MetricType::PR => 2,
        MetricType::UI => 3,
        MetricType::S => 4,
        MetricType::C => 5,
        MetricType::I => 6,
        MetricType::A => 7,
        MetricType::E => 8,
        MetricType::RL => 9,
        MetricType::RC => 10,
        MetricType::CR => 11,
        MetricType::IR => 12,
        MetricType::AR => 13,
        MetricType::MAV => 14,
        MetricType::MAC => 15,
        MetricType::MPR => 16,
        MetricType::MUI => 17,
        MetricType::MS => 18,
        MetricType::MC => 19,
        MetricType::MI => 20,
        MetricType::MA => 21,
    }
}

impl Metrics {
    /// The table with only the values of the first `n` kinds in canonical
    /// order.
    pub open spec fn restrict(self, n: int) -> Metrics {
        Metrics {
            av: if 0 < n { self.av } else { None },
            ac: if 1 < n { self.ac } else { None },
            pr: if 2 < n { self.pr } else { None },
            ui: if 3 < n { self.ui } else { None },
            s: if 4 < n { self.s } else { None },
            c: if 5 < n { self.c } else { None },
            i: if 6 < n { self.i } else { None },
            a: if 7 < n { self.a } else { None },
            e: if 8 < n { self.e } else { None },
            rl: if 9 < n { self.rl } else { None },
            rc: if 10 < n { self.rc } else { None },
            cr: if 11 < n { self.cr } else { None },
            ir: if 12 < n { self.ir } else { None },
            ar: if 13 < n { self.ar } else { None },
            mav: if 14 < n { self.mav } else { None },
            mac: if 15 < n { self.mac } else { None },
            mpr: if 16 < n { self.mpr } else { None },
            mui: if 17 < n { self.mui } else { None },
            ms: if 18 < n { self.ms } else { None },
            mc: if 19 < n { self.mc } else { None },
            mi: if 20 < n { self.mi } else { None },
            ma: if 21 < n { self.ma } else { None },
        }
    }
}

/// The text `ID:CODE` of the component of kind `k`.
pub open spec fn component_text(m: Metrics, k: MetricType) -> Seq<char> {
    k.spec_name().push(':') + m.spec_code_of(k)
}

/// The component texts of the first `n` kinds that the table holds.
pub open spec fn component_texts(m: Metrics, n: nat) -> Seq<Seq<char>>
    decreases n,
{
    if n == 0 {
        Seq::empty()
    } else {
        let prev = component_texts(m, (n - 1) as nat);
        let k = canonical_kind(n - 1);
        if m.spec_has(k) { prev.push(component_text(m, k)) } else { prev }
    }
}

/// The pairs `(ID, CODE)` of the first `n` kinds that the table holds.
pub open spec fn component_pairs(m: Metrics, n: nat) -> Seq<(Seq<char>, Seq<char>)>
    decreases n,
{
    if n == 0 {
        Seq::empty()
    } else {
        let prev = component_pairs(m, (n - 1) as nat);
        let k = canonical_kind(n - 1);
        if m.spec_has(k) { prev.push((k.spec_name(), m.spec_code_of(k))) } else { prev }
    }
}

proof fn lemma_canonical_index(n: int)
    requires
        0 <= n < KIND_COUNT,
    ensures
        canonical_index(canonical_kind(n)) == n,
{
}

proof fn lemma_present_av(m: Metrics)
    requires
        m.av is Some,
    ensures
        all_upper(m.spec_code_of(MetricType::AV)),
        m.spec_code_of(MetricType::AV).len() == 1,
        !m.restrict(0).spec_has(MetricType::AV),
        m.restrict(0).spec_with(MetricType::AV, m.spec_code_of(MetricType::AV)) == Some(m.restrict(1)),
{
    m.av->0.lemma_code();
    let x = m.av->0;
    assert(m.spec_code_of(MetricType::AV) == x.spec_code());
    assert(AttackVector::spec_parse(x.spec_code()) == Some(x));
}

proof fn lemma_present_ac(m: Metrics)
    requires
        m.ac is Some,
    ensures
        all_upper(m.spec_code_of(MetricType::AC)),
        m.spec_code_of(MetricType::AC).len() == 1,
        !m.restrict(1).spec_has(MetricType::AC),
        m.restrict(1).spec_with(MetricType::AC, m.spec_code_of(MetricType::AC)) == Some(m.restrict(2)),
{
    m.ac->0.lemma_code();
    let x = m.ac->0;
    assert(m.spec_code_of(MetricType::AC) == x.spec_code());
    assert(AttackComplexity::spec_parse(x.spec_code()) == Some(x));
}

proof fn lemma_present_pr(m: Metrics)
    requires
        m.pr is Some,
    ensures
        all_upper(m.spec_code_of(MetricType::PR)),
        m.spec_code_of(MetricType::PR).len() == 1,
        !m.restrict(2).spec_has(MetricType::PR),
        m.restrict(2).spec_with(MetricType::PR, m.spec_code_of(MetricType::PR)) == Some(m.restrict(3)),
{
    m.pr->0.lemma_code();
    let x = m.pr->0;
    assert(m.spec_code_of(MetricType::PR) == x.spec_code());
    assert(PrivilegesRequired::spec_parse(x.spec_code()) == Some(x));
}

proof fn lemma_present_ui(m: Metrics)
    requires
        m.ui is Some,
    ensures
        all_upper(m.spec_code_of(MetricType::UI)),
        m.spec_code_of(MetricType::UI).len() == 1,
        !m.restrict(3).spec_has(MetricType::UI),
        m.restrict(3).spec_with(MetricType::UI, m.spec_code_of(MetricType::UI)) == Some(m.restrict(4)),
{
    m.ui->0.lemma_code();
    let x = m.ui->0;
    assert(m.spec_code_of(MetricType::UI) == x.spec_code());
    assert(UserInteraction::spec_parse(x.spec_code()) == Some(x));
}

proof fn lemma_present_s(m: Metrics)
    requires
        m.s is Some,
    ensures
        all_upper(m.spec_code_of(MetricType::S)),
        m.spec_code_of(MetricType::S).len() == 1,
        !m.restrict(4).spec_has(MetricType::S),
        m.restrict(4).spec_with(MetricType::S, m.spec_code_of(MetricType::S)) == Some(m.restrict(5)),
{
    m.s->0.lemma_code();
    let x = m.s->0;
    assert(m.spec_code_of(MetricType::S) == x.spec_code());
    assert(Scope::spec_parse(x.spec_code()) == Some(x));
}

proof fn lemma_present_c(m: Metrics)
    requires
        m.c is Some,
    ensures
        all_upper(m.spec_code_of(MetricType::C)),
        m.spec_code_of(MetricType::C).len() == 1,
        !m.restrict(5).spec_has(MetricType::C),
        m.restrict(5).spec_with(MetricType::C, m.spec_code_of(MetricType::C)) == Some(m.restrict(6)),
{
    m.c->0.lemma_code();
    let x = m.c->0;
    assert(m.spec_code_of(MetricType::C) == x.spec_code());
    assert(Confidentiality::spec_parse(x.spec_code()) == Some(x));
}

proof fn lemma_present_i(m: Metrics)
    requires
        m.i is Some,
    ensures
        all_upper(m.spec_code_of(MetricType::I)),
        m.spec_code_of(MetricType::I).len() == 1,
        !m.restrict(6).spec_has(MetricType::I),
        m.restrict(6).spec_with(MetricType::I, m.spec_code_of(MetricType::I)) == Some(m.restrict(7)),
{
    m.i->0.lemma_code();
    let x = m.i->0;
    assert(m.spec_code_of(MetricType::I) == x.spec_code());
    assert(Integrity::spec_parse(x.spec_code()) == Some(x));
}

proof fn lemma_present_a(m: Metrics)
    requires
        m.a is Some,
    ensures
        all_upper(m.spec_code_of(MetricType::A)),
        m.spec_code_of(MetricType::A).len() == 1,
        !m.restrict(7).spec_has(MetricType::A),
        m.restrict(7).spec_with(MetricType::A, m.spec_code_of(MetricType::A)) == Some(m.restrict(8)),
{
    m.a->0.lemma_code();
    let x = m.a->0;
    assert(m.spec_code_of(MetricType::A) == x.spec_code());
    assert(Availability::spec_parse(x.spec_code()) == Some(x));
}

proof fn lemma_present_e(m: Metrics)
    requires
        m.e is Some,
    ensures
        all_upper(m.spec_code_of(MetricType::E)),
        m.spec_code_of(MetricType::E).len() == 1,
        !m.restrict(8).spec_has(MetricType::E),
        m.restrict(8).spec_with(MetricType::E, m.spec_code_of(MetricType::E)) == Some(m.restrict(9)),
{
    m.e->0.lemma_code();
    let x = m.e->0;
    assert(m.spec_code_of(MetricType::E) == x.spec_code());
    assert(ExploitCodeMaturity::spec_parse(x.spec_code()) == Some(x));
}

proof fn lemma_present_rl(m: Metrics)
    requires
        m.rl is Some,
    ensures
        all_upper(m.spec_code_of(MetricType::RL)),
        m.spec_code_of(MetricType::RL).len() == 1,
        !m.restrict(9).spec_has(MetricType::RL),
        m.restrict(9).spec_with(MetricType::RL, m.spec_code_of(MetricType::RL)) == Some(m.restrict(10)),
{
    m.rl->0.lemma_code();
    let x = m.rl->0;
    assert(m.spec_code_of(MetricType::RL) == x.spec_code());
    assert(RemediationLevel::spec_parse(x.spec_code()) == Some(x));
}

proof fn lemma_present_rc(m: Metrics)
    requires
        m.rc is Some,
    ensures
        all_upper(m.spec_code_of(MetricType::RC)),
        m.spec_code_of(MetricType::RC).len() == 1,
        !m.restrict(10).spec_has(MetricType::RC),
        m.restrict(10).spec_with(MetricType::RC, m.spec_code_of(MetricType::RC)) == Some(m.restrict(11)),
{
    m.rc->0.lemma_code();
    let x = m.rc->0;
    assert(m.spec_code_of(MetricType::RC) == x.spec_code());
    assert(ReportConfidence::spec_parse(x.spec_code()) == Some(x));
}

proof fn lemma_present_cr(m: Metrics)
    requires
        m.cr is Some,
    ensures
        all_upper(m.spec_code_of(MetricType::CR)),
        m.spec_code_of(MetricType::CR).len() == 1,
        !m.restrict(11).spec_has(MetricType::CR),
        m.restrict(11).spec_with(MetricType::CR, m.spec_code_of(MetricType::CR)) == Some(m.restrict(12)),
{
    m.cr->0.lemma_code();
    let x = m.cr->0;
    assert(m.spec_code_of(MetricType::CR) == x.spec_code());
    assert(ConfidentialityRequirement::spec_parse(x.spec_code()) == Some(x));
}

proof fn lemma_present_ir(m: Metrics)
    requires
        m.ir is Some,
    ensures
        all_upper(m.spec_code_of(MetricType::IR)),
        m.spec_code_of(MetricType::IR).len() == 1,
        !m.restrict(12).spec_has(MetricType::IR),
        m.restrict(12).spec_with(MetricType::IR, m.spec_code_of(MetricType::IR)) == Some(m.restrict(13)),
{
    m.ir->0.lemma_code();
    let x = m.ir->0;
    assert(m.spec_code_of(MetricType::IR) == x.spec_code());
    assert(IntegrityRequirement::spec_parse(x.spec_code()) == Some(x));
}

proof fn lemma_present_ar(m: Metrics)
    requires
        m.ar is Some,
    ensures
        all_upper(m.spec_code_of(MetricType::AR)),
        m.spec_code_of(MetricType::AR).len() == 1,
        !m.restrict(13).spec_has(MetricType::AR),
        m.restrict(13).spec_with(MetricType::AR, m.spec_code_of(MetricType::AR)) == Some(m.restrict(14)),
{
    m.ar->0.lemma_code();
    let x = m.ar->0;
    assert(m.spec_code_of(MetricType::AR) == x.spec_code());
    assert(AvailabilityRequirement::spec_parse(x.spec_code()) == Some(x));
}

proof fn lemma_present_mav(m: Metrics)
    requires
        m.mav is Some,
    ensures
        all_upper(m.spec_code_of(MetricType::MAV)),
        m.spec_code_of(MetricType::MAV).len() == 1,
        !m.restrict(14).spec_has(MetricType::MAV),
        m.restrict(14).spec_with(MetricType::MAV, m.spec_code_of(MetricType::MAV)) == Some(m.restrict(15)),
{
    m.mav->0.lemma_code();
    let x = m.mav->0;
    assert(m.spec_code_of(MetricType::MAV) == x.spec_code());
    assert(AttackVector::spec_parse(x.spec_code()) == Some(x));
}

proof fn lemma_present_mac(m: Metrics)
    requires
        m.mac is Some,
    ensures
        all_upper(m.spec_code_of(MetricType::MAC)),
        m.spec_code_of(MetricType::MAC).len() == 1,
        !m.restrict(15).spec_has(MetricType::MAC),
        m.restrict(15).spec_with(MetricType::MAC, m.spec_code_of(MetricType::MAC)) == Some(m.restrict(16)),
{
    m.mac->0.lemma_code();
    let x = m.mac->0;
    assert(m.spec_code_of(MetricType::MAC) == x.spec_code());
    assert(AttackComplexity::spec_parse(x.spec_code()) == Some(x));
}

proof fn lemma_present_mpr(m: Metrics)
    requires
        m.mpr is Some,
    ensures
        all_upper(m.spec_code_of(MetricType::MPR)),
        m.spec_code_of(MetricType::MPR).len() == 1,
        !m.restrict(16).spec_has(MetricType::MPR),
        m.restrict(16).spec_with(MetricType::MPR, m.spec_code_of(MetricType::MPR)) == Some(m.restrict(17)),
{
    m.mpr->0.lemma_code();
    let x = m.mpr->0;
    assert(m.spec_code_of(MetricType::MPR) == x.spec_code());
    assert(PrivilegesRequired::spec_parse(x.spec_code()) == Some(x));
}

proof fn lemma_present_mui(m: Metrics)
    requires
        m.mui is Some,
    ensures
        all_upper(m.spec_code_of(MetricType::MUI)),
        m.spec_code_of(MetricType::MUI).len() == 1,
        !m.restrict(17).spec_has(MetricType::MUI),
        m.restrict(17).spec_with(MetricType::MUI, m.spec_code_of(MetricType::MUI)) == Some(m.restrict(18)),
{
    m.mui->0.lemma_code();
    let x = m.mui->0;
    assert(m.spec_code_of(MetricType::MUI) == x.spec_code());
    assert(UserInteraction::spec_parse(x.spec_code()) == Some(x));
}

proof fn lemma_present_ms(m: Metrics)
    requires
        m.ms is Some,
    ensures
        all_upper(m.spec_code_of(MetricType::MS)),
        m.spec_code_of(MetricType::MS).len() == 1,
        !m.restrict(18).spec_has(MetricType::MS),
        m.restrict(18).spec_with(MetricType::MS, m.spec_code_of(MetricType::MS)) == Some(m.restrict(19)),
{
    m.ms->0.lemma_code();
    let x = m.ms->0;
    assert(m.spec_code_of(MetricType::MS) == x.spec_code());
    assert(Scope::spec_parse(x.spec_code()) == Some(x));
}

proof fn lemma_present_mc(m: Metrics)
    requires
        m.mc is Some,
    ensures
        all_upper(m.spec_code_of(MetricType::MC)),
        m.spec_code_of(MetricType::MC).len() == 1,
        !m.restrict(19).spec_has(MetricType::MC),
        m.restrict(19).spec_with(MetricType::MC, m.spec_code_of(MetricType::MC)) == Some(m.restrict(20)),
{
    m.mc->0.lemma_code();
    let x = m.mc->0;
    assert(m.spec_code_of(MetricType::MC) == x.spec_code());
    assert(Confidentiality::spec_parse(x.spec_code()) == Some(x));
}

proof fn lemma_present_mi(m: Metrics)
    requires
        m.mi is Some,
    ensures
        all_upper(m.spec_code_of(MetricType::MI)),
        m.spec_code_of(MetricType::MI).len() == 1,
        !m.restrict(20).spec_has(MetricType::MI),
        m.restrict(20).spec_with(MetricType::MI, m.spec_code_of(MetricType::MI)) == Some(m.restrict(21)),
{
    m.mi->0.lemma_code();
    let x = m.mi->0;
    assert(m.spec_code_of(MetricType::MI) == x.spec_code());
    assert(Integrity::spec_parse(x.spec_code()) == Some(x));
}

proof fn lemma_present_ma(m: Metrics)
    requires
        m.ma is Some,
    ensures
        all_upper(m.spec_code_of(MetricType::MA)),
        m.spec_code_of(MetricType::MA).len() == 1,
        !m.restrict(21).spec_has(MetricType::MA),
        m.restrict(21).spec_with(MetricType::MA, m.spec_code_of(MetricType::MA)) == Some(m.restrict(22)),
{
    m.ma->0.lemma_code();
    let x = m.ma->0;
    assert(m.spec_code_of(MetricType::MA) == x.spec_code());
    assert(Availability::spec_parse(x.spec_code()) == Some(x));
}

proof fn lemma_kind_present(m: Metrics, k: MetricType)
    requires
        m.spec_has(k),
    ensures
        all_upper(m.spec_code_of(k)),
        m.spec_code_of(k).len() == 1,
        !m.restrict(canonical_index(k)).spec_has(k),
        m.restrict(canonical_index(k)).spec_with(k, m.spec_code_of(k))
            == Some(m.restrict(canonical_index(k) + 1)),
{
    match k {
        MetricType::AV => lemma_present_av(m),
        MetricType::AC => lemma_present_ac(m),
        MetricType::PR => lemma_present_pr(m),
        MetricType::UI => lemma_present_ui(m),
        MetricType::S => lemma_present_s(m),
        MetricType::C => lemma_present_c(m),
        MetricType::I => lemma_present_i(m),
        MetricType::A => lemma_present_a(m),
        MetricType::E => lemma_present_e(m),
        MetricType::RL => lemma_present_rl(m),
        MetricType::RC => lemma_present_rc(m),
        MetricType::CR => lemma_present_cr(m),
        MetricType::IR => lemma_present_ir(m),
        MetricType::AR => lemma_present_ar(m),
        MetricType::MAV => lemma_present_mav(m),
        MetricType::MAC => lemma_present_mac(m),
        MetricType::MPR => lemma_present_mpr(m),
        MetricType::MUI => lemma_present_mui(m),
        MetricType::MS => lemma_present_ms(m),
        MetricType::MC => lemma_present_mc(m),
        MetricType::MI => lemma_present_mi(m),
        MetricType::MA => lemma_present_ma(m),
    }
}

proof fn lemma_kind_absent(m: Metrics, k: MetricType)
    requires
        !m.spec_has(k),
    ensures
        m.restrict(canonical_index(k) + 1) == m.restrict(canonical_index(k)),
{
    match k {
        MetricType::AV => {},
        MetricType::AC => {},
        MetricType::PR => {},
        MetricType::UI => {},
        MetricType::S => {},
        MetricType::C => {},
        MetricType::I => {},
        MetricType::A => {},
        MetricType::E => {},
        MetricType::RL => {},
        MetricType::RC => {},
        MetricType::CR => {},
        MetricType::IR => {},
        MetricType::AR => {},
        MetricType::MAV => {},
        MetricType::MAC => {},
        MetricType::MPR => {},
        MetricType::MUI => {},
        MetricType::MS => {},
        MetricType::MC => {},
        MetricType::MI => {},
        MetricType::MA => {},
    }
}

proof fn lemma_with_has(m: Metrics, k: MetricType, v: Seq<char>, k2: MetricType)
    requires
        m.spec_with(k, v) is Some,
    ensures
        m.spec_with(k, v)->0.spec_has(k2) == (m.spec_has(k2) || k2 == k),
{
    match k {
        MetricType::AV => {},
        MetricType::AC => {},
        MetricType::PR => {},
        MetricType::UI => {},
        MetricType::S => {},
        MetricType::C => {},
        MetricType::I => {},
        MetricType::A => {},
        MetricType::E => {},
        MetricType::RL => {},
        MetricType::RC => {},
        MetricType::CR => {},
        MetricType::IR => {},
        MetricType::AR => {},
        MetricType::MAV => {},
        MetricType::MAC => {},
        MetricType::MPR => {},
        MetricType::MUI => {},
        MetricType::MS => {},
        MetricType::MC => {},
        MetricType::MI => {},
        MetricType::MA => {},
    }
}

proof fn lemma_split_components(p: Seq<char>, m: Metrics, n: nat)
    requires
        free_of(p, '/'),
        n <= KIND_COUNT,
    ensures
        split(p + m.spec_components_upto(n), '/') == seq![p] + component_texts(m, n),
    decreases n,
{
    if n == 0 {
        assert(p + m.spec_components_upto(0) =~= p);
        lemma_split_single(p, '/');
        assert(seq![p] + component_texts(m, 0) =~= seq![p]);
    } else {
        let n1 = (n - 1) as nat;
        lemma_split_components(p, m, n1);
        let k = canonical_kind(n - 1);
        let x = p + m.spec_components_upto(n1);
        if m.spec_has(k) {
            let w = component_text(m, k);
            k.lemma_name();
            lemma_kind_present(m, k);
            reveal_strlit("/");
            reveal_strlit(":");
            assert("/"@ =~= seq!['/']);
            assert(":"@ =~= seq![':']);
            assert(free_of(w, '/'));
            assert(p + m.spec_components_upto(n) =~= x.push('/') + w);
            lemma_split_sep(x, w, '/');
            assert(seq![p] + component_texts(m, n) =~= (seq![p] + component_texts(m, n1)).push(w));
        } else {
            assert(p + m.spec_components_upto(n) =~= x);
        }
    }
}

proof fn lemma_pairs_components(p: Seq<char>, a: Seq<char>, b: Seq<char>, m: Metrics, n: nat)
    requires
        p == a.push(':') + b,
        free_of(a, ':'),
        free_of(b, ':'),
        n <= KIND_COUNT,
    ensures
        pairs(seq![p] + component_texts(m, n)) == Ok::<_, ErrorModel>(seq![(a, b)] + component_pairs(m, n)),
    decreases n,
{
    if n == 0 {
        lemma_pair_of(a, b);
        assert(seq![p] + component_texts(m, 0) =~= seq![p]);
        assert(seq![p].drop_last() =~= Seq::<Seq<char>>::empty());
        assert(pairs(Seq::<Seq<char>>::empty()) == Ok::<_, ErrorModel>(Seq::<(Seq<char>, Seq<char>)>::empty()));
        assert(seq![p].last() == p);
        assert(seq![(a, b)] + component_pairs(m, 0) =~= Seq::<(Seq<char>, Seq<char>)>::empty().push((a, b)));
    } else {
        let n1 = (n - 1) as nat;
        lemma_pairs_components(p, a, b, m, n1);
        let k = canonical_kind(n - 1);
        if m.spec_has(k) {
            let w = component_text(m, k);
            k.lemma_name();
            lemma_kind_present(m, k);
            assert(free_of(k.spec_name(), ':'));
            assert(free_of(m.spec_code_of(k), ':'));
            lemma_pair_of(k.spec_name(), m.spec_code_of(k));
            let cs = seq![p] + component_texts(m, n);
            assert(cs.drop_last() =~= seq![p] + component_texts(m, n1));
            assert(cs.last() == w);
            assert(seq![(a, b)] + component_pairs(m, n) =~= (seq![(a, b)] + component_pairs(m, n1)).push(
                (k.spec_name(), m.spec_code_of(k)),
            ));
        } else {
            assert(component_texts(m, n) == component_texts(m, n1));
            assert(component_pairs(m, n) == component_pairs(m, n1));
        }
    }
}

proof fn lemma_fold_components(g: Group, m: Metrics, n: nat)
    requires
        m.within(g),
        n <= KIND_COUNT,
    ensures
        fold(g, component_pairs(m, n)) == Ok::<_, ErrorModel>(m.restrict(n as int)),
    decreases n,
{
    if n == 0 {
        assert(m.restrict(0) == Metrics::spec_empty());
    } else {
        let n1 = (n - 1) as nat;
        lemma_fold_components(g, m, n1);
        let k = canonical_kind(n - 1);
        lemma_canonical_index(n - 1);
        if m.spec_has(k) {
            lemma_kind_present(m, k);
            k.lemma_name();
            lemma_upper_identity(k.spec_name());
            lemma_upper_identity(m.spec_code_of(k));
            let ps = component_pairs(m, n);
            assert(ps.drop_last() =~= component_pairs(m, n1));
        } else {
            lemma_kind_absent(m, k);
        }
    }
}

/// Writing a table and reading it back as any group that admits all of
/// its kinds gives the same minor version and table.
pub proof fn lemma_read_write(minor: u8, m: Metrics, g: Group)
    requires
        minor <= 1,
        g == Group::V4Base ==> minor == 0,
        m.within(g),
    ensures
        spec_read(spec_write(g, minor, m), g) == Ok::<_, ErrorModel>((minor, m)),
{
    reveal_strlit("CVSS:3.0");
    reveal_strlit("CVSS:3.1");
    reveal_strlit("CVSS:4.0");
    reveal_strlit("CVSS");
    reveal_strlit("3.0");
    reveal_strlit("3.1");
    reveal_strlit("4.0");
    let a = "CVSS"@;
    let b = if g == Group::V4Base { "4.0"@ } else if minor == 0 { "3.0"@ } else { "3.1"@ };
    let p = version_prefix(g, minor);
    assert("4.0"@ =~= seq!['4', '.', '0']);
    assert("CVSS:4.0"@ =~= seq!['C', 'V', 'S', 'S', ':', '4', '.', '0']);
    assert(a =~= seq!['C', 'V', 'S', 'S']);
    assert("3.0"@ =~= seq!['3', '.', '0']);
    assert("3.1"@ =~= seq!['3', '.', '1']);
    assert("CVSS:3.0"@ =~= seq!['C', 'V', 'S', 'S', ':', '3', '.', '0']);
    assert("CVSS:3.1"@ =~= seq!['C', 'V', 'S', 'S', ':', '3', '.', '1']);
    assert(p =~= a.push(':') + b);
    assert(free_of(p, '/'));
    assert(free_of(a, ':'));
    assert(free_of(b, ':'));
    assert("3.1"@ != "3.0"@) by {
        assert("3.1"@[2] != "3.0"@[2]);
    }
    lemma_split_components(p, m, KIND_COUNT as nat);
    lemma_pairs_components(p, a, b, m, KIND_COUNT as nat);
    lemma_fold_components(g, m, KIND_COUNT as nat);
    let ps = seq![(a, b)] + component_pairs(m, KIND_COUNT as nat);
    assert(ps.drop_first() =~= component_pairs(m, KIND_COUNT as nat));
    assert(m.restrict(KIND_COUNT as int) == m);
    assert(spec_write(g, minor, m) == p + m.spec_components_upto(KIND_COUNT as nat));
}

proof fn lemma_fold_within(g: Group, ps: Seq<(Seq<char>, Seq<char>)>)
    requires
        fold(g, ps) is Ok,
    ensures
        fold(g, ps)->Ok_0.within(g),
    decreases ps.len(),
{
    if ps.len() > 0 {
        lemma_fold_within(g, ps.drop_last());
        let m = fold(g, ps.drop_last())->Ok_0;
        let uid = upper(ps.last().0);
        let k = MetricType::spec_lookup(uid)->0;
        let v = upper(ps.last().1);
        assert forall|k2: MetricType| #[trigger] m.spec_with(k, v)->0.spec_has(k2) implies allowed(g, k2) by {
            lemma_with_has(m, k, v, k2);
        }
    }
}

/// What a vector string reads as: a minor version of 0 or 1, and a table
/// whose kinds the group admits.
pub proof fn lemma_read_within(s: Seq<char>, g: Group)
    requires
        spec_read(s, g) is Ok,
    ensures
        spec_read(s, g)->Ok_0.0 <= 1,
        g == Group::V4Base ==> spec_read(s, g)->Ok_0.0 == 0,
        spec_read(s, g)->Ok_0.1.within(g),
{
    let ps = pairs(split(s, '/'))->Ok_0;
    lemma_fold_within(g, ps.drop_first());
}

} // verus!
