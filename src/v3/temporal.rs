//! CVSS v3.x Temporal metric group.

use vstd::prelude::*;
use crate::metric::{Metric, MetricType};
use crate::error::{result_model, Error, ErrorModel};
use crate::score::{roundup_spec, severity_of, Score, Severity};
use crate::text::str_eq;
use crate::v3::base::{base_from_metrics, base_from_table, Base};
use crate::v3::vector::{
    allowed, lemma_read_within, lemma_read_write, read_vector, spec_read, spec_write, write_vector,
    Group, Metrics,
};

verus! {

/// Exploit Code Maturity (E), CVSS v3.1 Temporal group. Not Defined weighs as High.
#[derive(Clone, Copy, Debug, PartialEq, Eq, Structural, Hash)]
pub enum ExploitCodeMaturity {
    /// Not Defined (X)
    NotDefined,
    /// High (H)
    High,
    /// Functional (F)
    Functional,
    /// Proof-of-concept (P)
    ProofOfConcept,
    /// Unproven (U)
    Unproven,
}

impl Metric for ExploitCodeMaturity {
    open spec fn spec_rank(self) -> int {
        match self {
            ExploitCodeMaturity::NotDefined => 0,
            ExploitCodeMaturity::High => 1,
            ExploitCodeMaturity::Functional => 2,
            ExploitCodeMaturity::ProofOfConcept => 3,
            ExploitCodeMaturity::Unproven => 4,
        }
    }

    fn rank(self) -> (r: u8) {
        match self {
            ExploitCodeMaturity::NotDefined => 0,
            ExploitCodeMaturity::High => 1,
            ExploitCodeMaturity::Functional => 2,
            ExploitCodeMaturity::ProofOfConcept => 3,
            ExploitCodeMaturity::Unproven => 4,
        }
    }

    open spec fn spec_type() -> MetricType {
        MetricType::E
    }

    open spec fn spec_weight(self) -> int {
        match self {
            ExploitCodeMaturity::NotDefined => 100,
            ExploitCodeMaturity::High => 100,
            ExploitCodeMaturity::Functional => 97,
            ExploitCodeMaturity::ProofOfConcept => 94,
            ExploitCodeMaturity::Unproven => 91,
        }
    }

    open spec fn spec_code(self) -> Seq<char> {
        match self {
            ExploitCodeMaturity::NotDefined => "X"@,
            ExploitCodeMaturity::High => "H"@,
            ExploitCodeMaturity::Functional => "F"@,
            ExploitCodeMaturity::ProofOfConcept => "P"@,
            ExploitCodeMaturity::Unproven => "U"@,
        }
    }

    open spec fn spec_parse(v: Seq<char>) -> Option<Self> {
        if v == "X"@ {
            Some(ExploitCodeMaturity::NotDefined)
        } else if v == "H"@ {
            Some(ExploitCodeMaturity::High)
        } else if v == "F"@ {
            Some(ExploitCodeMaturity::Functional)
        } else if v == "P"@ {
            Some(ExploitCodeMaturity::ProofOfConcept)
        } else if v == "U"@ {
            Some(ExploitCodeMaturity::Unproven)
        } else {
            None
        }
    }

    fn metric_type() -> (r: MetricType) {
        MetricType::E
    }

    fn score(self) -> (r: u64) {
        match self {
            ExploitCodeMaturity::NotDefined => 100,
            ExploitCodeMaturity::High => 100,
            ExploitCodeMaturity::Functional => 97,
            ExploitCodeMaturity::ProofOfConcept => 94,
            ExploitCodeMaturity::Unproven => 91,
        }
    }

    fn as_str(self) -> (r: &'static str) {
        match self {
            ExploitCodeMaturity::NotDefined => "X",
            ExploitCodeMaturity::High => "H",
            ExploitCodeMaturity::Functional => "F",
            ExploitCodeMaturity::ProofOfConcept => "P",
            ExploitCodeMaturity::Unproven => "U",
        }
    }

    fn parse(v: &str) -> (r: Option<Self>) {
        if str_eq(v, "X") {
            Some(ExploitCodeMaturity::NotDefined)
        } else if str_eq(v, "H") {
            Some(ExploitCodeMaturity::High)
        } else if str_eq(v, "F") {
            Some(ExploitCodeMaturity::Functional)
        } else if str_eq(v, "P") {
            Some(ExploitCodeMaturity::ProofOfConcept)
        } else if str_eq(v, "U") {
            Some(ExploitCodeMaturity::Unproven)
        } else {
            None
        }
    }
}

impl ExploitCodeMaturity {
    /// The code is one upper-case letter and parses back to this value.
    pub proof fn lemma_code(self)
        ensures
            Self::spec_parse(self.spec_code()) == Some(self),
            self.spec_code().len() == 1,
            'A' <= self.spec_code()[0] <= 'Z',
    {
        reveal_strlit("F");
        assert("F"@[0] == 'F');
        reveal_strlit("H");
        assert("H"@[0] == 'H');
        reveal_strlit("P");
        assert("P"@[0] == 'P');
        reveal_strlit("U");
        assert("U"@[0] == 'U');
        reveal_strlit("X");
        assert("X"@[0] == 'X');
        match self {
            ExploitCodeMaturity::NotDefined => {}
            ExploitCodeMaturity::High => {}
            ExploitCodeMaturity::Functional => {}
            ExploitCodeMaturity::ProofOfConcept => {}
            ExploitCodeMaturity::Unproven => {}
        }
    }
}

impl Default for ExploitCodeMaturity {
    fn default() -> (r: Self)
        ensures
            r == ExploitCodeMaturity::NotDefined,
    {
        ExploitCodeMaturity::NotDefined
    }
}

/// Remediation Level (RL), CVSS v3.1 Temporal group. Not Defined weighs as Unavailable.
#[derive(Clone, Copy, Debug, PartialEq, Eq, Structural, Hash)]
pub enum RemediationLevel {
    /// Not Defined (X)
    NotDefined,
    /// Unavailable (U)
    Unavailable,
    /// Workaround (W)
    Workaround,
    /// Temporary Fix (T)
    TemporaryFix,
    /// Official Fix (O)
    OfficialFix,
}

impl Metric for RemediationLevel {
    open spec fn spec_rank(self) -> int {
        match self {
            RemediationLevel::NotDefined => 0,
            RemediationLevel::Unavailable => 1,
            RemediationLevel::Workaround => 2,
            RemediationLevel::TemporaryFix => 3,
            RemediationLevel::OfficialFix => 4,
        }
    }

    fn rank(self) -> (r: u8) {
        match self {
            RemediationLevel::NotDefined => 0,
            RemediationLevel::Unavailable => 1,
            RemediationLevel::Workaround => 2,
            RemediationLevel::TemporaryFix => 3,
            RemediationLevel::OfficialFix => 4,
        }
    }

    open spec fn spec_type() -> MetricType {
        MetricType::RL
    }

    open spec fn spec_weight(self) -> int {
        match self {
            RemediationLevel::NotDefined => 100,
            RemediationLevel::Unavailable => 100,
            RemediationLevel::Workaround => 97,
            RemediationLevel::TemporaryFix => 96,
            RemediationLevel::OfficialFix => 95,
        }
    }

    open spec fn spec_code(self) -> Seq<char> {
        match self {
            RemediationLevel::NotDefined => "X"@,
            RemediationLevel::Unavailable => "U"@,
            RemediationLevel::Workaround => "W"@,
            RemediationLevel::TemporaryFix => "T"@,
            RemediationLevel::OfficialFix => "O"@,
        }
    }

    open spec fn spec_parse(v: Seq<char>) -> Option<Self> {
        if v == "X"@ {
            Some(RemediationLevel::NotDefined)
        } else if v == "U"@ {
            Some(RemediationLevel::Unavailable)
        } else if v == "W"@ {
            Some(RemediationLevel::Workaround)
        } else if v == "T"@ {
            Some(RemediationLevel::TemporaryFix)
        } else if v == "O"@ {
            Some(RemediationLevel::OfficialFix)
        } else {
            None
        }
    }

    fn metric_type() -> (r: MetricType) {
        MetricType::RL
    }

    fn score(self) -> (r: u64) {
        match self {
            RemediationLevel::NotDefined => 100,
            RemediationLevel::Unavailable => 100,
            RemediationLevel::Workaround => 97,
            RemediationLevel::TemporaryFix => 96,
            RemediationLevel::OfficialFix => 95,
        }
    }

    fn as_str(self) -> (r: &'static str) {
        match self {
            RemediationLevel::NotDefined => "X",
            RemediationLevel::Unavailable => "U",
            RemediationLevel::Workaround => "W",
            RemediationLevel::TemporaryFix => "T",
            RemediationLevel::OfficialFix => "O",
        }
    }

    fn parse(v: &str) -> (r: Option<Self>) {
        if str_eq(v, "X") {
            Some(RemediationLevel::NotDefined)
        } else if str_eq(v, "U") {
            Some(RemediationLevel::Unavailable)
        } else if str_eq(v, "W") {
            Some(RemediationLevel::Workaround)
        } else if str_eq(v, "T") {
            Some(RemediationLevel::TemporaryFix)
        } else if str_eq(v, "O") {
            Some(RemediationLevel::OfficialFix)
        } else {
            None
        }
    }
}

impl RemediationLevel {
    /// The code is one upper-case letter and parses back to this value.
    pub proof fn lemma_code(self)
        ensures
            Self::spec_parse(self.spec_code()) == Some(self),
            self.spec_code().len() == 1,
            'A' <= self.spec_code()[0] <= 'Z',
    {
        reveal_strlit("O");
        assert("O"@[0] == 'O');
        reveal_strlit("T");
        assert("T"@[0] == 'T');
        reveal_strlit("U");
        assert("U"@[0] == 'U');
        reveal_strlit("W");
        assert("W"@[0] == 'W');
        reveal_strlit("X");
        assert("X"@[0] == 'X');
        match self {
            RemediationLevel::NotDefined => {}
            RemediationLevel::Unavailable => {}
            RemediationLevel::Workaround => {}
            RemediationLevel::TemporaryFix => {}
            RemediationLevel::OfficialFix => {}
        }
    }
}

impl Default for RemediationLevel {
    fn default() -> (r: Self)
        ensures
            r == RemediationLevel::NotDefined,
    {
        RemediationLevel::NotDefined
    }
}

/// Report Confidence (RC), CVSS v3.1 Temporal group. Not Defined weighs as Confirmed.
#[derive(Clone, Copy, Debug, PartialEq, Eq, Structural, Hash)]
pub enum ReportConfidence {
    /// Not Defined (X)
    NotDefined,
    /// Confirmed (C)
    Confirmed,
    /// Reasonable (R)
    Reasonable,
    /// Unknown (U)
    Unknown,
}

impl Metric for ReportConfidence {
    open spec fn spec_rank(self) -> int {
        match self {
            ReportConfidence::NotDefined => 0,
            ReportConfidence::Confirmed => 1,
            ReportConfidence::Reasonable => 2,
            ReportConfidence::Unknown => 3,
        }
    }

    fn rank(self) -> (r: u8) {
        match self {
            ReportConfidence::NotDefined => 0,
            ReportConfidence::Confirmed => 1,
            ReportConfidence::Reasonable => 2,
            ReportConfidence::Unknown => 3,
        }
    }

    open spec fn spec_type() -> MetricType {
        MetricType::RC
    }

    open spec fn spec_weight(self) -> int {
        match self {
            ReportConfidence::NotDefined => 100,
            ReportConfidence::Confirmed => 100,
            ReportConfidence::Reasonable => 96,
            ReportConfidence::Unknown => 92,
        }
    }

    open spec fn spec_code(self) -> Seq<char> {
        match self {
            ReportConfidence::NotDefined => "X"@,
            ReportConfidence::Confirmed => "C"@,
            ReportConfidence::Reasonable => "R"@,
            ReportConfidence::Unknown => "U"@,
        }
    }

    open spec fn spec_parse(v: Seq<char>) -> Option<Self> {
        if v == "X"@ {
            Some(ReportConfidence::NotDefined)
        } else if v == "C"@ {
            Some(ReportConfidence::Confirmed)
        } else if v == "R"@ {
            Some(ReportConfidence::Reasonable)
        } else if v == "U"@ {
            Some(ReportConfidence::Unknown)
        } else {
            None
        }
    }

    fn metric_type() -> (r: MetricType) {
        MetricType::RC
    }

    fn score(self) -> (r: u64) {
        match self {
            ReportConfidence::NotDefined => 100,
            ReportConfidence::Confirmed => 100,
            ReportConfidence::Reasonable => 96,
            ReportConfidence::Unknown => 92,
        }
    }

    fn as_str(self) -> (r: &'static str) {
        match self {
            ReportConfidence::NotDefined => "X",
            ReportConfidence::Confirmed => "C",
            ReportConfidence::Reasonable => "R",
            ReportConfidence::Unknown => "U",
        }
    }

    fn parse(v: &str) -> (r: Option<Self>) {
        if str_eq(v, "X") {
            Some(ReportConfidence::NotDefined)
        } else if str_eq(v, "C") {
            Some(ReportConfidence::Confirmed)
        } else if str_eq(v, "R") {
            Some(ReportConfidence::Reasonable)
        } else if str_eq(v, "U") {
            Some(ReportConfidence::Unknown)
        } else {
            None
        }
    }
}

impl ReportConfidence {
    /// The code is one upper-case letter and parses back to this value.
    pub proof fn lemma_code(self)
        ensures
            Self::spec_parse(self.spec_code()) == Some(self),
            self.spec_code().len() == 1,
            'A' <= self.spec_code()[0] <= 'Z',
    {
        reveal_strlit("C");
        assert("C"@[0] == 'C');
        reveal_strlit("R");
        assert("R"@[0] == 'R');
        reveal_strlit("U");
        assert("U"@[0] == 'U');
        reveal_strlit("X");
        assert("X"@[0] == 'X');
        match self {
            ReportConfidence::NotDefined => {}
            ReportConfidence::Confirmed => {}
            ReportConfidence::Reasonable => {}
            ReportConfidence::Unknown => {}
        }
    }
}

impl Default for ReportConfidence {
    fn default() -> (r: Self)
        ensures
            r == ReportConfidence::NotDefined,
    {
        ReportConfidence::NotDefined
    }
}

/// CVSS v3.x Temporal metric group: a Base group with optional Exploit Code
/// Maturity, Remediation Level and Report Confidence. An absent metric
/// weighs as its "Not Defined" value, 1.0.
#[derive(Clone, Copy, Debug, PartialEq, Eq, Structural, Hash)]
pub struct Temporal {
    /// The Base group.
    pub base: Base,
    /// Exploit Code Maturity (E)
    pub e: Option<ExploitCodeMaturity>,
    /// Remediation Level (RL)
    pub rl: Option<RemediationLevel>,
    /// Report Confidence (RC)
    pub rc: Option<ReportConfidence>,
}

/// The weight in hundredths of an optional metric: 1.0 when absent.
pub open spec fn weight_or_one<T: Metric>(m: Option<T>) -> int {
    match m {
        Some(v) => v.spec_weight(),
        None => 100,
    }
}

pub(crate) fn score_or_one<T: Metric>(m: Option<T>) -> (r: u64)
    ensures
        r == weight_or_one(m),
{
    match m {
        Some(v) => v.score(),
        None => 100,
    }
}

/// The Temporal group read from a table.
pub open spec fn temporal_from_metrics(minor: u8, m: Metrics) -> Result<Temporal, ErrorModel> {
    match base_from_metrics(minor, m) {
        Err(e) => Err(e),
        Ok(b) => Ok(Temporal { base: b, e: m.e, rl: m.rl, rc: m.rc }),
    }
}

impl Temporal {
    /// The Base group is well formed.
    pub open spec fn wf(self) -> bool {
        self.base.wf()
    }

    /// The table of every metric of this group.
    pub open spec fn spec_metrics(self) -> Metrics {
        Metrics { e: self.e, rl: self.rl, rc: self.rc, ..self.base.spec_metrics() }
    }

    /// A vector string read as a Temporal group.
    pub open spec fn spec_parse(s: Seq<char>) -> Result<Temporal, ErrorModel> {
        match spec_read(s, Group::Temporal) {
            Err(e) => Err(e),
            Ok((minor, m)) => temporal_from_metrics(minor, m),
        }
    }

    /// The canonical vector string of this group.
    pub open spec fn spec_to_string(self) -> Seq<char> {
        spec_write(Group::Temporal, self.base.minor_version, self.spec_metrics())
    }

    /// The Temporal score in tenths: the Base score times the three weights,
    /// rounded up.
    pub open spec fn spec_score(self) -> int {
        roundup_spec(
            self.base.spec_score() * weight_or_one(self.e) * weight_or_one(self.rl) * weight_or_one(self.rc)
                * 100000000000,
        )
    }

    /// Parse a vector string: the Base components, then any of `E`, `RL`
    /// and `RC`.
    pub fn from_str(s: &str) -> (r: Result<Temporal, Error>)
        ensures
            result_model(r) == Self::spec_parse(s@),
            r is Ok ==> r->Ok_0.wf(),
    {
        match read_vector(s, Group::Temporal) {
            Err(e) => Err(e),
            Ok((minor, m)) => match base_from_table(minor, &m) {
                Err(e) => Err(e),
                Ok(b) => Ok(Temporal { base: b, e: m.e, rl: m.rl, rc: m.rc }),
            },
        }
    }

    /// The canonical vector string of this group.
    pub fn to_string(&self) -> (r: String)
        ensures
            r@ == self.spec_to_string(),
    {
        let m = Metrics { e: self.e, rl: self.rl, rc: self.rc, ..self.base.metrics() };
        write_vector(Group::Temporal, self.base.minor_version, &m)
    }

    /// The Temporal score: `roundup(base × E × RL × RC)`.
    pub fn score(&self) -> (r: Score)
        ensures
            r.wf(),
            r.tenths == self.spec_score(),
    {
        let b = self.base.score().value() as u64;
        let e = score_or_one(self.e);
        let rl = score_or_one(self.rl);
        let rc = score_or_one(self.rc);
        assert(e <= 100 && rl <= 100 && rc <= 100);
        assert(b * e <= 10000 && b * e * rl <= 1000000 && b * e * rl * rc <= 100000000) by (nonlinear_arith)
            requires
                b <= 100,
                e <= 100,
                rl <= 100,
                rc <= 100,
        ;
        let raw: u128 = (b * e * rl * rc) as u128 * 100000000000;
        Score::roundup(raw)
    }

    /// The qualitative rating of the Temporal score.
    pub fn severity(&self) -> (r: Severity)
        ensures
            r == severity_of(self.spec_score()),
    {
        self.score().severity()
    }
}

/// A well-formed Temporal group, written as its canonical vector string and
/// read back, is the same group.
pub proof fn lemma_temporal_write_read(b: Temporal)
    requires
        b.wf(),
    ensures
        Temporal::spec_parse(b.spec_to_string()) == Ok::<_, ErrorModel>(b),
{
    let m = b.spec_metrics();
    assert forall|k: MetricType| #[trigger] m.spec_has(k) implies allowed(Group::Temporal, k) by {}
    lemma_read_write(b.base.minor_version, m, Group::Temporal);
}

/// Round trip: whenever a vector string reads as a Temporal group, writing
/// that group back in canonical form and reading it again gives the same
/// group.
pub proof fn lemma_temporal_round_trip(s: Seq<char>)
    requires
        Temporal::spec_parse(s) is Ok,
    ensures
        Temporal::spec_parse(Temporal::spec_parse(s)->Ok_0.spec_to_string()) == Temporal::spec_parse(s),
{
    lemma_read_within(s, Group::Temporal);
    lemma_temporal_write_read(Temporal::spec_parse(s)->Ok_0);
}

} // verus!
