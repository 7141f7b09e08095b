//! CVSS v3.x Environmental metric group.

use vstd::prelude::*;
use crate::metric::{Metric, MetricType};
use crate::error::{result_model, Error, ErrorModel};
use crate::score::{
    combine, exploitability, exploitability_of, lemma_raw_score_bounds, lemma_roundup_bounds,
    modified_impact, modified_impact_of, raw_score, roundup_spec, severity_of, Score, Severity,
};
use crate::text::str_eq;
use crate::v3::base::{
    base_from_metrics, base_from_table, AttackComplexity, AttackVector, Availability, Base,
    Confidentiality, Integrity, PrivilegesRequired, Scope, UserInteraction,
};
use crate::v3::temporal::{weight_or_one, score_or_one};
use crate::v3::vector::{
    allowed, lemma_read_within, lemma_read_write, read_vector, spec_read, spec_write, write_vector,
    Group, Metrics,
};

verus! {

/// Confidentiality Requirement (CR), CVSS v3.1 Environmental group. Not Defined weighs as Medium.
#[derive(Clone, Copy, Debug, PartialEq, Eq, Structural, Hash)]
pub enum ConfidentialityRequirement {
    /// Not Defined (X)
    NotDefined,
    /// High (H)
    High,
    /// Medium (M)
    Medium,
    /// Low (L)
    Low,
}

impl Metric for ConfidentialityRequirement {
    open spec fn spec_rank(self) -> int {
        match self {
            ConfidentialityRequirement::NotDefined => 0,
            ConfidentialityRequirement::High => 1,
            ConfidentialityRequirement::Medium => 2,
            ConfidentialityRequirement::Low => 3,
        }
    }

    fn rank(self) -> (r: u8) {
        match self {
            ConfidentialityRequirement::NotDefined => 0,
            ConfidentialityRequirement::High => 1,
            ConfidentialityRequirement::Medium => 2,
            ConfidentialityRequirement::Low => 3,
        }
    }

    open spec fn spec_type() -> MetricType {
        MetricType::CR
    }

    open spec fn spec_weight(self) -> int {
        match self {
            ConfidentialityRequirement::NotDefined => 100,
            ConfidentialityRequirement::High => 150,
            ConfidentialityRequirement::Medium => 100,
            ConfidentialityRequirement::Low => 50,
        }
    }

    open spec fn spec_code(self) -> Seq<char> {
        match self {
            ConfidentialityRequirement::NotDefined => "X"@,
            ConfidentialityRequirement::High => "H"@,
            ConfidentialityRequirement::Medium => "M"@,
            ConfidentialityRequirement::Low => "L"@,
        }
    }

    open spec fn spec_parse(v: Seq<char>) -> Option<Self> {
        if v == "X"@ {
            Some(ConfidentialityRequirement::NotDefined)
        } else if v == "H"@ {
            Some(ConfidentialityRequirement::High)
        } else if v == "M"@ {
            Some(ConfidentialityRequirement::Medium)
        } else if v == "L"@ {
            Some(ConfidentialityRequirement::Low)
        } else {
            None
        }
    }

    fn metric_type() -> (r: MetricType) {
        MetricType::CR
    }

    fn score(self) -> (r: u64) {
        match self {
            ConfidentialityRequirement::NotDefined => 100,
            ConfidentialityRequirement::High => 150,
            ConfidentialityRequirement::Medium => 100,
            ConfidentialityRequirement::Low => 50,
        }
    }

    fn as_str(self) -> (r: &'static str) {
        match self {
            ConfidentialityRequirement::NotDefined => "X",
            ConfidentialityRequirement::High => "H",
            ConfidentialityRequirement::Medium => "M",
            ConfidentialityRequirement::Low => "L",
        }
    }

    fn parse(v: &str) -> (r: Option<Self>) {
        if str_eq(v, "X") {
            Some(ConfidentialityRequirement::NotDefined)
        } else if str_eq(v, "H") {
            Some(ConfidentialityRequirement::High)
        } else if str_eq(v, "M") {
            Some(ConfidentialityRequirement::Medium)
        } else if str_eq(v, "L") {
            Some(ConfidentialityRequirement::Low)
        } else {
            None
        }
    }
}

impl ConfidentialityRequirement {
    /// The code is one upper-case letter and parses back to this value.
    pub proof fn lemma_code(self)
        ensures
            Self::spec_parse(self.spec_code()) == Some(self),
            self.spec_code().len() == 1,
            'A' <= self.spec_code()[0] <= 'Z',
    {
        reveal_strlit("H");
        assert("H"@[0] == 'H');
        reveal_strlit("L");
        assert("L"@[0] == 'L');
        reveal_strlit("M");
        assert("M"@[0] == 'M');
        reveal_strlit("X");
        assert("X"@[0] == 'X');
        match self {
            ConfidentialityRequirement::NotDefined => {}
            ConfidentialityRequirement::High => {}
            ConfidentialityRequirement::Medium => {}
            ConfidentialityRequirement::Low => {}
        }
    }
}

impl Default for ConfidentialityRequirement {
    fn default() -> (r: Self)
        ensures
            r == ConfidentialityRequirement::NotDefined,
    {
        ConfidentialityRequirement::NotDefined
    }
}

/// Integrity Requirement (IR), CVSS v3.1 Environmental group. Not Defined weighs as Medium.
#[derive(Clone, Copy, Debug, PartialEq, Eq, Structural, Hash)]
pub enum IntegrityRequirement {
    /// Not Defined (X)
    NotDefined,
    /// High (H)
    High,
    /// Medium (M)
    Medium,
    /// Low (L)
    Low,
}

impl Metric for IntegrityRequirement {
    open spec fn spec_rank(self) -> int {
        match self {
            IntegrityRequirement::NotDefined => 0,
            IntegrityRequirement::High => 1,
            IntegrityRequirement::Medium => 2,
            IntegrityRequirement::Low => 3,
        }
    }

    fn rank(self) -> (r: u8) {
        match self {
            IntegrityRequirement::NotDefined => 0,
            IntegrityRequirement::High => 1,
            IntegrityRequirement::Medium => 2,
            IntegrityRequirement::Low => 3,
        }
    }

    open spec fn spec_type() -> MetricType {
        MetricType::IR
    }

    open spec fn spec_weight(self) -> int {
        match self {
            IntegrityRequirement::NotDefined => 100,
            IntegrityRequirement::High => 150,
            IntegrityRequirement::Medium => 100,
            IntegrityRequirement::Low => 50,
        }
    }

    open spec fn spec_code(self) -> Seq<char> {
        match self {
            IntegrityRequirement::NotDefined => "X"@,
            IntegrityRequirement::High => "H"@,
            IntegrityRequirement::Medium => "M"@,
            IntegrityRequirement::Low => "L"@,
        }
    }

    open spec fn spec_parse(v: Seq<char>) -> Option<Self> {
        if v == "X"@ {
            Some(IntegrityRequirement::NotDefined)
        } else if v == "H"@ {
            Some(IntegrityRequirement::High)
        } else if v == "M"@ {
            Some(IntegrityRequirement::Medium)
        } else if v == "L"@ {
            Some(IntegrityRequirement::Low)
        } else {
            None
        }
    }

    fn metric_type() -> (r: MetricType) {
        MetricType::IR
    }

    fn score(self) -> (r: u64) {
        match self {
            IntegrityRequirement::NotDefined => 100,
            IntegrityRequirement::High => 150,
            IntegrityRequirement::Medium => 100,
            IntegrityRequirement::Low => 50,
        }
    }

    fn as_str(self) -> (r: &'static str) {
        match self {
            IntegrityRequirement::NotDefined => "X",
            IntegrityRequirement::High => "H",
            IntegrityRequirement::Medium => "M",
            IntegrityRequirement::Low => "L",
        }
    }

    fn parse(v: &str) -> (r: Option<Self>) {
        if str_eq(v, "X") {
            Some(IntegrityRequirement::NotDefined)
        } else if str_eq(v, "H") {
            Some(IntegrityRequirement::High)
        } else if str_eq(v, "M") {
            Some(IntegrityRequirement::Medium)
        } else if str_eq(v, "L") {
            Some(IntegrityRequirement::Low)
        } else {
            None
        }
    }
}

impl IntegrityRequirement {
    /// The code is one upper-case letter and parses back to this value.
    pub proof fn lemma_code(self)
        ensures
            Self::spec_parse(self.spec_code()) == Some(self),
            self.spec_code().len() == 1,
            'A' <= self.spec_code()[0] <= 'Z',
    {
        reveal_strlit("H");
        assert("H"@[0] == 'H');
        reveal_strlit("L");
        assert("L"@[0] == 'L');
        reveal_strlit("M");
        assert("M"@[0] == 'M');
        reveal_strlit("X");
        assert("X"@[0] == 'X');
        match self {
            IntegrityRequirement::NotDefined => {}
            IntegrityRequirement::High => {}
            IntegrityRequirement::Medium => {}
            IntegrityRequirement::Low => {}
        }
    }
}

impl Default for IntegrityRequirement {
    fn default() -> (r: Self)
        ensures
            r == IntegrityRequirement::NotDefined,
    {
        IntegrityRequirement::NotDefined
    }
}

/// Availability Requirement (AR), CVSS v3.1 Environmental group. Not Defined weighs as Medium.
#[derive(Clone, Copy, Debug, PartialEq, Eq, Structural, Hash)]
pub enum AvailabilityRequirement {
    /// Not Defined (X)
    NotDefined,
    /// High (H)
    High,
    /// Medium (M)
    Medium,
    /// Low (L)
    Low,
}

impl Metric for AvailabilityRequirement {
    open spec fn spec_rank(self) -> int {
        match self {
            AvailabilityRequirement::NotDefined => 0,
            AvailabilityRequirement::High => 1,
            AvailabilityRequirement::Medium => 2,
            AvailabilityRequirement::Low => 3,
        }
    }

    fn rank(self) -> (r: u8) {
        match self {
            AvailabilityRequirement::NotDefined => 0,
            AvailabilityRequirement::High => 1,
            AvailabilityRequirement::Medium => 2,
            AvailabilityRequirement::Low => 3,
        }
    }

    open spec fn spec_type() -> MetricType {
        MetricType::AR
    }

    open spec fn spec_weight(self) -> int {
        match self {
            AvailabilityRequirement::NotDefined => 100,
            AvailabilityRequirement::High => 150,
            AvailabilityRequirement::Medium => 100,
            AvailabilityRequirement::Low => 50,
        }
    }

    open spec fn spec_code(self) -> Seq<char> {
        match self {
            AvailabilityRequirement::NotDefined => "X"@,
            AvailabilityRequirement::High => "H"@,
            AvailabilityRequirement::Medium => "M"@,
            AvailabilityRequirement::Low => "L"@,
        }
    }

    open spec fn spec_parse(v: Seq<char>) -> Option<Self> {
        if v == "X"@ {
            Some(AvailabilityRequirement::NotDefined)
        } else if v == "H"@ {
            Some(AvailabilityRequirement::High)
        } else if v == "M"@ {
            Some(AvailabilityRequirement::Medium)
        } else if v == "L"@ {
            Some(AvailabilityRequirement::Low)
        } else {
            None
        }
    }

    fn metric_type() -> (r: MetricType) {
        MetricType::AR
    }

    fn score(self) -> (r: u64) {
        match self {
            AvailabilityRequirement::NotDefined => 100,
            AvailabilityRequirement::High => 150,
            AvailabilityRequirement::Medium => 100,
            AvailabilityRequirement::Low => 50,
        }
    }

    fn as_str(self) -> (r: &'static str) {
        match self {
            AvailabilityRequirement::NotDefined => "X",
            AvailabilityRequirement::High => "H",
            AvailabilityRequirement::Medium => "M",
            AvailabilityRequirement::Low => "L",
        }
    }

    fn parse(v: &str) -> (r: Option<Self>) {
        if str_eq(v, "X") {
            Some(AvailabilityRequirement::NotDefined)
        } else if str_eq(v, "H") {
            Some(AvailabilityRequirement::High)
        } else if str_eq(v, "M") {
            Some(AvailabilityRequirement::Medium)
        } else if str_eq(v, "L") {
            Some(AvailabilityRequirement::Low)
        } else {
            None
        }
    }
}

impl AvailabilityRequirement {
    /// The code is one upper-case letter and parses back to this value.
    pub proof fn lemma_code(self)
        ensures
            Self::spec_parse(self.spec_code()) == Some(self),
            self.spec_code().len() == 1,
            'A' <= self.spec_code()[0] <= 'Z',
    {
        reveal_strlit("H");
        assert("H"@[0] == 'H');
        reveal_strlit("L");
        assert("L"@[0] == 'L');
        reveal_strlit("M");
        assert("M"@[0] == 'M');
        reveal_strlit("X");
        assert("X"@[0] == 'X');
        match self {
            AvailabilityRequirement::NotDefined => {}
            AvailabilityRequirement::High => {}
            AvailabilityRequirement::Medium => {}
            AvailabilityRequirement::Low => {}
        }
    }
}

impl Default for AvailabilityRequirement {
    fn default() -> (r: Self)
        ensures
            r == AvailabilityRequirement::NotDefined,
    {
        AvailabilityRequirement::NotDefined
    }
}

/// CVSS v3.x Environmental metric group: a Base group, the three security
/// requirements, and a modified copy of each Base metric. A modified metric
/// that is present supersedes the Base metric of the same kind; an absent
/// one leaves it as it is. An absent requirement weighs 1.0.
#[derive(Clone, Copy, Debug, PartialEq, Eq, Structural, Hash)]
pub struct Environmental {
    /// The Base group.
    pub base: Base,
    /// Confidentiality Requirement (CR)
    pub cr: Option<ConfidentialityRequirement>,
    /// Integrity Requirement (IR)
    pub ir: Option<IntegrityRequirement>,
    /// Availability Requirement (AR)
    pub ar: Option<AvailabilityRequirement>,
    /// Modified Attack Vector (MAV)
    pub mav: Option<AttackVector>,
    /// Modified Attack Complexity (MAC)
    pub mac: Option<AttackComplexity>,
    /// Modified Privileges Required (MPR)
    pub mpr: Option<PrivilegesRequired>,
    /// Modified User Interaction (MUI)
    pub mui: Option<UserInteraction>,
    /// Modified Scope (MS)
    pub ms: Option<Scope>,
    /// Modified Confidentiality Impact (MC)
    pub mc: Option<Confidentiality>,
    /// Modified Integrity Impact (MI)
    pub mi: Option<Integrity>,
    /// Modified Availability Impact (MA)
    pub ma: Option<Availability>,
}

/// The modified value when present, else the Base one.
pub open spec fn effective<T>(modified: Option<T>, base: T) -> T {
    match modified {
        Some(v) => v,
        None => base,
    }
}

fn pick<T: Copy>(modified: Option<T>, base: T) -> (r: T)
    ensures
        r == effective(modified, base),
{
    match modified {
        Some(v) => v,
        None => base,
    }
}

/// The Environmental group read from a table.
pub open spec fn environmental_from_metrics(minor: u8, m: Metrics) -> Result<Environmental, ErrorModel> {
    match base_from_metrics(minor, m) {
        Err(e) => Err(e),
        Ok(b) => Ok(Environmental {
            base: b,
            cr: m.cr,
            ir: m.ir,
            ar: m.ar,
            mav: m.mav,
            mac: m.mac,
            mpr: m.mpr,
            mui: m.mui,
            ms: m.ms,
            mc: m.mc,
            mi: m.mi,
            ma: m.ma,
        }),
    }
}

impl Environmental {
    /// The Base group is well formed.
    pub open spec fn wf(self) -> bool {
        self.base.wf()
    }

    /// The table of every metric of this group.
    pub open spec fn spec_metrics(self) -> Metrics {
        Metrics {
            cr: self.cr,
            ir: self.ir,
            ar: self.ar,
            mav: self.mav,
            mac: self.mac,
            mpr: self.mpr,
            mui: self.mui,
            ms: self.ms,
            mc: self.mc,
            mi: self.mi,
            ma: self.ma,
            ..self.base.spec_metrics()
        }
    }

    /// A vector string read as an Environmental group.
    pub open spec fn spec_parse(s: Seq<char>) -> Result<Environmental, ErrorModel> {
        match spec_read(s, Group::Environmental) {
            Err(e) => Err(e),
            Ok((minor, m)) => environmental_from_metrics(minor, m),
        }
    }

    /// The canonical vector string of this group.
    pub open spec fn spec_to_string(self) -> Seq<char> {
        spec_write(Group::Environmental, self.base.minor_version, self.spec_metrics())
    }

    /// Whether the effective scope changed.
    pub open spec fn spec_scope_changed(self) -> bool {
        effective(self.ms, self.base.s) == Scope::Changed
    }

    /// Exploitability from the effective metrics, in counts of 10^-12.
    pub open spec fn spec_exploitability(self) -> int {
        exploitability_of(
            effective(self.mav, self.base.av).spec_weight(),
            effective(self.mac, self.base.ac).spec_weight(),
            effective(self.mpr, self.base.pr).spec_scoped_weight(self.spec_scope_changed()),
            effective(self.mui, self.base.ui).spec_weight(),
        )
    }

    /// Impact sub-score from the effective impacts and the requirements,
    /// in counts of 10^-12.
    pub open spec fn spec_impact(self) -> int {
        modified_impact_of(
            effective(self.mc, self.base.c).spec_weight(),
            weight_or_one(self.cr),
            effective(self.mi, self.base.i).spec_weight(),
            weight_or_one(self.ir),
            effective(self.ma, self.base.a).spec_weight(),
            weight_or_one(self.ar),
        )
    }

    /// The Environmental score, in tenths.
    pub open spec fn spec_score(self) -> int {
        roundup_spec(raw_score(self.spec_exploitability(), self.spec_impact(), self.spec_scope_changed()))
    }

    /// Parse a vector string: the Base components, then any of the
    /// requirements and modified metrics.
    pub fn from_str(s: &str) -> (r: Result<Environmental, Error>)
        ensures
            result_model(r) == Self::spec_parse(s@),
            r is Ok ==> r->Ok_0.wf(),
    {
        match read_vector(s, Group::Environmental) {
            Err(e) => Err(e),
            Ok((minor, m)) => match base_from_table(minor, &m) {
                Err(e) => Err(e),
                Ok(b) => Ok(Environmental {
                    base: b,
                    cr: m.cr,
                    ir: m.ir,
                    ar: m.ar,
                    mav: m.mav,
                    mac: m.mac,
                    mpr: m.mpr,
                    mui: m.mui,
                    ms: m.ms,
                    mc: m.mc,
                    mi: m.mi,
                    ma: m.ma,
                }),
            },
        }
    }

    /// The canonical vector string of this group.
    pub fn to_string(&self) -> (r: String)
        ensures
            r@ == self.spec_to_string(),
    {
        let m = Metrics {
            cr: self.cr,
            ir: self.ir,
            ar: self.ar,
            mav: self.mav,
            mac: self.mac,
            mpr: self.mpr,
            mui: self.mui,
            ms: self.ms,
            mc: self.mc,
            mi: self.mi,
            ma: self.ma,
            ..self.base.metrics()
        };
        write_vector(Group::Environmental, self.base.minor_version, &m)
    }

    /// Has the effective scope changed?
    pub fn is_scope_changed(&self) -> (r: bool)
        ensures
            r == self.spec_scope_changed(),
    {
        pick(self.ms, self.base.s).is_changed()
    }

    /// Exploitability sub-score from the effective metrics, in counts of
    /// 10^-12.
    pub fn exploitability(&self) -> (r: u64)
        ensures
            r == self.spec_exploitability(),
            r <= 10 * crate::score::SUB_ONE,
    {
        exploitability(
            pick(self.mav, self.base.av).score(),
            pick(self.mac, self.base.ac).score(),
            pick(self.mpr, self.base.pr).scoped_score(self.is_scope_changed()),
            pick(self.mui, self.base.ui).score(),
        )
    }

    /// Impact sub-score `min(1, 1 − (1 − C × CR)(1 − I × IR)(1 − A × AR))`
    /// from the effective impacts, in counts of 10^-12.
    pub fn impact(&self) -> (r: u64)
        ensures
            r == self.spec_impact(),
            r <= crate::score::SUB_ONE,
    {
        modified_impact(
            pick(self.mc, self.base.c).score(),
            score_or_one(self.cr),
            pick(self.mi, self.base.i).score(),
            score_or_one(self.ir),
            pick(self.ma, self.base.a).score(),
            score_or_one(self.ar),
        )
    }

    /// The Environmental score, between 0.0 and 10.0.
    pub fn score(&self) -> (r: Score)
        ensures
            r.wf(),
            r.tenths == self.spec_score(),
    {
        combine(self.exploitability(), self.impact(), self.is_scope_changed())
    }

    /// The qualitative rating of the Environmental score.
    pub fn severity(&self) -> (r: Severity)
        ensures
            r == severity_of(self.spec_score()),
    {
        self.score().severity()
    }
}

/// A well-formed Environmental group, written as its canonical vector string and
/// read back, is the same group.
pub proof fn lemma_environmental_write_read(b: Environmental)
    requires
        b.wf(),
    ensures
        Environmental::spec_parse(b.spec_to_string()) == Ok::<_, ErrorModel>(b),
{
    let m = b.spec_metrics();
    assert forall|k: MetricType| #[trigger] m.spec_has(k) implies allowed(Group::Environmental, k) by {}
    lemma_read_write(b.base.minor_version, m, Group::Environmental);
}

/// Round trip: whenever a vector string reads as a Environmental group, writing
/// that group back in canonical form and reading it again gives the same
/// group.
pub proof fn lemma_environmental_round_trip(s: Seq<char>)
    requires
        Environmental::spec_parse(s) is Ok,
    ensures
        Environmental::spec_parse(Environmental::spec_parse(s)->Ok_0.spec_to_string()) == Environmental::spec_parse(s),
{
    lemma_read_within(s, Group::Environmental);
    lemma_environmental_write_read(Environmental::spec_parse(s)->Ok_0);
}

/// Every Environmental score lies between 0.0 and 10.0.
pub proof fn lemma_environmental_score_bounds(b: Environmental)
    ensures
        0 <= b.spec_score() <= 100,
{
    lemma_raw_score_bounds(b.spec_exploitability(), b.spec_impact(), b.spec_scope_changed());
    lemma_roundup_bounds(raw_score(b.spec_exploitability(), b.spec_impact(), b.spec_scope_changed()));
}

} // verus!
