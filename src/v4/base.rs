//! CVSS v4.0 Base metric group: the exploitability metrics defined so far.

use vstd::prelude::*;
use crate::metric::{Metric, MetricType};
use crate::error::{result_model, Error, ErrorModel};
use crate::text::str_eq;
use crate::v3::base::AttackComplexity as AttackComplexityV3;
use crate::v3::base::AttackVector as AttackVectorV3;
use crate::v3::vector::{
    allowed, lemma_read_write, read_vector, spec_read, spec_write, write_vector, Group, Metrics,
};

verus! {

/// Attack Vector (AV), CVSS v4.0 Base group.
#[derive(Clone, Copy, Debug, PartialEq, Eq, Structural, Hash)]
pub enum AttackVector {
    /// Physical (P)
    Physical,
    /// Local (L)
    Local,
    /// Adjacent (A)
    Adjacent,
    /// Network (N)
    Network,
}

impl Metric for AttackVector {
    open spec fn spec_rank(self) -> int {
        match self {
            AttackVector::Physical => 0,
            AttackVector::Local => 1,
            AttackVector::Adjacent => 2,
            AttackVector::Network => 3,
        }
    }

    fn rank(self) -> (r: u8) {
        match self {
            AttackVector::Physical => 0,
            AttackVector::Local => 1,
            AttackVector::Adjacent => 2,
            AttackVector::Network => 3,
        }
    }

    open spec fn spec_type() -> MetricType {
        MetricType::AV
    }

    open spec fn spec_weight(self) -> int {
        match self {
            AttackVector::Physical => 20,
            AttackVector::Local => 55,
            AttackVector::Adjacent => 62,
            AttackVector::Network => 85,
        }
    }

    open spec fn spec_code(self) -> Seq<char> {
        match self {
            AttackVector::Physical => "P"@,
            AttackVector::Local => "L"@,
            AttackVector::Adjacent => "A"@,
            AttackVector::Network => "N"@,
        }
    }

    open spec fn spec_parse(v: Seq<char>) -> Option<Self> {
        if v == "P"@ {
            Some(AttackVector::Physical)
        } else if v == "L"@ {
            Some(AttackVector::Local)
        } else if v == "A"@ {
            Some(AttackVector::Adjacent)
        } else if v == "N"@ {
            Some(AttackVector::Network)
        } else {
            None
        }
    }

    fn metric_type() -> (r: MetricType) {
        MetricType::AV
    }

    fn score(self) -> (r: u64) {
        match self {
            AttackVector::Physical => 20,
            AttackVector::Local => 55,
            AttackVector::Adjacent => 62,
            AttackVector::Network => 85,
        }
    }

    fn as_str(self) -> (r: &'static str) {
        match self {
            AttackVector::Physical => "P",
            AttackVector::Local => "L",
            AttackVector::Adjacent => "A",
            AttackVector::Network => "N",
        }
    }

    fn parse(v: &str) -> (r: Option<Self>) {
        if str_eq(v, "P") {
            Some(AttackVector::Physical)
        } else if str_eq(v, "L") {
            Some(AttackVector::Local)
        } else if str_eq(v, "A") {
            Some(AttackVector::Adjacent)
        } else if str_eq(v, "N") {
            Some(AttackVector::Network)
        } else {
            None
        }
    }
}

impl AttackVector {
    /// The code is one upper-case letter and parses back to this value.
    pub proof fn lemma_code(self)
        ensures
            Self::spec_parse(self.spec_code()) == Some(self),
            self.spec_code().len() == 1,
            'A' <= self.spec_code()[0] <= 'Z',
    {
        reveal_strlit("A");
        assert("A"@[0] == 'A');
        reveal_strlit("L");
        assert("L"@[0] == 'L');
        reveal_strlit("N");
        assert("N"@[0] == 'N');
        reveal_strlit("P");
        assert("P"@[0] == 'P');
        match self {
            AttackVector::Physical => {}
            AttackVector::Local => {}
            AttackVector::Adjacent => {}
            AttackVector::Network => {}
        }
    }
}

/// Attack Complexity (AC), CVSS v4.0 Base group.
#[derive(Clone, Copy, Debug, PartialEq, Eq, Structural, Hash)]
pub enum AttackComplexity {
    /// High (H)
    High,
    /// Low (L)
    Low,
}

impl Metric for AttackComplexity {
    open spec fn spec_rank(self) -> int {
        match self {
            AttackComplexity::High => 0,
            AttackComplexity::Low => 1,
        }
    }

    fn rank(self) -> (r: u8) {
        match self {
            AttackComplexity::High => 0,
            AttackComplexity::Low => 1,
        }
    }

    open spec fn spec_type() -> MetricType {
        MetricType::AC
    }

    open spec fn spec_weight(self) -> int {
        match self {
            AttackComplexity::High => 44,
            AttackComplexity::Low => 77,
        }
    }

    open spec fn spec_code(self) -> Seq<char> {
        match self {
            AttackComplexity::High => "H"@,
            AttackComplexity::Low => "L"@,
        }
    }

    open spec fn spec_parse(v: Seq<char>) -> Option<Self> {
        if v == "H"@ {
            Some(AttackComplexity::High)
        } else if v == "L"@ {
            Some(AttackComplexity::Low)
        } else {
            None
        }
    }

    fn metric_type() -> (r: MetricType) {
        MetricType::AC
    }

    fn score(self) -> (r: u64) {
        match self {
            AttackComplexity::High => 44,
            AttackComplexity::Low => 77,
        }
    }

    fn as_str(self) -> (r: &'static str) {
        match self {
            AttackComplexity::High => "H",
            AttackComplexity::Low => "L",
        }
    }

    fn parse(v: &str) -> (r: Option<Self>) {
        if str_eq(v, "H") {
            Some(AttackComplexity::High)
        } else if str_eq(v, "L") {
            Some(AttackComplexity::Low)
        } else {
            None
        }
    }
}

impl AttackComplexity {
    /// The code is one upper-case letter and parses back to this value.
    pub proof fn lemma_code(self)
        ensures
            Self::spec_parse(self.spec_code()) == Some(self),
            self.spec_code().len() == 1,
            'A' <= self.spec_code()[0] <= 'Z',
    {
        reveal_strlit("H");
        assert("H"@[0] == 'H');
        reveal_strlit("L");
        assert("L"@[0] == 'L');
        match self {
            AttackComplexity::High => {}
            AttackComplexity::Low => {}
        }
    }
}

impl Default for AttackComplexity {
    fn default() -> (r: Self)
        ensures
            r == AttackComplexity::High,
    {
        AttackComplexity::High
    }
}

impl AttackVector {
    /// The value with the same code in the v3.x table.
    pub open spec fn spec_to_v3(self) -> AttackVectorV3 {
        match self {
            AttackVector::Physical => AttackVectorV3::Physical,
            AttackVector::Local => AttackVectorV3::Local,
            AttackVector::Adjacent => AttackVectorV3::Adjacent,
            AttackVector::Network => AttackVectorV3::Network,
        }
    }

    /// The value with the same code as a v3.x one.
    pub open spec fn spec_from_v3(v: AttackVectorV3) -> AttackVector {
        match v {
            AttackVectorV3::Physical => AttackVector::Physical,
            AttackVectorV3::Local => AttackVector::Local,
            AttackVectorV3::Adjacent => AttackVector::Adjacent,
            AttackVectorV3::Network => AttackVector::Network,
        }
    }

    fn to_v3(self) -> (r: AttackVectorV3)
        ensures
            r == self.spec_to_v3(),
    {
        match self {
            AttackVector::Physical => AttackVectorV3::Physical,
            AttackVector::Local => AttackVectorV3::Local,
            AttackVector::Adjacent => AttackVectorV3::Adjacent,
            AttackVector::Network => AttackVectorV3::Network,
        }
    }

    fn from_v3(v: AttackVectorV3) -> (r: AttackVector)
        ensures
            r == Self::spec_from_v3(v),
    {
        match v {
            AttackVectorV3::Physical => AttackVector::Physical,
            AttackVectorV3::Local => AttackVector::Local,
            AttackVectorV3::Adjacent => AttackVector::Adjacent,
            AttackVectorV3::Network => AttackVector::Network,
        }
    }
}

impl AttackComplexity {
    /// The value with the same code in the v3.x table.
    pub open spec fn spec_to_v3(self) -> AttackComplexityV3 {
        match self {
            AttackComplexity::High => AttackComplexityV3::High,
            AttackComplexity::Low => AttackComplexityV3::Low,
        }
    }

    /// The value with the same code as a v3.x one.
    pub open spec fn spec_from_v3(v: AttackComplexityV3) -> AttackComplexity {
        match v {
            AttackComplexityV3::High => AttackComplexity::High,
            AttackComplexityV3::Low => AttackComplexity::Low,
        }
    }

    fn to_v3(self) -> (r: AttackComplexityV3)
        ensures
            r == self.spec_to_v3(),
    {
        match self {
            AttackComplexity::High => AttackComplexityV3::High,
            AttackComplexity::Low => AttackComplexityV3::Low,
        }
    }

    fn from_v3(v: AttackComplexityV3) -> (r: AttackComplexity)
        ensures
            r == Self::spec_from_v3(v),
    {
        match v {
            AttackComplexityV3::High => AttackComplexity::High,
            AttackComplexityV3::Low => AttackComplexity::Low,
        }
    }
}

/// CVSS v4.0 Base metric group, as far as it is defined here: Attack Vector
/// and Attack Complexity, both mandatory.
#[derive(Clone, Copy, Debug, PartialEq, Eq, Structural, Hash)]
pub struct Base {
    /// Attack Vector (AV)
    pub av: AttackVector,
    /// Attack Complexity (AC)
    pub ac: AttackComplexity,
}

/// The v4.0 Base group read from a table: both metrics must be there.
pub open spec fn v4_base_from_metrics(m: Metrics) -> Result<Base, ErrorModel> {
    if m.av is None {
        Err(ErrorModel::MissingMandatoryMetric(MetricType::AV))
    } else if m.ac is None {
        Err(ErrorModel::MissingMandatoryMetric(MetricType::AC))
    } else {
        Ok(Base { av: AttackVector::spec_from_v3(m.av->0), ac: AttackComplexity::spec_from_v3(m.ac->0) })
    }
}

impl Base {
    /// The table that holds exactly the two metrics.
    pub open spec fn spec_metrics(self) -> Metrics {
        Metrics { av: Some(self.av.spec_to_v3()), ac: Some(self.ac.spec_to_v3()), ..Metrics::spec_empty() }
    }

    /// A vector string read as a v4.0 Base group.
    pub open spec fn spec_parse(s: Seq<char>) -> Result<Base, ErrorModel> {
        match spec_read(s, Group::V4Base) {
            Err(e) => Err(e),
            Ok((_, m)) => v4_base_from_metrics(m),
        }
    }

    /// The canonical vector string of this group.
    pub open spec fn spec_to_string(self) -> Seq<char> {
        spec_write(Group::V4Base, 0, self.spec_metrics())
    }

    /// Parse a vector string `CVSS:4.0/AV:_/AC:_`, components in any order,
    /// acronyms and codes in any case.
    pub fn from_str(s: &str) -> (r: Result<Base, Error>)
        ensures
            result_model(r) == Self::spec_parse(s@),
    {
        match read_vector(s, Group::V4Base) {
            Err(e) => Err(e),
            Ok((_, m)) => match (m.av, m.ac) {
                (Some(av), Some(ac)) => Ok(Base { av: AttackVector::from_v3(av), ac: AttackComplexity::from_v3(ac) }),
                (None, _) => Err(Error::MissingMandatoryMetric { metric_type: MetricType::AV }),
                (_, None) => Err(Error::MissingMandatoryMetric { metric_type: MetricType::AC }),
            },
        }
    }

    /// The canonical vector string of this group.
    pub fn to_string(&self) -> (r: String)
        ensures
            r@ == self.spec_to_string(),
    {
        let m = Metrics { av: Some(self.av.to_v3()), ac: Some(self.ac.to_v3()), ..Metrics::empty() };
        write_vector(Group::V4Base, 0, &m)
    }
}

/// A v4.0 Base group, written as its canonical vector string and read
/// back, is the same group.
pub proof fn lemma_v4_base_write_read(b: Base)
    ensures
        Base::spec_parse(b.spec_to_string()) == Ok::<_, ErrorModel>(b),
{
    let m = b.spec_metrics();
    assert forall|k: MetricType| #[trigger] m.spec_has(k) implies allowed(Group::V4Base, k) by {}
    lemma_read_write(0, m, Group::V4Base);
    assert(AttackVector::spec_from_v3(b.av.spec_to_v3()) == b.av);
    assert(AttackComplexity::spec_from_v3(b.ac.spec_to_v3()) == b.ac);
}

/// Round trip: whenever a vector string reads as a v4.0 Base group,
/// writing that group back in canonical form and reading it again gives
/// the same group.
pub proof fn lemma_v4_base_round_trip(s: Seq<char>)
    requires
        Base::spec_parse(s) is Ok,
    ensures
        Base::spec_parse(Base::spec_parse(s)->Ok_0.spec_to_string()) == Base::spec_parse(s),
{
    lemma_v4_base_write_read(Base::spec_parse(s)->Ok_0);
}

} // verus!
