//! The registry of metric kinds.

use vstd::prelude::*;
use crate::text::str_eq;

verus! {

/// Every metric kind that a vector string may name.
#[derive(Clone, Copy, Debug, PartialEq, Eq, Structural, Hash)]
#[non_exhaustive]
pub enum MetricType {
    /// Availability Impact (A)
    A,
    /// Attack Complexity (AC)
    AC,
    /// Attack Vector (AV)
    AV,
    /// Confidentiality Impact (C)
    C,
    /// Integrity Impact (I)
    I,
    /// Privileges Required (PR)
    PR,
    /// Scope (S)
    S,
    /// User Interaction (UI)
    UI,
    /// Exploit Code Maturity (E)
    E,
    /// Remediation Level (RL)
    RL,
    /// Report Confidence (RC)
    RC,
    /// Availability Requirement (AR)
    AR,
    /// Integrity Requirement (IR)
    IR,
    /// Confidentiality Requirement (CR)
    CR,
    /// Modified Attack Vector (MAV)
    MAV,
    /// Modified Attack Complexity (MAC)
    MAC,
    /// Modified Privileges Required (MPR)
    MPR,
    /// Modified User Interaction (MUI)
    MUI,
    /// Modified Scope (MS)
    MS,
    /// Modified Confidentiality Impact (MC)
    MC,
    /// Modified Integrity Impact (MI)
    MI,
    /// Modified Availability Impact (MA)
    MA,
}

impl MetricType {
    /// The acronym of this kind.
    pub open spec fn spec_name(self) -> Seq<char> {
        match self {
            MetricType::A => "A"@,
            MetricType::AC => "AC"@,
            MetricType::AV => "AV"@,
            MetricType::C => "C"@,
            MetricType::I => "I"@,
            MetricType::PR => "PR"@,
            MetricType::S => "S"@,
            MetricType::UI => "UI"@,
            MetricType::E => "E"@,
            MetricType::RL => "RL"@,
            MetricType::RC => "RC"@,
            MetricType::AR => "AR"@,
            MetricType::IR => "IR"@,
            MetricType::CR => "CR"@,
            MetricType::MAV => "MAV"@,
            MetricType::MAC => "MAC"@,
            MetricType::MPR => "MPR"@,
            MetricType::MUI => "MUI"@,
            MetricType::MS => "MS"@,
            MetricType::MC => "MC"@,
            MetricType::MI => "MI"@,
            MetricType::MA => "MA"@,
        }
    }

    /// The kind whose acronym is `id`, if any (case-sensitive).
    pub open spec fn spec_lookup(id: Seq<char>) -> Option<MetricType> {
        if id == "A"@ { Some(MetricType::A) }
        else if id == "AC"@ { Some(MetricType::AC) }
        else if id == "AV"@ { Some(MetricType::AV) }
        else if id == "C"@ { Some(MetricType::C) }
        else if id == "I"@ { Some(MetricType::I) }
        else if id == "PR"@ { Some(MetricType::PR) }
        else if id == "S"@ { Some(MetricType::S) }
        else if id == "UI"@ { Some(MetricType::UI) }
        else if id == "E"@ { Some(MetricType::E) }
        else if id == "RL"@ { Some(MetricType::RL) }
        else if id == "RC"@ { Some(MetricType::RC) }
        else if id == "AR"@ { Some(MetricType::AR) }
        else if id == "IR"@ { Some(MetricType::IR) }
        else if id == "CR"@ { Some(MetricType::CR) }
        else if id == "MAV"@ { Some(MetricType::MAV) }
        else if id == "MAC"@ { Some(MetricType::MAC) }
        else if id == "MPR"@ { Some(MetricType::MPR) }
        else if id == "MUI"@ { Some(MetricType::MUI) }
        else if id == "MS"@ { Some(MetricType::MS) }
        else if id == "MC"@ { Some(MetricType::MC) }
        else if id == "MI"@ { Some(MetricType::MI) }
        else if id == "MA"@ { Some(MetricType::MA) }
        else { None }
    }

    /// Get the name of this metric (i.e. its acronym).
    pub fn name(self) -> (r: &'static str)
        ensures
            r@ == self.spec_name(),
    {
        match self {
            MetricType::A => "A",
            MetricType::AC => "AC",
            MetricType::AV => "AV",
            MetricType::C => "C",
            MetricType::I => "I",
            MetricType::PR => "PR",
            MetricType::S => "S",
            MetricType::UI => "UI",
            MetricType::E => "E",
            MetricType::RL => "RL",
            MetricType::RC => "RC",
            MetricType::AR => "AR",
            MetricType::IR => "IR",
            MetricType::CR => "CR",
            MetricType::MAV => "MAV",
            MetricType::MAC => "MAC",
            MetricType::MPR => "MPR",
            MetricType::MUI => "MUI",
            MetricType::MS => "MS",
            MetricType::MC => "MC",
            MetricType::MI => "MI",
            MetricType::MA => "MA",
        }
    }

    /// The long description of this kind.
    pub open spec fn spec_description(self) -> Seq<char> {
        match self {
            MetricType::A => "Availability Impact"@,
            MetricType::AC => "Attack Complexity"@,
            MetricType::AV => "Attack Vector"@,
            MetricType::C => "Confidentiality Impact"@,
            MetricType::I => "Integrity Impact"@,
            MetricType::PR => "Privileges Required"@,
            MetricType::S => "Scope"@,
            MetricType::UI => "User Interaction"@,
            MetricType::E => "Exploit Code Maturity"@,
            MetricType::RL => "Remediation Level"@,
            MetricType::RC => "Report Confidence"@,
            MetricType::AR => "Availability Requirement"@,
            MetricType::IR => "Integrity Requirement"@,
            MetricType::CR => "Confidentiality Requirement"@,
            MetricType::MAV => "Modified Attack Vector"@,
            MetricType::MAC => "Modified Attack Complexity"@,
            MetricType::MPR => "Modified Privileges Required"@,
            MetricType::MUI => "Modified User Interaction"@,
            MetricType::MS => "Modified Scope"@,
            MetricType::MC => "Modified Confidentiality Impact"@,
            MetricType::MI => "Modified Integrity Impact"@,
            MetricType::MA => "Modified Availability Impact"@,
        }
    }

    /// Get a description of this metric.
    pub fn description(self) -> (r: &'static str)
        ensures
            r@ == self.spec_description(),
    {
        match self {
            MetricType::A => "Availability Impact",
            MetricType::AC => "Attack Complexity",
            MetricType::AV => "Attack Vector",
            MetricType::C => "Confidentiality Impact",
            MetricType::I => "Integrity Impact",
            MetricType::PR => "Privileges Required",
            MetricType::S => "Scope",
            MetricType::UI => "User Interaction",
            MetricType::E => "Exploit Code Maturity",
            MetricType::RL => "Remediation Level",
            MetricType::RC => "Report Confidence",
            MetricType::AR => "Availability Requirement",
            MetricType::IR => "Integrity Requirement",
            MetricType::CR => "Confidentiality Requirement",
            MetricType::MAV => "Modified Attack Vector",
            MetricType::MAC => "Modified Attack Complexity",
            MetricType::MPR => "Modified Privileges Required",
            MetricType::MUI => "Modified User Interaction",
            MetricType::MS => "Modified Scope",
            MetricType::MC => "Modified Confidentiality Impact",
            MetricType::MI => "Modified Integrity Impact",
            MetricType::MA => "Modified Availability Impact",
        }
    }

    /// Look a kind up by its acronym. The comparison is case-sensitive:
    /// callers upper-case their input first.
    pub fn lookup(id: &str) -> (r: Option<MetricType>)
        ensures
            r == Self::spec_lookup(id@),
    {
        if str_eq(id, "A") { Some(MetricType::A) }
        else if str_eq(id, "AC") { Some(MetricType::AC) }
        else if str_eq(id, "AV") { Some(MetricType::AV) }
        else if str_eq(id, "C") { Some(MetricType::C) }
        else if str_eq(id, "I") { Some(MetricType::I) }
        else if str_eq(id, "PR") { Some(MetricType::PR) }
        else if str_eq(id, "S") { Some(MetricType::S) }
        else if str_eq(id, "UI") { Some(MetricType::UI) }
        else if str_eq(id, "E") { Some(MetricType::E) }
        else if str_eq(id, "RL") { Some(MetricType::RL) }
        else if str_eq(id, "RC") { Some(MetricType::RC) }
        else if str_eq(id, "AR") { Some(MetricType::AR) }
        else if str_eq(id, "IR") { Some(MetricType::IR) }
        else if str_eq(id, "CR") { Some(MetricType::CR) }
        else if str_eq(id, "MAV") { Some(MetricType::MAV) }
        else if str_eq(id, "MAC") { Some(MetricType::MAC) }
        else if str_eq(id, "MPR") { Some(MetricType::MPR) }
        else if str_eq(id, "MUI") { Some(MetricType::MUI) }
        else if str_eq(id, "MS") { Some(MetricType::MS) }
        else if str_eq(id, "MC") { Some(MetricType::MC) }
        else if str_eq(id, "MI") { Some(MetricType::MI) }
        else if str_eq(id, "MA") { Some(MetricType::MA) }
        else { None }
    }

    /// Parse an acronym into a kind, failing with `UnknownMetric`.
    pub fn from_name(id: &str) -> (r: Result<MetricType, crate::error::Error>)
        ensures
            match r {
                Ok(k) => Self::spec_lookup(id@) == Some(k),
                Err(e) => Self::spec_lookup(id@) is None
                    && e@ == crate::error::ErrorModel::UnknownMetric(id@),
            },
    {
        match Self::lookup(id) {
            Some(k) => Ok(k),
            None => Err(crate::error::Error::UnknownMetric { name: id.to_owned() }),
        }
    }
}

impl MetricType {
    /// Each acronym is made of upper-case letters and looks up to its kind.
    pub proof fn lemma_name(self)
        ensures
            Self::spec_lookup(self.spec_name()) == Some(self),
            crate::text::all_upper(self.spec_name()),
            self.spec_name().len() >= 1,
    {
        reveal_strlit("A");
        assert("A"@ =~= seq!['A']);
        assert("A"@.len() == 1 && "A"@[0] == 'A');
        reveal_strlit("AC");
        assert("AC"@ =~= seq!['A', 'C']);
        assert("AC"@.len() == 2 && "AC"@[0] == 'A' && "AC"@[1] == 'C');
        reveal_strlit("AV");
        assert("AV"@ =~= seq!['A', 'V']);
        assert("AV"@.len() == 2 && "AV"@[0] == 'A' && "AV"@[1] == 'V');
        reveal_strlit("C");
        assert("C"@ =~= seq!['C']);
        assert("C"@.len() == 1 && "C"@[0] == 'C');
        reveal_strlit("I");
        assert("I"@ =~= seq!['I']);
        assert("I"@.len() == 1 && "I"@[0] == 'I');
        reveal_strlit("PR");
        assert("PR"@ =~= seq!['P', 'R']);
        assert("PR"@.len() == 2 && "PR"@[0] == 'P' && "PR"@[1] == 'R');
        reveal_strlit("S");
        assert("S"@ =~= seq!['S']);
        assert("S"@.len() == 1 && "S"@[0] == 'S');
        reveal_strlit("UI");
        assert("UI"@ =~= seq!['U', 'I']);
        assert("UI"@.len() == 2 && "UI"@[0] == 'U' && "UI"@[1] == 'I');
        reveal_strlit("E");
        assert("E"@ =~= seq!['E']);
        assert("E"@.len() == 1 && "E"@[0] == 'E');
        reveal_strlit("RL");
        assert("RL"@ =~= seq!['R', 'L']);
        assert("RL"@.len() == 2 && "RL"@[0] == 'R' && "RL"@[1] == 'L');
        reveal_strlit("RC");
        assert("RC"@ =~= seq!['R', 'C']);
        assert("RC"@.len() == 2 && "RC"@[0] == 'R' && "RC"@[1] == 'C');
        reveal_strlit("AR");
        assert("AR"@ =~= seq!['A', 'R']);
        assert("AR"@.len() == 2 && "AR"@[0] == 'A' && "AR"@[1] == 'R');
        reveal_strlit("IR");
        assert("IR"@ =~= seq!['I', 'R']);
        assert("IR"@.len() == 2 && "IR"@[0] == 'I' && "IR"@[1] == 'R');
        reveal_strlit("CR");
        assert("CR"@ =~= seq!['C', 'R']);
        assert("CR"@.len() == 2 && "CR"@[0] == 'C' && "CR"@[1] == 'R');
        reveal_strlit("MAV");
        assert("MAV"@ =~= seq!['M', 'A', 'V']);
        assert("MAV"@.len() == 3 && "MAV"@[0] == 'M' && "MAV"@[1] == 'A' && "MAV"@[2] == 'V');
        reveal_strlit("MAC");
        assert("MAC"@ =~= seq!['M', 'A', 'C']);
        assert("MAC"@.len() == 3 && "MAC"@[0] == 'M' && "MAC"@[1] == 'A' && "MAC"@[2] == 'C');
        reveal_strlit("MPR");
        assert("MPR"@ =~= seq!['M', 'P', 'R']);
        assert("MPR"@.len() == 3 && "MPR"@[0] == 'M' && "MPR"@[1] == 'P' && "MPR"@[2] == 'R');
        reveal_strlit("MUI");
        assert("MUI"@ =~= seq!['M', 'U', 'I']);
        assert("MUI"@.len() == 3 && "MUI"@[0] == 'M' && "MUI"@[1] == 'U' && "MUI"@[2] == 'I');
        reveal_strlit("MS");
        assert("MS"@ =~= seq!['M', 'S']);
        assert("MS"@.len() == 2 && "MS"@[0] == 'M' && "MS"@[1] == 'S');
        reveal_strlit("MC");
        assert("MC"@ =~= seq!['M', 'C']);
        assert("MC"@.len() == 2 && "MC"@[0] == 'M' && "MC"@[1] == 'C');
        reveal_strlit("MI");
        assert("MI"@ =~= seq!['M', 'I']);
        assert("MI"@.len() == 2 && "MI"@[0] == 'M' && "MI"@[1] == 'I');
        reveal_strlit("MA");
        assert("MA"@ =~= seq!['M', 'A']);
        assert("MA"@.len() == 2 && "MA"@[0] == 'M' && "MA"@[1] == 'A');
        match self {
            MetricType::A => {}
            MetricType::AC => {}
            MetricType::AV => {}
            MetricType::C => {}
            MetricType::I => {}
            MetricType::PR => {}
            MetricType::S => {}
            MetricType::UI => {}
            MetricType::E => {}
            MetricType::RL => {}
            MetricType::RC => {}
            MetricType::AR => {}
            MetricType::IR => {}
            MetricType::CR => {}
            MetricType::MAV => {}
            MetricType::MAC => {}
            MetricType::MPR => {}
            MetricType::MUI => {}
            MetricType::MS => {}
            MetricType::MC => {}
            MetricType::MI => {}
            MetricType::MA => {}
        }
    }
}

/// What every metric value type offers: its kind, its weight in the score
/// formulas (in hundredths), its one-letter code and the parse of that code.
pub trait Metric: Sized + Copy {
    /// The kind that this type is the value of.
    spec fn spec_type() -> MetricType;

    /// The weight, in hundredths.
    spec fn spec_weight(self) -> int;

    /// The canonical code.
    spec fn spec_code(self) -> Seq<char>;

    /// The value whose code is `v`, if any.
    spec fn spec_parse(v: Seq<char>) -> Option<Self>;

    /// The position of this value in its type's declaration.
    spec fn spec_rank(self) -> int;

    /// The position of this value in its type's declaration.
    fn rank(self) -> (r: u8)
        ensures
            r == self.spec_rank(),
    ;

    /// The kind that this type is the value of.
    fn metric_type() -> (r: MetricType)
        ensures
            r == Self::spec_type(),
    ;

    /// The acronym of this metric's kind.
    fn name() -> (r: &'static str)
        ensures
            r@ == Self::spec_type().spec_name(),
    {
        Self::metric_type().name()
    }

    /// The weight used in the score formulas, in hundredths.
    fn score(self) -> (r: u64)
        ensures
            r == self.spec_weight(),
    ;

    /// The canonical code of this value.
    fn as_str(self) -> (r: &'static str)
        ensures
            r@ == self.spec_code(),
    ;

    /// Parse a code (case-sensitive).
    fn parse(v: &str) -> (r: Option<Self>)
        ensures
            r == Self::spec_parse(v@),
    ;

}

/// The order of metric values: by weight, then by declaration for equal
/// weights.
pub open spec fn spec_compare<T: Metric>(a: T, b: T) -> core::cmp::Ordering {
    if a.spec_weight() < b.spec_weight() {
        core::cmp::Ordering::Less
    } else if a.spec_weight() > b.spec_weight() {
        core::cmp::Ordering::Greater
    } else if a.spec_rank() < b.spec_rank() {
        core::cmp::Ordering::Less
    } else if a.spec_rank() > b.spec_rank() {
        core::cmp::Ordering::Greater
    } else {
        core::cmp::Ordering::Equal
    }
}

/// Compare two metric values by weight, then by declaration order.
pub fn compare<T: Metric>(a: T, b: T) -> (r: core::cmp::Ordering)
    ensures
        r == spec_compare(a, b),
{
    let wa = a.score();
    let wb = b.score();
    if wa < wb {
        core::cmp::Ordering::Less
    } else if wa > wb {
        core::cmp::Ordering::Greater
    } else {
        let ra = a.rank();
        let rb = b.rank();
        if ra < rb {
            core::cmp::Ordering::Less
        } else if ra > rb {
            core::cmp::Ordering::Greater
        } else {
            core::cmp::Ordering::Equal
        }
    }
}

} // verus!
