//! CVSS v3.x Base metric group: its eight metric value types, the group
//! itself, its score and its vector string.

use vstd::prelude::*;
use crate::metric::{spec_compare, Metric, MetricType};
use crate::error::{result_model, Error, ErrorModel};
use crate::score::{
    combine, exploitability, exploitability_of, impact, impact_of, lemma_raw_score_bounds,
    lemma_roundup_bounds, raw_score, roundup_spec, severity_of, Score, Severity,
};
use crate::text::str_eq;
use crate::v3::vector::{
    allowed, lemma_read_within, lemma_read_write, read_vector, spec_read, spec_write, write_vector,
    Group, Metrics,
};

verus! {

/// Attack Vector (AV), CVSS v3.1 Base group. Weights increase with remoteness.
#[derive(Clone, Copy, Debug, PartialEq, Eq, Structural, Hash)]
pub enum AttackVector {
    /// Physical (P)
    Physical,
    /// Local (L)
    Local,
    /// Adjacent (A)
    Adjacent,
    /// Network (N)
    Network,
}

impl Metric for AttackVector {
    open spec fn spec_rank(self) -> int {
        match self {
            AttackVector::Physical => 0,
            AttackVector::Local => 1,
            AttackVector::Adjacent => 2,
            AttackVector::Network => 3,
        }
    }

    fn rank(self) -> (r: u8) {
        match self {
            AttackVector::Physical => 0,
            AttackVector::Local => 1,
            AttackVector::Adjacent => 2,
            AttackVector::Network => 3,
        }
    }

    open spec fn spec_type() -> MetricType {
        MetricType::AV
    }

    open spec fn spec_weight(self) -> int {
        match self {
            AttackVector::Physical => 20,
            AttackVector::Local => 55,
            AttackVector::Adjacent => 62,
            AttackVector::Network => 85,
        }
    }

    open spec fn spec_code(self) -> Seq<char> {
        match self {
            AttackVector::Physical => "P"@,
            AttackVector::Local => "L"@,
            AttackVector::Adjacent => "A"@,
            AttackVector::Network => "N"@,
        }
    }

    open spec fn spec_parse(v: Seq<char>) -> Option<Self> {
        if v == "P"@ {
            Some(AttackVector::Physical)
        } else if v == "L"@ {
            Some(AttackVector::Local)
        } else if v == "A"@ {
            Some(AttackVector::Adjacent)
        } else if v == "N"@ {
            Some(AttackVector::Network)
        } else {
            None
        }
    }

    fn metric_type() -> (r: MetricType) {
        MetricType::AV
    }

    fn score(self) -> (r: u64) {
        match self {
            AttackVector::Physical => 20,
            AttackVector::Local => 55,
            AttackVector::Adjacent => 62,
            AttackVector::Network => 85,
        }
    }

    fn as_str(self) -> (r: &'static str) {
        match self {
            AttackVector::Physical => "P",
            AttackVector::Local => "L",
            AttackVector::Adjacent => "A",
            AttackVector::Network => "N",
        }
    }

    fn parse(v: &str) -> (r: Option<Self>) {
        if str_eq(v, "P") {
            Some(AttackVector::Physical)
        } else if str_eq(v, "L") {
            Some(AttackVector::Local)
        } else if str_eq(v, "A") {
            Some(AttackVector::Adjacent)
        } else if str_eq(v, "N") {
            Some(AttackVector::Network)
        } else {
            None
        }
    }
}

impl AttackVector {
    /// The code is one upper-case letter and parses back to this value.
    pub proof fn lemma_code(self)
        ensures
            Self::spec_parse(self.spec_code()) == Some(self),
            self.spec_code().len() == 1,
            'A' <= self.spec_code()[0] <= 'Z',
    {
        reveal_strlit("A");
        assert("A"@[0] == 'A');
        reveal_strlit("L");
        assert("L"@[0] == 'L');
        reveal_strlit("N");
        assert("N"@[0] == 'N');
        reveal_strlit("P");
        assert("P"@[0] == 'P');
        match self {
            AttackVector::Physical => {}
            AttackVector::Local => {}
            AttackVector::Adjacent => {}
            AttackVector::Network => {}
        }
    }
}

/// Attack Complexity (AC), CVSS v3.1 Base group.
#[derive(Clone, Copy, Debug, PartialEq, Eq, Structural, Hash)]
pub enum AttackComplexity {
    /// High (H)
    High,
    /// Low (L)
    Low,
}

impl Metric for AttackComplexity {
    open spec fn spec_rank(self) -> int {
        match self {
            AttackComplexity::High => 0,
            AttackComplexity::Low => 1,
        }
    }

    fn rank(self) -> (r: u8) {
        match self {
            AttackComplexity::High => 0,
            AttackComplexity::Low => 1,
        }
    }

    open spec fn spec_type() -> MetricType {
        MetricType::AC
    }

    open spec fn spec_weight(self) -> int {
        match self {
            AttackComplexity::High => 44,
            AttackComplexity::Low => 77,
        }
    }

    open spec fn spec_code(self) -> Seq<char> {
        match self {
            AttackComplexity::High => "H"@,
            AttackComplexity::Low => "L"@,
        }
    }

    open spec fn spec_parse(v: Seq<char>) -> Option<Self> {
        if v == "H"@ {
            Some(AttackComplexity::High)
        } else if v == "L"@ {
            Some(AttackComplexity::Low)
        } else {
            None
        }
    }

    fn metric_type() -> (r: MetricType) {
        MetricType::AC
    }

    fn score(self) -> (r: u64) {
        match self {
            AttackComplexity::High => 44,
            AttackComplexity::Low => 77,
        }
    }

    fn as_str(self) -> (r: &'static str) {
        match self {
            AttackComplexity::High => "H",
            AttackComplexity::Low => "L",
        }
    }

    fn parse(v: &str) -> (r: Option<Self>) {
        if str_eq(v, "H") {
            Some(AttackComplexity::High)
        } else if str_eq(v, "L") {
            Some(AttackComplexity::Low)
        } else {
            None
        }
    }
}

impl AttackComplexity {
    /// The code is one upper-case letter and parses back to this value.
    pub proof fn lemma_code(self)
        ensures
            Self::spec_parse(self.spec_code()) == Some(self),
            self.spec_code().len() == 1,
            'A' <= self.spec_code()[0] <= 'Z',
    {
        reveal_strlit("H");
        assert("H"@[0] == 'H');
        reveal_strlit("L");
        assert("L"@[0] == 'L');
        match self {
            AttackComplexity::High => {}
            AttackComplexity::Low => {}
        }
    }
}

/// Privileges Required (PR), CVSS v3.1 Base group. Its weight when the scope is changed is `scoped_weight`.
#[derive(Clone, Copy, Debug, PartialEq, Eq, Structural, Hash)]
pub enum PrivilegesRequired {
    /// High (H)
    High,
    /// Low (L)
    Low,
    /// None (N)
    NoPrivileges,
}

impl Metric for PrivilegesRequired {
    open spec fn spec_rank(self) -> int {
        match self {
            PrivilegesRequired::High => 0,
            PrivilegesRequired::Low => 1,
            PrivilegesRequired::NoPrivileges => 2,
        }
    }

    fn rank(self) -> (r: u8) {
        match self {
            PrivilegesRequired::High => 0,
            PrivilegesRequired::Low => 1,
            PrivilegesRequired::NoPrivileges => 2,
        }
    }

    open spec fn spec_type() -> MetricType {
        MetricType::PR
    }

    open spec fn spec_weight(self) -> int {
        match self {
            PrivilegesRequired::High => 27,
            PrivilegesRequired::Low => 62,
            PrivilegesRequired::NoPrivileges => 85,
        }
    }

    open spec fn spec_code(self) -> Seq<char> {
        match self {
            PrivilegesRequired::High => "H"@,
            PrivilegesRequired::Low => "L"@,
            PrivilegesRequired::NoPrivileges => "N"@,
        }
    }

    open spec fn spec_parse(v: Seq<char>) -> Option<Self> {
        if v == "H"@ {
            Some(PrivilegesRequired::High)
        } else if v == "L"@ {
            Some(PrivilegesRequired::Low)
        } else if v == "N"@ {
            Some(PrivilegesRequired::NoPrivileges)
        } else {
            None
        }
    }

    fn metric_type() -> (r: MetricType) {
        MetricType::PR
    }

    fn score(self) -> (r: u64) {
        match self {
            PrivilegesRequired::High => 27,
            PrivilegesRequired::Low => 62,
            PrivilegesRequired::NoPrivileges => 85,
        }
    }

    fn as_str(self) -> (r: &'static str) {
        match self {
            PrivilegesRequired::High => "H",
            PrivilegesRequired::Low => "L",
            PrivilegesRequired::NoPrivileges => "N",
        }
    }

    fn parse(v: &str) -> (r: Option<Self>) {
        if str_eq(v, "H") {
            Some(PrivilegesRequired::High)
        } else if str_eq(v, "L") {
            Some(PrivilegesRequired::Low)
        } else if str_eq(v, "N") {
            Some(PrivilegesRequired::NoPrivileges)
        } else {
            None
        }
    }
}

impl PrivilegesRequired {
    /// The code is one upper-case letter and parses back to this value.
    pub proof fn lemma_code(self)
        ensures
            Self::spec_parse(self.spec_code()) == Some(self),
            self.spec_code().len() == 1,
            'A' <= self.spec_code()[0] <= 'Z',
    {
        reveal_strlit("H");
        assert("H"@[0] == 'H');
        reveal_strlit("L");
        assert("L"@[0] == 'L');
        reveal_strlit("N");
        assert("N"@[0] == 'N');
        match self {
            PrivilegesRequired::High => {}
            PrivilegesRequired::Low => {}
            PrivilegesRequired::NoPrivileges => {}
        }
    }
}

/// User Interaction (UI), CVSS v3.1 Base group.
#[derive(Clone, Copy, Debug, PartialEq, Eq, Structural, Hash)]
pub enum UserInteraction {
    /// Required (R)
    Required,
    /// None (N)
    NoInteraction,
}

impl Metric for UserInteraction {
    open spec fn spec_rank(self) -> int {
        match self {
            UserInteraction::Required => 0,
            UserInteraction::NoInteraction => 1,
        }
    }

    fn rank(self) -> (r: u8) {
        match self {
            UserInteraction::Required => 0,
            UserInteraction::NoInteraction => 1,
        }
    }

    open spec fn spec_type() -> MetricType {
        MetricType::UI
    }

    open spec fn spec_weight(self) -> int {
        match self {
            UserInteraction::Required => 62,
            UserInteraction::NoInteraction => 85,
        }
    }

    open spec fn spec_code(self) -> Seq<char> {
        match self {
            UserInteraction::Required => "R"@,
            UserInteraction::NoInteraction => "N"@,
        }
    }

    open spec fn spec_parse(v: Seq<char>) -> Option<Self> {
        if v == "R"@ {
            Some(UserInteraction::Required)
        } else if v == "N"@ {
            Some(UserInteraction::NoInteraction)
        } else {
            None
        }
    }

    fn metric_type() -> (r: MetricType) {
        MetricType::UI
    }

    fn score(self) -> (r: u64) {
        match self {
            UserInteraction::Required => 62,
            UserInteraction::NoInteraction => 85,
        }
    }

    fn as_str(self) -> (r: &'static str) {
        match self {
            UserInteraction::Required => "R",
            UserInteraction::NoInteraction => "N",
        }
    }

    fn parse(v: &str) -> (r: Option<Self>) {
        if str_eq(v, "R") {
            Some(UserInteraction::Required)
        } else if str_eq(v, "N") {
            Some(UserInteraction::NoInteraction)
        } else {
            None
        }
    }
}

impl UserInteraction {
    /// The code is one upper-case letter and parses back to this value.
    pub proof fn lemma_code(self)
        ensures
            Self::spec_parse(self.spec_code()) == Some(self),
            self.spec_code().len() == 1,
            'A' <= self.spec_code()[0] <= 'Z',
    {
        reveal_strlit("N");
        assert("N"@[0] == 'N');
        reveal_strlit("R");
        assert("R"@[0] == 'R');
        match self {
            UserInteraction::Required => {}
            UserInteraction::NoInteraction => {}
        }
    }
}

/// Scope (S), CVSS v3.1 Base group. It carries no weight of its own: it selects the formula.
#[derive(Clone, Copy, Debug, PartialEq, Eq, Structural, Hash)]
pub enum Scope {
    /// Unchanged (U)
    Unchanged,
    /// Changed (C)
    Changed,
}

impl Metric for Scope {
    open spec fn spec_rank(self) -> int {
        match self {
            Scope::Unchanged => 0,
            Scope::Changed => 1,
        }
    }

    fn rank(self) -> (r: u8) {
        match self {
            Scope::Unchanged => 0,
            Scope::Changed => 1,
        }
    }

    open spec fn spec_type() -> MetricType {
        MetricType::S
    }

    open spec fn spec_weight(self) -> int {
        match self {
            Scope::Unchanged => 0,
            Scope::Changed => 0,
        }
    }

    open spec fn spec_code(self) -> Seq<char> {
        match self {
            Scope::Unchanged => "U"@,
            Scope::Changed => "C"@,
        }
    }

    open spec fn spec_parse(v: Seq<char>) -> Option<Self> {
        if v == "U"@ {
            Some(Scope::Unchanged)
        } else if v == "C"@ {
            Some(Scope::Changed)
        } else {
            None
        }
    }

    fn metric_type() -> (r: MetricType) {
        MetricType::S
    }

    fn score(self) -> (r: u64) {
        match self {
            Scope::Unchanged => 0,
            Scope::Changed => 0,
        }
    }

    fn as_str(self) -> (r: &'static str) {
        match self {
            Scope::Unchanged => "U",
            Scope::Changed => "C",
        }
    }

    fn parse(v: &str) -> (r: Option<Self>) {
        if str_eq(v, "U") {
            Some(Scope::Unchanged)
        } else if str_eq(v, "C") {
            Some(Scope::Changed)
        } else {
            None
        }
    }
}

impl Scope {
    /// The code is one upper-case letter and parses back to this value.
    pub proof fn lemma_code(self)
        ensures
            Self::spec_parse(self.spec_code()) == Some(self),
            self.spec_code().len() == 1,
            'A' <= self.spec_code()[0] <= 'Z',
    {
        reveal_strlit("C");
        assert("C"@[0] == 'C');
        reveal_strlit("U");
        assert("U"@[0] == 'U');
        match self {
            Scope::Unchanged => {}
            Scope::Changed => {}
        }
    }
}

/// Confidentiality Impact (C), CVSS v3.1 Base group.
#[derive(Clone, Copy, Debug, PartialEq, Eq, Structural, Hash)]
pub enum Confidentiality {
    /// None (N)
    NoImpact,
    /// Low (L)
    Low,
    /// High (H)
    High,
}

impl Metric for Confidentiality {
    open spec fn spec_rank(self) -> int {
        match self {
            Confidentiality::NoImpact => 0,
            Confidentiality::Low => 1,
            Confidentiality::High => 2,
        }
    }

    fn rank(self) -> (r: u8) {
        match self {
            Confidentiality::NoImpact => 0,
            Confidentiality::Low => 1,
            Confidentiality::High => 2,
        }
    }

    open spec fn spec_type() -> MetricType {
        MetricType::C
    }

    open spec fn spec_weight(self) -> int {
        match self {
            Confidentiality::NoImpact => 0,
            Confidentiality::Low => 22,
            Confidentiality::High => 56,
        }
    }

    open spec fn spec_code(self) -> Seq<char> {
        match self {
            Confidentiality::NoImpact => "N"@,
            Confidentiality::Low => "L"@,
            Confidentiality::High => "H"@,
        }
    }

    open spec fn spec_parse(v: Seq<char>) -> Option<Self> {
        if v == "N"@ {
            Some(Confidentiality::NoImpact)
        } else if v == "L"@ {
            Some(Confidentiality::Low)
        } else if v == "H"@ {
            Some(Confidentiality::High)
        } else {
            None
        }
    }

    fn metric_type() -> (r: MetricType) {
        MetricType::C
    }

    fn score(self) -> (r: u64) {
        match self {
            Confidentiality::NoImpact => 0,
            Confidentiality::Low => 22,
            Confidentiality::High => 56,
        }
    }

    fn as_str(self) -> (r: &'static str) {
        match self {
            Confidentiality::NoImpact => "N",
            Confidentiality::Low => "L",
            Confidentiality::High => "H",
        }
    }

    fn parse(v: &str) -> (r: Option<Self>) {
        if str_eq(v, "N") {
            Some(Confidentiality::NoImpact)
        } else if str_eq(v, "L") {
            Some(Confidentiality::Low)
        } else if str_eq(v, "H") {
            Some(Confidentiality::High)
        } else {
            None
        }
    }
}

impl Confidentiality {
    /// The code is one upper-case letter and parses back to this value.
    pub proof fn lemma_code(self)
        ensures
            Self::spec_parse(self.spec_code()) == Some(self),
            self.spec_code().len() == 1,
            'A' <= self.spec_code()[0] <= 'Z',
    {
        reveal_strlit("H");
        assert("H"@[0] == 'H');
        reveal_strlit("L");
        assert("L"@[0] == 'L');
        reveal_strlit("N");
        assert("N"@[0] == 'N');
        match self {
            Confidentiality::NoImpact => {}
            Confidentiality::Low => {}
            Confidentiality::High => {}
        }
    }
}

/// Integrity Impact (I), CVSS v3.1 Base group.
#[derive(Clone, Copy, Debug, PartialEq, Eq, Structural, Hash)]
pub enum Integrity {
    /// None (N)
    NoImpact,
    /// Low (L)
    Low,
    /// High (H)
    High,
}

impl Metric for Integrity {
    open spec fn spec_rank(self) -> int {
        match self {
            Integrity::NoImpact => 0,
            Integrity::Low => 1,
            Integrity::High => 2,
        }
    }

    fn rank(self) -> (r: u8) {
        match self {
            Integrity::NoImpact => 0,
            Integrity::Low => 1,
            Integrity::High => 2,
        }
    }

    open spec fn spec_type() -> MetricType {
        MetricType::I
    }

    open spec fn spec_weight(self) -> int {
        match self {
            Integrity::NoImpact => 0,
            Integrity::Low => 22,
            Integrity::High => 56,
        }
    }

    open spec fn spec_code(self) -> Seq<char> {
        match self {
            Integrity::NoImpact => "N"@,
            Integrity::Low => "L"@,
            Integrity::High => "H"@,
        }
    }

    open spec fn spec_parse(v: Seq<char>) -> Option<Self> {
        if v == "N"@ {
            Some(Integrity::NoImpact)
        } else if v == "L"@ {
            Some(Integrity::Low)
        } else if v == "H"@ {
            Some(Integrity::High)
        } else {
            None
        }
    }

    fn metric_type() -> (r: MetricType) {
        MetricType::I
    }

    fn score(self) -> (r: u64) {
        match self {
            Integrity::NoImpact => 0,
            Integrity::Low => 22,
            Integrity::High => 56,
        }
    }

    fn as_str(self) -> (r: &'static str) {
        match self {
            Integrity::NoImpact => "N",
            Integrity::Low => "L",
            Integrity::High => "H",
        }
    }

    fn parse(v: &str) -> (r: Option<Self>) {
        if str_eq(v, "N") {
            Some(Integrity::NoImpact)
        } else if str_eq(v, "L") {
            Some(Integrity::Low)
        } else if str_eq(v, "H") {
            Some(Integrity::High)
        } else {
            None
        }
    }
}

impl Integrity {
    /// The code is one upper-case letter and parses back to this value.
    pub proof fn lemma_code(self)
        ensures
            Self::spec_parse(self.spec_code()) == Some(self),
            self.spec_code().len() == 1,
            'A' <= self.spec_code()[0] <= 'Z',
    {
        reveal_strlit("H");
        assert("H"@[0] == 'H');
        reveal_strlit("L");
        assert("L"@[0] == 'L');
        reveal_strlit("N");
        assert("N"@[0] == 'N');
        match self {
            Integrity::NoImpact => {}
            Integrity::Low => {}
            Integrity::High => {}
        }
    }
}

/// Availability Impact (A), CVSS v3.1 Base group.
#[derive(Clone, Copy, Debug, PartialEq, Eq, Structural, Hash)]
pub enum Availability {
    /// None (N)
    NoImpact,
    /// Low (L)
    Low,
    /// High (H)
    High,
}

impl Metric for Availability {
    open spec fn spec_rank(self) -> int {
        match self {
            Availability::NoImpact => 0,
            Availability::Low => 1,
            Availability::High => 2,
        }
    }

    fn rank(self) -> (r: u8) {
        match self {
            Availability::NoImpact => 0,
            Availability::Low => 1,
            Availability::High => 2,
        }
    }

    open spec fn spec_type() -> MetricType {
        MetricType::A
    }

    open spec fn spec_weight(self) -> int {
        match self {
            Availability::NoImpact => 0,
            Availability::Low => 22,
            Availability::High => 56,
        }
    }

    open spec fn spec_code(self) -> Seq<char> {
        match self {
            Availability::NoImpact => "N"@,
            Availability::Low => "L"@,
            Availability::High => "H"@,
        }
    }

    open spec fn spec_parse(v: Seq<char>) -> Option<Self> {
        if v == "N"@ {
            Some(Availability::NoImpact)
        } else if v == "L"@ {
            Some(Availability::Low)
        } else if v == "H"@ {
            Some(Availability::High)
        } else {
            None
        }
    }

    fn metric_type() -> (r: MetricType) {
        MetricType::A
    }

    fn score(self) -> (r: u64) {
        match self {
            Availability::NoImpact => 0,
            Availability::Low => 22,
            Availability::High => 56,
        }
    }

    fn as_str(self) -> (r: &'static str) {
        match self {
            Availability::NoImpact => "N",
            Availability::Low => "L",
            Availability::High => "H",
        }
    }

    fn parse(v: &str) -> (r: Option<Self>) {
        if str_eq(v, "N") {
            Some(Availability::NoImpact)
        } else if str_eq(v, "L") {
            Some(Availability::Low)
        } else if str_eq(v, "H") {
            Some(Availability::High)
        } else {
            None
        }
    }
}

impl Availability {
    /// The code is one upper-case letter and parses back to this value.
    pub proof fn lemma_code(self)
        ensures
            Self::spec_parse(self.spec_code()) == Some(self),
            self.spec_code().len() == 1,
            'A' <= self.spec_code()[0] <= 'Z',
    {
        reveal_strlit("H");
        assert("H"@[0] == 'H');
        reveal_strlit("L");
        assert("L"@[0] == 'L');
        reveal_strlit("N");
        assert("N"@[0] == 'N');
        match self {
            Availability::NoImpact => {}
            Availability::Low => {}
            Availability::High => {}
        }
    }
}

impl PrivilegesRequired {
    /// The weight in hundredths, which depends on whether the scope changed.
    pub open spec fn spec_scoped_weight(self, changed: bool) -> int {
        match self {
            PrivilegesRequired::High => if changed { 50 } else { 27 },
            PrivilegesRequired::Low => if changed { 68 } else { 62 },
            PrivilegesRequired::NoPrivileges => 85,
        }
    }

    /// The weight in hundredths used in the exploitability formula, given
    /// whether the scope changed.
    pub fn scoped_score(self, changed: bool) -> (r: u64)
        ensures
            r == self.spec_scoped_weight(changed),
    {
        match self {
            PrivilegesRequired::High => if changed { 50 } else { 27 },
            PrivilegesRequired::Low => if changed { 68 } else { 62 },
            PrivilegesRequired::NoPrivileges => 85,
        }
    }
}

impl Scope {
    /// Whether the scope changed.
    pub fn is_changed(self) -> (r: bool)
        ensures
            r == (self == Scope::Changed),
    {
        match self {
            Scope::Unchanged => false,
            Scope::Changed => true,
        }
    }
}

/// Attack Vector values are ordered by weight: Physical < Local < Adjacent
/// < Network, and the comparator of metric values orders them so.
pub proof fn lemma_attack_vector_order()
    ensures
        AttackVector::Physical.spec_weight() < AttackVector::Local.spec_weight(),
        AttackVector::Local.spec_weight() < AttackVector::Adjacent.spec_weight(),
        AttackVector::Adjacent.spec_weight() < AttackVector::Network.spec_weight(),
        spec_compare(AttackVector::Physical, AttackVector::Local) == core::cmp::Ordering::Less,
        spec_compare(AttackVector::Local, AttackVector::Adjacent) == core::cmp::Ordering::Less,
        spec_compare(AttackVector::Adjacent, AttackVector::Network) == core::cmp::Ordering::Less,
        spec_compare(AttackVector::Network, AttackVector::Physical) == core::cmp::Ordering::Greater,
{
}

/// CVSS v3.x Base metric group: the eight mandatory metrics.
#[derive(Clone, Copy, Debug, PartialEq, Eq, Structural, Hash)]
pub struct Base {
    /// Minor component of the version (0 or 1).
    pub minor_version: u8,
    /// Attack Vector (AV)
    pub av: AttackVector,
    /// Attack Complexity (AC)
    pub ac: AttackComplexity,
    /// Privileges Required (PR)
    pub pr: PrivilegesRequired,
    /// User Interaction (UI)
    pub ui: UserInteraction,
    /// Scope (S)
    pub s: Scope,
    /// Confidentiality Impact (C)
    pub c: Confidentiality,
    /// Integrity Impact (I)
    pub i: Integrity,
    /// Availability Impact (A)
    pub a: Availability,
}

/// The Base group read from a table: every one of the eight must be there.
pub open spec fn base_from_metrics(minor: u8, m: Metrics) -> Result<Base, ErrorModel> {
    if m.av is None {
        Err(ErrorModel::MissingMandatoryMetric(MetricType::AV))
    } else if m.ac is None {
        Err(ErrorModel::MissingMandatoryMetric(MetricType::AC))
    } else if m.pr is None {
        Err(ErrorModel::MissingMandatoryMetric(MetricType::PR))
    } else if m.ui is None {
        Err(ErrorModel::MissingMandatoryMetric(MetricType::UI))
    } else if m.s is None {
        Err(ErrorModel::MissingMandatoryMetric(MetricType::S))
    } else if m.c is None {
        Err(ErrorModel::MissingMandatoryMetric(MetricType::C))
    } else if m.i is None {
        Err(ErrorModel::MissingMandatoryMetric(MetricType::I))
    } else if m.a is None {
        Err(ErrorModel::MissingMandatoryMetric(MetricType::A))
    } else {
        Ok(Base {
            minor_version: minor,
            av: m.av->0,
            ac: m.ac->0,
            pr: m.pr->0,
            ui: m.ui->0,
            s: m.s->0,
            c: m.c->0,
            i: m.i->0,
            a: m.a->0,
        })
    }
}

/// The Base group read from a table (see [`base_from_metrics`]).
pub fn base_from_table(minor: u8, m: &Metrics) -> (r: Result<Base, Error>)
    ensures
        result_model(r) == base_from_metrics(minor, *m),
{
    match (m.av, m.ac, m.pr, m.ui, m.s, m.c, m.i, m.a) {
        (Some(av), Some(ac), Some(pr), Some(ui), Some(s), Some(c), Some(i), Some(a)) => Ok(Base {
            minor_version: minor,
            av,
            ac,
            pr,
            ui,
            s,
            c,
            i,
            a,
        }),
        _ => {
            let k = if m.av.is_none() {
                MetricType::AV
            } else if m.ac.is_none() {
                MetricType::AC
            } else if m.pr.is_none() {
                MetricType::PR
            } else if m.ui.is_none() {
                MetricType::UI
            } else if m.s.is_none() {
                MetricType::S
            } else if m.c.is_none() {
                MetricType::C
            } else if m.i.is_none() {
                MetricType::I
            } else {
                MetricType::A
            };
            Err(Error::MissingMandatoryMetric { metric_type: k })
        },
    }
}

impl Base {
    /// The minor version is 0 or 1.
    pub open spec fn wf(self) -> bool {
        self.minor_version <= 1
    }

    /// The table that holds exactly the eight Base metrics.
    pub open spec fn spec_metrics(self) -> Metrics {
        Metrics {
            av: Some(self.av),
            ac: Some(self.ac),
            pr: Some(self.pr),
            ui: Some(self.ui),
            s: Some(self.s),
            c: Some(self.c),
            i: Some(self.i),
            a: Some(self.a),
            ..Metrics::spec_empty()
        }
    }

    /// The table that holds exactly the eight Base metrics.
    pub fn metrics(&self) -> (r: Metrics)
        ensures
            r == self.spec_metrics(),
    {
        Metrics {
            av: Some(self.av),
            ac: Some(self.ac),
            pr: Some(self.pr),
            ui: Some(self.ui),
            s: Some(self.s),
            c: Some(self.c),
            i: Some(self.i),
            a: Some(self.a),
            ..Metrics::empty()
        }
    }

    /// A vector string read as a Base group.
    pub open spec fn spec_parse(s: Seq<char>) -> Result<Base, ErrorModel> {
        match spec_read(s, Group::Base) {
            Err(e) => Err(e),
            Ok((minor, m)) => base_from_metrics(minor, m),
        }
    }

    /// The canonical vector string of this group.
    pub open spec fn spec_to_string(self) -> Seq<char> {
        spec_write(Group::Base, self.minor_version, self.spec_metrics())
    }

    /// Whether the scope changed.
    pub open spec fn spec_scope_changed(self) -> bool {
        self.s == Scope::Changed
    }

    /// Exploitability, in counts of 10^-12.
    pub open spec fn spec_exploitability(self) -> int {
        exploitability_of(
            self.av.spec_weight(),
            self.ac.spec_weight(),
            self.pr.spec_scoped_weight(self.spec_scope_changed()),
            self.ui.spec_weight(),
        )
    }

    /// Impact sub-score, in counts of 10^-12.
    pub open spec fn spec_impact(self) -> int {
        impact_of(self.c.spec_weight(), self.i.spec_weight(), self.a.spec_weight())
    }

    /// The Base score, in tenths.
    pub open spec fn spec_score(self) -> int {
        roundup_spec(raw_score(self.spec_exploitability(), self.spec_impact(), self.spec_scope_changed()))
    }

    /// Parse a vector string `CVSS:3.x/AV:_/AC:_/PR:_/UI:_/S:_/C:_/I:_/A:_`,
    /// components in any order, acronyms and codes in any case.
    pub fn from_str(s: &str) -> (r: Result<Base, Error>)
        ensures
            result_model(r) == Self::spec_parse(s@),
            r is Ok ==> r->Ok_0.wf(),
    {
        match read_vector(s, Group::Base) {
            Err(e) => Err(e),
            Ok((minor, m)) => base_from_table(minor, &m),
        }
    }

    /// The canonical vector string of this group.
    pub fn to_string(&self) -> (r: String)
        ensures
            r@ == self.spec_to_string(),
    {
        write_vector(Group::Base, self.minor_version, &self.metrics())
    }

    /// Has the scope changed?
    pub fn is_scope_changed(&self) -> (r: bool)
        ensures
            r == self.spec_scope_changed(),
    {
        self.s.is_changed()
    }

    /// Exploitability sub-score `8.22 × AV × AC × PR × UI`, in counts of
    /// 10^-12.
    pub fn exploitability(&self) -> (r: u64)
        ensures
            r == self.spec_exploitability(),
            r <= 10 * crate::score::SUB_ONE,
    {
        exploitability(
            self.av.score(),
            self.ac.score(),
            self.pr.scoped_score(self.is_scope_changed()),
            self.ui.score(),
        )
    }

    /// Impact sub-score `1 − (1 − C)(1 − I)(1 − A)`, in counts of 10^-12.
    pub fn impact(&self) -> (r: u64)
        ensures
            r == self.spec_impact(),
            r <= crate::score::SUB_ONE,
    {
        impact(self.c.score(), self.i.score(), self.a.score())
    }

    /// The Base score, between 0.0 and 10.0.
    pub fn score(&self) -> (r: Score)
        ensures
            r.wf(),
            r.tenths == self.spec_score(),
    {
        combine(self.exploitability(), self.impact(), self.is_scope_changed())
    }

    /// The qualitative rating of the Base score.
    pub fn severity(&self) -> (r: Severity)
        ensures
            r == severity_of(self.spec_score()),
    {
        self.score().severity()
    }
}

/// A well-formed Base group, written as its canonical vector string and
/// read back, is the same group.
pub proof fn lemma_base_write_read(b: Base)
    requires
        b.wf(),
    ensures
        Base::spec_parse(b.spec_to_string()) == Ok::<_, ErrorModel>(b),
{
    let m = b.spec_metrics();
    assert forall|k: MetricType| #[trigger] m.spec_has(k) implies allowed(Group::Base, k) by {}
    lemma_read_write(b.minor_version, m, Group::Base);
}

/// Round trip: whenever a vector string reads as a Base group, writing
/// that group back in canonical form and reading it again gives the same
/// group.
pub proof fn lemma_base_round_trip(s: Seq<char>)
    requires
        Base::spec_parse(s) is Ok,
    ensures
        Base::spec_parse(Base::spec_parse(s)->Ok_0.spec_to_string()) == Base::spec_parse(s),
{
    lemma_read_within(s, Group::Base);
    lemma_base_write_read(Base::spec_parse(s)->Ok_0);
}

/// Every Base score lies between 0.0 and 10.0.
pub proof fn lemma_base_score_bounds(b: Base)
    ensures
        0 <= b.spec_score() <= 100,
{
    lemma_raw_score_bounds(b.spec_exploitability(), b.spec_impact(), b.spec_scope_changed());
    lemma_roundup_bounds(raw_score(b.spec_exploitability(), b.spec_impact(), b.spec_scope_changed()));
}

} // verus!
