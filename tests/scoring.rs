use cvss_core::metric::{compare, Metric};
use std::cmp::Ordering;
use cvss_core::score::{combine, exploitability, impact, Score, Severity, SUB_ONE};
use cvss_core::v3::base::{AttackVector, Base, Confidentiality, PrivilegesRequired, Scope};
use cvss_core::v3::environmental::{AvailabilityRequirement, Environmental};
use cvss_core::v3::temporal::{ExploitCodeMaturity, Temporal};

fn base(s: &str) -> Base {
    Base::from_str(s).expect("valid vector")
}

#[test]
fn reference_vector_critical() {
    let b = base("CVSS:3.1/AV:N/AC:L/PR:N/UI:N/S:U/C:H/I:H/A:H");
    assert_eq!(b.score().value(), 98);
    assert_eq!(b.severity(), Severity::Critical);
}

#[test]
fn reference_vector_scope_changed_user_interaction() {
    // 1.08 × (7.52 × (ISS − 0.029) − 3.25 × (ISS − 0.02)^15 + 8.22 × 0.85 × 0.77 × 0.85 × 0.62)
    let b = base("CVSS:3.1/AV:N/AC:L/PR:N/UI:R/S:C/C:H/I:H/A:H");
    assert_eq!(b.score().value(), 96);
    assert_eq!(b.severity(), Severity::Critical);
}

#[test]
fn reference_vector_scope_changed_clamps_at_ten() {
    let b = base("CVSS:3.1/AV:N/AC:L/PR:N/UI:N/S:C/C:H/I:H/A:H");
    assert_eq!(b.score().value(), 100);
    assert_eq!(b.severity(), Severity::Critical);
}

#[test]
fn reference_vector_low() {
    let b = base("CVSS:3.1/AV:P/AC:H/PR:H/UI:R/S:U/C:N/I:N/A:L");
    assert_eq!(b.score().value(), 16);
    assert_eq!(b.severity(), Severity::Low);
}

#[test]
fn scope_changed_partial_impacts() {
    assert_eq!(base("CVSS:3.1/AV:L/AC:L/PR:L/UI:N/S:C/C:L/I:L/A:N").score().value(), 52);
    assert_eq!(base("CVSS:3.1/AV:N/AC:L/PR:L/UI:N/S:C/C:H/I:N/A:N").score().value(), 77);
}

#[test]
fn no_impact_scores_zero() {
    let b = base("CVSS:3.1/AV:N/AC:L/PR:N/UI:N/S:U/C:N/I:N/A:N");
    assert_eq!(b.score().value(), 0);
    assert_eq!(b.severity(), Severity::Nil);
    let c = base("CVSS:3.1/AV:N/AC:L/PR:N/UI:N/S:C/C:N/I:N/A:N");
    assert_eq!(c.score().value(), 0);
}

#[test]
fn sub_scores_are_exact() {
    let b = base("CVSS:3.1/AV:N/AC:L/PR:N/UI:N/S:U/C:H/I:H/A:H");
    // 8.22 × 0.85 × 0.77 × 0.85 × 0.85 = 3.887042775
    assert_eq!(b.exploitability(), 3_887_042_775_000);
    // 1 − 0.44^3 = 0.914816
    assert_eq!(b.impact(), 914_816_000_000);
    assert_eq!(exploitability(85, 77, 85, 85), 3_887_042_775_000);
    assert_eq!(impact(56, 56, 56), 914_816_000_000);
}

#[test]
fn privileges_required_depends_on_scope() {
    assert_eq!(PrivilegesRequired::High.scoped_score(false), 27);
    assert_eq!(PrivilegesRequired::High.scoped_score(true), 50);
    assert_eq!(PrivilegesRequired::Low.scoped_score(false), 62);
    assert_eq!(PrivilegesRequired::Low.scoped_score(true), 68);
    assert_eq!(PrivilegesRequired::NoPrivileges.scoped_score(true), 85);
    assert!(Scope::Changed.is_changed());
    assert!(!Scope::Unchanged.is_changed());
}

#[test]
fn scores_stay_within_bounds() {
    for s in [
        "CVSS:3.1/AV:N/AC:L/PR:N/UI:N/S:C/C:H/I:H/A:H",
        "CVSS:3.0/AV:P/AC:H/PR:H/UI:R/S:U/C:N/I:N/A:N",
        "CVSS:3.1/AV:A/AC:H/PR:L/UI:R/S:C/C:L/I:H/A:N",
    ] {
        let v = base(s).score().value();
        assert!(v <= 100);
    }
    assert_eq!(combine(10 * SUB_ONE, SUB_ONE, true).value(), 100);
    assert_eq!(combine(0, 0, false).value(), 0);
}

#[test]
fn rounding_goes_up_and_is_idempotent() {
    let one_tenth: u128 = 100_000_000_000_000_000;
    // 9.760161495 rounds to 9.8
    let r = Score::roundup(9_760_161_495_000_000_000);
    assert_eq!(r.value(), 98);
    assert_eq!(Score::roundup(r.value() as u128 * one_tenth).value(), 98);
    // 4.00001 rounds up, never down
    assert_eq!(Score::roundup(4_000_010_000_000_000_000).value(), 41);
    assert_eq!(Score::roundup(4 * 10 * one_tenth).value(), 40);
    assert_eq!(Score::roundup(0).value(), 0);
    assert_eq!(Score::roundup(1).value(), 1);
}

#[test]
fn severity_thresholds() {
    assert_eq!(Score::new(0).severity(), Severity::Nil);
    assert_eq!(Score::new(1).severity(), Severity::Low);
    assert_eq!(Score::new(39).severity(), Severity::Low);
    assert_eq!(Score::new(40).severity(), Severity::Medium);
    assert_eq!(Score::new(69).severity(), Severity::Medium);
    assert_eq!(Score::new(70).severity(), Severity::High);
    assert_eq!(Score::new(89).severity(), Severity::High);
    assert_eq!(Score::new(90).severity(), Severity::Critical);
    assert_eq!(Score::new(100).severity(), Severity::Critical);
    assert_eq!(Severity::Medium.as_str(), "medium");
}

#[test]
fn attack_vector_weights_are_ordered() {
    let order = [AttackVector::Physical, AttackVector::Local, AttackVector::Adjacent, AttackVector::Network];
    for w in order.windows(2) {
        assert!(w[0].score() < w[1].score());
    }
    assert_eq!(Confidentiality::NoImpact.score(), 0);
}

#[test]
fn temporal_score_multiplies_and_rounds() {
    let t = Temporal::from_str("CVSS:3.1/AV:N/AC:L/PR:N/UI:N/S:U/C:H/I:H/A:H/E:U/RL:O/RC:U").unwrap();
    assert_eq!(t.e, Some(ExploitCodeMaturity::Unproven));
    // 9.8 × 0.91 × 0.95 × 0.92 = 7.794332
    assert_eq!(t.score().value(), 78);
    let plain = Temporal::from_str("CVSS:3.1/AV:N/AC:L/PR:N/UI:N/S:U/C:H/I:H/A:H").unwrap();
    assert_eq!(plain.score().value(), 98);
    let not_defined = Temporal::from_str("CVSS:3.1/AV:N/AC:L/PR:N/UI:N/S:U/C:H/I:H/A:H/E:X").unwrap();
    assert_eq!(not_defined.score().value(), 98);
    assert_eq!(t.severity(), Severity::High);
}

#[test]
fn environmental_requirements_scale_impact() {
    let e = Environmental::from_str("CVSS:3.1/AV:N/AC:L/PR:N/UI:N/S:U/C:H/I:H/A:H/CR:L/IR:L/AR:L").unwrap();
    assert_eq!(e.ar, Some(AvailabilityRequirement::Low));
    // 1 − (1 − 0.28)^3 = 0.626752
    assert_eq!(e.impact(), 626_752_000_000);
    assert_eq!(e.score().value(), 80);
    assert_eq!(e.severity(), Severity::High);
}

#[test]
fn environmental_modified_metric_supersedes_base() {
    let e = Environmental::from_str("CVSS:3.1/AV:N/AC:L/PR:N/UI:N/S:U/C:H/I:H/A:H/MAV:P").unwrap();
    assert_eq!(e.mav, Some(AttackVector::Physical));
    assert_eq!(e.exploitability(), exploitability(20, 77, 85, 85));
    assert_eq!(e.score().value(), 68);
    let same = Environmental::from_str("CVSS:3.1/AV:N/AC:L/PR:N/UI:N/S:U/C:H/I:H/A:H").unwrap();
    assert_eq!(same.score().value(), 98);
    assert!(!same.is_scope_changed());
    let changed = Environmental::from_str("CVSS:3.1/AV:N/AC:L/PR:N/UI:N/S:U/C:H/I:H/A:H/MS:C").unwrap();
    assert!(changed.is_scope_changed());
    assert_eq!(changed.score().value(), 100);
}

#[test]
fn comparator_orders_by_weight_then_declaration() {
    let mut values = vec![AttackVector::Network, AttackVector::Physical, AttackVector::Adjacent, AttackVector::Local];
    values.sort_by(|a, b| compare(*a, *b));
    assert_eq!(values, vec![AttackVector::Physical, AttackVector::Local, AttackVector::Adjacent, AttackVector::Network]);
    assert_eq!(compare(ExploitCodeMaturity::Unproven, ExploitCodeMaturity::ProofOfConcept), Ordering::Less);
    assert_eq!(compare(ExploitCodeMaturity::NotDefined, ExploitCodeMaturity::High), Ordering::Less);
    assert_eq!(compare(ExploitCodeMaturity::High, ExploitCodeMaturity::High), Ordering::Equal);
}
