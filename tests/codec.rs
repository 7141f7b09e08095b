use cvss_core::error::Error;
use cvss_core::metric::{Metric, MetricType};
use cvss_core::v3::base::{AttackComplexity, AttackVector, Base, Integrity, Scope};
use cvss_core::v3::environmental::{ConfidentialityRequirement, Environmental};
use cvss_core::v3::temporal::{ExploitCodeMaturity, RemediationLevel, Temporal};

const FULL: &str = "CVSS:3.1/AV:N/AC:L/PR:N/UI:N/S:U/C:H/I:H/A:H";

#[test]
fn parses_all_eight_metrics() {
    let b = Base::from_str(FULL).unwrap();
    assert_eq!(b.minor_version, 1);
    assert_eq!(b.av, AttackVector::Network);
    assert_eq!(b.ac, AttackComplexity::Low);
    assert_eq!(b.s, Scope::Unchanged);
    assert_eq!(b.i, Integrity::High);
    assert_eq!(b.to_string(), FULL);
}

#[test]
fn serialization_is_canonical() {
    let b = Base::from_str("CVSS:3.0/a:h/i:h/c:h/s:u/ui:n/pr:n/ac:l/av:n").unwrap();
    assert_eq!(b.minor_version, 0);
    assert_eq!(b.to_string(), "CVSS:3.0/AV:N/AC:L/PR:N/UI:N/S:U/C:H/I:H/A:H");
}

#[test]
fn round_trip_reparses_equal() {
    for s in [
        FULL,
        "CVSS:3.1/S:C/AV:L/AC:H/PR:L/UI:R/C:L/I:N/A:H",
        "CVSS:3.0/av:p/ac:h/pr:h/ui:r/s:u/c:n/i:n/a:l",
    ] {
        let b = Base::from_str(s).unwrap();
        let again = Base::from_str(&b.to_string()).unwrap();
        assert_eq!(b, again);
        assert_eq!(again.to_string(), b.to_string());
    }
    let t = Temporal::from_str("CVSS:3.1/RC:R/AV:N/AC:L/PR:N/UI:N/S:U/C:H/I:H/A:H/E:F/RL:W").unwrap();
    assert_eq!(t.to_string(), "CVSS:3.1/AV:N/AC:L/PR:N/UI:N/S:U/C:H/I:H/A:H/E:F/RL:W/RC:R");
    assert_eq!(Temporal::from_str(&t.to_string()).unwrap(), t);
    let e = Environmental::from_str("CVSS:3.1/AV:N/AC:L/PR:N/UI:N/S:U/C:H/I:H/A:H/MA:N/CR:H/MAV:A").unwrap();
    assert_eq!(e.to_string(), "CVSS:3.1/AV:N/AC:L/PR:N/UI:N/S:U/C:H/I:H/A:H/CR:H/MAV:A/MA:N");
    assert_eq!(Environmental::from_str(&e.to_string()).unwrap(), e);
}

#[test]
fn missing_mandatory_metric() {
    assert_eq!(
        Base::from_str("CVSS:3.1/AV:N"),
        Err(Error::MissingMandatoryMetric { metric_type: MetricType::AC })
    );
    assert_eq!(
        Base::from_str("CVSS:3.1/AV:N/AC:L/PR:N/UI:N/S:U/C:H/I:H"),
        Err(Error::MissingMandatoryMetric { metric_type: MetricType::A })
    );
}

#[test]
fn unsupported_version() {
    assert_eq!(
        Base::from_str("CVSS:2.0/AV:N/AC:L/PR:N/UI:N/S:U/C:H/I:H/A:H"),
        Err(Error::UnsupportedVersion { version: "2.0".to_string() })
    );
}

#[test]
fn invalid_prefix() {
    assert_eq!(
        Base::from_str("XX:3.1/AV:N/AC:L/PR:N/UI:N/S:U/C:H/I:H/A:H"),
        Err(Error::InvalidPrefix { prefix: "XX".to_string() })
    );
}

#[test]
fn unknown_metric() {
    assert_eq!(
        Base::from_str("CVSS:3.1/ZZ:N/AV:N/AC:L/PR:N/UI:N/S:U/C:H/I:H/A:H"),
        Err(Error::UnknownMetric { name: "ZZ".to_string() })
    );
    // a Temporal metric is no Base metric
    assert_eq!(
        Base::from_str("CVSS:3.1/AV:N/AC:L/PR:N/UI:N/S:U/C:H/I:H/A:H/E:F"),
        Err(Error::UnknownMetric { name: "E".to_string() })
    );
}

#[test]
fn invalid_component() {
    assert_eq!(
        Base::from_str("CVSS:3.1/AV/AC:L"),
        Err(Error::InvalidComponent { component: "AV".to_string() })
    );
    assert_eq!(
        Base::from_str("CVSS:3.1/AV:N:X/AC:L"),
        Err(Error::InvalidComponent { component: "AV:N:X".to_string() })
    );
    assert_eq!(Base::from_str(""), Err(Error::InvalidComponent { component: "".to_string() }));
}

#[test]
fn invalid_metric_value() {
    assert_eq!(
        Base::from_str("CVSS:3.1/AV:Q/AC:L/PR:N/UI:N/S:U/C:H/I:H/A:H"),
        Err(Error::InvalidMetric { metric_type: MetricType::AV, value: "Q".to_string() })
    );
}

#[test]
fn duplicate_metric() {
    assert_eq!(
        Base::from_str("CVSS:3.1/AV:N/AV:L/AC:L/PR:N/UI:N/S:U/C:H/I:H/A:H"),
        Err(Error::DuplicateMetric { metric_type: MetricType::AV })
    );
}

#[test]
fn lower_case_input_is_upper_cased() {
    let lower = Base::from_str("CVSS:3.1/av:n/ac:l/pr:n/ui:n/s:u/c:h/i:h/a:h").unwrap();
    assert_eq!(lower, Base::from_str(FULL).unwrap());
    assert_eq!(
        Base::from_str("CVSS:3.1/zz:n"),
        Err(Error::UnknownMetric { name: "ZZ".to_string() })
    );
}

#[test]
fn metric_type_registry() {
    assert_eq!(MetricType::AV.name(), "AV");
    assert_eq!(MetricType::PR.description(), "Privileges Required");
    assert_eq!(MetricType::MAV.name(), "MAV");
    assert_eq!(MetricType::lookup("RC"), Some(MetricType::RC));
    assert_eq!(MetricType::lookup("av"), None);
    assert_eq!(MetricType::from_name("CR"), Ok(MetricType::CR));
    assert_eq!(MetricType::from_name("XY"), Err(Error::UnknownMetric { name: "XY".to_string() }));
}

#[test]
fn metric_values_parse_and_print() {
    assert_eq!(ExploitCodeMaturity::parse("F"), Some(ExploitCodeMaturity::Functional));
    assert_eq!(ExploitCodeMaturity::Functional.score(), 97);
    assert_eq!(ExploitCodeMaturity::default(), ExploitCodeMaturity::NotDefined);
    assert_eq!(ExploitCodeMaturity::NotDefined.score(), 100);
    assert_eq!(RemediationLevel::OfficialFix.as_str(), "O");
    assert_eq!(ConfidentialityRequirement::parse("H"), Some(ConfidentialityRequirement::High));
    assert_eq!(ConfidentialityRequirement::High.score(), 150);
    assert_eq!(ConfidentialityRequirement::parse("Z"), None);
    assert_eq!(AttackVector::metric_type(), MetricType::AV);
    assert_eq!(<AttackVector as Metric>::name(), "AV");
    assert_eq!(<ExploitCodeMaturity as Metric>::name(), "E");
    assert_eq!(cvss_core::v4::base::AttackVector::Network.score(), 85);
    assert_eq!(cvss_core::v4::base::AttackComplexity::default(), cvss_core::v4::base::AttackComplexity::High);
    assert_eq!(cvss_core::v4::base::AttackComplexity::parse("L"), Some(cvss_core::v4::base::AttackComplexity::Low));
}
