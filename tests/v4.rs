use cvss_core::error::Error;
use cvss_core::metric::MetricType;
use cvss_core::v4::base::{AttackComplexity, AttackVector, Base};

#[test]
fn v4_base_parses_and_prints() {
    let b = Base::from_str("CVSS:4.0/ac:h/av:a").unwrap();
    assert_eq!(b, Base { av: AttackVector::Adjacent, ac: AttackComplexity::High });
    assert_eq!(b.to_string(), "CVSS:4.0/AV:A/AC:H");
    assert_eq!(Base::from_str(&b.to_string()).unwrap(), b);
}

#[test]
fn v4_base_rejects() {
    assert_eq!(
        Base::from_str("CVSS:3.1/AV:N/AC:L"),
        Err(Error::UnsupportedVersion { version: "3.1".to_string() })
    );
    assert_eq!(
        Base::from_str("CVSS:4.0/AV:N/AC:L/PR:N"),
        Err(Error::UnknownMetric { name: "PR".to_string() })
    );
    assert_eq!(
        Base::from_str("CVSS:4.0/AV:N"),
        Err(Error::MissingMandatoryMetric { metric_type: MetricType::AC })
    );
    assert_eq!(
        cvss_core::v3::Base::from_str("CVSS:4.0/AV:N/AC:L/PR:N/UI:N/S:U/C:H/I:H/A:H"),
        Err(Error::UnsupportedVersion { version: "4.0".to_string() })
    );
}
