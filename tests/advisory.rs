use cvss_core::advisory::{
    classify_reference, cvss_action, distinct, find, CvssAction, OutputMode, ReferenceKind,
    UpdateAdvisoriesCmd,
};
use cvss_core::v3::base::Base;

fn base(s: &str) -> Base {
    Base::from_str(s).unwrap()
}

#[test]
fn repo_path_from_arguments() {
    let none = UpdateAdvisoriesCmd { github_action_output: false, path: vec![] };
    assert_eq!(none.repo_path(), Some(".".to_string()));
    assert_eq!(none.output_mode(), OutputMode::HumanReadable);
    let one = UpdateAdvisoriesCmd { github_action_output: true, path: vec!["db".to_string()] };
    assert_eq!(one.repo_path(), Some("db".to_string()));
    assert_eq!(one.output_mode(), OutputMode::GithubAction);
    let two = UpdateAdvisoriesCmd { github_action_output: false, path: vec!["a".to_string(), "b".to_string()] };
    assert_eq!(two.repo_path(), None);
}

#[test]
fn candidates_are_deduplicated() {
    let a = base("CVSS:3.1/AV:N/AC:L/PR:N/UI:N/S:U/C:H/I:H/A:H");
    let b = base("CVSS:3.1/AV:L/AC:L/PR:N/UI:N/S:U/C:H/I:H/A:H");
    assert_eq!(distinct(&vec![a, b, a, a, b]), vec![a, b]);
    assert_eq!(distinct(&vec![]), Vec::<Base>::new());
}

#[test]
fn cvss_decision() {
    let a = base("CVSS:3.1/AV:N/AC:L/PR:N/UI:N/S:U/C:H/I:H/A:H");
    let b = base("CVSS:3.1/AV:L/AC:L/PR:N/UI:N/S:U/C:H/I:H/A:H");
    assert_eq!(cvss_action(Some(a), &vec![]), CvssAction::NoCandidate);
    assert_eq!(cvss_action(Some(a), &vec![a, a]), CvssAction::Unchanged);
    assert_eq!(cvss_action(Some(a), &vec![b]), CvssAction::Update(b));
    assert_eq!(cvss_action(None, &vec![b, b]), CvssAction::Add(b));
    assert_eq!(cvss_action(None, &vec![a, b, a]), CvssAction::Inconsistent(2));
}

#[test]
fn references_are_classified() {
    assert_eq!(classify_reference("https://rustsec.org/advisories/RUSTSEC-2020-0001"), ReferenceKind::Known);
    assert_eq!(classify_reference("https://crates.io/crates/foo"), ReferenceKind::Known);
    assert_eq!(
        classify_reference("https://github.com/advisories/GHSA-abcd-efgh-ijkl/more"),
        ReferenceKind::Ghsa("GHSA-abcd-efgh-ijkl".to_string())
    );
    assert_eq!(classify_reference("https://github.com/advisories/GHSA-ab"), ReferenceKind::Other);
    assert_eq!(classify_reference("https://example.com/bug/1"), ReferenceKind::Other);
    assert_eq!(find("abcabc", "ca"), Some(2));
    assert_eq!(find("abc", "x"), None);
}
