use nico::upgrade_policy::{AgentUpgradePolicy, BuildVersion, BuildVersionError};

#[test]
fn test_parse_version() {
    // Date-based versions
    assert_eq!(
        BuildVersion::try_from("v2023.08-92-g1b48e8b6").unwrap(),
        BuildVersion { version: "2023.08", rc: "", hotfix: 0, commits: 92, git_hash: "g1b48e8b6" }
    );

    assert_eq!(
        BuildVersion::try_from("v2023.09-rc1-27-gc3ce4d5d").unwrap(),
        BuildVersion { version: "2023.09", rc: "rc1", hotfix: 0, commits: 27, git_hash: "gc3ce4d5d" }
    );

    assert_eq!(
        BuildVersion::try_from("v2023.08").unwrap(),
        BuildVersion { version: "2023.08", rc: "", hotfix: 0, commits: 0, git_hash: "" }
    );

    // Semver versions
    assert_eq!(
        BuildVersion::try_from("v0.0.4-rc4-0-g2a3c98cac").unwrap(),
        BuildVersion { version: "0.0.4", rc: "rc4", hotfix: 0, commits: 0, git_hash: "g2a3c98cac" }
    );

    assert_eq!(
        BuildVersion::try_from("v1.2.3").unwrap(),
        BuildVersion { version: "1.2.3", rc: "", hotfix: 0, commits: 0, git_hash: "" }
    );

    assert_eq!(
        BuildVersion::try_from("v0.0.4-rc1-0").unwrap(),
        BuildVersion { version: "0.0.4", rc: "rc1", hotfix: 0, commits: 0, git_hash: "" }
    );

    // Too many dashes
    assert!(BuildVersion::try_from("v2023.08-rc1-0-3-g123eff-x").is_err());

    // No version
    assert!(BuildVersion::try_from("v-rc1").is_err());
}

#[test]
fn test_compare_versions() {
    // In the correct order; the right-hand side is how the version is written back where
    // that differs from the input.
    let versions: &[(&str, Option<&str>)] = &[
        ("v2023.04", None),
        ("v2023.04.01", None),
        ("v2023.04.01-1-g17e5c956", None),
        ("v2023.06-rc2-1-gc5c05de3", Some("v2023.06-rc2-0-1-gc5c05de3")),
        ("v2023.08", None),
        ("v2023.08-14-gbc549a66", None),
        ("v2023.08-89-gd73315bc", None),
        ("v2023.08-92-g1b48e8b6", None),
        ("v2023.09-89-gd73315bc", None),
        ("v2023.09-rc1", Some("v2023.09-rc1-0")),
        ("v2023.09-rc1-1-g681e499f", Some("v2023.09-rc1-0-1-g681e499f")),
        ("v2023.09-rc1-27-gc3ce4d5d", Some("v2023.09-rc1-0-27-gc3ce4d5d")),
        ("v2024.05-rc3-0", None),
        ("v2024.05.02-rc3-0", None),
        ("v2024.05.02-rc4-0-27-gc3ce4d5d", None),
        ("v2024.05.10-rc1-0-3-g6497fef4d", None),
        ("v2024.05.10-rc1-3", None),
        ("v0.0.1", None),
        ("v0.0.4-rc1-0", None),
        ("v0.0.4-rc4-0-g2a3c98cac", None),
        ("v0.0.5", None),
        ("v1.0.0", None),
        ("v1.2.3-rc1-0", None),
    ];

    // A fixed shuffle: reversed, then every other element swapped with its neighbour.
    let mut t: Vec<BuildVersion> = versions.iter().rev().map(|v| BuildVersion::try_from(v.0).unwrap()).collect();
    let mut i = 0;
    while i + 1 < t.len() {
        t.swap(i, i + 1);
        i += 2;
    }
    t.sort_by(|a, b| a.cmp(b));

    for (i, (expect_normal, expect_different)) in versions.iter().enumerate() {
        let got = t[i].to_string();
        let expect = expect_different.unwrap_or(expect_normal);
        if got != expect {
            panic!("Pos {i} does not match. Got {got} expected {expect}.");
        }
    }
}

#[test]
fn test_semver_comparison() {
    let v0_0_1 = BuildVersion::try_from("v0.0.1").unwrap();
    let v0_0_4 = BuildVersion::try_from("v0.0.4-rc4-0-g2a3c98cac").unwrap();
    let v1_0_0 = BuildVersion::try_from("v1.0.0").unwrap();
    let v_date = BuildVersion::try_from("v2024.05.10-rc1-3").unwrap();

    // Semver ordering
    assert!(v0_0_1 < v0_0_4);
    assert!(v0_0_4 < v1_0_0);

    // Semver is always newer than date-based
    assert!(v_date < v0_0_1);
}

#[test]
fn build_version_errors() {
    assert_eq!(BuildVersion::try_from("").unwrap_err(), BuildVersionError::Empty);
    assert_eq!(BuildVersion::try_from("2023.08").unwrap_err(), BuildVersionError::MissingLeadingV);
    assert_eq!(BuildVersion::try_from("v").unwrap_err(), BuildVersionError::MissingVersionNumber);
    assert_eq!(BuildVersion::try_from("vx1").unwrap_err(), BuildVersionError::NotADigit);
    assert_eq!(BuildVersion::try_from("v1-a-1-2-3-4").unwrap_err(), BuildVersionError::TooManyParts(6));
    assert_eq!(
        BuildVersion::try_from("v1-a-1-2-3-4").unwrap_err().to_string(),
        "Invalid build version. Has 6 dash-separated parts."
    );
}

#[test]
fn unreadable_counts_are_errors() {
    assert_eq!(BuildVersion::try_from("v2023.08-9x-gabc").unwrap_err(), BuildVersionError::NotANumber);
    assert_eq!(BuildVersion::try_from("v1.0-rc1-x").unwrap_err(), BuildVersionError::NotANumber);
    assert_eq!(BuildVersion::try_from("v1.0-rc1-x-gabc").unwrap_err(), BuildVersionError::NotANumber);
    assert_eq!(BuildVersion::try_from("v1.0-rc1-0-x-gabc").unwrap_err(), BuildVersionError::NotANumber);
    assert_eq!(BuildVersion::try_from("v1.0--x").unwrap_err(), BuildVersionError::EmptyPart);
    assert_eq!(
        BuildVersion::try_from("v1.0-rc1-x").unwrap_err().to_string(),
        "Build version has a count that is not a number"
    );
    assert_eq!(BuildVersion::try_from("v2023.08-92-gabc").unwrap().commits, 92);
}

#[test]
fn malformed_agent_version_forces_upgrade() {
    assert!(AgentUpgradePolicy::UpOnly.should_upgrade("v1.0-rc1-x", "v2023.08"));
    assert!(!AgentUpgradePolicy::UpOnly.should_upgrade("v2023.08", "v1.0-rc1-x"));
}

#[test]
fn equal_versions_compare_equal() {
    let a = BuildVersion::try_from("v2023.09-rc1-27-gc3ce4d5d").unwrap();
    let b = BuildVersion::try_from("v2023.09-rc1-27-gc3ce4d5d").unwrap();
    assert_eq!(a.cmp(&b), std::cmp::Ordering::Equal);
    assert_eq!(a, b);
}

#[test]
fn upgrade_policies() {
    assert!(!AgentUpgradePolicy::Off.should_upgrade("v2023.08", "v2023.09"));
    assert!(AgentUpgradePolicy::UpDown.should_upgrade("v2023.09", "v2023.08"));
    assert!(!AgentUpgradePolicy::UpDown.should_upgrade("v2023.09", "v2023.09"));
    assert!(AgentUpgradePolicy::UpOnly.should_upgrade("v2023.08", "v2023.09"));
    assert!(!AgentUpgradePolicy::UpOnly.should_upgrade("v2023.09", "v2023.08"));
    assert!(AgentUpgradePolicy::UpOnly.should_upgrade("v2024.05.10-rc1-3", "v0.0.1"));
}

#[test]
fn policy_names_round_trip() {
    for p in [AgentUpgradePolicy::Off, AgentUpgradePolicy::UpOnly, AgentUpgradePolicy::UpDown] {
        let name = p.to_string();
        assert_eq!(AgentUpgradePolicy::from(name.as_str()), p);
    }
}
