use nico::rbac::{ExternalUserInfo, InternalRBACRules, Principal};

fn ensure_identical_permissions(princ_a: &Principal, princ_b: &Principal) {
    let rules = InternalRBACRules::new();
    for (rule_name, rule) in rules.perms() {
        let principals = rule.principals();
        if principals.contains(princ_a) {
            assert!(principals.contains(princ_b), "{rule_name} RBAC rule allows {princ_a:?} but not {princ_b:?}");
        } else {
            assert!(!principals.contains(princ_b), "{rule_name} RBAC rule rejects {princ_a:?} but allows {princ_b:?}");
        }
        if principals.contains(princ_b) {
            assert!(principals.contains(princ_a), "{rule_name} RBAC rule allows {princ_b:?} but not {princ_a:?}");
        } else {
            assert!(!principals.contains(princ_a), "{rule_name} RBAC rule rejects {princ_b:?} but allows {princ_a:?}");
        }
    }
}

fn any_user() -> Principal {
    Principal::ExternalUser(ExternalUserInfo::new(None, "any".to_string(), None))
}

#[test]
fn rbac_rule_tests() {
    assert!(InternalRBACRules::allowed_from_static("Version", &[Principal::TrustedCertificate]));
    assert!(InternalRBACRules::allowed_from_static("GetStoragePool", &[any_user()]));
    assert!(!InternalRBACRules::allowed_from_static(
        "GetStoragePool",
        &[Principal::SpiffeMachineIdentifier("foo".to_string())]
    ));
    assert!(InternalRBACRules::allowed_from_static(
        "ReportNicoScoutError",
        &[Principal::SpiffeMachineIdentifier("foo".to_string())]
    ));
    assert!(!InternalRBACRules::allowed_from_static("ReportNicoScoutError", &[any_user()]));
    assert!(InternalRBACRules::allowed_from_static(
        "GetCloudInitInstructions",
        &[Principal::SpiffeServiceIdentifier("nico-pxe".to_string())]
    ));
    assert!(!InternalRBACRules::allowed_from_static(
        "GetCloudInitInstructions",
        &[Principal::SpiffeServiceIdentifier("nico-dns".to_string())]
    ));
    assert!(!InternalRBACRules::allowed_from_static("GetCloudInitInstructions", &[any_user()]));
    assert!(InternalRBACRules::allowed_from_static(
        "CreateVpc",
        &[Principal::SpiffeServiceIdentifier("machine-a-tron".to_string())]
    ));
    assert!(!InternalRBACRules::allowed_from_static(
        "CreateVpc",
        &[Principal::SpiffeServiceIdentifier("nico-dns".to_string())]
    ));

    assert!(InternalRBACRules::allowed_from_static(
        "CreateTenantKeyset",
        &[Principal::SpiffeServiceIdentifier("elektra-site-agent".to_string())]
    ));
    assert!(InternalRBACRules::allowed_from_static(
        "FindNetworkSegmentsByIds",
        &[
            Principal::SpiffeServiceIdentifier("machine-a-tron".to_string()),
            Principal::TrustedCertificate
        ]
    ));

    assert!(InternalRBACRules::allowed_from_static("DiscoverMachine", &[]));

    assert!(InternalRBACRules::allowed_from_static(
        "TrimTable",
        &[Principal::SpiffeServiceIdentifier("nico-maintenance-jobs".to_string())]
    ));

    for method in [
        "GetAllExpectedSwitches",
        "GetAllExpectedSwitchesLinked",
        "GetAllExpectedPowerShelves",
        "GetAllExpectedPowerShelvesLinked",
    ] {
        assert!(
            InternalRBACRules::allowed_from_static(
                method,
                &[Principal::SpiffeServiceIdentifier("elektra-site-agent".to_string())]
            ),
            "{method} should allow SiteAgent"
        );
    }

    assert!(InternalRBACRules::allowed_from_static(
        "SetMaintenance",
        &[Principal::SpiffeServiceIdentifier("nico-flow".to_string())]
    ));
    assert!(InternalRBACRules::allowed_from_static(
        "InsertMachineHealthReport",
        &[Principal::SpiffeServiceIdentifier("nico-flow".to_string())]
    ));
    assert!(InternalRBACRules::allowed_from_static(
        "RemoveMachineHealthReport",
        &[Principal::SpiffeServiceIdentifier("nico-flow".to_string())]
    ));
    assert!(InternalRBACRules::allowed_from_static(
        "MachineSetAutoUpdate",
        &[Principal::SpiffeServiceIdentifier("nico-flow".to_string())]
    ));
    for method in ["FindMacAddressByBmcIp", "GetBmcCredentials"] {
        assert!(
            InternalRBACRules::allowed_from_static(
                method,
                &[Principal::SpiffeServiceIdentifier("nico-bmc-proxy".to_string())]
            ),
            "{method} should allow bmc-proxy"
        );
    }

    ensure_identical_permissions(
        &Principal::SpiffeServiceIdentifier("nico-ssh-console".to_string()),
        &Principal::SpiffeServiceIdentifier("nico-ssh-console-rs".to_string()),
    );

    for (nico, carbide) in [
        ("nico-dns", "carbide-dns"),
        ("nico-dhcp", "carbide-dhcp"),
        ("nico-ssh-console", "carbide-ssh-console"),
        ("nico-ssh-console-rs", "carbide-ssh-console-rs"),
        ("nico-pxe", "carbide-pxe"),
        ("nico-bmc-proxy", "carbide-bmc-proxy"),
        ("nico-hardware-health", "carbide-hardware-health"),
        ("nico-flow", "carbide-flow"),
        ("nico-maintenance-jobs", "carbide-maintenance-jobs"),
        ("nico-dsx-exchange-consumer", "carbide-dsx-exchange-consumer"),
    ] {
        ensure_identical_permissions(
            &Principal::SpiffeServiceIdentifier(nico.to_string()),
            &Principal::SpiffeServiceIdentifier(carbide.to_string()),
        );
    }
}

#[test]
fn unknown_request_is_refused() {
    assert!(!InternalRBACRules::allowed_from_static("NoSuchRequest", &[Principal::TrustedCertificate]));
    assert!(!InternalRBACRules::allowed_from_static("NoSuchRequest", &[]));
}

#[test]
fn more_principals_never_lose_access() {
    let one = [Principal::SpiffeServiceIdentifier("nico-pxe".to_string())];
    let two = [
        Principal::SpiffeServiceIdentifier("nico-pxe".to_string()),
        Principal::SpiffeMachineIdentifier("m".to_string()),
    ];
    assert!(InternalRBACRules::allowed_from_static("GetCloudInitInstructions", &one));
    assert!(InternalRBACRules::allowed_from_static("GetCloudInitInstructions", &two));
}

#[test]
fn anonymous_only_request_needs_no_principal() {
    assert!(InternalRBACRules::allowed_from_static("DiscoverMachine", &[any_user()]));
}

#[test]
fn rule_table_is_keyed_once_per_request() {
    let rules = InternalRBACRules::new();
    let mut names: Vec<&str> = rules.perms().iter().map(|(n, _)| n.as_str()).collect();
    let total = names.len();
    names.sort();
    names.dedup();
    assert_eq!(names.len(), total);
}
