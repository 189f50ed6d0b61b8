use nico::startup::{
    check_deny_prefixes, credential_reader_chain, credential_store_kind, migrate_bmc_proxy, networks_overlap,
    CredentialReaderKind, CredentialStoreKind, HostPortPair, IpNet, Ipv4Net, ProxyMigration,
};

fn net(a: u8, b: u8, c: u8, d: u8, prefix: u8) -> Ipv4Net {
    Ipv4Net { addr: u32::from_be_bytes([a, b, c, d]), prefix }
}

#[test]
fn network_overlap() {
    assert!(networks_overlap(net(10, 0, 0, 0, 8), net(10, 1, 2, 0, 24)));
    assert!(networks_overlap(net(10, 1, 2, 0, 24), net(10, 0, 0, 0, 8)));
    assert!(!networks_overlap(net(10, 0, 0, 0, 24), net(10, 0, 1, 0, 24)));
    assert!(networks_overlap(net(0, 0, 0, 0, 0), net(192, 168, 0, 1, 32)));
    assert!(networks_overlap(net(10, 0, 0, 5, 24), net(10, 0, 0, 200, 25)));
}

#[test]
fn deny_prefixes_must_not_overlap_the_fabric() {
    let deny = vec![net(192, 168, 0, 0, 16), net(10, 0, 0, 0, 8)];
    let site = vec![IpNet::V6("fd00::/8".to_string()), IpNet::V4(net(10, 1, 0, 0, 16)), IpNet::V4(net(10, 2, 0, 0, 16))];
    assert_eq!(
        check_deny_prefixes(&deny, &site).unwrap_err(),
        "overlap found in deny_prefixes `10.0.0.0/8` and site_fabric_prefixes `10.1.0.0/16`"
    );
    let site = vec![IpNet::V4(net(172, 16, 0, 0, 12))];
    assert!(check_deny_prefixes(&deny, &site).is_ok());
}

#[test]
fn credential_store_setting() {
    assert_eq!(credential_store_kind(None).unwrap(), CredentialStoreKind::Vault);
    assert_eq!(credential_store_kind(Some("vault")).unwrap(), CredentialStoreKind::Vault);
    assert_eq!(credential_store_kind(Some("memory")).unwrap(), CredentialStoreKind::Memory);
    assert_eq!(
        credential_store_kind(Some("disk")).unwrap_err(),
        "Invalid NICO_CREDENTIAL_STORE value \"disk\": expected \"vault\" or \"memory\""
    );
}

#[test]
fn credential_readers_in_order() {
    assert_eq!(
        credential_reader_chain(true, true),
        vec![CredentialReaderKind::Env, CredentialReaderKind::File, CredentialReaderKind::Store]
    );
    assert_eq!(credential_reader_chain(false, true), vec![CredentialReaderKind::File, CredentialReaderKind::Store]);
    assert_eq!(credential_reader_chain(false, false), vec![CredentialReaderKind::Store]);
}

#[test]
fn deprecated_target_override_migration() {
    assert!(matches!(migrate_bmc_proxy(Some("10.0.0.1".to_string()), Some(8443), true), ProxyMigration::IgnoreTargetIp));
    match migrate_bmc_proxy(Some("10.0.0.1".to_string()), Some(8443), false) {
        ProxyMigration::SetProxy(p) => assert_eq!(p, HostPortPair::HostAndPort("10.0.0.1".to_string(), 8443)),
        other => panic!("unexpected {other:?}"),
    }
    match migrate_bmc_proxy(Some("10.0.0.1".to_string()), None, false) {
        ProxyMigration::SetProxy(p) => assert_eq!(p, HostPortPair::HostOnly("10.0.0.1".to_string())),
        other => panic!("unexpected {other:?}"),
    }
    match migrate_bmc_proxy(None, Some(8443), false) {
        ProxyMigration::SetProxy(p) => assert_eq!(p, HostPortPair::PortOnly(8443)),
        other => panic!("unexpected {other:?}"),
    }
    assert!(matches!(migrate_bmc_proxy(None, Some(8443), true), ProxyMigration::IgnoreTargetPort));
    assert!(matches!(migrate_bmc_proxy(None, None, true), ProxyMigration::Leave));
    assert!(matches!(migrate_bmc_proxy(None, None, false), ProxyMigration::Leave));
}
