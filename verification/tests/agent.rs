use nico::dhcp::{discovery_api_url, lease_release, lease_status, ExpireDhcpLeaseStatus, LeaseRelease};
use nico::health_report::{failed, make_alert, passed, HealthReport, ProbeId};
use nico::host_machine_id::{connection_error, host_interface_id, single_interface};

#[test]
fn lease_release_scope() {
    assert!(matches!(lease_release(None), Ok(LeaseRelease::ByAddress)));
    match lease_release(Some("AA:BB:CC:DD:EE:FF".to_string())) {
        Ok(LeaseRelease::ByAddressAndMac(b)) => assert_eq!(b, vec![0xaa, 0xbb, 0xcc, 0xdd, 0xee, 0xff]),
        other => panic!("unexpected {other:?}"),
    }
    assert_eq!(lease_release(Some("AA:BB:CC:DD:EE:GG".to_string())).unwrap_err(), "invalid digit");
    assert_eq!(lease_status(true), ExpireDhcpLeaseStatus::Released);
    assert_eq!(lease_status(false), ExpireDhcpLeaseStatus::NotFound);
    assert_eq!(discovery_api_url(Some("https://api".to_string())).unwrap(), "https://api");
    assert_eq!(discovery_api_url(None).unwrap_err(), "nico_api_url in DhcpConfig");
}

#[test]
fn host_interface_lookup() {
    assert_eq!(host_interface_id(Some("a".to_string()), Some("b".to_string())).as_deref(), Some("a"));
    assert_eq!(host_interface_id(None, Some("b".to_string())).as_deref(), Some("b"));
    assert!(host_interface_id(None, None).is_none());
    assert!(single_interface(1).is_ok());
    assert_eq!(single_interface(0).unwrap_err(), "expected exactly 1 interface, found 0");
    assert_eq!(single_interface(3).unwrap_err(), "expected exactly 1 interface, found 3");
    assert_eq!(
        connection_error("https://api:1079", "connection refused"),
        "Could not connect to NICo API server at https://api:1079: connection refused"
    );
}

#[test]
fn health_report_outcomes() {
    let mut hr = HealthReport::empty("src".to_string());
    passed(&mut hr, ProbeId::BgpStats, None);
    failed(&mut hr, ProbeId::BgpDaemonEnabled, Some("t".to_string()), "m".to_string());
    assert_eq!(hr.successes.len(), 1);
    assert_eq!(hr.alerts.len(), 1);
    assert!(hr.has_alert(ProbeId::BgpDaemonEnabled));
    assert!(!hr.has_alert(ProbeId::BgpStats));
    let a = make_alert(ProbeId::BgpPeeringTor, None, "x".to_string(), true);
    assert!(a.critical && a.target.is_none() && a.message == "x");
}
