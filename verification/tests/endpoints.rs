use nico::endpoints::{
    bmc_addr, credentials_from_response, extract_machine_endpoint, extract_power_shelf_endpoint,
    extract_switch_endpoint, extract_switch_host_endpoint, id_chunks, collect_machine_endpoints, switch_endpoint_metadata, BmcCredentials, BmcInfo,
    CredentialKind, CredentialsType, EndpointMetadata, HealthError, MachineRecord, Placement, PowerShelfRecord,
    SwitchEndpointRole, SwitchRecord,
};

fn info(ip: &str, mac: &str, port: Option<u32>) -> BmcInfo {
    BmcInfo { ip: Some(Ok(ip.to_string())), mac: Some(mac.to_string()), port }
}

fn message(e: HealthError) -> String {
    match e {
        HealthError::GenericError(m) => m,
    }
}

fn switch() -> SwitchRecord {
    SwitchRecord {
        id: Some("sw-1".to_string()),
        config_name: Some("SN-SWITCH-001".to_string()),
        placement_in_rack: Some(Placement { slot_number: Some(7), tray_index: Some(3) }),
        is_primary: true,
        bmc_info: Some(info("10.0.1.1", "11:22:33:44:55:66", Some(443))),
        nvos_info: Some(info("10.0.1.2", "11:22:33:44:55:67", None)),
        rack_id: Some("rack-1".to_string()),
    }
}

#[test]
fn addresses() {
    let a = bmc_addr(&info("10.0.0.1", "42:9e:b1:bd:9d:dd", Some(443)), "BMC").unwrap();
    assert_eq!(a.ip, "10.0.0.1");
    assert_eq!(a.port, Some(443));
    assert_eq!(a.mac, vec![0x42, 0x9e, 0xb1, 0xbd, 0x9d, 0xdd]);
    assert_eq!(bmc_addr(&info("10.0.0.1", "429eb1bd9ddd", Some(70000)), "BMC").unwrap().port, Some(443));
    assert_eq!(message(bmc_addr(&BmcInfo { ip: None, mac: None, port: None }, "BMC").unwrap_err()), "missing BMC IP address");
    assert_eq!(
        message(bmc_addr(&BmcInfo { ip: Some(Ok("10.0.0.1".to_string())), mac: None, port: None }, "NVOS").unwrap_err()),
        "missing NVOS MAC address"
    );
    assert_eq!(message(bmc_addr(&info("10.0.0.1", "not-a-mac", None), "BMC").unwrap_err()), "invalid length");
    assert_eq!(
        message(bmc_addr(&BmcInfo { ip: Some(Err("invalid IP address syntax".to_string())), mac: None, port: None }, "BMC").unwrap_err()),
        "invalid IP address syntax"
    );
}

#[test]
fn machine_endpoint() {
    let m = MachineRecord {
        id: Some("machine-1".to_string()),
        bmc_info: Some(info("10.0.0.1", "42:9e:b1:bd:9d:dd", None)),
        chassis_serial: Some("CH-1".to_string()),
        placement_in_rack: Some(Placement { slot_number: Some(15), tray_index: Some(5) }),
        nvlink_domain_uuid: None,
        rack_id: Some("rack-1".to_string()),
    };
    let p = extract_machine_endpoint(&m).unwrap();
    assert!(matches!(p.credential_kind, CredentialKind::Bmc));
    assert_eq!(p.rack_id.as_deref(), Some("rack-1"));
    match p.metadata {
        Some(EndpointMetadata::Machine(d)) => {
            assert_eq!(d.machine_id, "machine-1");
            assert_eq!(d.machine_serial.as_deref(), Some("CH-1"));
            assert_eq!(d.slot_number, Some(15));
            assert_eq!(d.tray_index, Some(5));
        }
        other => panic!("unexpected {other:?}"),
    }
    let mut m2 = m.clone();
    m2.id = None;
    assert!(extract_machine_endpoint(&m2).unwrap().metadata.is_none());
    m2.bmc_info = None;
    assert_eq!(message(extract_machine_endpoint(&m2).unwrap_err()), "Could not extract machine endpoint without BMC Info");
}

#[test]
fn switch_endpoints() {
    let s = switch();
    let p = extract_switch_endpoint(&s).unwrap();
    match p.metadata {
        Some(EndpointMetadata::Switch(d)) => {
            assert_eq!(d.endpoint_role, SwitchEndpointRole::Bmc);
            assert!(!d.nmxt_enabled);
            assert_eq!(d.serial, "SN-SWITCH-001");
        }
        other => panic!("unexpected {other:?}"),
    }
    let h = extract_switch_host_endpoint(&s).unwrap().unwrap();
    assert!(matches!(h.credential_kind, CredentialKind::SwitchNvosAdmin { switch_id } if switch_id == "sw-1"));
    assert_eq!(h.addr.ip, "10.0.1.2");
    match h.metadata {
        Some(EndpointMetadata::Switch(d)) => {
            assert_eq!(d.endpoint_role, SwitchEndpointRole::Host);
            assert!(d.nmxt_enabled);
        }
        other => panic!("unexpected {other:?}"),
    }
    let mut s2 = switch();
    s2.nvos_info = None;
    assert!(extract_switch_host_endpoint(&s2).unwrap().is_none());
    let mut s3 = switch();
    s3.id = None;
    assert_eq!(message(extract_switch_host_endpoint(&s3).unwrap_err()), "switch host endpoint missing switch ID");
    let mut s4 = switch();
    s4.config_name = None;
    assert_eq!(message(switch_endpoint_metadata(&s4, SwitchEndpointRole::Bmc, false).unwrap_err()), "switch endpoint does not have serial");
    assert_eq!(message(extract_switch_endpoint(&s4).unwrap_err()), "switch endpoint does not have serial");
}

#[test]
fn power_shelf_endpoint() {
    let ps = PowerShelfRecord {
        id: Some("ps-1".to_string()),
        config_name: Some("PS-SERIAL".to_string()),
        bmc_info: Some(info("10.0.2.1", "aa:bb:cc:dd:ee:ff", Some(443))),
    };
    let p = extract_power_shelf_endpoint(&ps).unwrap();
    assert!(p.rack_id.is_none());
    assert!(matches!(p.metadata, Some(EndpointMetadata::PowerShelf(d)) if d.serial == "PS-SERIAL"));
    let mut ps2 = ps.clone();
    ps2.config_name = None;
    assert_eq!(message(extract_power_shelf_endpoint(&ps2).unwrap_err()), "Power shelf endpoint does not have serial");
}

#[test]
fn credentials() {
    let c = credentials_from_response(Some(Some(CredentialsType::UsernamePassword {
        username: "root".to_string(),
        password: "pw".to_string(),
    })))
    .unwrap();
    assert!(matches!(c, BmcCredentials::UsernamePassword { username, password: Some(p) } if username == "root" && p == "pw"));
    let t = BmcCredentials::from(CredentialsType::SessionToken { token: "tok".to_string() });
    assert!(matches!(t, BmcCredentials::SessionToken { token } if token == "tok"));
    assert_eq!(message(credentials_from_response(Some(None)).unwrap_err()), "missing credentials in API response");
    assert_eq!(message(credentials_from_response(None).unwrap_err()), "missing credentials in API response");
}

#[test]
fn machine_ids_are_fetched_in_chunks_of_a_hundred() {
    let ids: Vec<String> = (0..250).map(|i| format!("m{i}")).collect();
    let chunks = id_chunks(&ids);
    assert_eq!(chunks.iter().map(|c| c.len()).collect::<Vec<_>>(), vec![100, 100, 50]);
    assert_eq!(chunks[1][0], "m100");
    assert_eq!(chunks.concat(), ids);
    assert!(id_chunks(&vec![]).is_empty());
    assert_eq!(id_chunks(&ids[..100].to_vec()).len(), 1);
}

#[test]
fn machines_without_endpoints_are_skipped() {
    let m = |id: &str, bmc: Option<BmcInfo>| MachineRecord {
        id: Some(id.to_string()),
        bmc_info: bmc,
        chassis_serial: None,
        placement_in_rack: None,
        nvlink_domain_uuid: None,
        rack_id: None,
    };
    let machines = vec![
        m("m1", Some(info("10.0.0.1", "42:9e:b1:bd:9d:dd", None))),
        m("m2", None),
        m("m3", Some(info("10.0.0.3", "not-a-mac", None))),
        m("m4", Some(info("10.0.0.4", "42:9e:b1:bd:9d:de", Some(623)))),
    ];
    let plans = collect_machine_endpoints(&machines);
    assert_eq!(plans.len(), 2);
    let ids: Vec<String> = plans
        .iter()
        .map(|p| match &p.metadata {
            Some(EndpointMetadata::Machine(d)) => d.machine_id.clone(),
            _ => panic!("machine metadata expected"),
        })
        .collect();
    assert_eq!(ids, vec!["m1".to_string(), "m4".to_string()]);
}
