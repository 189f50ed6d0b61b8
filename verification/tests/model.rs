use nico::bmc_info::{BmcInfo, UserRoles};
use nico::errors::ModelError;
use nico::machine_id::{
    check_snapshot_host, from_hardware_info, from_hardware_info_with_type, host_id_from_dpu_hardware_info, DmiData,
    HardwareInfo, MachineIdSource, MachineType, MissingHardwareInfo,
};
use nico::metadata::{time_in_state_secs, StateSla};
use nico::network_segment::{
    state_sla, AllocationStrategy, NetworkDefinition, NetworkDefinitionSegmentType, NetworkSegmentControllerState,
    NetworkSegmentDeletionState, NetworkSegmentSlas, NetworkSegmentType, NewNetworkSegment,
};
use nico::power_shelf::{
    Args, MaintenancePowerArgs, PowerShelfControllerState, PowerShelfMaintenanceOperation, PowerShelfSlas,
};

fn bmc(firmware: Option<&str>) -> BmcInfo {
    BmcInfo { firmware_version: firmware.map(|s| s.to_string()), ..Default::default() }
}

#[test]
fn bfb_install_needs_recent_firmware() {
    assert!(bmc(Some("BF-24.10-5")).supports_bfb_install());
    assert!(bmc(Some("24.10")).supports_bfb_install());
    assert!(bmc(Some("bf-25.01")).supports_bfb_install());
    assert!(!bmc(Some("BF-24.07-1")).supports_bfb_install());
    assert!(!bmc(None).supports_bfb_install());
}

#[test]
fn bmc_address() {
    let mut b = bmc(None);
    assert_eq!(b.ip_addr_text().unwrap_err(), "Missing BMC address");
    b.ip = Some("10.0.0.x".to_string());
    assert_eq!(b.ip_addr_text().unwrap(), "10.0.0.x");
    assert_eq!(b.bad_address("invalid IP address syntax"), "Bad address Some(\"10.0.0.x\") invalid IP address syntax");
}

#[test]
fn user_roles_round_trip() {
    for r in [UserRoles::User, UserRoles::Administrator, UserRoles::Operator, UserRoles::Noaccess] {
        assert_eq!(UserRoles::from_str(r.to_string().as_str()).unwrap(), r);
    }
    match UserRoles::from_str("root") {
        Err(ModelError::DatabaseTypeConversionError(m)) => assert_eq!(m, "Unknown role found in database: root"),
        other => panic!("unexpected {other:?}"),
    }
}

fn fingerprint(dpu: bool) -> HardwareInfo {
    HardwareInfo {
        tpm_ek_certificate: Some(vec![1, 2, 3, 4]),
        dmi_data: Some(DmiData {
            product_serial: "P1".to_string(),
            board_serial: "B1".to_string(),
            chassis_serial: "C1".to_string(),
        }),
        dpu,
    }
}

fn check_sources(fp: &mut HardwareInfo, ty: MachineType, ctor: fn(&HardwareInfo) -> Result<nico::machine_id::MachineId, MissingHardwareInfo>) {
    let tpm = ctor(fp).unwrap();
    assert_eq!(tpm.source, MachineIdSource::Tpm);
    assert_eq!(tpm.machine_type, ty);
    assert_eq!(hex::encode(&tpm.hash), "9f64a747e1b97f131fabb6b447296c9b6f0201e79fb3c5356e6c77e89b6a806a");

    fp.tpm_ek_certificate = None;
    let serials = ctor(fp).unwrap();
    assert_eq!(serials.source, MachineIdSource::ProductBoardChassisSerial);
    assert_eq!(serials.machine_type, ty);
    // The SHA-256 of "pP1-bB1-cC1".
    assert_eq!(hex::encode(&serials.hash), "2ee907a39318b329d71d7992c864537bf492892b5f6ebf591f866f4952c7e060");

    fp.dmi_data.as_mut().unwrap().product_serial.clear();
    assert_eq!(ctor(fp).unwrap().source, MachineIdSource::ProductBoardChassisSerial);
    fp.dmi_data.as_mut().unwrap().board_serial.clear();
    assert_eq!(ctor(fp).unwrap().source, MachineIdSource::ProductBoardChassisSerial);
    fp.dmi_data.as_mut().unwrap().chassis_serial.clear();
    assert_eq!(ctor(fp).unwrap_err(), MissingHardwareInfo::Serial);
    fp.dmi_data = None;
    assert_eq!(ctor(fp).unwrap_err(), MissingHardwareInfo::All);
    fp.tpm_ek_certificate = Some(vec![]);
    assert_eq!(ctor(fp).unwrap_err(), MissingHardwareInfo::TPMCertEmpty);
}

#[test]
fn host_machine_id_from_fingerprint_sources() {
    check_sources(&mut fingerprint(false), MachineType::Host, from_hardware_info);
}

#[test]
fn dpu_machine_id_from_fingerprint_sources() {
    check_sources(&mut fingerprint(true), MachineType::Dpu, from_hardware_info);
}

#[test]
fn predicted_host_id_from_dpu_fingerprint_sources() {
    check_sources(&mut fingerprint(true), MachineType::PredictedHost, host_id_from_dpu_hardware_info);
}

#[test]
fn machine_type_does_not_change_the_hash() {
    let fp = fingerprint(false);
    let a = from_hardware_info_with_type(&fp, MachineType::Host).unwrap();
    let b = from_hardware_info_with_type(&fp, MachineType::PredictedHost).unwrap();
    assert_eq!(a.hash, b.hash);
}

#[test]
fn snapshots_are_of_hosts() {
    assert!(check_snapshot_host(MachineType::Host).is_ok());
    assert_eq!(check_snapshot_host(MachineType::Dpu).unwrap_err(), "Only host machine id is expected");
}

#[test]
fn segment_type_names() {
    for t in [NetworkSegmentType::Tenant, NetworkSegmentType::Admin, NetworkSegmentType::Underlay, NetworkSegmentType::HostInband] {
        assert_eq!(NetworkSegmentType::from_str(t.to_string().as_str()).unwrap(), t);
    }
    assert_eq!(NetworkSegmentType::Underlay.to_string(), "tor");
    match NetworkSegmentType::from_str("bogus") {
        Err(ModelError::DatabaseTypeConversionError(m)) => assert_eq!(m, "Invalid segment type bogus reveived from Database."),
        other => panic!("unexpected {other:?}"),
    }
    assert!(NetworkSegmentType::Tenant.is_tenant());
    assert!(NetworkSegmentType::HostInband.is_tenant());
    assert!(!NetworkSegmentType::Admin.is_tenant());
}

fn definition() -> NetworkDefinition {
    NetworkDefinition {
        segment_type: NetworkDefinitionSegmentType::Underlay,
        prefix: "10.0.0.0/24".to_string(),
        gateway: "10.0.0.1".to_string(),
        mtu: 1500,
        reserve_first: 5,
        allocation_strategy: AllocationStrategy::default(),
    }
}

#[test]
fn segments_from_definitions() {
    let s = NewNetworkSegment::build_from("seg-1".to_string(), "underlay", "dom-1".to_string(), &definition(), true, true).unwrap();
    assert_eq!(s.segment_type, NetworkSegmentType::Underlay);
    assert_eq!(s.name, "underlay");
    assert_eq!(s.subdomain_id.as_deref(), Some("dom-1"));
    assert_eq!(s.mtu, 1500);
    assert_eq!(s.prefixes.len(), 1);
    assert_eq!(s.prefixes[0].prefix, "10.0.0.0/24");
    assert_eq!(s.prefixes[0].gateway.as_deref(), Some("10.0.0.1"));
    assert_eq!(s.prefixes[0].num_reserved, 5);
    assert_eq!(s.allocation_strategy, AllocationStrategy::Dynamic);
    assert!(s.vlan_id.is_none() && s.vni.is_none() && s.vpc_id.is_none() && s.can_stretch.is_none());
    match NewNetworkSegment::build_from("seg-1".to_string(), "u", "dom-1".to_string(), &definition(), false, false) {
        Err(ModelError::InvalidArgument(m)) => assert_eq!(m, "Invalid network prefix: 10.0.0.0/24"),
        other => panic!("unexpected {other:?}"),
    }
    match NewNetworkSegment::build_from("seg-1".to_string(), "u", "dom-1".to_string(), &definition(), true, false) {
        Err(ModelError::InvalidArgument(m)) => assert_eq!(m, "Invalid gateway address: 10.0.0.1"),
        other => panic!("unexpected {other:?}"),
    }
}

#[test]
fn state_slas() {
    let slas = NetworkSegmentSlas { provisioning: 600, deleting_dbdelete: 300 };
    assert_eq!(
        state_sla(&NetworkSegmentControllerState::Provisioning, 601, slas),
        StateSla { sla_secs: Some(600), time_in_state_above_sla: true }
    );
    assert_eq!(state_sla(&NetworkSegmentControllerState::Ready, 10_000, slas), StateSla::no_sla());
    let draining = NetworkSegmentControllerState::Deleting {
        deletion_state: NetworkSegmentDeletionState::DrainAllocatedIps { delete_at: 0 },
    };
    assert_eq!(state_sla(&draining, 10_000, slas), StateSla::no_sla());
    let deleting = NetworkSegmentControllerState::Deleting { deletion_state: NetworkSegmentDeletionState::DBDelete };
    assert_eq!(state_sla(&deleting, 300, slas), StateSla { sla_secs: Some(300), time_in_state_above_sla: false });

    let ps = PowerShelfSlas { initializing: 1, fetching_data: 2, configuring: 3, maintenance: 4, deleting: 5 };
    let m = PowerShelfControllerState::Maintenance { operation: PowerShelfMaintenanceOperation::PowerOn };
    assert_eq!(nico::power_shelf::state_sla(&m, 5, ps), StateSla { sla_secs: Some(4), time_in_state_above_sla: true });
    let e = PowerShelfControllerState::Error { cause: "x".to_string() };
    assert_eq!(nico::power_shelf::state_sla(&e, 5, ps), StateSla::no_sla());

    assert_eq!(time_in_state_secs(100, 40), 60);
    assert_eq!(time_in_state_secs(40, 100), 86400);
}

#[test]
fn maintenance_requests() {
    let args = Args::PowerOff(MaintenancePowerArgs {
        power_shelf_ids: vec!["ps-1".to_string(), "ps-2".to_string()],
        reference: Some("https://tickets/1".to_string()),
    });
    let r = args.into_request();
    assert_eq!(r.operation, PowerShelfMaintenanceOperation::PowerOff);
    assert_eq!(r.power_shelf_ids, vec!["ps-1".to_string(), "ps-2".to_string()]);
    assert_eq!(r.reference.as_deref(), Some("https://tickets/1"));
}

const SAMPLE_PS_ID_1: &str = "ps100htjtiaehv1n5vh67tbmqq4eabcjdng40f7jupsadbedhruh6rag1l0";
const SAMPLE_PS_ID_2: &str = "ps100hsasb5dsh6e6ogogslpovne4rj82rp9jlf00qd7mcvmaadv85phk3g";

#[test]
fn power_on_into_request_uses_power_on_operation() {
    let args = Args::PowerOn(MaintenancePowerArgs {
        power_shelf_ids: vec![SAMPLE_PS_ID_1.to_string()],
        reference: Some("ref-1".to_string()),
    });
    let req = args.into_request();
    assert_eq!(req.operation, PowerShelfMaintenanceOperation::PowerOn);
    assert_eq!(req.power_shelf_ids, vec![SAMPLE_PS_ID_1.to_string()]);
    assert_eq!(req.reference.as_deref(), Some("ref-1"));
}

#[test]
fn power_off_into_request_uses_power_off_operation() {
    let args = Args::PowerOff(MaintenancePowerArgs {
        power_shelf_ids: vec![SAMPLE_PS_ID_1.to_string(), SAMPLE_PS_ID_2.to_string()],
        reference: None,
    });
    let req = args.into_request();
    assert_eq!(req.operation, PowerShelfMaintenanceOperation::PowerOff);
    assert_eq!(req.power_shelf_ids, vec![SAMPLE_PS_ID_1.to_string(), SAMPLE_PS_ID_2.to_string()]);
    assert!(req.reference.is_none());
}
