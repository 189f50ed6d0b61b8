use nico::api_error::ApiError;
use nico::client_resolution::{
    found_domain, host_interfaces, instance_instructions, interface_domain_id, interface_instructions,
    missing_instance, pick_host_interface, unknown_client, BridgingConfig, CloudInitConfig, Domain,
    MachineInterfaceSnapshot, VmaasConfig,
};
use nico::client_resolution::{
    cloud_init_step, pxe_interface_step, resolve_client_step, CloudInitAction, CloudInitEvent, InstanceSnapshot,
    PxeAction, PxeEvent, ResolveAction, ResolveEvent, ResolvedClient,
};

fn iface(id: &str, segment: &str, machine: Option<&str>) -> MachineInterfaceSnapshot {
    MachineInterfaceSnapshot {
        id: id.to_string(),
        segment_id: segment.to_string(),
        domain_id: Some("dom-1".to_string()),
        machine_id: machine.map(|m| m.to_string()),
    }
}

fn config() -> CloudInitConfig {
    CloudInitConfig {
        external_api_url: Some("https://api.example".to_string()),
        external_pxe_url: Some("https://pxe.example".to_string()),
        vmaas_config: Some(VmaasConfig {
            hbn_reps: Some("reps".to_string()),
            hbn_sfs: None,
            bridging: Some(BridgingConfig {
                vf_intercept_bridge_name: "vfbr".to_string(),
                host_intercept_bridge_name: "hostbr".to_string(),
                host_intercept_bridge_port: "hostport".to_string(),
                vf_intercept_bridge_port: "vfport".to_string(),
                vf_intercept_bridge_sf: "vfsf".to_string(),
            }),
        }),
        num_of_vfs: 16,
    }
}

#[test]
fn host_interface_prefers_admin_segment() {
    let ifaces = vec![iface("i1", "tenant-seg", None), iface("i2", "admin-seg", None), iface("i3", "admin-seg", None)];
    let admin = vec!["other".to_string(), "admin-seg".to_string()];
    assert_eq!(pick_host_interface(&ifaces, &admin, "host-1").unwrap(), 1);
    assert_eq!(pick_host_interface(&ifaces, &vec![], "host-1").unwrap(), 0);
    match pick_host_interface(&vec![], &admin, "host-1") {
        Err(ApiError::Internal(m)) => assert_eq!(m, "host host-1 has no machine_interfaces"),
        other => panic!("unexpected {other:?}"),
    }
    assert!(matches!(host_interfaces(None, "host-1"), Err(ApiError::Internal(m)) if m == "no machine_interfaces for host host-1"));
}

#[test]
fn unresolved_clients() {
    assert!(matches!(unknown_client("10.0.0.9"), ApiError::NotFound { kind, id } if kind == "Client" && id == "10.0.0.9"));
    assert!(matches!(missing_instance("10.0.0.9", "inst-1"), ApiError::Internal(m) if m == "instance_address 10.0.0.9 references missing instance inst-1"));
}

#[test]
fn instance_gets_its_user_data() {
    let r = instance_instructions("inst-1", Some("#cloud-config".to_string()));
    assert_eq!(r.custom_cloud_init.as_deref(), Some("#cloud-config"));
    assert!(r.discovery_instructions.is_none());
    let m = r.metadata.unwrap();
    assert_eq!((m.instance_id.as_str(), m.cloud_name.as_str(), m.platform.as_str()), ("inst-1", "nvidia", "nico"));
    assert!(r.api_url_override.is_none() && r.pxe_url_override.is_none());
}

#[test]
fn interface_needs_a_domain() {
    let mut i = iface("i1", "s", None);
    assert_eq!(interface_domain_id(&i).unwrap(), "dom-1");
    i.domain_id = None;
    assert!(matches!(interface_domain_id(&i), Err(ApiError::Internal(m)) if m == "Machine Interface did not have an associated domain i1"));
    assert!(matches!(found_domain(None, "dom-1"), Err(ApiError::Internal(m)) if m == "Could not find domain with id dom-1"));
}

#[test]
fn static_segment_interfaces_get_external_urls() {
    let domain = Domain { id: "dom-1".to_string(), name: "example.com".to_string() };
    let r = interface_instructions(
        iface("i1", "static-seg", Some("machine-1")),
        domain.clone(),
        Some(Some("custom".to_string())),
        Some("static-seg".to_string()),
        &config(),
    );
    assert_eq!(r.api_url_override.as_deref(), Some("https://api.example"));
    assert_eq!(r.pxe_url_override.as_deref(), Some("https://pxe.example"));
    assert_eq!(r.custom_cloud_init.as_deref(), Some("custom"));
    assert_eq!(r.metadata.unwrap().instance_id, "machine-1");
    let d = r.discovery_instructions.unwrap();
    assert_eq!(d.hbn_reps.as_deref(), Some("reps"));
    assert!(d.hbn_sfs.is_none());
    assert_eq!(d.vf_intercept_bridge_name.as_deref(), Some("vfbr"));
    assert_eq!(d.host_intercept_bridge_port.as_deref(), Some("hostport"));
    assert_eq!(d.num_of_vfs, Some(16));
    assert_eq!(d.domain.unwrap().name, "example.com");

    let r = interface_instructions(iface("i2", "admin-seg", None), domain, None, Some("static-seg".to_string()), &config());
    assert!(r.api_url_override.is_none() && r.pxe_url_override.is_none());
    assert!(r.metadata.is_none());
    assert!(r.custom_cloud_init.is_none());
}

fn instance() -> InstanceSnapshot {
    InstanceSnapshot { id: "inst-1".to_string(), machine_id: "host-1".to_string(), user_data: Some("#cloud-config".to_string()) }
}

#[test]
fn interfaces_are_searched_before_instance_addresses() {
    assert!(matches!(resolve_client_step("10.0.0.5", ResolveEvent::Start), ResolveAction::FindInterfaceByAddress));
    match resolve_client_step("10.0.0.5", ResolveEvent::InterfaceLookedUp(Some(iface("if-1", "seg", None)))) {
        ResolveAction::Resolved(ResolvedClient::Interface(i)) => assert_eq!(i.id, "if-1"),
        other => panic!("unexpected {other:?}"),
    }
    assert!(matches!(resolve_client_step("10.0.0.5", ResolveEvent::InterfaceLookedUp(None)), ResolveAction::FindInstanceAddress));
    match resolve_client_step("10.0.0.5", ResolveEvent::AddressLookedUp(None)) {
        ResolveAction::Failed(ApiError::NotFound { kind, id }) => {
            assert_eq!(kind, "Client");
            assert_eq!(id, "10.0.0.5");
        }
        other => panic!("unexpected {other:?}"),
    }
    assert!(matches!(
        resolve_client_step("10.0.0.5", ResolveEvent::AddressLookedUp(Some("inst-1".to_string()))),
        ResolveAction::FindInstance(id) if id == "inst-1"
    ));
    match resolve_client_step("10.0.0.5", ResolveEvent::InstanceLookedUp { instance_id: "inst-1".to_string(), instance: None }) {
        ResolveAction::Failed(ApiError::Internal(m)) => {
            assert_eq!(m, "instance_address 10.0.0.5 references missing instance inst-1")
        }
        other => panic!("unexpected {other:?}"),
    }
    assert!(matches!(
        resolve_client_step("10.0.0.5", ResolveEvent::InstanceLookedUp { instance_id: "inst-1".to_string(), instance: Some(instance()) }),
        ResolveAction::Resolved(ResolvedClient::Instance(i)) if i.id == "inst-1"
    ));
}

#[test]
fn cloud_init_steps() {
    match cloud_init_step(&config(), CloudInitEvent::Resolved(ResolvedClient::Instance(instance()))) {
        CloudInitAction::Respond(r) => {
            assert_eq!(r.custom_cloud_init.as_deref(), Some("#cloud-config"));
            assert_eq!(r.metadata.unwrap().instance_id, "inst-1");
        }
        other => panic!("unexpected {other:?}"),
    }
    let i = iface("if-1", "seg-static", Some("m-1"));
    assert!(matches!(
        cloud_init_step(&config(), CloudInitEvent::Resolved(ResolvedClient::Interface(i.clone()))),
        CloudInitAction::FindDomain(d) if d == "dom-1"
    ));
    let mut no_domain = i.clone();
    no_domain.domain_id = None;
    assert!(matches!(
        cloud_init_step(&config(), CloudInitEvent::Resolved(ResolvedClient::Interface(no_domain))),
        CloudInitAction::Failed(ApiError::Internal(m)) if m == "Machine Interface did not have an associated domain if-1"
    ));
    assert!(matches!(
        cloud_init_step(&config(), CloudInitEvent::DomainLookedUp { iface: i.clone(), domain_id: "dom-1".to_string(), domain: None }),
        CloudInitAction::Failed(ApiError::Internal(m)) if m == "Could not find domain with id dom-1"
    ));
    let domain = Domain { id: "dom-1".to_string(), name: "example.com".to_string() };
    assert!(matches!(
        cloud_init_step(&config(), CloudInitEvent::DomainLookedUp { iface: i.clone(), domain_id: "dom-1".to_string(), domain: Some(domain.clone()) }),
        CloudInitAction::FindBootOverride(id) if id == "if-1"
    ));
    assert!(matches!(
        cloud_init_step(&config(), CloudInitEvent::BootOverrideLookedUp { iface: i.clone(), domain: domain.clone(), user_data: None }),
        CloudInitAction::FindStaticSegment
    ));
    match cloud_init_step(
        &config(),
        CloudInitEvent::StaticSegmentLookedUp { iface: i, domain, user_data: None, static_segment: Some("seg-static".to_string()) },
    ) {
        CloudInitAction::Respond(r) => {
            assert_eq!(r.api_url_override.as_deref(), Some("https://api.example"));
            assert_eq!(r.metadata.unwrap().instance_id, "m-1");
        }
        other => panic!("unexpected {other:?}"),
    }
}

#[test]
fn pxe_steps() {
    assert!(matches!(
        pxe_interface_step(PxeEvent::Resolved(ResolvedClient::Instance(instance()))),
        PxeAction::FindHostInterfaces(m) if m == "host-1"
    ));
    assert!(matches!(
        pxe_interface_step(PxeEvent::HostInterfacesLookedUp { machine_id: "host-1".to_string(), interfaces: None }),
        PxeAction::Failed(ApiError::Internal(m)) if m == "no machine_interfaces for host host-1"
    ));
    let ifs = vec![iface("if-1", "seg-tenant", None), iface("if-2", "seg-admin", None)];
    assert!(matches!(
        pxe_interface_step(PxeEvent::HostInterfacesLookedUp { machine_id: "host-1".to_string(), interfaces: Some(ifs.clone()) }),
        PxeAction::FindAdminSegments
    ));
    assert!(matches!(
        pxe_interface_step(PxeEvent::AdminSegmentsLookedUp {
            machine_id: "host-1".to_string(),
            interfaces: ifs,
            admin_segment_ids: vec!["seg-admin".to_string()],
        }),
        PxeAction::Found(i) if i.id == "if-2"
    ));
    assert!(matches!(
        pxe_interface_step(PxeEvent::AdminSegmentsLookedUp {
            machine_id: "host-1".to_string(),
            interfaces: vec![],
            admin_segment_ids: vec![],
        }),
        PxeAction::Failed(ApiError::Internal(m)) if m == "host host-1 has no machine_interfaces"
    ));
}
