use nico::bgp::{
    check_bgp_stats, check_bgp_tor_routes, check_daemon_enabled, is_tor_session, verify_bgp_summary, BgpHealthData, BgpNetworks,
    BgpPeer, BgpStats, HBNDeviceNames,
};
use nico::health_report::{make_alert, HealthProbeAlert, HealthReport, ProbeId};

fn stats(peers: &[(&str, &str)]) -> BgpStats {
    BgpStats {
        dynamic_peers: 0,
        peers: peers.iter().map(|(n, s)| (n.to_string(), BgpPeer { state: s.to_string() })).collect(),
    }
}

fn networks(ipv4: &[(&str, &str)], evpn: &[(&str, &str)]) -> BgpNetworks {
    BgpNetworks { ipv4_unicast: stats(ipv4), l2_vpn_evpn: stats(evpn) }
}

fn names() -> HBNDeviceNames {
    HBNDeviceNames { uplinks: vec!["p0_if".to_string(), "p1_if".to_string()] }
}

fn run(n: BgpNetworks, host_routes: &[&str], route_servers: &[&str]) -> HealthReport {
    let mut hr = HealthReport::empty("nico-dpu-agent".to_string());
    let mut health_data = BgpHealthData::default();
    let host_routes: Vec<String> = host_routes.iter().map(|s| s.to_string()).collect();
    let route_servers: Vec<String> = route_servers.iter().map(|s| s.to_string()).collect();
    verify_bgp_summary(&mut health_data, "{}", Ok(n), &host_routes, 2, &route_servers, &names());
    health_data.into_health_report(&mut hr);
    hr
}

fn same_alert(a: &HealthProbeAlert, b: &HealthProbeAlert) -> bool {
    a.id == b.id && a.target == b.target && a.message == b.message && a.critical == b.critical
}

fn assert_alert(got: &HealthProbeAlert, id: ProbeId, target: &str, message: &str, critical: bool) {
    let want = make_alert(id, Some(target.to_string()), message.to_string(), critical);
    assert!(same_alert(got, &want), "got {got:?}, want {want:?}");
}

#[test]
fn tor_session_names() {
    assert!(is_tor_session("p0_if"));
    assert!(is_tor_session("p12_sf"));
    assert!(!is_tor_session("p_if"));
    assert!(!is_tor_session("p0_if2"));
    assert!(!is_tor_session("10.217.4.78"));
    assert!(!is_tor_session("xp0_if"));
    assert!(!is_tor_session("p0_xf"));
    assert!(!is_tor_session("p0_if\n"));
    assert!(is_tor_session("p007_sf"));
}

#[test]
fn checking_tor_sessions_twice_changes_nothing_more() {
    let s = stats(&[("p0_if", "Active"), ("other", "Established")]);
    let uplinks = HBNDeviceNames { uplinks: vec!["p0_if".to_string(), "p1_if".to_string(), "p0_if".to_string()] };
    let mut hd = BgpHealthData::default();
    check_bgp_tor_routes(&s, &mut hd, 3, &uplinks);
    let once = hd.unhealthy_tor_peers.clone();
    assert_eq!(
        once,
        vec![
            ("p0_if".to_string(), "Session p0_if is not Established, but in state Active".to_string()),
            ("p1_if".to_string(), "Expected session for p1_if was not found in BGP peer data".to_string()),
        ]
    );
    check_bgp_tor_routes(&s, &mut hd, 3, &uplinks);
    assert_eq!(hd.unhealthy_tor_peers, once);
    assert!(hd.other_errors.is_empty());
}

#[test]
fn healthy_sessions_raise_no_alert() {
    let established = [("p0_if", "Established"), ("p1_if", "Established")];
    let hr = run(networks(&established, &established), &[], &[]);
    assert!(hr.alerts.is_empty());
    assert_eq!(hr.successes.len(), 1);
    assert_eq!(hr.successes[0].id, ProbeId::BgpStats);
}

#[test]
fn failed_tor_peers_are_reported_once_each_and_critical() {
    let idle = [("p0_if", "Idle"), ("p1_if", "Idle")];
    let mut hr = run(networks(&idle, &idle), &[], &[]);
    assert_eq!(hr.alerts.len(), 2);
    hr.alerts.sort_by(|a, b| a.target.cmp(&b.target));
    assert_alert(&hr.alerts[0], ProbeId::BgpPeeringTor, "p0_if", "Session p0_if is not Established, but in state Idle", true);
    assert_alert(&hr.alerts[1], ProbeId::BgpPeeringTor, "p1_if", "Session p1_if is not Established, but in state Idle", true);
}

#[test]
fn single_failed_tor_peer_is_not_critical() {
    let peers = [("p0_if", "Idle"), ("p1_if", "Established")];
    let hr = run(networks(&peers, &peers), &[], &[]);
    assert_eq!(hr.alerts.len(), 1);
    assert_alert(&hr.alerts[0], ProbeId::BgpPeeringTor, "p0_if", "Session p0_if is not Established, but in state Idle", false);
}

#[test]
fn tenant_routes_are_allowed_when_listed() {
    let ipv4 = [("p0_if", "Established"), ("p1_if", "Established"), ("10.217.4.78", "Established")];
    let evpn = [("p0_if", "Established"), ("p1_if", "Established")];
    let hr = run(networks(&ipv4, &evpn), &["10.217.4.78"], &[]);
    assert!(hr.alerts.is_empty());
}

#[test]
fn unexpected_tenant_route_is_reported() {
    let ipv4 = [("p0_if", "Established"), ("p1_if", "Established"), ("10.217.4.78", "Established")];
    let evpn = [("p0_if", "Established"), ("p1_if", "Established")];
    let hr = run(networks(&ipv4, &evpn), &[], &[]);
    assert_eq!(hr.alerts.len(), 1);
    assert_alert(
        &hr.alerts[0],
        ProbeId::UnexpectedBgpPeer,
        "10.217.4.78",
        "Unexpected BGP session referencing peer 10.217.4.78 was found in ipv4_unicast",
        true,
    );
}

#[test]
fn route_servers_must_be_established() {
    let ipv4 = [("p0_if", "Established"), ("p1_if", "Established")];
    let evpn = [("10.217.126.67", "Active")];
    let hr = run(networks(&ipv4, &evpn), &[], &["10.217.126.67"]);
    assert_eq!(hr.alerts.len(), 1);
    assert_alert(
        &hr.alerts[0],
        ProbeId::BgpPeeringRouteServer,
        "10.217.126.67",
        "Session 10.217.126.67 is not Established, but in state Active",
        true,
    );
    let evpn = [("10.217.126.67", "Established")];
    let hr = run(networks(&ipv4, &evpn), &[], &["10.217.126.67"]);
    assert!(hr.alerts.is_empty());
}

#[test]
fn missing_sessions_and_route_servers() {
    let ipv4 = [("10.217.19.211", "Established")];
    let evpn = [("10.217.126.67", "Established")];
    let mut hr = run(networks(&ipv4, &evpn), &["10.217.19.211"], &["10.0.0.9"]);
    hr.alerts.sort_by(|a, b| a.target.cmp(&b.target));
    assert_eq!(hr.alerts.len(), 4);
    assert_alert(&hr.alerts[0], ProbeId::BgpPeeringRouteServer, "10.0.0.9", "Expected session for 10.0.0.9 was not found in BGP peer data", true);
    assert_alert(
        &hr.alerts[1],
        ProbeId::UnexpectedBgpPeer,
        "10.217.126.67",
        "Unexpected BGP session referencing peer 10.217.126.67 was found in l2_vpn_evpn",
        true,
    );
    assert_alert(&hr.alerts[2], ProbeId::BgpPeeringTor, "p0_if", "Expected session for p0_if was not found in BGP peer data", true);
    assert_alert(&hr.alerts[3], ProbeId::BgpPeeringTor, "p1_if", "Expected session for p1_if was not found in BGP peer data", true);
}

#[test]
fn gathering_errors_fail_the_stats_probe() {
    let mut hr = HealthReport::empty("agent".to_string());
    let mut health_data = BgpHealthData::default();
    verify_bgp_summary(&mut health_data, "not json", Err("expected value".to_string()), &vec![], 2, &vec![], &names());
    let mut ipv4 = stats(&[("p0_if", "Established")]);
    ipv4.dynamic_peers = 3;
    nico::bgp::check_bgp_stats_ipv4_unicast("ipv4_unicast", &ipv4, &mut health_data, &vec![], 3, &names());
    health_data.into_health_report(&mut hr);
    assert_eq!(hr.alerts[0].id, ProbeId::BgpStats);
    assert_eq!(
        hr.alerts[0].message,
        "Failures while gathering BGP health data:\nfailed to deserialize bgp_json: not json with error: expected value\nThe number of min healthy links: 3 was bigger than the number of uplinks defined by the hbn device names: 2\nipv4_unicast.dynamic_peers is 3 should be 0"
    );
}

#[test]
fn daemon_probe() {
    let mut hr = HealthReport::empty("agent".to_string());
    check_daemon_enabled(&mut hr, "/etc/frr/daemons", Ok("zebra=yes\nbgpd=yes\n".to_string()));
    assert_eq!(hr.successes.len(), 1);
    assert!(hr.alerts.is_empty());

    let mut hr = HealthReport::empty("agent".to_string());
    check_daemon_enabled(&mut hr, "/etc/frr/daemons", Ok("bgpd=no\n".to_string()));
    assert_eq!(hr.alerts[0].message, "BGP daemon is disabled - /etc/frr/daemons contains 'bgpd=no'");

    let mut hr = HealthReport::empty("agent".to_string());
    check_daemon_enabled(&mut hr, "/etc/frr/daemons", Ok("zebra=yes\n".to_string()));
    assert_eq!(hr.alerts[0].message, "BGP daemon is not enabled - /etc/frr/daemons does not contain 'bgpd=yes'");

    let mut hr = HealthReport::empty("agent".to_string());
    check_daemon_enabled(&mut hr, "/etc/frr/daemons", Err("No such file or directory".to_string()));
    assert_eq!(hr.alerts[0].message, "Trying to open and read /etc/frr/daemons: No such file or directory");
    assert_eq!(hr.alerts[0].id, ProbeId::BgpDaemonEnabled);
}

#[test]
fn stats_probe_is_skipped_when_daemon_is_down() {
    let mut hr = HealthReport::empty("agent".to_string());
    check_daemon_enabled(&mut hr, "daemons", Ok("bgpd=no".to_string()));
    check_bgp_stats(&mut hr, Err("vtysh failed".to_string()), &vec![], 2, &vec![], &names());
    assert_eq!(hr.alerts.len(), 1);
    assert!(hr.successes.is_empty());

    let mut hr = HealthReport::empty("agent".to_string());
    check_bgp_stats(&mut hr, Err("vtysh failed".to_string()), &vec![], 2, &vec![], &names());
    assert_eq!(hr.alerts.len(), 1);
    assert_eq!(hr.alerts[0].message, "Failures while gathering BGP health data:\nvtysh failed");
}
