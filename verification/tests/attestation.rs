use nico::api_error::{convert_and_log_machine_id, ApiError};
use nico::attestation::{
    ak_pub_for_quote, attestation_failed, devices_under_attestation, ek_cert_facts, ek_cert_signed_by_ca,
    ek_status_write, extract_ca_fields, find_signing_ca, pcr_values_hex, redfish_timeout_error, single_machine,
    status_update_error, trigger_machine_id, EkStatusWrite,
};
use nico::attestation::{
    attest_quote_step, ek_cert_check_step, trigger_attestation_step, EkCheckAction, EkCheckEvent, QuoteAction,
    QuoteEvent, RedfishOutcome, TriggerAction, TriggerEvent,
};

const CA_DER: &str = "3082016e30820114a003020102020107300a06082a8648ce3d04030230163114301206035504030c0b546573742054504d204341301e170d3236313131383035313830365a170d3336313131353035313830365a30163114301206035504030c0b546573742054504d2043413059301306072a8648ce3d020106082a8648ce3d0301070342000459926cf19fbeafb94e1ca642c9d266eda4f1e6cfdd41bd5c3555f0158711faf64c3daa717408293a77b7d51d47dba325e9d4c68cf9215b861ab6543d8fea4c18a3533051301d0603551d0e041604149bfed0f84ebc85f289b0f080daa5cf9fb15f2df8301f0603551d230418301680149bfed0f84ebc85f289b0f080daa5cf9fb15f2df8300f0603551d130101ff040530030101ff300a06082a8648ce3d040302034800304502210094585ccbe178c38c91dd18927927cfdca92d27ceb5465820cadb39cde481fdc802204c40833fd67cb395c7981bc04ea8952adfb9d3b05d8dd4e170956cd7b788fab9";
const EK_DER: &str = "3082018a30820131a00302010202020102300a06082a8648ce3d04030230163114301206035504030c0b546573742054504d204341301e170d3236313131383035313830365a170d3336313131353035313830365a300d310b300906035504030c02454b3059301306072a8648ce3d020106082a8648ce3d0301070342000400f58a0105267112b61e6fb9a32cee02bda95286130806b4a01125be566ac2618f0d2af47fea8e1a75828d40f4e2c28984ae0db6b09baaff6e1c33c59028296ca3783076303406082b0601050507010104283026302406082b060105050730028618687474703a2f2f63612e6578616d706c652f63612e637274301d0603551d0e04160414b0853a043e2adf42dc5e66c292cd9d9ef35425f9301f0603551d230418301680149bfed0f84ebc85f289b0f080daa5cf9fb15f2df8300a06082a8648ce3d0403020347003044022049d69e0d2c1924f7d7cad4c7cd6ab989d8770351d24da2bfdff6ad3985bfbdc6022003b2cb16b09140d3657b32ada531d8ea25c81ec873222de2ad69c9c91d69859f";
const OTHER_CA_DER: &str = "3082017b30820121a00302010202142aa6abb95fd062fe20fd3e4cac0bd00e73a6b0d3300a06082a8648ce3d04030230133111300f06035504030c084f74686572204341301e170d3236313131383035313830365a170d3336313131353035313830365a30133111300f06035504030c084f746865722043413059301306072a8648ce3d020106082a8648ce3d03010703420004c23de1c5f9610c9406cc9af5750cad6e0ffce78a1b66e76a420745dee48323ade9bc5a7e1c0034495ec75e95c79eae555ca68c15d549d8fcacabbfff647dea25a3533051301d0603551d0e04160414ec01b65401210b62e408a9a15a0f3fb575d7d952301f0603551d23041830168014ec01b65401210b62e408a9a15a0f3fb575d7d952300f0603551d130101ff040530030101ff300a06082a8648ce3d040302034800304502201c41198e047576dec0db438ff12e95439846a3187f5dd6204358456401167cc7022100b51fc62b013b1e16ebcb61a83ba01cedd3853855d3b31747c013dcac6199e866";

fn der(h: &str) -> Vec<u8> {
    hex::decode(h).unwrap()
}

#[test]
fn ca_fields_are_read() {
    let (not_before, not_after, subject) = extract_ca_fields(&der(CA_DER)).unwrap();
    assert_eq!(not_before, 1794979086);
    assert_eq!(not_after, 2110339086);
    assert_eq!(hex::encode(subject), "30163114301206035504030c0b546573742054504d204341");
}

#[test]
fn unreadable_ca_certificate_is_an_invalid_argument() {
    match extract_ca_fields(b"not a certificate") {
        Err(ApiError::InvalidArgument(m)) => assert!(m.starts_with("Could not parse CA cert: "), "{m}"),
        other => panic!("unexpected {other:?}"),
    }
}

#[test]
fn ek_certificate_facts() {
    let ek = der(EK_DER);
    let facts = ek_cert_facts(&ek).unwrap();
    assert_eq!(hex::encode(&facts.sha256), "174531f473e52e357b68b8ed3f1aa5f019fb62c89edc3770aa8d862c56908f9d");
    assert_eq!(facts.serial, "01:02");
    assert_eq!(hex::encode(&facts.issuer), "30163114301206035504030c0b546573742054504d204341");
    assert_eq!(facts.issuer_access_info, "http://ca.example/ca.crt");
}

#[test]
fn ek_certificate_without_access_info() {
    let facts = ek_cert_facts(&der(CA_DER)).unwrap();
    assert_eq!(
        facts.issuer_access_info,
        "Authority Information Access X.509 Extension (1.3.6.1.5.5.7.1.1) URI is not present in the EK certificate"
    );
}

#[test]
fn unreadable_ek_certificate_is_an_invalid_argument() {
    match ek_cert_facts(&[1, 2, 3]) {
        Err(ApiError::InvalidArgument(m)) => assert!(m.starts_with("Could not parse EK cert: "), "{m}"),
        other => panic!("unexpected {other:?}"),
    }
}

#[test]
fn signing_ca_is_found_only_when_it_verifies() {
    let ek = der(EK_DER);
    assert_eq!(find_signing_ca(&ek, Some((5, der(CA_DER)))).unwrap(), (true, Some(5)));
    assert_eq!(find_signing_ca(&ek, Some((6, der(OTHER_CA_DER)))).unwrap(), (false, None));
    assert_eq!(find_signing_ca(&ek, None).unwrap(), (false, None));
    assert!(matches!(find_signing_ca(&ek, Some((5, vec![0]))), Err(ApiError::InvalidArgument(_))));
}

#[test]
fn newly_known_ca_check() {
    let ek = der(EK_DER);
    assert!(ek_cert_signed_by_ca(&ek, &der(CA_DER)).unwrap());
    assert!(!ek_cert_signed_by_ca(&ek, &der(OTHER_CA_DER)).unwrap());
    match ek_cert_signed_by_ca(&[0], &der(CA_DER)) {
        Err(ApiError::Internal(m)) => assert!(m.starts_with("Could not parse EK cert: ")),
        other => panic!("unexpected {other:?}"),
    }
    match ek_cert_signed_by_ca(&ek, &[0]) {
        Err(ApiError::Internal(m)) => assert!(m.starts_with("Could not parse CA cert: ")),
        other => panic!("unexpected {other:?}"),
    }
}

#[test]
fn status_write_depends_on_an_existing_record() {
    assert_eq!(ek_status_write(true, true, Some(3)), EkStatusWrite::Update { signing_ca_found: true, ca_id: Some(3) });
    assert_eq!(ek_status_write(false, false, None), EkStatusWrite::Insert { signing_ca_found: false, ca_id: None });
}

#[test]
fn status_update_error_names_the_certificate() {
    match status_update_error(&der(EK_DER), "db down") {
        Some(ApiError::Internal(m)) => {
            assert!(m.starts_with("Could not update CA verification status for EK serial - 01:02, issuer - "));
            assert!(m.ends_with(", error: db down"));
        }
        other => panic!("unexpected {other:?}"),
    }
    assert!(status_update_error(&[0], "x").is_none());
}

#[test]
fn pcr_values_in_hex() {
    assert_eq!(pcr_values_hex(&vec![vec![0x0f, 0xa0], vec![], vec![0xff]]), vec!["0fa0".to_string(), "".to_string(), "ff".to_string()]);
}

#[test]
fn quote_and_trigger_decisions() {
    assert_eq!(ak_pub_for_quote(Some(vec![1])).unwrap(), vec![1]);
    match ak_pub_for_quote(None) {
        Err(ApiError::AttestQuote(m)) => assert_eq!(m, "Could not form SQL query to fetch AK Pub"),
        other => panic!("unexpected {other:?}"),
    }
    assert!(attestation_failed(true, false));
    assert!(!attestation_failed(true, true));
    assert!(!attestation_failed(false, false));
    assert_eq!(trigger_machine_id(Some("m1".to_string())).unwrap(), "m1");
    assert!(matches!(trigger_machine_id(None), Err(ApiError::Internal(m)) if m == "No machine id supplied"));
    assert!(single_machine(1, "m1").is_ok());
    assert!(matches!(single_machine(0, "m1"), Err(ApiError::NotFound { kind, id }) if kind == "machine" && id == "m1"));
    assert!(matches!(single_machine(2, "m1"), Err(ApiError::Internal(m)) if m == "Found more than one machine for machine id m1"));
    assert!(matches!(redfish_timeout_error(30), ApiError::Internal(m) if m == "redfish creation could not finish in 30 seconds"));
    assert_eq!(devices_under_attestation(4), 4);
    assert_eq!(convert_and_log_machine_id(Some("m".to_string())).unwrap(), "m");
    assert!(matches!(convert_and_log_machine_id(None), Err(ApiError::MissingArgument(m)) if m == "Machine ID"));
}

#[test]
fn trigger_steps() {
    assert!(matches!(
        trigger_attestation_step(TriggerEvent::Requested { machine_id: None, redfish_timeout_secs: 5 }),
        TriggerAction::Failed(ApiError::Internal(m)) if m == "No machine id supplied"
    ));
    assert!(matches!(
        trigger_attestation_step(TriggerEvent::Requested { machine_id: Some("m1".to_string()), redfish_timeout_secs: 5 }),
        TriggerAction::FindMachine(m) if m == "m1"
    ));
    assert!(matches!(
        trigger_attestation_step(TriggerEvent::MachinesFound { machine_id: "m1".to_string(), redfish_timeout_secs: 5, count: 1 }),
        TriggerAction::ReadBmcAddress
    ));
    assert!(matches!(
        trigger_attestation_step(TriggerEvent::MachinesFound { machine_id: "m1".to_string(), redfish_timeout_secs: 5, count: 0 }),
        TriggerAction::Failed(ApiError::NotFound { .. })
    ));
    assert!(matches!(
        trigger_attestation_step(TriggerEvent::BmcAddressRead {
            machine_id: "m1".to_string(),
            redfish_timeout_secs: 5,
            address: Ok("10.0.0.1".to_string()),
            port: Some(443),
        }),
        TriggerAction::MakeRedfishClient { address, port: Some(443), timeout_secs: 5 } if address == "10.0.0.1"
    ));
    assert!(matches!(
        trigger_attestation_step(TriggerEvent::BmcAddressRead {
            machine_id: "m1".to_string(),
            redfish_timeout_secs: 5,
            address: Err("Missing BMC address".to_string()),
            port: None,
        }),
        TriggerAction::Failed(ApiError::Internal(m)) if m == "Missing BMC address"
    ));
    assert!(matches!(
        trigger_attestation_step(TriggerEvent::RedfishClientMade {
            machine_id: "m1".to_string(),
            redfish_timeout_secs: 5,
            outcome: RedfishOutcome::TimedOut,
        }),
        TriggerAction::Failed(ApiError::Internal(m)) if m == "redfish creation could not finish in 5 seconds"
    ));
    assert!(matches!(
        trigger_attestation_step(TriggerEvent::RedfishClientMade {
            machine_id: "m1".to_string(),
            redfish_timeout_secs: 5,
            outcome: RedfishOutcome::Failed("refused".to_string()),
        }),
        TriggerAction::Failed(ApiError::RedfishClientCreation { machine_id, inner }) if machine_id == "m1" && inner == "refused"
    ));
    assert!(matches!(
        trigger_attestation_step(TriggerEvent::RedfishClientMade {
            machine_id: "m1".to_string(),
            redfish_timeout_secs: 5,
            outcome: RedfishOutcome::Made,
        }),
        TriggerAction::TriggerAttestation { timeout_secs: 5 }
    ));
    assert!(matches!(
        trigger_attestation_step(TriggerEvent::AttestationTriggered { machine_id: "m1".to_string(), outcome: Ok(3) }),
        TriggerAction::Respond { machine_id, devices_under_attestation: 3 } if machine_id == "m1"
    ));
    assert!(matches!(
        trigger_attestation_step(TriggerEvent::AttestationTriggered { machine_id: "m1".to_string(), outcome: Err("boom".to_string()) }),
        TriggerAction::Failed(ApiError::Attestation(m)) if m == "trigger error: boom"
    ));
}

#[test]
fn ek_check_steps() {
    let ek = der(EK_DER);
    let ca = der(CA_DER);
    let issuer = match ek_cert_check_step(&ek, EkCheckEvent::Start) {
        EkCheckAction::FindCaBySubject(i) => i,
        other => panic!("unexpected {other:?}"),
    };
    assert_eq!(issuer, ek_cert_facts(&ek).unwrap().issuer);
    match ek_cert_check_step(&ek, EkCheckEvent::CaLookedUp { ca_entry: Some((7, ca)) }) {
        EkCheckAction::FindStatusByDigest { sha256, signing_ca_found, ca_id } => {
            assert_eq!(sha256.len(), 32);
            assert!(signing_ca_found);
            assert_eq!(ca_id, Some(7));
        }
        other => panic!("unexpected {other:?}"),
    }
    match ek_cert_check_step(&ek, EkCheckEvent::StatusLookedUp { signing_ca_found: true, ca_id: Some(7), recorded: false }) {
        EkCheckAction::Write { issuer_access_info, write, .. } => {
            assert_eq!(issuer_access_info, "http://ca.example/ca.crt");
            assert_eq!(write, EkStatusWrite::Insert { signing_ca_found: true, ca_id: Some(7) });
        }
        other => panic!("unexpected {other:?}"),
    }
    assert!(matches!(
        ek_cert_check_step(&[1, 2, 3], EkCheckEvent::Start),
        EkCheckAction::Failed(ApiError::InvalidArgument(m)) if m.starts_with("Could not parse EK cert: ")
    ));
}

#[test]
fn quote_steps() {
    let pcrs = vec![vec![0xab, 0x01]];
    assert!(matches!(attest_quote_step(true, &pcrs, QuoteEvent::Requested { machine_id: Some("m1".to_string()) }), QuoteAction::FindAkPub));
    assert!(matches!(
        attest_quote_step(true, &pcrs, QuoteEvent::Requested { machine_id: None }),
        QuoteAction::Failed(ApiError::MissingArgument(m)) if m == "Machine ID"
    ));
    assert!(matches!(
        attest_quote_step(true, &pcrs, QuoteEvent::AkPubLookedUp { entry: None }),
        QuoteAction::Failed(ApiError::AttestQuote(_))
    ));
    assert!(matches!(
        attest_quote_step(true, &pcrs, QuoteEvent::QuoteChecked { outcome: Ok(()) }),
        QuoteAction::StoreReport(v) if v == vec!["ab01".to_string()]
    ));
    assert!(matches!(
        attest_quote_step(true, &pcrs, QuoteEvent::ReportStored { machine_id: "m1".to_string(), outcome: Err("db".to_string()) }),
        QuoteAction::Failed(ApiError::Internal(m)) if m == "Failed storing measurement report: (machine_id: m1, err: db)"
    ));
    assert!(matches!(
        attest_quote_step(true, &pcrs, QuoteEvent::ReportStored { machine_id: "m1".to_string(), outcome: Ok("r1".to_string()) }),
        QuoteAction::CheckAttestation(r) if r == "r1"
    ));
    assert!(matches!(
        attest_quote_step(false, &pcrs, QuoteEvent::ReportStored { machine_id: "m1".to_string(), outcome: Ok("r1".to_string()) }),
        QuoteAction::Commit { vend: true }
    ));
    assert!(matches!(attest_quote_step(true, &pcrs, QuoteEvent::AttestationChecked { passed: false }), QuoteAction::Commit { vend: false }));
    assert!(matches!(
        attest_quote_step(true, &pcrs, QuoteEvent::Committed { vend: false, machine_id: "m1".to_string() }),
        QuoteAction::Respond { success: false, with_certificate: false }
    ));
    assert!(matches!(
        attest_quote_step(true, &pcrs, QuoteEvent::Committed { vend: true, machine_id: "m1".to_string() }),
        QuoteAction::GetCertificate(m) if m == "m1"
    ));
    assert!(matches!(
        attest_quote_step(true, &pcrs, QuoteEvent::CertificateGot { outcome: Err("vault".to_string()) }),
        QuoteAction::Failed(ApiError::ClientCertificate(m)) if m == "vault"
    ));
}
