use nico::dns::{
    answer_lookup, is_negative_response, query_step, DnsClass, QueryStep, response_code_for, select_answers, socket_permissions_mode, supported_query_type,
    LookupRecord, RecordType, ResponseCode, UpstreamCode,
};

fn rec(qtype: &str, content: &str) -> LookupRecord {
    LookupRecord { qtype: qtype.to_string(), content: content.to_string(), ttl: 300 }
}

#[test]
fn only_address_queries_are_answered() {
    assert_eq!(supported_query_type("A"), Some(RecordType::A));
    assert_eq!(supported_query_type("AAAA"), Some(RecordType::AAAA));
    assert_eq!(supported_query_type("MX"), None);
    assert_eq!(supported_query_type("a"), None);
}

#[test]
fn failed_lookups_map_to_response_codes() {
    assert_eq!(response_code_for(UpstreamCode::NotFound), ResponseCode::NXDomain);
    assert_eq!(response_code_for(UpstreamCode::InvalidArgument), ResponseCode::Refused);
    assert_eq!(response_code_for(UpstreamCode::Other), ResponseCode::ServFail);
    assert!(is_negative_response(ResponseCode::NXDomain));
    assert!(is_negative_response(ResponseCode::Refused));
    assert!(!is_negative_response(ResponseCode::ServFail));
    assert!(!is_negative_response(ResponseCode::NoError));
}

#[test]
fn unsupported_or_cached_queries_are_not_looked_up() {
    assert!(matches!(query_step("MX", "host.example", None), QueryStep::Respond(ResponseCode::NotImp)));
    assert!(matches!(
        query_step("MX", "host.example", Some(ResponseCode::NXDomain)),
        QueryStep::Respond(ResponseCode::NotImp)
    ));
    assert!(matches!(
        query_step("A", "host.example", Some(ResponseCode::Refused)),
        QueryStep::Respond(ResponseCode::Refused)
    ));
    match query_step("AAAA", "host.example", None) {
        QueryStep::Lookup(r) => {
            assert_eq!(r.qtype, "AAAA");
            assert_eq!(r.qname, "host.example");
            assert_eq!(r.zone_id, "-1");
            assert_eq!(r.local, None);
            assert_eq!(r.remote, None);
            assert_eq!(r.real_remote, None);
        }
        other => panic!("expected a lookup, got {other:?}"),
    }
}

#[test]
fn answers() {
    let records = vec![rec("A", "10.0.0.1"), rec("CNAME", "x"), LookupRecord { ttl: 60, ..rec("A", "10.0.0.2") }];
    let a = answer_lookup(RecordType::A, "host.example", "host.example.", Ok(records), &vec![true, true, true]);
    assert_eq!(a.code, ResponseCode::NoError);
    assert!(!a.cache_negative);
    assert_eq!(a.records.len(), 2);
    assert_eq!(a.records[0].name, "host.example.");
    assert_eq!(a.records[0].ttl, 300);
    assert_eq!(a.records[0].content, "10.0.0.1");
    assert_eq!(a.records[0].record_type, RecordType::A);
    assert_eq!(a.records[0].class, DnsClass::IN);
    assert_eq!(a.records[1].ttl, 60);
    assert_eq!(a.records[1].content, "10.0.0.2");

    let a = answer_lookup(RecordType::A, "host.example", "host.example.", Ok(vec![rec("AAAA", "::1")]), &vec![true]);
    assert_eq!(a.code, ResponseCode::NXDomain);
    assert!(a.records.is_empty());
    assert!(a.cache_negative);

    let a = answer_lookup(RecordType::A, "host.example", "host.example.", Err(UpstreamCode::NotFound), &vec![]);
    assert_eq!(a.code, ResponseCode::NXDomain);
    assert!(a.cache_negative);

    let a = answer_lookup(RecordType::A, "host.example", "host.example.", Err(UpstreamCode::Other), &vec![]);
    assert_eq!(a.code, ResponseCode::ServFail);
    assert!(!a.cache_negative);
}

#[test]
fn answer_records_are_of_the_queried_type() {
    let records = vec![rec("A", "10.0.0.1"), rec("AAAA", "::1"), rec("A", "bogus"), rec("CNAME", "x"), rec("A", "10.0.0.2")];
    let readable = vec![true, true, false, true, true];
    assert_eq!(select_answers(RecordType::A, "host.example", &records, &readable).unwrap(), vec![0, 4]);
    assert_eq!(select_answers(RecordType::AAAA, "host.example", &records, &readable).unwrap(), vec![1]);
}

#[test]
fn no_answer_record_is_not_found() {
    let records = vec![rec("AAAA", "::1")];
    let e = select_answers(RecordType::A, "host.example", &records, &vec![true]).unwrap_err();
    assert_eq!(e.code, UpstreamCode::NotFound);
    assert_eq!(e.message, "No A records found for host.example");
}

#[test]
fn socket_permissions_are_octal_digits() {
    assert_eq!(socket_permissions_mode(660).unwrap(), 0o660);
    assert_eq!(socket_permissions_mode(777).unwrap(), 0o777);
    assert_eq!(socket_permissions_mode(0).unwrap(), 0);
    assert_eq!(
        socket_permissions_mode(680).unwrap_err(),
        "Failed to parse socket permissions: invalid digit found in string"
    );
}
