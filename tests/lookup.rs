use dns_lookup::{
    complete, dispatch, family_tag, project, project_all, project_single, record_type_for,
    tag_record, AddressResponse, LookupError, Mode, Outcome, QueryType, RawRecord, RecordKind,
};

fn rec(kind: RecordKind, text: &str) -> RawRecord {
    RawRecord { kind, text: text.to_string() }
}

fn resp(address: &str, family: i32) -> AddressResponse {
    AddressResponse { address: address.to_string(), family }
}

#[test]
fn example_com_single_a_record() {
    let q = dispatch("example.com", None).unwrap();
    assert_eq!(q.record_type(), QueryType::A);
    assert_eq!(q.name().to_string(), "example.com");
    let answer = Ok(vec![rec(RecordKind::A, "93.184.216.34")]);
    assert_eq!(
        complete(answer, Mode::Single),
        Ok(Outcome::One(Some(resp("93.184.216.34", 4))))
    );
}

#[test]
fn example_com_all_aaaa_records() {
    let q = dispatch("example.com", Some(6)).unwrap();
    assert_eq!(q.record_type(), QueryType::Aaaa);
    let answer = Ok(vec![rec(RecordKind::Aaaa, "2606:2800:220:1:248:1893:25c8:1946")]);
    assert_eq!(
        complete(answer, Mode::All),
        Ok(Outcome::Many(vec![resp("2606:2800:220:1:248:1893:25c8:1946", 6)]))
    );
}

#[test]
fn nxdomain_is_resolution_failure() {
    assert!(dispatch("nx.invalid", None).is_ok());
    let answer: Result<Vec<RawRecord>, String> = Err("nxdomain".to_string());
    let r = complete(answer, Mode::Single);
    assert_eq!(r, Err(LookupError::ResolutionFailed("nxdomain".to_string())));
    assert_eq!(r.unwrap_err().message(), "nxdomain");
}

#[test]
fn empty_hostname_is_invalid() {
    assert!(matches!(dispatch("", None), Err(LookupError::InvalidHostname(_))));
    assert!(matches!(dispatch("", Some(6)), Err(LookupError::InvalidHostname(_))));
}

#[test]
fn malformed_hostnames_are_invalid() {
    for h in ["exa mple.com", "tab\there.com", "nul\u{0}.org", "line\nbreak"] {
        let r = dispatch(h, None);
        assert!(matches!(r, Err(LookupError::InvalidHostname(_))), "{}", h);
    }
    let long_label = format!("{}.com", "a".repeat(64));
    assert!(matches!(dispatch(&long_label, None), Err(LookupError::InvalidHostname(_))));
}

#[test]
fn valid_hostnames_build_one_query() {
    for h in ["localhost", "www.example.org", "example.com.", "_srv.example.net"] {
        assert_eq!(dispatch(h, None).unwrap().record_type(), QueryType::A);
        assert_eq!(dispatch(h, Some(4)).unwrap().record_type(), QueryType::A);
        assert_eq!(dispatch(h, Some(6)).unwrap().record_type(), QueryType::Aaaa);
    }
}

#[test]
fn family_hint_mapping() {
    assert_eq!(record_type_for(None), QueryType::A);
    assert_eq!(record_type_for(Some(4)), QueryType::A);
    assert_eq!(record_type_for(Some(6)), QueryType::Aaaa);
    assert_eq!(record_type_for(Some(0)), QueryType::A);
    assert_eq!(record_type_for(Some(-6)), QueryType::A);
    assert_eq!(record_type_for(Some(i32::MAX)), QueryType::A);
}

#[test]
fn family_tags_are_closed() {
    assert_eq!(family_tag(RecordKind::A), Some(4));
    assert_eq!(family_tag(RecordKind::Aaaa), Some(6));
    assert_eq!(family_tag(RecordKind::Other(5)), None);
    assert_eq!(family_tag(RecordKind::Other(0)), None);
}

#[test]
fn tag_record_keeps_text() {
    assert_eq!(tag_record(&rec(RecordKind::A, "10.0.0.1")), Ok(resp("10.0.0.1", 4)));
    assert_eq!(tag_record(&rec(RecordKind::Aaaa, "::1")), Ok(resp("::1", 6)));
    assert_eq!(
        tag_record(&rec(RecordKind::Other(5), "alias.example.com.")),
        Err(LookupError::UnsupportedAddressKind("alias.example.com.".to_string()))
    );
}

#[test]
fn single_takes_first_of_three() {
    let raw = vec![
        rec(RecordKind::Aaaa, "::2"),
        rec(RecordKind::A, "192.0.2.1"),
        rec(RecordKind::A, "192.0.2.2"),
    ];
    assert_eq!(project_single(&raw), Ok(Some(resp("::2", 6))));
    let raw = vec![
        rec(RecordKind::A, "192.0.2.1"),
        rec(RecordKind::Aaaa, "::2"),
        rec(RecordKind::Other(16), "text"),
    ];
    assert_eq!(project_single(&raw), Ok(Some(resp("192.0.2.1", 4))));
}

#[test]
fn single_on_empty_answer_is_no_result() {
    assert_eq!(project_single(&vec![]), Ok(None));
    assert_eq!(complete(Ok(vec![]), Mode::Single), Ok(Outcome::One(None)));
}

#[test]
fn single_on_unsupported_first_record_fails() {
    let raw = vec![rec(RecordKind::Other(5), "cname.example."), rec(RecordKind::A, "192.0.2.1")];
    assert_eq!(
        project_single(&raw),
        Err(LookupError::UnsupportedAddressKind("cname.example.".to_string()))
    );
}

#[test]
fn all_keeps_order_and_duplicates() {
    let raw = vec![rec(RecordKind::A, "192.0.2.7"), rec(RecordKind::A, "192.0.2.7")];
    assert_eq!(project_all(&raw), Ok(vec![resp("192.0.2.7", 4), resp("192.0.2.7", 4)]));
    let raw = vec![
        rec(RecordKind::Aaaa, "2001:db8::1"),
        rec(RecordKind::A, "198.51.100.9"),
        rec(RecordKind::A, "192.0.2.1"),
    ];
    assert_eq!(
        project_all(&raw),
        Ok(vec![resp("2001:db8::1", 6), resp("198.51.100.9", 4), resp("192.0.2.1", 4)])
    );
}

#[test]
fn all_on_empty_answer_is_empty_list() {
    assert_eq!(project_all(&vec![]), Ok(vec![]));
    assert_eq!(complete(Ok(vec![]), Mode::All), Ok(Outcome::Many(vec![])));
}

#[test]
fn all_reports_first_unsupported_record() {
    let raw = vec![
        rec(RecordKind::A, "192.0.2.1"),
        rec(RecordKind::Other(5), "first.example."),
        rec(RecordKind::Other(15), "second.example."),
    ];
    assert_eq!(
        project_all(&raw),
        Err(LookupError::UnsupportedAddressKind("first.example.".to_string()))
    );
}

#[test]
fn project_follows_mode() {
    let raw = vec![rec(RecordKind::A, "192.0.2.1"), rec(RecordKind::Aaaa, "::1")];
    assert_eq!(project(&raw, Mode::Single), Ok(Outcome::One(Some(resp("192.0.2.1", 4)))));
    assert_eq!(
        project(&raw, Mode::All),
        Ok(Outcome::Many(vec![resp("192.0.2.1", 4), resp("::1", 6)]))
    );
}

#[test]
fn resolution_failure_keeps_cause_in_all_mode() {
    let r = complete(Err("request timed out".to_string()), Mode::All);
    assert_eq!(r, Err(LookupError::ResolutionFailed("request timed out".to_string())));
}

#[test]
fn error_messages() {
    assert_eq!(LookupError::InvalidHostname("bad".to_string()).message(), "bad");
    assert_eq!(LookupError::ResolverUnavailable("no config".to_string()).message(), "no config");
    assert_eq!(LookupError::UnsupportedAddressKind("x".to_string()).message(), "x");
    let e = dispatch("exa mple.com", None).err().unwrap();
    assert!(!e.message().is_empty());
}

