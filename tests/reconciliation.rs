use dyndns_update::bounded::MaxLenString;
use dyndns_update::lister::{check_rule_response, merge_rule_results, rule_url, ListError};
use dyndns_update::patcher::{
    check_patch_response, patch_succeeded, prepare_patch, PatchError,
};
use dyndns_update::reconcile::{count_successes, decide_record, plan_zone, Decision};
use dyndns_update::bounded::TTLU32;
use dyndns_update::records::{ListResponse, PatchResponse, Record, RecordResponse, TypeSpecificData};
use dyndns_update::resolver::{address_tuple_to_string, get_ip_addresses, AddressPair};

fn record(id: &str, type_data: TypeSpecificData) -> RecordResponse {
    RecordResponse {
        type_data,
        name: MaxLenString(format!("{id}.example.com")),
        comment: None,
        created_on: String::new(),
        id: MaxLenString(id.to_string()),
        locked: false,
        meta: None,
        modified_on: String::new(),
        proxiable: true,
        tags: None,
        ttl: None,
        zone_id: None,
        zone_name: "example.com".to_string(),
    }
}

fn a(id: &str, content: &str) -> RecordResponse {
    record(id, TypeSpecificData::A { content: content.to_string(), proxied: None })
}

fn aaaa(id: &str, content: &str) -> RecordResponse {
    record(id, TypeSpecificData::AAAA { content: content.to_string(), proxied: Some(false) })
}

fn cname(id: &str, content: &str) -> RecordResponse {
    record(id, TypeSpecificData::CNAME { content: content.to_string() })
}

fn pair(v4: Option<&str>, v6: Option<&str>) -> AddressPair {
    AddressPair { ipv4: v4.map(|s| s.to_string()), ipv6: v6.map(|s| s.to_string()) }
}

fn listing(records: Vec<RecordResponse>) -> ListResponse {
    ListResponse { result: records, errors: vec![], messages: vec![], success: true, result_info: None }
}

fn patched(rec: RecordResponse, success: bool) -> PatchResponse {
    PatchResponse { result: rec, errors: vec![], messages: vec![], success }
}

fn ids(records: &[RecordResponse]) -> Vec<String> {
    records.iter().map(|r| r.id.0.clone()).collect()
}

fn with_content(rec: &RecordResponse, content: &str) -> RecordResponse {
    let mut r = rec.clone();
    r.type_data = match &rec.type_data {
        TypeSpecificData::A { proxied, .. } => {
            TypeSpecificData::A { content: content.to_string(), proxied: *proxied }
        }
        TypeSpecificData::AAAA { proxied, .. } => {
            TypeSpecificData::AAAA { content: content.to_string(), proxied: *proxied }
        }
        other => other.clone(),
    };
    r
}

#[test]
fn overlapping_rules_patch_only_changed_record() {
    let results = vec![
        Ok(vec![a("r1", "1.1.1.1")]),
        Ok(vec![a("r1", "1.1.1.1"), aaaa("r2", "::1")]),
    ];
    let merged = merge_rule_results(results);
    assert_eq!(merged.len(), 2);
    let addrs = pair(Some("2.2.2.2"), Some("::1"));
    let plan = plan_zone(&merged, &addrs);
    let mut outcomes = Vec::new();
    for (rec, d) in merged.iter().zip(plan.iter()) {
        match d {
            Decision::Patch(c) => {
                assert_eq!(rec.id.0, "r1");
                assert_eq!(c, "2.2.2.2");
                let zone = MaxLenString::<32>("z1".to_string());
                let req = prepare_patch(&zone, rec, &addrs).unwrap();
                assert_eq!(req.content, "2.2.2.2");
                outcomes.push(Ok(patched(a("r1", "2.2.2.2"), true)));
            }
            Decision::Unchanged => assert_eq!(rec.id.0, "r2"),
            other => panic!("unexpected decision {other:?}"),
        }
    }
    assert_eq!(count_successes(&outcomes), 1);
}

#[test]
fn ipv4_only_lookup_failing_is_fatal() {
    let r = get_ip_addresses(Err("connection refused".to_string()), Ok(None));
    assert_eq!(r.unwrap_err(), "No addresses returned");
}

#[test]
fn no_endpoint_configured_is_fatal() {
    assert!(get_ip_addresses(Ok(None), Ok(None)).is_err());
    assert!(get_ip_addresses(Err("a".to_string()), Err("b".to_string())).is_err());
}

#[test]
fn one_family_failing_keeps_the_other() {
    let p = get_ip_addresses(Ok(Some("2.2.2.2".to_string())), Err("timeout".to_string())).unwrap();
    assert_eq!(p.ipv4.as_deref(), Some("2.2.2.2"));
    assert_eq!(p.ipv6, None);
    let p = get_ip_addresses(Ok(None), Ok(Some("::2".to_string()))).unwrap();
    assert_eq!(p.ipv4, None);
    assert_eq!(p.ipv6.as_deref(), Some("::2"));
}

#[test]
fn merged_size_is_distinct_ids() {
    let results = vec![
        Ok(vec![a("r1", "1.1.1.1"), a("r2", "1.1.1.1")]),
        Ok(vec![a("r2", "1.1.1.1"), a("r3", "1.1.1.1")]),
        Ok(vec![a("r1", "1.1.1.1"), a("r3", "1.1.1.1")]),
    ];
    let merged = merge_rule_results(results);
    assert_eq!(ids(&merged), vec!["r1", "r2", "r3"]);
}

#[test]
fn first_seen_record_wins() {
    let results = vec![Ok(vec![a("r1", "1.1.1.1")]), Ok(vec![a("r1", "9.9.9.9")])];
    let merged = merge_rule_results(results);
    assert_eq!(merged.len(), 1);
    assert!(matches!(&merged[0].type_data, TypeSpecificData::A { content, .. } if content == "1.1.1.1"));
}

#[test]
fn failed_rule_does_not_hide_other_rules() {
    let results = vec![
        Err(ListError::Transport("reset".to_string())),
        Ok(vec![aaaa("r2", "::1")]),
        Err(ListError::Empty),
        Ok(vec![a("r4", "1.1.1.1")]),
    ];
    let merged = merge_rule_results(results);
    assert_eq!(ids(&merged), vec!["r2", "r4"]);
}

#[test]
fn no_rules_merge_to_nothing() {
    assert!(merge_rule_results(vec![]).is_empty());
    assert!(merge_rule_results(vec![Err(ListError::Empty)]).is_empty());
}

#[test]
fn second_pass_issues_no_patch() {
    let addrs = pair(Some("2.2.2.2"), Some("::2"));
    let first = vec![a("r1", "1.1.1.1"), aaaa("r2", "::2"), cname("r3", "x.example.com"), aaaa("r4", "::1")];
    let plan = plan_zone(&first, &addrs);
    assert_eq!(plan.iter().filter(|d| matches!(d, Decision::Patch(_))).count(), 2);
    let second: Vec<RecordResponse> = first
        .iter()
        .zip(plan.iter())
        .map(|(r, d)| match d {
            Decision::Patch(c) => with_content(r, c),
            _ => r.clone(),
        })
        .collect();
    let plan2 = plan_zone(&second, &addrs);
    assert_eq!(plan2.iter().filter(|d| matches!(d, Decision::Patch(_))).count(), 0);
}

#[test]
fn failed_patch_does_not_affect_others() {
    let outcomes = vec![
        Err(PatchError::Transport("connection reset".to_string())),
        Ok(patched(a("r2", "2.2.2.2"), true)),
        Ok(patched(a("r3", "2.2.2.2"), false)),
        Ok(patched(a("r4", "2.2.2.2"), true)),
    ];
    assert_eq!(count_successes(&outcomes), 2);
    assert!(!patch_succeeded(&outcomes[0]));
    assert!(patch_succeeded(&outcomes[1]));
    assert!(!patch_succeeded(&outcomes[2]));
    assert_eq!(count_successes(&vec![]), 0);
}

#[test]
fn cname_is_never_patched() {
    let addrs = pair(Some("2.2.2.2"), Some("::2"));
    let rec = cname("c1", "host.example.com");
    assert!(matches!(decide_record(&rec, &addrs), Decision::NotIpRecord));
    let zone = MaxLenString::<32>("z1".to_string());
    assert!(matches!(prepare_patch(&zone, &rec, &addrs), Err(PatchError::NotIpRecord)));
    let mx = record("m1", TypeSpecificData::MX { content: "mail.example.com".to_string(), priority: 10 });
    assert!(matches!(decide_record(&mx, &addrs), Decision::NotIpRecord));
    let other = record("o1", TypeSpecificData::Other);
    assert!(matches!(decide_record(&other, &addrs), Decision::NotIpRecord));
}

#[test]
fn missing_family_is_skipped() {
    let addrs = pair(None, Some("::2"));
    assert!(matches!(decide_record(&a("r1", "1.1.1.1"), &addrs), Decision::NoAddress));
    let addrs = pair(Some("2.2.2.2"), None);
    assert!(matches!(decide_record(&aaaa("r2", "::1"), &addrs), Decision::NoAddress));
    assert!(matches!(decide_record(&a("r1", "2.2.2.2"), &addrs), Decision::Unchanged));
    assert!(matches!(decide_record(&a("r1", "1.1.1.1"), &addrs), Decision::Patch(c) if c == "2.2.2.2"));
}

#[test]
fn prepare_patch_preconditions() {
    let zone = MaxLenString::<32>("z1".to_string());
    assert!(matches!(prepare_patch(&zone, &a("r1", "1.1.1.1"), &pair(None, None)), Err(PatchError::NoAddresses)));
    assert!(matches!(prepare_patch(&zone, &a("r1", "1.1.1.1"), &pair(None, Some("::2"))), Err(PatchError::NoIpv4Address)));
    assert!(matches!(prepare_patch(&zone, &aaaa("r1", "::1"), &pair(Some("2.2.2.2"), None)), Err(PatchError::NoIpv6Address)));
    assert!(matches!(prepare_patch(&zone, &a("", "1.1.1.1"), &pair(Some("2.2.2.2"), None)), Err(PatchError::MissingId)));
    let req = prepare_patch(&zone, &aaaa("r9", "::1"), &pair(Some("2.2.2.2"), Some("::2"))).unwrap();
    assert_eq!(req.url, "https://api.cloudflare.com/client/v4/zones/z1/dns_records/r9");
    assert_eq!(req.content, "::2");
}

#[test]
fn list_url_carries_query() {
    let zone = MaxLenString::<32>("abc123".to_string());
    assert_eq!(
        rule_url(&zone, "name=home.example.com&type=A"),
        "https://api.cloudflare.com/client/v4/zones/abc123/dns_records?name=home.example.com&type=A"
    );
}

#[test]
fn rule_response_outcomes() {
    let r = check_rule_response(403, "denied".to_string(), Err("not json".to_string()));
    assert!(matches!(r, Err(ListError::Status { code: 403, ref body }) if body == "denied"));
    let r = check_rule_response(200, "{".to_string(), Err("eof".to_string()));
    assert!(matches!(r, Err(ListError::Decode(ref e)) if e == "eof"));
    let r = check_rule_response(200, "{}".to_string(), Ok(listing(vec![])));
    assert!(matches!(r, Err(ListError::Empty)));
    let r = check_rule_response(200, "{}".to_string(), Ok(listing(vec![a("r1", "1.1.1.1")])));
    assert_eq!(ids(&r.unwrap()), vec!["r1"]);
    let r = check_rule_response(299, "{}".to_string(), Ok(listing(vec![a("r1", "1.1.1.1")])));
    assert!(r.is_ok());
    let r = check_rule_response(300, "moved".to_string(), Ok(listing(vec![a("r1", "1.1.1.1")])));
    assert!(matches!(r, Err(ListError::Status { code: 300, .. })));
}

#[test]
fn patch_response_outcomes() {
    let name = MaxLenString::<255>("home.example.com".to_string());
    let r = check_patch_response(500, "boom".to_string(), &name, Err("x".to_string()));
    match r {
        Err(PatchError::Status { code, name, body }) => {
            assert_eq!(code, 500);
            assert_eq!(name, "home.example.com");
            assert_eq!(body, "boom");
        }
        other => panic!("unexpected {other:?}"),
    }
    let r = check_patch_response(200, "{".to_string(), &name, Err("eof".to_string()));
    assert!(matches!(r, Err(PatchError::Decode(ref e)) if e == "eof"));
    let r = check_patch_response(200, "{}".to_string(), &name, Ok(patched(a("r1", "2.2.2.2"), false)));
    assert!(matches!(r, Ok(ref p) if !p.success));
    assert!(!patch_succeeded(&r));
}

#[test]
fn address_pair_text() {
    assert_eq!(address_tuple_to_string(&pair(None, None)), "no addresses");
    assert_eq!(address_tuple_to_string(&pair(Some("1.2.3.4"), None)), "1.2.3.4 (IPv4)");
    assert_eq!(address_tuple_to_string(&pair(None, Some("::1"))), "::1 (IPv6)");
    assert_eq!(
        address_tuple_to_string(&pair(Some("1.2.3.4"), Some("::1"))),
        "both 1.2.3.4 (IPv4) and ::1 (IPv6)"
    );
}

#[test]
fn record_getters_expose_fields() {
    let mut r = a("r7", "1.1.1.1");
    r.comment = Some("home".to_string());
    r.tags = Some(vec!["dyn".to_string()]);
    r.ttl = Some(TTLU32(300));
    assert_eq!(r.get_id().map(|i| i.0.as_str()), Some("r7"));
    assert_eq!(r.get_name().0, "r7.example.com");
    assert_eq!(r.get_comment().as_deref(), Some("home"));
    assert_eq!(r.get_tags().as_ref().map(|t| t.len()), Some(1));
    assert_eq!(r.get_ttl().map(|t| t.0), Some(300));
    assert!(matches!(r.get_type_data(), TypeSpecificData::A { content, .. } if content == "1.1.1.1"));
}
