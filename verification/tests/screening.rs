use z_tenant_onboarding::json::Json;
use z_tenant_onboarding::policy::{ListArgs, RunCheckArgs, SubjectRefArgs, Threshold};
use z_tenant_onboarding::screening::{
    api_token, describe, get_check, list_checks, list_input, list_page, read_records, run_check,
    tenant_map, AuditRead, AuditScan, Export, HttpError, HttpResponse, PendingCheck,
    PreparedCheck, RecordedCheck, ScreenedCheck, Verb,
};

const DID: [u8; 4] = [0xDE, 0xAD, 0xBE, 0xEF];

fn args(subject_ref: &str, check_type: Option<&str>, threshold: Option<f64>) -> RunCheckArgs {
    RunCheckArgs {
        subject_ref: subject_ref.to_string(),
        check_type: check_type.map(str::to_string),
        score_threshold: threshold.map(|x| Threshold::new(x.to_bits(), &x.to_string()).unwrap()),
    }
}

fn prepared() -> PreparedCheck {
    run_check(Ok(args(" vendor-8812 ", Some("adverse-media"), Some(1.4)))).unwrap().for_tenant(&DID)
}

fn pending() -> PendingCheck {
    prepared().dispatch(Ok(Some(b"s3cr\xC3\xA9t".to_vec()))).unwrap()
}

fn reply(code: u16, payload: &str) -> Result<HttpResponse, HttpError> {
    Ok(HttpResponse { code, payload: payload.as_bytes().to_vec() })
}

fn screened(hits: u64) -> ScreenedCheck {
    let body = format!("{{\"content\":{{\"data\":{{\"id\":\"AB-1\",\"total_hits\":{hits}}}}}}}");
    pending().receive(reply(200, &body)).unwrap()
}

fn recorded(hits: u64) -> RecordedCheck {
    screened(hits).stamp(1_772_000_000, 41_822)
}

#[test]
fn required_input_may_not_be_missing() {
    assert_eq!(Export::RunCheck.required_input(Some(vec![1])).unwrap(), vec![1]);
    assert_eq!(Export::RunCheck.required_input(None).unwrap_err(), "run-check: missing input");
    assert_eq!(Export::GetCheck.required_input(None).unwrap_err(), "get-check: missing input");
    assert_eq!(Export::ListChecks.bad_input("x"), "list-checks: bad input JSON: x");
}

#[test]
fn listing_needs_no_input() {
    assert_eq!(list_input(None), None);
    assert_eq!(list_input(Some(vec![])), None);
    assert_eq!(list_input(Some(vec![b'{'])), Some(vec![b'{']));
}

#[test]
fn http_errors_are_explained() {
    assert_eq!(
        describe(HttpError::EgressDenied("h".to_string())),
        "egress denied for h - add api.complyadvantage.com to the contract's http allow-list and \
         re-grant"
    );
    assert_eq!(
        describe(HttpError::PlaceholderDenied("{{a.b}}".to_string())),
        "placeholder not permitted: {{a.b}} (markers must be flat and snake_case)"
    );
    assert_eq!(
        describe(HttpError::PlaceholderUnknown("date_of_birth".to_string())),
        "the calling user's profile has no date_of_birth - screening cannot run without it"
    );
    assert_eq!(
        describe(HttpError::PlaceholderNoUserContext),
        "no user context bound: run-check must be invoked through the Session API by the user \
         being screened, not via /api/dev/exec"
    );
    assert_eq!(
        describe(HttpError::UpstreamError("dns".to_string())),
        "screening provider unreachable: dns"
    );
}

#[test]
fn tenant_map_is_qualified() {
    assert_eq!(tenant_map(&DID, "secrets"), "z:deadbeef:secrets");
}

#[test]
fn token_is_text_or_an_error() {
    assert_eq!(api_token("m", Ok(Some(b"\xC3\xA9".to_vec()))).unwrap(), "\u{e9}");
    assert_eq!(
        api_token("m", Ok(Some(vec![0xFF]))).unwrap_err(),
        "provider token in secrets map is not valid UTF-8"
    );
    assert_eq!(
        api_token("m", Ok(None)).unwrap_err(),
        "onboarding_api_key not found in m - seed it with the tenant SDK before invoking this \
         contract"
    );
    assert_eq!(api_token("m", Err("denied".to_string())).unwrap_err(), "kv read on m: denied");
}

#[test]
fn run_check_refuses_bad_arguments() {
    assert_eq!(
        run_check(Err("EOF".to_string())).unwrap_err(),
        "run-check: bad input JSON: EOF"
    );
    assert!(run_check(Ok(args("a@b.c", Some("nothing"), None)))
        .unwrap_err()
        .contains("personal data"));
    assert!(run_check(Ok(args("vendor-1", Some("nothing"), None)))
        .unwrap_err()
        .contains("unknown check-type \"nothing\""));
}

#[test]
fn run_check_prepares_the_search() {
    let check = prepared();
    assert_eq!(check.tenant_did, DID);
    assert_eq!(check.secrets_map, "z:deadbeef:secrets");
    assert_eq!(check.subject_ref, "vendor-8812");
    let body = check.body.to_text();
    assert!(body.contains("\"client_ref\":\"vendor-8812\""));
    assert!(body.contains("\"score_threshold\":1.0"));
    assert!(body.contains("\"types\":[\"adverse-media\"]"));
    let plain = run_check(Ok(args("vendor-1", None, None))).unwrap();
    assert!(plain.body.to_text().contains("\"score_threshold\":0.85"));
    assert!(plain.body.to_text().contains("\"types\":[\"sanction\"]"));
}

#[test]
fn request_carries_token_and_body() {
    let body = prepared().body.to_text();
    let check = pending();
    assert_eq!(check.request.method, Verb::Post);
    assert_eq!(check.request.url, "https://api.complyadvantage.com/searches");
    assert_eq!(
        check.request.headers,
        vec![
            ("Content-Type".to_string(), "application/json".to_string()),
            ("Authorization".to_string(), "Token s3cr\u{e9}t".to_string()),
        ]
    );
    assert_eq!(check.request.payload, body.into_bytes());
    assert_eq!(check.log, "screening vendor-8812 (adverse-media) via api.complyadvantage.com");
}

#[test]
fn no_token_no_request() {
    let e = prepared().dispatch(Ok(None)).unwrap_err();
    assert!(e.starts_with("onboarding_api_key not found in z:deadbeef:secrets"));
}

#[test]
fn refused_response_is_withheld() {
    for code in [0, 199, 202, 204, 400, 500, 65535] {
        let a = pending().receive(reply(code, "Jane Doe")).unwrap_err();
        let b = pending().receive(reply(code, "")).unwrap_err();
        assert_eq!(a.error, b.error);
        assert_eq!(a.log, b.log);
        assert_eq!(
            a.error,
            format!(
                "screening provider returned HTTP {code} (response body withheld: it echoes the \
                 substituted search term)"
            )
        );
        assert_eq!(a.log, Some(format!("provider returned HTTP {code}")));
    }
}

#[test]
fn unreachable_provider_is_explained() {
    let failure =
        pending().receive(Err(HttpError::UpstreamError("timeout".to_string()))).unwrap_err();
    assert_eq!(failure.error, "screening provider unreachable: timeout");
    assert_eq!(failure.log, None);
}

#[test]
fn unexpected_response_is_no_clear() {
    let failure = pending().receive(reply(201, "{\"content\":{\"data\":{}}}")).unwrap_err();
    assert_eq!(
        failure.error,
        "provider response missing content.data.total_hits - refusing to assume zero"
    );
    assert_eq!(failure.log, None);
}

#[test]
fn record_clears_on_zero_hits_alone() {
    for (hits, decision) in [(0, "clear"), (1, "review"), (u64::MAX, "review")] {
        let check = recorded(hits);
        assert_eq!(check.audit_map, "z:deadbeef:onboarding-audit");
        assert_eq!(check.record.subject_ref, "vendor-8812");
        assert_eq!(check.record.decision, decision);
        assert_eq!(check.record.check_type, "adverse-media");
        assert_eq!(check.record.hit_count, hits);
        assert_eq!(check.record.checked_at, 1_772_000_000);
        assert_eq!(check.record.seq_no, 41_822);
        assert_eq!(check.record.provider_ref, "AB-1");
        assert_eq!(check.record.contract_version, "0.1.0");
    }
}

#[test]
fn record_is_stored_and_returned() {
    let write = recorded(2).encode(Ok(vec![7, 8])).unwrap();
    assert_eq!(write.map, "z:deadbeef:onboarding-audit");
    assert_eq!(write.key, b"vendor-8812".to_vec());
    assert_eq!(write.value, vec![7, 8]);
    let reply = write.finish(Ok(())).unwrap();
    assert_eq!(reply.output, vec![7, 8]);
    assert_eq!(reply.log, "vendor-8812: review (2 hit(s))");
}

#[test]
fn failed_store_is_an_error() {
    assert_eq!(recorded(0).encode(Err("no".to_string())).unwrap_err(), "no");
    let write = recorded(0).encode(Ok(vec![])).unwrap();
    assert_eq!(
        write.finish(Err("denied".to_string())).unwrap_err(),
        "kv write on z:deadbeef:onboarding-audit: denied"
    );
}

fn read(subject_ref: &str) -> Result<AuditRead, String> {
    let lookup = get_check(Ok(SubjectRefArgs { subject_ref: subject_ref.to_string() }))?;
    Ok(lookup.for_tenant(&DID))
}

#[test]
fn get_check_reads_what_run_check_stored() {
    let write = recorded(0).encode(Ok(vec![1, 2, 3])).unwrap();
    let read = read("\nvendor-8812").unwrap();
    assert_eq!(read.map, write.map);
    assert_eq!(read.key, write.key);
    let value = write.value.clone();
    assert_eq!(read.reply(Ok(Some(value))).unwrap(), write.finish(Ok(())).unwrap().output);
}

#[test]
fn get_check_errors_in_full() {
    assert_eq!(
        get_check(Err("EOF".to_string())).unwrap_err(),
        "get-check: bad input JSON: EOF"
    );
    assert!(read("Jane Doe").unwrap_err().contains("personal data"));
    assert_eq!(
        read("vendor-1").unwrap().reply(Ok(None)).unwrap_err(),
        "no screening on record for vendor-1"
    );
    assert_eq!(
        read("vendor-1").unwrap().reply(Err("x".to_string())).unwrap_err(),
        "kv read on z:deadbeef:onboarding-audit: x"
    );
}

fn scan(limit: u32) -> AuditScan {
    let listing = list_checks(Some(Ok(ListArgs { start: None, end: None, limit: Some(limit) })));
    listing.unwrap().for_tenant(&DID)
}

fn row(key: &[u8], value: &[u8]) -> (Vec<u8>, Vec<u8>) {
    (key.to_vec(), value.to_vec())
}

#[test]
fn list_checks_scans_the_audit_map() {
    let all = list_checks(None).unwrap().for_tenant(&DID);
    assert_eq!(all.map, "z:deadbeef:onboarding-audit");
    assert_eq!((all.start, all.end, all.limit), (vec![], vec![0xFF; 8], 100));
    let some = list_checks(
        Some(Ok(ListArgs {
            start: Some("a".to_string()),
            end: Some("b".to_string()),
            limit: Some(5000),
        })),
    )
    .unwrap();
    assert_eq!((some.start, some.end, some.limit), (vec![b'a'], vec![b'b'], 1000));
    assert_eq!(
        list_checks(Some(Err("EOF".to_string()))).unwrap_err(),
        "list-checks: bad input JSON: EOF"
    );
}

#[test]
fn page_that_is_not_full_is_complete() {
    let rows = vec![row(b"a", b"{\"x\":1}"), row(b"b", b"not json")];
    assert_eq!(
        scan(3).reply(Ok(rows)).unwrap(),
        b"{\"count\":1,\"next-start\":null,\"records\":[{\"x\":1}],\"truncated\":false}".to_vec()
    );
}

#[test]
fn full_page_names_the_key_to_resume_from() {
    let rows = vec![row(b"a", b"1"), row(b"b\xFF", b"oops")];
    assert_eq!(
        String::from_utf8(scan(2).reply(Ok(rows)).unwrap()).unwrap(),
        "{\"count\":1,\"next-start\":\"b\u{FFFD}\",\"records\":[1],\"truncated\":true}"
    );
    let rows = vec![row(b"a", b"1"), row(b"b\xC3\xA9", b"2")];
    assert_eq!(
        String::from_utf8(scan(2).reply(Ok(rows)).unwrap()).unwrap(),
        "{\"count\":2,\"next-start\":\"b\u{e9}\",\"records\":[1,2],\"truncated\":true}"
    );
}

#[test]
fn listing_resumes_at_the_last_row() {
    let rows = [row(b"a", b"1"), row(b"b\xC3\xA9", b"2"), row(b"b\xC3\xAA", b"3"), row(b"c", b"4")];
    let page = scan(2).page(&rows[..2].to_vec(), vec![]);
    let key = page.get("next-start").unwrap().as_str().unwrap().to_string();
    let next = list_checks(Some(Ok(ListArgs { start: Some(key), end: None, limit: None })));
    let next = next.unwrap().for_tenant(&DID);
    assert_eq!(next.start, b"b\xC3\xA9".to_vec());
    for (at, (key, _)) in rows.iter().enumerate() {
        assert_eq!(next.start <= *key && *key < next.end, at >= 1);
    }
}

#[test]
fn failed_scan_is_an_error() {
    assert_eq!(
        scan(2).reply(Err("x".to_string())).unwrap_err(),
        "kv scan on z:deadbeef:onboarding-audit: x"
    );
}

#[test]
fn empty_page_without_a_limit_has_no_key() {
    let scan = AuditScan { map: "m".to_string(), start: vec![], end: vec![], limit: 0 };
    assert_eq!(
        scan.reply(Ok(vec![])).unwrap(),
        b"{\"count\":0,\"next-start\":null,\"records\":[],\"truncated\":true}".to_vec()
    );
}

#[test]
fn records_keep_their_order() {
    let rows = vec![row(b"a", b"3"), row(b"b", b"?"), row(b"c", b"\"z\"")];
    let records = read_records(&rows);
    assert_eq!(records.len(), 2);
    assert_eq!(
        list_page(records, false, Some("k".to_string())).to_text(),
        "{\"count\":2,\"next-start\":\"k\",\"records\":[3,\"z\"],\"truncated\":false}"
    );
}

#[test]
fn log_tells_reference_and_check_type_alone() {
    let a = run_check(Ok(args("vendor-1", None, None))).unwrap();
    let b = run_check(Ok(args(" vendor-1", Some("sanctions"), Some(0.5)))).unwrap();
    let (a, b) = (a.for_tenant(&DID), b.for_tenant(&[1]));
    let log = a.dispatch(Ok(Some(b"one".to_vec()))).unwrap().log;
    assert_eq!(log, b.dispatch(Ok(Some(b"two".to_vec()))).unwrap().log);
    assert_eq!(log, "screening vendor-1 (sanctions) via api.complyadvantage.com");
}

#[test]
fn secrets_and_audit_maps_differ() {
    assert_ne!(prepared().secrets_map, recorded(0).audit_map);
}

#[test]
fn scan_without_bounds_covers_the_map() {
    let all = list_checks(None).unwrap().for_tenant(&DID);
    for key in ["", "a", "vendor-8812", "\u{10FFFF}\u{10FFFF}\u{10FFFF}"] {
        assert!(all.start.as_slice() <= key.as_bytes() && key.as_bytes() < all.end.as_slice());
    }
}

#[test]
fn request_is_made_of_token_and_payload() {
    let check = prepared().request("t", vec![1, 2]);
    assert_eq!(check.subject_ref, "vendor-8812");
    assert_eq!(check.tenant_did, DID);
    assert_eq!(check.request.headers[1], ("Authorization".to_string(), "Token t".to_string()));
    assert_eq!(check.request.payload, vec![1, 2]);
}

#[test]
fn finding_is_taken_over() {
    let check = pending().conclude(Ok((3, "AB-1".to_string()))).unwrap();
    assert_eq!((check.hit_count, check.provider_ref.as_str()), (3, "AB-1"));
    assert_eq!(check.subject_ref, "vendor-8812");
    let failure = pending().conclude(Err("no data".to_string())).unwrap_err();
    assert_eq!((failure.error.as_str(), failure.log), ("no data", None));
}

#[test]
fn page_is_made_of_rows_and_records() {
    let rows = vec![row(b"a", b""), row(b"b", b"")];
    assert_eq!(
        scan(2).page(&rows, vec![Json::Bool(true)]).to_text(),
        "{\"count\":1,\"next-start\":\"b\",\"records\":[true],\"truncated\":true}"
    );
    assert_eq!(
        scan(3).page(&rows, vec![]).to_text(),
        "{\"count\":0,\"next-start\":null,\"records\":[],\"truncated\":false}"
    );
}

#[test]
fn literal_is_never_dispatched() {
    let body = Json::Object(vec![("search_term".to_string(), Json::Text("Jane Doe".to_string()))]);
    let check = PreparedCheck { body, ..prepared() };
    let e = check.dispatch(Ok(Some(b"token".to_vec()))).unwrap_err();
    assert_eq!(
        e,
        "refusing to dispatch: search_term does not contain a profile placeholder, which would \
         mean subject PII was assembled inside WASM"
    );
    let check = PreparedCheck { body: Json::Null, ..prepared() };
    assert!(check.dispatch(Err("denied".to_string())).unwrap_err().starts_with("refusing"));
}

#[test]
fn page_is_full_at_its_limit_alone() {
    let rows = vec![row(b"a", b"1"), row(b"b", b"2")];
    for (limit, truncated) in [(1, "false"), (2, "true"), (3, "false")] {
        let text = scan(limit).page(&rows, vec![]).to_text();
        assert!(text.ends_with(&format!("\"truncated\":{truncated}}}")));
    }
}
