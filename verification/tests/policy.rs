use z_tenant_onboarding::json::Json;
use z_tenant_onboarding::marker::holds_markers_only;
use z_tenant_onboarding::policy::{
    assert_no_literal_pii, build_search_body, decide, normalise_limit, normalise_threshold,
    parse_provider_response, qualified_map_name, read_provider_response, scan_bounds,
    validate_subject_ref, CheckType, ListArgs, Threshold, DEFAULT_LIST_LIMIT, MAX_LIST_LIMIT,
    MAX_SUBJECT_REF,
};
use z_tenant_onboarding::text::is_white_space;
use z_tenant_onboarding::CONTRACT_VERSION;

fn threshold(x: f64) -> Threshold {
    Threshold::new(x.to_bits(), &x.to_string()).unwrap()
}

fn normalised(raw: Option<f64>) -> f64 {
    f64::from_bits(normalise_threshold(raw.map(threshold)).bits())
}

#[test]
fn contract_version_is_semver() {
    let parts: Vec<&str> = CONTRACT_VERSION.split('.').collect();
    assert_eq!(parts.len(), 3, "CONTRACT_VERSION must be MAJOR.MINOR.PATCH");
    for part in parts {
        assert!(part.parse::<u32>().is_ok(), "each part must be numeric");
    }
}

/// The package's own version is 0.1.0.
#[test]
fn cargo_version_matches_contract_version() {
    assert_eq!(CONTRACT_VERSION, "0.1.0");
}

#[test]
fn rejects_an_email_as_subject_ref() {
    let err = validate_subject_ref("jane.doe@example.com").unwrap_err();
    assert!(err.contains("personal data"), "got: {err}");
}

#[test]
fn rejects_a_human_name_as_subject_ref() {
    assert!(validate_subject_ref("Jane Doe").is_err());
}

#[test]
fn rejects_too_short_and_too_long_refs() {
    assert!(validate_subject_ref("ab").is_err());
    let long = "v".repeat(MAX_SUBJECT_REF + 1);
    assert!(validate_subject_ref(&long).is_err());
}

#[test]
fn accepts_an_opaque_ref_and_trims_it() {
    assert_eq!(validate_subject_ref("  vendor-8812 ").unwrap(), "vendor-8812");
}

#[test]
fn rejects_control_and_unicode_refs() {
    assert!(validate_subject_ref("vendor\u{202e}8812").is_err());
}

#[test]
fn unknown_check_type_is_an_error_not_a_fallback() {
    assert!(CheckType::parse(Some("everything")).is_err());
    assert_eq!(CheckType::parse(None).unwrap(), CheckType::Sanctions);
    assert_eq!(CheckType::parse(Some("pep")).unwrap(), CheckType::Pep);
}

#[test]
fn threshold_is_clamped_not_rejected() {
    assert_eq!(normalised(Some(1.4)), 1.0);
    assert_eq!(normalised(Some(-2.0)), 0.0);
    assert_eq!(normalised(None), 0.85);
    assert_eq!(normalised(Some(f64::NAN)), 0.85);
}

#[test]
fn limit_never_reaches_the_host_as_zero() {
    assert_eq!(normalise_limit(Some(0)), DEFAULT_LIST_LIMIT);
    assert_eq!(normalise_limit(None), DEFAULT_LIST_LIMIT);
    assert_eq!(normalise_limit(Some(9_999)), MAX_LIST_LIMIT);
    assert_eq!(normalise_limit(Some(7)), 7);
}

#[test]
fn search_body_carries_markers_never_values() {
    let body = build_search_body("vendor-8812", CheckType::Sanctions, threshold(0.9));
    let s = body.to_text();
    assert!(s.contains("{{profile.first_name}}"));
    assert!(s.contains("{{profile.last_name}}"));
    assert!(s.contains("{{profile.date_of_birth}}"));
    // the opaque ref is the ONLY caller-supplied string in the body
    assert!(s.contains("vendor-8812"));
    assert!(assert_no_literal_pii(&body).is_ok());
}

#[test]
fn markers_are_flat_and_snake_case() {
    // the host rejects nested / non-snake-case markers with placeholder-denied
    let body = build_search_body("vendor-1", CheckType::Pep, threshold(0.85));
    let s = body.to_text();
    for marker in s.split("{{profile.").skip(1) {
        let field = marker.split("}}").next().unwrap();
        assert!(!field.contains('.'), "nested marker: {field}");
        assert!(
            field.chars().all(|c| c.is_ascii_lowercase() || c == '_'),
            "non-snake-case marker: {field}"
        );
    }
}

#[test]
fn fails_closed_if_the_placeholder_is_gone() {
    let body = Json::Object(vec![("search_term".to_string(), Json::Text("Jane Doe".to_string()))]);
    assert!(assert_no_literal_pii(&body).is_err());
}

#[test]
fn zero_hits_clears_anything_else_reviews() {
    assert_eq!(decide(0), "clear");
    assert_eq!(decide(1), "review");
    assert_eq!(decide(9_000), "review");
}

#[test]
fn parses_a_real_shaped_provider_response() {
    let body = br#"{"content":{"data":{"id":45210,"ref":"AB-1","total_hits":0}}}"#;
    let (hits, r) = parse_provider_response(body).unwrap();
    assert_eq!(hits, 0);
    assert_eq!(r, "45210");
}

#[test]
fn missing_total_hits_is_an_error_not_a_clear() {
    let body = br#"{"content":{"data":{"id":1}}}"#;
    let err = parse_provider_response(body).unwrap_err();
    assert!(err.contains("refusing to assume zero"), "got: {err}");
}

#[test]
fn garbage_provider_body_is_an_error() {
    assert!(parse_provider_response(b"<html>502</html>").is_err());
    assert!(parse_provider_response(b"{}").is_err());
}

#[test]
fn map_name_hex_encodes_the_raw_did_bytes() {
    let did = [0xDEu8, 0xAD, 0xBE, 0xEF];
    assert_eq!(
        qualified_map_name(&did, "secrets"),
        "z:deadbeef:secrets".to_string()
    );
}

#[test]
fn scan_bounds_default_to_the_whole_map() {
    let (s, e) = scan_bounds(&ListArgs::default());
    assert!(s.is_empty());
    assert!(e.iter().all(|b| *b == 0xFF));
}

#[test]
fn default_scan_end_has_eight_bytes() {
    assert_eq!(scan_bounds(&ListArgs::default()).1, vec![0xFFu8; 8]);
}

#[test]
fn scan_bounds_are_the_bytes_of_the_keys() {
    let args =
        ListArgs { start: Some("b\u{e9}".to_string()), end: Some("z".to_string()), limit: None };
    assert_eq!(scan_bounds(&args), (vec![b'b', 0xC3, 0xA9], vec![b'z']));
}

#[test]
fn white_space_is_what_the_standard_library_says() {
    for n in 0..=0x10FFFFu32 {
        if let Some(c) = char::from_u32(n) {
            assert_eq!(is_white_space(c), c.is_whitespace(), "U+{n:04X}");
        }
    }
}

#[test]
fn refusals_of_a_reference_in_full() {
    assert_eq!(
        validate_subject_ref(" ab\u{3000}").unwrap_err(),
        "subject-ref must be 3-64 characters, got 2"
    );
    assert_eq!(
        validate_subject_ref(&"v".repeat(1234)).unwrap_err(),
        "subject-ref must be 3-64 characters, got 1234"
    );
    let personal = "subject-ref looks like personal data - pass your own opaque id (e.g. \
                    \"vendor-8812\"), not an email or a name";
    assert_eq!(validate_subject_ref("a@b").unwrap_err(), personal);
    assert_eq!(validate_subject_ref("a\u{2003}b").unwrap_err(), personal);
    assert_eq!(
        validate_subject_ref("a/b").unwrap_err(),
        "subject-ref may contain only ASCII letters, digits, '-', '_', '.' and ':'"
    );
}

#[test]
fn length_is_counted_in_bytes() {
    assert_eq!(
        validate_subject_ref("\u{e9}\u{e9}").unwrap_err(),
        "subject-ref may contain only ASCII letters, digits, '-', '_', '.' and ':'"
    );
    assert_eq!(
        validate_subject_ref(&"\u{e9}".repeat(33)).unwrap_err(),
        "subject-ref must be 3-64 characters, got 66"
    );
}

#[test]
fn shortest_and_longest_reference_are_accepted() {
    assert_eq!(validate_subject_ref("aZ9").unwrap(), "aZ9");
    let long = "-_.:".repeat(16);
    assert_eq!(validate_subject_ref(&long).unwrap(), long);
}

#[test]
fn accepted_reference_is_accepted_again() {
    let once = validate_subject_ref("\t vendor-8812\u{85}").unwrap();
    assert_eq!(validate_subject_ref(once).unwrap(), once);
}

#[test]
fn unknown_check_type_is_quoted() {
    assert_eq!(
        CheckType::parse(Some("a\"b")).unwrap_err(),
        "unknown check-type \"a\\\"b\" - expected \"sanctions\", \"adverse-media\" or \"pep\""
    );
}

#[test]
fn check_type_names_round_trip() {
    for t in [CheckType::Sanctions, CheckType::AdverseMedia, CheckType::Pep] {
        assert_eq!(CheckType::parse(Some(t.as_str())).unwrap(), t);
    }
    assert_eq!(CheckType::Sanctions.provider_filter(), "sanction");
    assert_eq!(CheckType::AdverseMedia.provider_filter(), "adverse-media");
    assert_eq!(CheckType::Pep.provider_filter(), "pep");
}

#[test]
fn threshold_in_range_is_kept_to_the_bit() {
    for x in [0.0, -0.0, 0.1 + 0.2, 1.0, 5e-324, 0.9999999999999999] {
        assert_eq!(normalised(Some(x)).to_bits(), f64::to_bits(x));
    }
    for x in [-5e-324, f64::MIN] {
        assert_eq!(normalised(Some(x)).to_bits(), 0);
    }
    for x in [1.0000000000000002, f64::MAX] {
        assert_eq!(normalised(Some(x)), 1.0);
    }
    for x in [f64::INFINITY, f64::NEG_INFINITY, -f64::NAN] {
        assert_eq!(normalised(Some(x)), 0.85);
    }
}

#[test]
fn clamping_a_threshold_keeps_order() {
    let asked = [-3.0, -0.5, 0.0, 0.25, 0.75, 1.0, 1.5];
    for pair in asked.windows(2) {
        assert!(normalised(Some(pair[0])) <= normalised(Some(pair[1])));
    }
}

#[test]
fn search_body_in_full() {
    let body = build_search_body("vendor-8812", CheckType::Sanctions, threshold(0.9));
    assert_eq!(
        body.to_text(),
        "{\"client_ref\":\"vendor-8812\",\"filters\":{\"birth_year\":\
         \"{{profile.date_of_birth}}\",\"types\":[\"sanction\"]},\"fuzziness\":0.6,\
         \"score_threshold\":0.9,\"search_term\":\
         \"{{profile.first_name}} {{profile.last_name}}\",\"share_url\":false}"
    );
    assert_eq!(body.to_bytes().unwrap(), body.to_text().into_bytes());
}

#[test]
fn search_body_has_the_clamped_threshold() {
    let body =
        build_search_body("v-1", CheckType::Pep, normalise_threshold(Some(threshold(1.4))));
    assert!(body.to_text().contains("\"score_threshold\":1.0"));
    let none = build_search_body("v-1", CheckType::Pep, threshold(f64::NAN));
    assert!(none.to_text().contains("\"score_threshold\":null"));
}

#[test]
fn guard_wants_a_string() {
    let refusal = "refusing to dispatch: search_term does not contain a profile placeholder, \
                   which would mean subject PII was assembled inside WASM";
    assert_eq!(assert_no_literal_pii(&Json::Null).unwrap_err(), refusal);
    let number = Json::Object(vec![("search_term".to_string(), Json::Unsigned(1))]);
    assert_eq!(assert_no_literal_pii(&number).unwrap_err(), refusal);
    let marked =
        Json::Object(vec![("search_term".to_string(), Json::Text("{{profile.b}}".to_string()))]);
    assert!(assert_no_literal_pii(&marked).is_ok());
}

fn body_of(term: &str, year: Option<Json>) -> Json {
    let mut body = vec![("search_term".to_string(), Json::Text(term.to_string()))];
    if let Some(year) = year {
        let filters = Json::Object(vec![("birth_year".to_string(), year)]);
        body.push(("filters".to_string(), filters));
    }
    Json::Object(body)
}

const TERM: &str = "{{profile.first_name}} {{profile.last_name}}";

#[test]
fn literal_birth_year_is_refused() {
    let refusal = "refusing to dispatch: filters.birth_year is not made of profile placeholders, \
                   which would mean subject PII was assembled inside WASM";
    for year in ["1980-01-01", "", "{{profile.date_of_birth}} 1980", "{{profile.date_of_birth"] {
        let body = body_of(TERM, Some(Json::Text(year.to_string())));
        assert_eq!(assert_no_literal_pii(&body).unwrap_err(), refusal);
    }
    let number = body_of(TERM, Some(Json::Unsigned(1980)));
    assert_eq!(assert_no_literal_pii(&number).unwrap_err(), refusal);
    let marked = body_of(TERM, Some(Json::Text("{{profile.date_of_birth}}".to_string())));
    assert!(assert_no_literal_pii(&marked).is_ok());
    assert!(assert_no_literal_pii(&body_of(TERM, None)).is_ok());
}

#[test]
fn literal_beside_a_marker_is_refused() {
    let refusal = "refusing to dispatch: search_term contains a literal beside its profile \
                   placeholders, which would mean subject PII was assembled inside WASM";
    for term in [
        "{{profile.first_name}} Doe",
        "Jane {{profile.last_name}}",
        "{{profile.first_name}}-{{profile.last_name}}",
        "{{profile.first_name}",
        "{{profile.}}",
        "{{profile.Jane Doe}}",
        "{{{profile.first_name}}",
        "{{profile.first_name}}}",
        "{{profile.a{{profile.b}}",
    ] {
        assert_eq!(assert_no_literal_pii(&body_of(term, None)).unwrap_err(), refusal);
    }
    for term in [TERM, " {{profile.full_name}}\n", "{{profile.a}}{{profile.b}}"] {
        assert!(assert_no_literal_pii(&body_of(term, None)).is_ok());
    }
}

#[test]
fn text_is_markers_only() {
    assert!(holds_markers_only(""));
    assert!(holds_markers_only(" \u{3000}{{profile.a}}\t"));
    assert!(!holds_markers_only("a"));
    assert!(!holds_markers_only("{{"));
}

#[test]
fn threshold_is_one_double() {
    let half = 0.5f64.to_bits();
    assert_eq!(Threshold::new(half, "0.5").unwrap().bits(), half);
    assert_eq!(Threshold::new(half, "5e-1").unwrap().bits(), half);
    assert!(Threshold::new(half, "7").is_none());
    assert!(Threshold::new(half, "half").is_none());
    assert!(Threshold::new(half, "inf").is_none());
    assert!(Threshold::new(f64::INFINITY.to_bits(), "1").is_none());
    assert_eq!(Threshold::new(f64::NAN.to_bits(), "NaN").unwrap().bits(), f64::NAN.to_bits());
}

#[test]
fn provider_response_errors_in_full() {
    assert_eq!(
        parse_provider_response(b"<html>502</html>").unwrap_err(),
        "provider response was not JSON: expected value at line 1 column 1"
    );
    for body in ["{}", "[]", "{\"content\":1}", "{\"content\":{}}"] {
        assert_eq!(
            parse_provider_response(body.as_bytes()).unwrap_err(),
            "provider response missing content.data"
        );
    }
    for hits in ["null", "-1", "1.0", "\"0\"", "18446744073709551616"] {
        let body = format!("{{\"content\":{{\"data\":{{\"total_hits\":{hits}}}}}}}");
        assert_eq!(
            parse_provider_response(body.as_bytes()).unwrap_err(),
            "provider response missing content.data.total_hits - refusing to assume zero"
        );
    }
}

#[test]
fn provider_reference_is_the_id_as_text() {
    let cases = [
        ("\"id\":\"AB\\n1\",", "AB\n1"),
        ("\"id\":45210,", "45210"),
        ("\"id\":-7,", "-7"),
        ("\"id\":1.5e3,", "1500.0"),
        ("\"id\":null,", "null"),
        ("\"id\":[true, {\"b\": 1, \"a\": \"x\"}],", "[true,{\"a\":\"x\",\"b\":1}]"),
        ("", "unknown"),
    ];
    for (id, expected) in cases {
        let body = format!("{{\"content\":{{\"data\":{{{id}\"total_hits\":18446744073709551615}}}}}}");
        let (hits, r) = parse_provider_response(body.as_bytes()).unwrap();
        assert_eq!(hits, u64::MAX);
        assert_eq!(r, expected);
    }
}

#[test]
fn provider_response_is_read_from_a_document() {
    let data = Json::Object(vec![
        ("total_hits".to_string(), Json::Null),
        ("total_hits".to_string(), Json::Signed(3)),
    ]);
    let doc = Json::Object(vec![(
        "content".to_string(),
        Json::Object(vec![("data".to_string(), data)]),
    )]);
    assert_eq!(read_provider_response(&doc).unwrap(), (3, "unknown".to_string()));
}

#[test]
fn map_names_tell_tenant_and_tail() {
    assert_eq!(qualified_map_name(&[], "a"), "z::a");
    assert_eq!(qualified_map_name(&[0x00, 0x0F, 0xA0], "a:b"), "z:000fa0:a:b");
    assert_ne!(qualified_map_name(&[1], "2:x"), qualified_map_name(&[1, 2], "x"));
}

#[test]
fn reference_stands_in_client_ref_alone() {
    let a = build_search_body("vendor-1", CheckType::Pep, threshold(0.5)).to_text();
    let b = build_search_body("vendor-2", CheckType::Pep, threshold(0.5)).to_text();
    assert_eq!(a.replace("\"client_ref\":\"vendor-1\"", "\"client_ref\":\"vendor-2\""), b);
    assert_eq!(a.matches("vendor-1").count(), 1);
}
