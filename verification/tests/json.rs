use z_tenant_onboarding::json::{Json, JsonFloat};

fn reprinted(text: &str) -> String {
    Json::parse(text.as_bytes()).unwrap().to_text()
}

#[test]
fn documents_are_read_and_printed() {
    assert_eq!(reprinted(" null "), "null");
    assert_eq!(
        reprinted("{\"b\": [1, -2, 3.25, true, \"\\u00e9\\n\"], \"a\": {}}"),
        "{\"a\":{},\"b\":[1,-2,3.25,true,\"\u{e9}\\n\"]}"
    );
    assert_eq!(reprinted("18446744073709551615"), "18446744073709551615");
    assert_eq!(reprinted("-9223372036854775808"), "-9223372036854775808");
}

#[test]
fn bad_documents_are_errors() {
    assert_eq!(Json::parse(b"").unwrap_err(), "EOF while parsing a value at line 1 column 0");
    assert!(Json::parse(b"{} x").is_err());
    assert!(Json::parse(&[0xFF]).is_err());
}

#[test]
fn later_member_counts() {
    assert_eq!(reprinted("{\"a\":1,\"a\":2}"), "{\"a\":2}");
    let doc = Json::Object(vec![
        ("a".to_string(), Json::Unsigned(1)),
        ("b".to_string(), Json::Bool(true)),
        ("a".to_string(), Json::Text("x".to_string())),
    ]);
    assert_eq!(doc.get("a").unwrap().as_str(), Some("x"));
    assert_eq!(doc.to_text(), "{\"a\":\"x\",\"b\":true}");
}

#[test]
fn members_and_scalars() {
    let doc = Json::parse(b"{\"n\":7,\"s\":\"t\",\"m\":-7}").unwrap();
    assert_eq!(doc.get("n").unwrap().as_u64(), Some(7));
    assert_eq!(doc.get("m").unwrap().as_u64(), None);
    assert_eq!(doc.get("n").unwrap().as_str(), None);
    assert_eq!(doc.get("s").unwrap().as_u64(), None);
    assert!(doc.get("x").is_none());
    assert!(Json::Array(vec![]).get("n").is_none());
    assert_eq!(Json::Signed(5).as_u64(), Some(5));
}

#[test]
fn floats_come_from_their_text() {
    for (text, x, printed) in [
        ("0", 0.0, "0.0"),
        ("0.6", 0.6, "0.6"),
        ("0.85", 0.85, "0.85"),
        ("1", 1.0, "1.0"),
        ("-0", -0.0, "-0.0"),
    ] {
        let number = JsonFloat::parse(text).unwrap();
        assert_eq!(number.bits(), f64::to_bits(x));
        assert_eq!(Json::Float(number).to_text(), printed);
    }
    assert_eq!(JsonFloat::parse("0").unwrap().bits(), 0);
    assert_eq!(JsonFloat::parse("0.6").unwrap().bits(), 0x3fe3_3333_3333_3333);
    assert_eq!(JsonFloat::parse("0.85").unwrap().bits(), 0x3feb_3333_3333_3333);
    assert_eq!(JsonFloat::parse("1").unwrap().bits(), 0x3ff0_0000_0000_0000);
    assert!(JsonFloat::parse("inf").is_none());
    assert!(JsonFloat::parse("NaN").is_none());
    assert!(JsonFloat::parse("x").is_none());
    assert_eq!(Json::Float(JsonFloat::parse("2.50").unwrap()).to_text(), "2.5");
}

#[test]
fn bytes_are_those_of_the_text() {
    let doc = Json::parse(b"[\"\xC3\xA9\", 1e300]").unwrap();
    assert_eq!(doc.to_bytes().unwrap(), doc.to_text().into_bytes());
    assert_eq!(doc.to_text(), "[\"\u{e9}\",1e+300]");
}
