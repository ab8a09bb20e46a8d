use pyorion::json::Json;
use pyorion::json_dec::json_from_bytes;
use pyorion::json_enc::json_to_bytes;

fn enc(v: &Json) -> Vec<u8> {
    json_to_bytes(v)
}

fn text(v: &Json) -> String {
    String::from_utf8(enc(v)).unwrap()
}

fn round_trips(v: Json) {
    let bytes = enc(&v);
    let back = json_from_bytes(&bytes).expect("own output must decode");
    assert_eq!(enc(&back), bytes);
}

#[test]
fn encodes_atoms() {
    assert_eq!(text(&Json::Null), "null");
    assert_eq!(text(&Json::Bool(true)), "true");
    assert_eq!(text(&Json::Bool(false)), "false");
    assert_eq!(text(&Json::Int(0)), "0");
    assert_eq!(text(&Json::Int(-42)), "-42");
    assert_eq!(text(&Json::Int(i64::MAX)), "9223372036854775807");
    assert_eq!(text(&Json::Int(i64::MIN)), "-9223372036854775808");
}

#[test]
fn encodes_strings_with_escapes() {
    assert_eq!(text(&Json::Str(String::from("hello"))), "\"hello\"");
    assert_eq!(
        text(&Json::Str(String::from("a\"b\\c"))),
        "\"a\\\"b\\\\c\""
    );
    assert_eq!(text(&Json::Str(String::from("x\ny"))), "\"x\\u000ay\"");
    assert_eq!(text(&Json::Str(String::from("héllo"))), "\"héllo\"");
}

#[test]
fn encodes_containers() {
    let arr = Json::Arr(vec![Json::Int(1), Json::Str(String::from("two")), Json::Null]);
    assert_eq!(text(&arr), "[1,\"two\",null]");
    let obj = Json::Obj(vec![
        (String::from("a"), Json::Int(1)),
        (String::from("b"), Json::Arr(vec![])),
    ]);
    assert_eq!(text(&obj), "{\"a\":1,\"b\":[]}");
}

#[test]
fn round_trips_nested_values() {
    round_trips(Json::Null);
    round_trips(Json::Int(-7));
    round_trips(Json::Str(String::from("quote \" slash \\ tab\tnewline\n")));
    round_trips(Json::Str(String::from("unicode: αβγ 中文 🙂")));
    round_trips(Json::Arr(vec![
        Json::Bool(true),
        Json::Obj(vec![
            (String::from("k"), Json::Arr(vec![Json::Int(1), Json::Int(2)])),
            (String::from("empty"), Json::Obj(vec![])),
        ]),
    ]));
}

#[test]
fn decodes_whitespace_and_short_escapes() {
    let v = json_from_bytes(&b" [ 1 , \"a\\tb\" , { \"k\" : null } ] ".to_vec()).unwrap();
    assert_eq!(text(&v), "[1,\"a\\u0009b\",{\"k\":null}]");
    let s = json_from_bytes(&b"\"\\u0041\\u00e9\"".to_vec()).unwrap();
    assert_eq!(text(&s), "\"Aé\"");
}

#[test]
fn decodes_unicode_escapes_and_surrogate_pairs() {
    let s = json_from_bytes(&b"\"\\u0101\"".to_vec()).unwrap();
    assert_eq!(text(&s), "\"\u{101}\"");
    let s = json_from_bytes(&b"\"\\u4e2d\\u6587\"".to_vec()).unwrap();
    assert_eq!(text(&s), "\"中文\"");
    let s = json_from_bytes(&b"\"\\ud83d\\ude42\"".to_vec()).unwrap();
    assert_eq!(text(&s), "\"\u{1f642}\"");
    // python-style ensure_ascii output decodes to the same value as
    // the raw text
    let escaped = json_from_bytes(&b"\"\\ud83d\\ude42 caf\\u00e9\"".to_vec()).unwrap();
    let raw = json_from_bytes(&"\"\u{1f642} café\"".as_bytes().to_vec()).unwrap();
    assert_eq!(text(&escaped), text(&raw));
}

#[test]
fn rejects_malformed_documents() {
    for bad in [
        &b"[1,2"[..],
        b"tru",
        b"1.5",
        b"1e5",
        b"01",
        b"\"unterminated",
        b"[1,]",
        b"{\"a\"}",
        b"nullx",
        b"[] []",
        b"9223372036854775808",
        b"-9223372036854775809",
        b"\"bad\\q\"",
        b"\"\\ud800\"",
        b"\"\\udc00\"",
        b"\"\\ud800\\u0041\"",
        b"\"\\ud83d\"",
        b"\"\\u12g4\"",
        b"",
    ] {
        assert!(json_from_bytes(&bad.to_vec()).is_none(), "accepted {:?}", bad);
    }
    let mut deep = Vec::new();
    for _ in 0..100 {
        deep.push(b'[');
    }
    for _ in 0..100 {
        deep.push(b']');
    }
    assert!(json_from_bytes(&deep).is_none());
    assert!(json_from_bytes(&vec![0x22, 0xff, 0x22]).is_none());
}

#[test]
fn boundary_integers_parse() {
    let v = json_from_bytes(&b"9223372036854775807".to_vec()).unwrap();
    assert_eq!(text(&v), "9223372036854775807");
    let v = json_from_bytes(&b"-9223372036854775808".to_vec()).unwrap();
    assert_eq!(text(&v), "-9223372036854775808");
}

#[test]
fn agrees_with_serde_json_on_own_output() {
    let v = Json::Obj(vec![
        (String::from("name"), Json::Str(String::from("a \"b\" \\ c\u{8}"))),
        (String::from("n"), Json::Int(-123456789)),
        (String::from("items"), Json::Arr(vec![Json::Bool(false), Json::Null])),
    ]);
    let bytes = enc(&v);
    let parsed: serde_json::Value = serde_json::from_slice(&bytes).expect("serde_json agrees");
    assert_eq!(parsed["name"], serde_json::Value::String(String::from("a \"b\" \\ c\u{8}")));
    assert_eq!(parsed["n"], serde_json::Value::from(-123456789i64));
    assert_eq!(parsed["items"][0], serde_json::Value::Bool(false));
    assert!(parsed["items"][1].is_null());
}

#[test]
fn decodes_serde_json_output() {
    let value = serde_json::Value::Array(vec![
        serde_json::Value::from(7u8),
        serde_json::Value::String(String::from("window.set_title")),
        serde_json::Value::Array(vec![serde_json::Value::String(String::from("Hello"))]),
    ]);
    let bytes = serde_json::to_vec(&value).unwrap();
    let v = json_from_bytes(&bytes).expect("serde output must decode");
    assert_eq!(text(&v), "[7,\"window.set_title\",[\"Hello\"]]");
}
