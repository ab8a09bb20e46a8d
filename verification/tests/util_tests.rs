use pyorion::json::Json;
use pyorion::json_enc::json_to_bytes;
use pyorion::mime::MimeType;
use pyorion::options::Color;
use pyorion::paths::{file_name, split_root_and_index};
use pyorion::utils::{arc, merge_id, merge_values, split_id, url_join};

#[test]
fn arc_wraps_value() {
    let a = arc(41);
    assert_eq!(*a, 41);
}

#[test]
fn url_join_cases() {
    assert_eq!(url_join("http://x", ""), "http://x");
    assert_eq!(url_join("http://x/", "y"), "http://x/y");
    assert_eq!(url_join("http://x", "y"), "http://x/y");
    assert_eq!(url_join("", "y"), "/y");
}

#[test]
fn id_packing_round_trip() {
    assert_eq!(merge_id(0x12, 0x34), 0x1234);
    assert_eq!(split_id(0x1234), (0x12, 0x34));
    for (w, i) in [(0u8, 0u8), (255, 255), (1, 0), (0, 1), (200, 17)] {
        assert_eq!(split_id(merge_id(w, i)), (w, i));
    }
}

fn text(v: &Json) -> String {
    String::from_utf8(json_to_bytes(v)).unwrap()
}

#[test]
fn merge_values_rules() {
    // null yields to the other side
    let r = merge_values(Json::Null, Json::Int(3));
    assert_eq!(text(&r), "3");
    let r = merge_values(Json::Int(3), Json::Null);
    assert_eq!(text(&r), "3");
    // non-objects: the source replaces the destination
    let r = merge_values(Json::Int(3), Json::Str(String::from("x")));
    assert_eq!(text(&r), "\"x\"");
}

#[test]
fn merge_values_objects_merge_deeply() {
    let dest = Json::Obj(vec![
        (String::from("keep"), Json::Int(1)),
        (
            String::from("nested"),
            Json::Obj(vec![
                (String::from("a"), Json::Int(1)),
                (String::from("b"), Json::Int(2)),
            ]),
        ),
    ]);
    let src = Json::Obj(vec![
        (
            String::from("nested"),
            Json::Obj(vec![(String::from("b"), Json::Int(20))]),
        ),
        (String::from("new"), Json::Bool(true)),
    ]);
    let r = merge_values(dest, src);
    assert_eq!(
        text(&r),
        "{\"keep\":1,\"nested\":{\"a\":1,\"b\":20},\"new\":true}"
    );
}

#[test]
fn color_hex_round_trip() {
    let c = Color::new(0x12, 0xAB, 0x00, 0xFF);
    assert_eq!(c.to_hex(), "#12AB00");
    assert_eq!(Color::from_hex("#12AB00"), Some(c));
    let t = Color::new(1, 2, 3, 4);
    assert_eq!(t.to_hex(), "#01020304");
    assert_eq!(Color::from_hex("#01020304"), Some(t));
    assert_eq!(Color::from_hex("01020304"), Some(t));
    assert_eq!(Color::from_hex("#abcdef"), Some(Color::new(0xab, 0xcd, 0xef, 0xff)));
    assert_eq!(Color::from_hex("#1234"), None);
    assert_eq!(Color::from_hex("#12zz00"), None);
    assert_eq!(c.to_rgba(), [0x12, 0xAB, 0x00, 0xFF]);
    assert_eq!(Color::default(), Color::new(0, 0, 0, 0));
}

#[test]
fn mime_from_uri() {
    let cases = [
        ("index.html", "text/html"),
        ("app.mjs", "text/javascript"),
        ("style.css", "text/css"),
        ("archive.tar", "application/x-tar"),
        ("deep/dir/photo.jpg", "image/jpeg"),
        ("noextension", "text/html"),
        ("music.m3u8", "audio/x-mpegurl"),
        ("pack.7z", "application/x-7z-compressed"),
    ];
    for (uri, mime) in cases {
        assert_eq!(MimeType::parse_from_uri(uri).mime_str(), mime, "for {}", uri);
    }
    assert_eq!(
        MimeType::parse_from_uri_with_fallback("whatever", MimeType::Txt).mime_str(),
        "text/plain"
    );
}

// The sniffer must actually look at the bytes: a PNG header names
// image/png whatever the URI claims.
#[test]
fn mime_parse_sniffs_content() {
    let png: &[u8] = &[0x89, 0x50, 0x4E, 0x47, 0x0D, 0x0A, 0x1A, 0x0A, 0, 0, 0, 0];
    assert_eq!(MimeType::parse(png, "file.css"), "image/png");
    // unrecognized bytes fall back to the extension
    assert_eq!(MimeType::parse(b"plain words", "file.css"), "text/css");
}

#[test]
fn file_name_cases() {
    assert_eq!(file_name(String::from("a/b/c.txt")), Some(String::from("c.txt")));
    assert_eq!(file_name(String::from("c.txt")), Some(String::from("c.txt")));
    assert_eq!(file_name(String::from("a/b/")), Some(String::from("b")));
    assert_eq!(file_name(String::from("/")), None);
    assert_eq!(file_name(String::from("")), None);
    assert_eq!(file_name(String::from("a/..")), None);
    assert_eq!(file_name(String::from("a/é.txt")), Some(String::from("é.txt")));
}

#[test]
fn split_root_and_index_cases() {
    assert!(split_root_and_index("   ", false).is_err());
    assert!(split_root_and_index("", false).is_err());
    assert_eq!(
        split_root_and_index("site", true),
        Ok((String::from("site"), String::from("index.html")))
    );
    assert_eq!(
        split_root_and_index("site/page.html", false),
        Ok((String::from("site"), String::from("page.html")))
    );
    assert_eq!(
        split_root_and_index("page.html", false),
        Ok((String::from("."), String::from("page.html")))
    );
    assert_eq!(
        split_root_and_index("/page.html", false),
        Ok((String::from("/"), String::from("page.html")))
    );
}
