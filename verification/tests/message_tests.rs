use pyorion::codec::{try_take_frame, FrameOutcome};
use pyorion::json::Json;
use pyorion::json_enc::json_to_bytes;
use pyorion::message::{
    decode_request_payload, decode_response_payload, encode_request_frame, encode_response_frame,
    ApiArguments, ApiRequest, ApiResponse,
};

fn req(id: u8, method: &str, args: Json) -> ApiRequest {
    ApiRequest(id, String::from(method), ApiArguments(args))
}

// The framing round trip: encode a request as a frame, take the frame
// back off the wire, decode its payload, and find the same request.
#[test]
fn request_round_trip_through_frame() {
    let r = req(
        7,
        "window.set_title",
        Json::Arr(vec![Json::Str(String::from("Hello"))]),
    );
    let frame = encode_request_frame(r).expect("fits a frame");
    let payload = match try_take_frame(&frame) {
        FrameOutcome::Ready(p, c) => {
            assert_eq!(c, frame.len());
            p
        }
        _ => panic!("expected one whole frame"),
    };
    let back = decode_request_payload(&payload).expect("well-formed request");
    assert_eq!(back.0, 7);
    assert_eq!(back.1, "window.set_title");
    assert_eq!(
        json_to_bytes(&back.2 .0),
        b"[\"Hello\"]".to_vec()
    );
}

#[test]
fn response_round_trip_through_frame() {
    let resp = ApiResponse(3, -1, String::from("boom"), Json::Null);
    let frame = encode_response_frame(resp).expect("fits a frame");
    let payload = match try_take_frame(&frame) {
        FrameOutcome::Ready(p, _) => p,
        _ => panic!("expected one whole frame"),
    };
    let back = decode_response_payload(&payload).expect("well-formed response");
    assert_eq!(back.0, 3);
    assert_eq!(back.1, -1);
    assert_eq!(back.2, "boom");
    assert!(matches!(back.3, Json::Null));
}

#[test]
fn request_wire_shape_is_positional() {
    let r = req(9, "m", Json::Arr(vec![Json::Int(1)]));
    let frame = encode_request_frame(r).unwrap();
    assert_eq!(&frame[4..], b"[9,\"m\",[1]]");
}

#[test]
fn ok_and_err_responses() {
    let r = req(5, "x", Json::Arr(vec![]));
    let ok = r.ok(Json::Bool(true));
    assert_eq!(ok.0, 5);
    assert_eq!(ok.1, 0);
    assert_eq!(ok.2, "ok");
    assert!(matches!(ok.3, Json::Bool(true)));
    let e = r.err(-1, String::from("nope"));
    assert_eq!(e.0, 5);
    assert_eq!(e.1, -1);
    assert_eq!(e.2, "nope");
    assert!(matches!(e.3, Json::Null));
}

#[test]
fn malformed_payloads_are_skipped() {
    // not an array, wrong arity, non-byte id, non-string method
    for bad in [
        &b"{}"[..],
        b"[1,\"m\"]",
        b"[256,\"m\",[]]",
        b"[-1,\"m\",[]]",
        b"[1,2,[]]",
        b"not json",
    ] {
        assert!(decode_request_payload(&bad.to_vec()).is_none(), "accepted {:?}", bad);
    }
}

#[test]
fn python_style_request_decodes() {
    // json.dumps inserts spaces after separators
    let payload = b"[7, \"window.set_title\", [\"Hello\"]]".to_vec();
    let r = decode_request_payload(&payload).expect("tolerates whitespace");
    assert_eq!(r.0, 7);
    assert_eq!(r.1, "window.set_title");
}
