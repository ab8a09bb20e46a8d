use pyorion::dispatch::{
    bind_args, ApiManager, BindError, DispatchOutcome, HandlerKind, ParamKind, ParamSpec,
};
use pyorion::handlers::{register_api_instances, WindowOp, WindowQuery};
use pyorion::json::Json;
use pyorion::json_enc::json_to_bytes;
use pyorion::message::{ApiArguments, ApiRequest};

fn manager() -> ApiManager {
    let mut m = ApiManager::new();
    register_api_instances(&mut m);
    m
}

fn req(id: u8, method: &str, args: Json) -> ApiRequest {
    ApiRequest(id, String::from(method), ApiArguments(args))
}

// Scenario: [7, "window.set_title", ["Hello"]] answers [7, 0, "ok", true]
// and asks the GUI thread to retitle the window.
#[test]
fn set_title_scenario() {
    let m = manager();
    let r = req(7, "window.set_title", Json::Arr(vec![Json::Str(String::from("Hello"))]));
    match m.call(true, r) {
        DispatchOutcome::Respond(resp, op) => {
            assert_eq!(resp.0, 7);
            assert_eq!(resp.1, 0);
            assert_eq!(resp.2, "ok");
            assert!(matches!(resp.3, Json::Bool(true)));
            match op {
                Some(WindowOp::SetTitle(t)) => assert_eq!(t, "Hello"),
                _ => panic!("expected a retitle op"),
            }
        }
        _ => panic!("expected a decided response"),
    }
}

#[test]
fn set_title_without_window_answers_false() {
    let m = manager();
    let r = req(8, "window.set_title", Json::Arr(vec![Json::Str(String::from("X"))]));
    match m.call(false, r) {
        DispatchOutcome::Respond(resp, op) => {
            assert_eq!(resp.1, 0);
            assert!(matches!(resp.3, Json::Bool(false)));
            assert!(op.is_none());
        }
        _ => panic!("expected a decided response"),
    }
}

// Scenario: [3, "nonexistent.call", []] answers
// [3, -1, "Unknown method: nonexistent.call", null].
#[test]
fn unknown_method_scenario() {
    let m = manager();
    let r = req(3, "nonexistent.call", Json::Arr(vec![]));
    match m.call(true, r) {
        DispatchOutcome::Respond(resp, op) => {
            assert_eq!(resp.0, 3);
            assert_eq!(resp.1, -1);
            assert_eq!(resp.2, "Unknown method: nonexistent.call");
            assert!(matches!(resp.3, Json::Null));
            assert!(op.is_none());
        }
        _ => panic!("expected a failure response"),
    }
}

// A handler with only required parameters rejects an argument array of
// the wrong length.
#[test]
fn strict_arity_mismatch_rejected() {
    let m = manager();
    for args in [Json::Arr(vec![]), Json::Arr(vec![Json::Bool(true), Json::Bool(false)])] {
        let r = req(1, "window.set_visible", args);
        match m.call(true, r) {
            DispatchOutcome::Respond(resp, op) => {
                assert_eq!(resp.1, -1);
                assert_eq!(resp.2, "wrong number of arguments");
                assert!(matches!(resp.3, Json::Null));
                assert!(op.is_none());
            }
            _ => panic!("expected a binding failure"),
        }
    }
}

#[test]
fn wrong_type_rejected() {
    let m = manager();
    let r = req(1, "window.set_visible", Json::Arr(vec![Json::Int(1)]));
    match m.call(true, r) {
        DispatchOutcome::Respond(resp, _) => {
            assert_eq!(resp.1, -1);
            assert_eq!(resp.2, "argument has wrong type");
        }
        _ => panic!("expected a binding failure"),
    }
}

// A handler with one optional trailing parameter accepts both the
// full-length array and one missing the trailing element.
#[test]
fn optional_trailing_parameter() {
    let m = manager();
    // full length: an explicit color
    let full = req(
        2,
        "window.set_background_color",
        Json::Arr(vec![Json::Arr(vec![
            Json::Int(1),
            Json::Int(2),
            Json::Int(3),
            Json::Int(4),
        ])]),
    );
    match m.call(true, full) {
        DispatchOutcome::Respond(resp, op) => {
            assert_eq!(resp.1, 0);
            assert!(matches!(resp.3, Json::Bool(true)));
            assert!(matches!(op, Some(WindowOp::SetBackgroundColor(Some((1, 2, 3, 4))))));
        }
        _ => panic!("expected a decided response"),
    }
    // missing trailing element: treated as absent
    let short = req(2, "window.set_background_color", Json::Arr(vec![]));
    match m.call(true, short) {
        DispatchOutcome::Respond(resp, op) => {
            assert_eq!(resp.1, 0);
            assert!(matches!(resp.3, Json::Bool(true)));
            assert!(matches!(op, Some(WindowOp::SetBackgroundColor(None))));
        }
        _ => panic!("expected a decided response"),
    }
}

#[test]
fn binder_pads_and_truncates() {
    let params = vec![
        ParamSpec { kind: ParamKind::Str, optional: false },
        ParamSpec { kind: ParamKind::Any, optional: true },
    ];
    let vals = bind_args(Json::Arr(vec![Json::Str(String::from("x"))]), &params).unwrap();
    assert_eq!(vals.len(), 2);
    assert!(matches!(vals[1], Json::Null));
    let vals = bind_args(
        Json::Arr(vec![Json::Str(String::from("x")), Json::Int(1), Json::Int(2)]),
        &params,
    )
    .unwrap();
    assert_eq!(vals.len(), 2);
    assert!(matches!(vals[1], Json::Int(1)));
    assert!(matches!(
        bind_args(Json::Null, &params),
        Err(BindError::NotArray)
    ));
}

#[test]
fn queries_and_devtools() {
    let m = manager();
    match m.call(true, req(4, "window.get_title", Json::Arr(vec![]))) {
        DispatchOutcome::Query(id, WindowQuery::GetTitle) => assert_eq!(id, 4),
        _ => panic!("expected a title query"),
    }
    match m.call(false, req(4, "window.get_title", Json::Arr(vec![]))) {
        DispatchOutcome::Respond(resp, _) => {
            assert_eq!(resp.1, -1);
            assert_eq!(resp.2, "No window ID set");
        }
        _ => panic!("expected an error"),
    }
    match m.call(true, req(5, "webview.openDevtools", Json::Arr(vec![]))) {
        DispatchOutcome::Respond(resp, op) => {
            assert_eq!(resp.1, 0);
            assert!(matches!(resp.3, Json::Null));
            assert!(matches!(op, Some(WindowOp::OpenDevtools)));
        }
        _ => panic!("expected a decided response"),
    }
    match m.call(true, req(5, "window.set_cursor_grab", Json::Arr(vec![Json::Bool(true)]))) {
        DispatchOutcome::AwaitBool(id, WindowOp::SetCursorGrab(true)) => assert_eq!(id, 5),
        _ => panic!("expected an awaited op"),
    }
}

#[test]
fn typed_argument_decoding() {
    let m = manager();
    let r = req(6, "window.set_cursor_icon", Json::Arr(vec![Json::Str(String::from("zoomIn"))]));
    match m.call(true, r) {
        DispatchOutcome::Respond(_, Some(WindowOp::SetCursorIcon(_))) => {}
        _ => panic!("expected a cursor icon op"),
    }
    let bad = req(6, "window.set_cursor_icon", Json::Arr(vec![Json::Str(String::from("nope"))]));
    match m.call(true, bad) {
        DispatchOutcome::Respond(resp, _) => {
            assert_eq!(resp.1, -1);
            assert_eq!(resp.2, "invalid arguments");
        }
        _ => panic!("expected a decode failure"),
    }
    let pos = req(
        6,
        "window.set_outer_position",
        Json::Arr(vec![Json::Obj(vec![
            (String::from("x"), Json::Int(10)),
            (String::from("y"), Json::Int(20)),
            (String::from("unit"), Json::Str(String::from("logical"))),
        ])]),
    );
    match m.call(true, pos) {
        DispatchOutcome::Respond(_, Some(WindowOp::SetOuterPosition(p))) => {
            assert_eq!(p.x, Some(10));
            assert_eq!(p.y, Some(20));
        }
        _ => panic!("expected a position op"),
    }
}

#[test]
fn host_handlers_and_shadowing() {
    let mut m = ApiManager::new();
    m.register_api(
        String::from("dialog.pickFile"),
        vec![
            ParamSpec { kind: ParamKind::Any, optional: true },
            ParamSpec { kind: ParamKind::Any, optional: true },
        ],
        HandlerKind::Host(12),
    );
    let r = req(9, "dialog.pickFile", Json::Arr(vec![]));
    match m.call(true, r) {
        DispatchOutcome::Host(id, h, args) => {
            assert_eq!(id, 9);
            assert_eq!(h, 12);
            assert_eq!(args.len(), 2);
        }
        _ => panic!("expected a host-executed handler"),
    }
    // a later registration shadows the earlier one
    m.register_api(String::from("dialog.pickFile"), Vec::new(), HandlerKind::Host(13));
    match m.call(true, req(9, "dialog.pickFile", Json::Arr(vec![]))) {
        DispatchOutcome::Host(_, h, _) => assert_eq!(h, 13),
        _ => panic!("expected the shadowing registration"),
    }
}

#[test]
fn response_data_reflects_success_exactly() {
    let m = manager();
    // success: code 0, data carries the handler's value
    match m.call(true, req(1, "window.set_visible", Json::Arr(vec![Json::Bool(true)]))) {
        DispatchOutcome::Respond(resp, _) => {
            assert_eq!(resp.1, 0);
            assert_eq!(json_to_bytes(&resp.3), b"true".to_vec());
        }
        _ => panic!("expected a decided response"),
    }
    // failure: non-zero code, data null
    match m.call(true, req(1, "no.such", Json::Arr(vec![]))) {
        DispatchOutcome::Respond(resp, _) => {
            assert!(resp.1 != 0);
            assert!(matches!(resp.3, Json::Null));
        }
        _ => panic!("expected a failure response"),
    }
}
