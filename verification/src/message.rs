//! Requests and responses of the command channel.
//!
//! On the wire a request is the JSON array `[id, method, args]` and a
//! response `[id, code, message, data]`.  `code == 0` signals success
//! with the handler's value in `data`; any other code signals failure,
//! with `message` carrying the cause and `data` null.

use crate::codec::{encode_frame, spec_frame, MAX_FRAME_PAYLOAD};
use crate::json::{json_depth, json_view_list, wf_json, Json, JsonV, MAX_JSON_DEPTH};
use crate::json_dec::{json_from_bytes, spec_parse_json};
use crate::json_enc::{json_to_bytes, spec_enc_json};
use crate::json_rt::lemma_json_round_trip;
use vstd::prelude::*;
use vstd::string::StringExecFns;

verus! {

/// The untyped argument payload a request carries.
pub struct ApiArguments(pub Json);

/// One command sent over the channel: caller-chosen correlation id,
/// method name, and arguments.
pub struct ApiRequest(pub u8, pub String, pub ApiArguments);

pub type Code = i32;

/// One answer sent back: the request's id, a result code, a
/// human-readable message, and the result value (null on failure).
pub struct ApiResponse(pub u8, pub Code, pub String, pub Json);

pub ghost struct ApiRequestV {
    pub id: int,
    pub method: Seq<char>,
    pub args: JsonV,
}

pub ghost struct ApiResponseV {
    pub id: int,
    pub code: int,
    pub message: Seq<char>,
    pub data: JsonV,
}

impl View for ApiRequest {
    type V = ApiRequestV;

    open spec fn view(&self) -> ApiRequestV {
        ApiRequestV { id: self.0 as int, method: self.1@, args: self.2.0@ }
    }
}

impl View for ApiResponse {
    type V = ApiResponseV;

    open spec fn view(&self) -> ApiResponseV {
        ApiResponseV { id: self.0 as int, code: self.1 as int, message: self.2@, data: self.3@ }
    }
}

/// A request the protocol can carry: the id is a byte, the arguments
/// hold only 64-bit integers, and nesting leaves room for the array
/// that wraps them.
pub open spec fn wf_request(r: ApiRequestV) -> bool {
    &&& 0 <= r.id < 256
    &&& wf_json(r.args)
    &&& json_depth(r.args) + 1 < MAX_JSON_DEPTH as nat
}

pub open spec fn wf_response(r: ApiResponseV) -> bool {
    &&& 0 <= r.id < 256
    &&& i32::MIN <= r.code <= i32::MAX
    &&& wf_json(r.data)
    &&& json_depth(r.data) + 1 < MAX_JSON_DEPTH as nat
}

/// The JSON document that carries a request.
pub open spec fn spec_request_json(r: ApiRequestV) -> JsonV {
    JsonV::Arr(seq![JsonV::Int(r.id), JsonV::Str(r.method), r.args])
}

/// The JSON document that carries a response.
pub open spec fn spec_response_json(r: ApiResponseV) -> JsonV {
    JsonV::Arr(seq![JsonV::Int(r.id), JsonV::Int(r.code), JsonV::Str(r.message), r.data])
}

/// Reading a request out of a decoded document: a 3-element array of a
/// byte-sized id, a string method and any arguments.
pub open spec fn spec_request_of_json(v: JsonV) -> Option<ApiRequestV> {
    match v {
        JsonV::Arr(items) => if items.len() == 3 {
            match (items[0], items[1]) {
                (JsonV::Int(id), JsonV::Str(method)) => if 0 <= id < 256 {
                    Some(ApiRequestV { id, method, args: items[2] })
                } else {
                    None
                },
                _ => None,
            }
        } else {
            None
        },
        _ => None,
    }
}

/// Reading a response out of a decoded document: a 4-element array of a
/// byte-sized id, an `i32` code, a string message and any data.
pub open spec fn spec_response_of_json(v: JsonV) -> Option<ApiResponseV> {
    match v {
        JsonV::Arr(items) => if items.len() == 4 {
            match (items[0], items[1], items[2]) {
                (JsonV::Int(id), JsonV::Int(code), JsonV::Str(message)) => if 0 <= id < 256
                    && i32::MIN <= code <= i32::MAX {
                    Some(ApiResponseV { id, code, message, data: items[3] })
                } else {
                    None
                },
                _ => None,
            }
        } else {
            None
        },
        _ => None,
    }
}

/// What a frame payload means as a request: a JSON parse, then the
/// positional reading above.
pub open spec fn spec_request_of_payload(b: Seq<u8>) -> Option<ApiRequestV> {
    match spec_parse_json(b) {
        None => None,
        Some(v) => spec_request_of_json(v),
    }
}

pub open spec fn spec_response_of_payload(b: Seq<u8>) -> Option<ApiResponseV> {
    match spec_parse_json(b) {
        None => None,
        Some(v) => spec_response_of_json(v),
    }
}

impl ApiRequest {
    /// The request as the JSON value `[id, method, args]`.
    pub fn to_json(self) -> (r: Json)
        ensures
            r@ == spec_request_json(self@),
    {
        broadcast use crate::json::lemma_json_view_list_len, crate::json::lemma_json_view_list_index;

        let ApiRequest(id, method, ApiArguments(args)) = self;
        let mut items: Vec<Json> = Vec::new();
        items.push(Json::Int(id as i64));
        items.push(Json::Str(method));
        items.push(args);
        proof {
            assert(json_view_list(items@) =~= seq![
                JsonV::Int(id as int),
                JsonV::Str(method@),
                args@,
            ]);
        }
        Json::Arr(items)
    }

    /// A failure response to this request: the same id, the given code
    /// and message, null data.
    pub fn err(&self, code: i32, msg: String) -> (r: ApiResponse)
        ensures
            r@ == (ApiResponseV {
                id: self@.id,
                code: code as int,
                message: msg@,
                data: JsonV::Null,
            }),
    {
        ApiResponse(self.0, code, msg, Json::Null)
    }

    /// A success response to this request: the same id, code 0, the
    /// message `"ok"`, and the handler's value as data.
    pub fn ok(&self, data: Json) -> (r: ApiResponse)
        ensures
            r@ == (ApiResponseV {
                id: self@.id,
                code: 0,
                message: "ok"@,
                data: data@,
            }),
    {
        ApiResponse(self.0, 0, String::from_str("ok"), data)
    }

    /// The arguments carried by this request.
    pub fn args(&self) -> (r: &ApiArguments)
        ensures
            r.0@ == self@.args,
    {
        &self.2
    }
}

impl ApiResponse {
    /// The response as the JSON value `[id, code, message, data]`.
    pub fn to_json(self) -> (r: Json)
        ensures
            r@ == spec_response_json(self@),
    {
        broadcast use crate::json::lemma_json_view_list_len, crate::json::lemma_json_view_list_index;

        let ApiResponse(id, code, message, data) = self;
        let mut items: Vec<Json> = Vec::new();
        items.push(Json::Int(id as i64));
        items.push(Json::Int(code as i64));
        items.push(Json::Str(message));
        items.push(data);
        proof {
            assert(json_view_list(items@) =~= seq![
                JsonV::Int(id as int),
                JsonV::Int(code as int),
                JsonV::Str(message@),
                data@,
            ]);
        }
        Json::Arr(items)
    }
}

/// Reads a request from a decoded JSON value, as
/// `spec_request_of_json` says.
pub fn request_of_json(v: Json) -> (r: Option<ApiRequest>)
    ensures
        match r {
            Some(req) => spec_request_of_json(v@) == Some(req@),
            None => spec_request_of_json(v@) is None,
        },
{
    broadcast use crate::json::lemma_json_view_list_len, crate::json::lemma_json_view_list_index;

    match v {
        Json::Arr(mut items) => {
            let ghost items0 = items@;
            proof {
                assert(v@ == JsonV::Arr(json_view_list(items0)));
            }
            if items.len() != 3 {
                return None;
            }
            let args = items.pop().unwrap();
            let method = items.pop().unwrap();
            let id = items.pop().unwrap();
            proof {
                assert(args == items0[2] && method == items0[1] && id == items0[0]);
            }
            match (id, method) {
                (Json::Int(idv), Json::Str(method)) => {
                    if 0 <= idv && idv < 256 {
                        Some(ApiRequest(idv as u8, method, ApiArguments(args)))
                    } else {
                        None
                    }
                },
                _ => None,
            }
        },
        _ => None,
    }
}

/// Reads a response from a decoded JSON value, as
/// `spec_response_of_json` says.
pub fn response_of_json(v: Json) -> (r: Option<ApiResponse>)
    ensures
        match r {
            Some(resp) => spec_response_of_json(v@) == Some(resp@),
            None => spec_response_of_json(v@) is None,
        },
{
    broadcast use crate::json::lemma_json_view_list_len, crate::json::lemma_json_view_list_index;

    match v {
        Json::Arr(mut items) => {
            let ghost items0 = items@;
            proof {
                assert(v@ == JsonV::Arr(json_view_list(items0)));
            }
            if items.len() != 4 {
                return None;
            }
            let data = items.pop().unwrap();
            let message = items.pop().unwrap();
            let code = items.pop().unwrap();
            let id = items.pop().unwrap();
            proof {
                assert(data == items0[3] && message == items0[2] && code == items0[1] && id
                    == items0[0]);
            }
            match (id, code, message) {
                (Json::Int(idv), Json::Int(codev), Json::Str(message)) => {
                    if 0 <= idv && idv < 256 && i32::MIN as i64 <= codev && codev
                        <= i32::MAX as i64 {
                        Some(ApiResponse(idv as u8, codev as i32, message, data))
                    } else {
                        None
                    }
                },
                _ => None,
            }
        },
        _ => None,
    }
}

/// Decodes one frame payload into a request, as
/// `spec_request_of_payload` says: `None` exactly on a malformed
/// payload, which the connection loop skips.
pub fn decode_request_payload(payload: &Vec<u8>) -> (r: Option<ApiRequest>)
    ensures
        match r {
            Some(req) => spec_request_of_payload(payload@) == Some(req@),
            None => spec_request_of_payload(payload@) is None,
        },
{
    match json_from_bytes(payload) {
        None => None,
        Some(v) => request_of_json(v),
    }
}

/// Decodes one frame payload into a response (the client side's half).
pub fn decode_response_payload(payload: &Vec<u8>) -> (r: Option<ApiResponse>)
    ensures
        match r {
            Some(resp) => spec_response_of_payload(payload@) == Some(resp@),
            None => spec_response_of_payload(payload@) is None,
        },
{
    match json_from_bytes(payload) {
        None => None,
        Some(v) => response_of_json(v),
    }
}

/// Encodes a request as one whole frame: length prefix, then the JSON
/// text of `[id, method, args]`.  `None` only when the text would
/// exceed the frame cap.
pub fn encode_request_frame(req: ApiRequest) -> (r: Option<Vec<u8>>)
    ensures
        ({
            let payload = spec_enc_json(spec_request_json(req@));
            match r {
                Some(bytes) => payload.len() <= MAX_FRAME_PAYLOAD && bytes@ == spec_frame(payload),
                None => payload.len() > MAX_FRAME_PAYLOAD,
            }
        }),
{
    let v = req.to_json();
    let payload = json_to_bytes(&v);
    if payload.len() > MAX_FRAME_PAYLOAD as usize {
        return None;
    }
    Some(encode_frame(&payload))
}

/// Encodes a response as one whole frame.  `None` only when the text
/// would exceed the frame cap.
pub fn encode_response_frame(resp: ApiResponse) -> (r: Option<Vec<u8>>)
    ensures
        ({
            let payload = spec_enc_json(spec_response_json(resp@));
            match r {
                Some(bytes) => payload.len() <= MAX_FRAME_PAYLOAD && bytes@ == spec_frame(payload),
                None => payload.len() > MAX_FRAME_PAYLOAD,
            }
        }),
{
    let v = resp.to_json();
    let payload = json_to_bytes(&v);
    if payload.len() > MAX_FRAME_PAYLOAD as usize {
        return None;
    }
    Some(encode_frame(&payload))
}

/// The request round trip: a well-formed request, written as its JSON
/// payload, decodes back to itself.  Together with the framing round
/// trip in `codec` this gives `decode(encode(request)) == request` for
/// every request whose text fits one frame.
pub proof fn lemma_request_round_trip(r: ApiRequestV)
    requires
        wf_request(r),
    ensures
        spec_request_of_payload(spec_enc_json(spec_request_json(r))) == Some(r),
{
    let doc = spec_request_json(r);
    let items = seq![JsonV::Int(r.id), JsonV::Str(r.method), r.args];
    crate::json::lemma_wf_json_list_iff(items);
    assert(wf_json(doc));
    crate::json::lemma_json_depth_list_le(items, json_depth(r.args));
    assert(json_depth(doc) < MAX_JSON_DEPTH as nat);
    lemma_json_round_trip(doc);
    assert(spec_request_of_json(doc) == Some(r));
}

/// The response round trip, stated the same way for the other
/// direction of the channel.
pub proof fn lemma_response_round_trip(r: ApiResponseV)
    requires
        wf_response(r),
    ensures
        spec_response_of_payload(spec_enc_json(spec_response_json(r))) == Some(r),
{
    let doc = spec_response_json(r);
    let items = seq![JsonV::Int(r.id), JsonV::Int(r.code), JsonV::Str(r.message), r.data];
    crate::json::lemma_wf_json_list_iff(items);
    assert(wf_json(doc));
    crate::json::lemma_json_depth_list_le(items, json_depth(r.data));
    assert(json_depth(doc) < MAX_JSON_DEPTH as nat);
    lemma_json_round_trip(doc);
    assert(spec_response_of_json(doc) == Some(r));
}

} // verus!
