//! The dispatch table: method names bound to handlers, and the
//! argument-binding rules that turn a request's untyped argument array
//! into a handler's declared parameters.
//!
//! Binding is strict when every declared parameter is required: the
//! array length must equal the declared count.  When any parameter is
//! optional the array is first resized to the declared count — padded
//! with nulls, excess dropped — so callers may omit trailing optional
//! arguments.  Either way each position must match its declared kind,
//! with null standing for an absent optional argument.
//!
//! Looking up an unknown method never panics: it yields a failure
//! response with code -1 and the message `Unknown method: <name>`.

use crate::handlers::{invoke_window, spec_invoke_window, WindowMethod, WindowOp, WindowOpV, WindowQuery};
use crate::json::{json_view_list, Json, JsonV};
use crate::message::{ApiArguments, ApiRequest, ApiResponse, ApiResponseV};
use vstd::prelude::*;
use vstd::string::StringExecFns;

verus! {

broadcast use vstd::std_specs::vec::group_vec_axioms;

/// The kinds a declared handler parameter can have.
#[derive(Clone, Copy, Debug, PartialEq, Eq, Structural)]
pub enum ParamKind {
    /// A JSON boolean.
    Bool,
    /// A JSON integer.
    Int,
    /// A JSON string.
    Str,
    /// Any JSON value; the handler reads its shape itself.
    Any,
}

/// One declared handler parameter.
#[derive(Clone, Copy, Debug, PartialEq, Eq, Structural)]
pub struct ParamSpec {
    pub kind: ParamKind,
    pub optional: bool,
}

/// Why binding a request's arguments failed.
#[derive(Clone, Copy, Debug, PartialEq, Eq, Structural)]
pub enum BindError {
    /// The arguments were not a JSON array.
    NotArray,
    /// Strict binding: the array length differs from the declared
    /// parameter count.
    WrongCount,
    /// The argument at this position does not match its declared kind.
    WrongType(usize),
}

pub open spec fn spec_has_optional(params: Seq<ParamSpec>) -> bool {
    exists|i: int| 0 <= i < params.len() && (#[trigger] params[i]).optional
}

pub open spec fn spec_kind_matches(k: ParamKind, v: JsonV) -> bool {
    match k {
        ParamKind::Bool => v is Bool,
        ParamKind::Int => v is Int,
        ParamKind::Str => v is Str,
        ParamKind::Any => true,
    }
}

pub open spec fn spec_param_matches(p: ParamSpec, v: JsonV) -> bool {
    (p.optional && v is Null) || spec_kind_matches(p.kind, v)
}

/// The argument array resized to the declared count: padded with nulls
/// when short, truncated when long.
pub open spec fn spec_padded(items: Seq<JsonV>, n: int) -> Seq<JsonV>
    recommends
        n >= 0,
{
    if items.len() >= n {
        items.take(n)
    } else {
        items + Seq::new((n - items.len()) as nat, |i: int| JsonV::Null)
    }
}

/// First position at or after `i` whose value does not match its
/// declared parameter, or the length when all match.
pub open spec fn spec_first_mismatch(params: Seq<ParamSpec>, vals: Seq<JsonV>, i: int) -> int
    recommends
        params.len() == vals.len(),
        0 <= i <= params.len(),
    decreases params.len() - i,
{
    if i < 0 || i >= params.len() {
        i
    } else if spec_param_matches(params[i], vals[i]) {
        spec_first_mismatch(params, vals, i + 1)
    } else {
        i
    }
}

/// The strict-or-padded positional binding of an argument array to a
/// declared parameter list.
pub open spec fn spec_bind_args(args: JsonV, params: Seq<ParamSpec>) -> Result<
    Seq<JsonV>,
    BindError,
> {
    match args {
        JsonV::Arr(items) => {
            let n = params.len() as int;
            if spec_has_optional(params) {
                let vals = spec_padded(items, n);
                let m = spec_first_mismatch(params, vals, 0);
                if m == n {
                    Ok(vals)
                } else {
                    Err(BindError::WrongType(m as usize))
                }
            } else {
                if items.len() != n {
                    Err(BindError::WrongCount)
                } else {
                    let m = spec_first_mismatch(params, items, 0);
                    if m == n {
                        Ok(items)
                    } else {
                        Err(BindError::WrongType(m as usize))
                    }
                }
            }
        },
        _ => Err(BindError::NotArray),
    }
}

fn kind_matches(k: ParamKind, v: &Json) -> (r: bool)
    ensures
        r == spec_kind_matches(k, v@),
{
    match k {
        ParamKind::Bool => matches!(v, Json::Bool(_)),
        ParamKind::Int => matches!(v, Json::Int(_)),
        ParamKind::Str => matches!(v, Json::Str(_)),
        ParamKind::Any => true,
    }
}

fn param_matches(p: &ParamSpec, v: &Json) -> (r: bool)
    ensures
        r == spec_param_matches(*p, v@),
{
    (p.optional && matches!(v, Json::Null)) || kind_matches(p.kind, v)
}

/// Binds an argument array to declared parameters, exactly as
/// `spec_bind_args` says.
#[verifier::loop_isolation(false)]
#[verifier::rlimit(60)]
pub fn bind_args(args: Json, params: &Vec<ParamSpec>) -> (r: Result<Vec<Json>, BindError>)
    ensures
        match r {
            Ok(vals) => spec_bind_args(args@, params@) == Ok::<Seq<JsonV>, BindError>(
                json_view_list(vals@),
            ),
            Err(e) => spec_bind_args(args@, params@) == Err::<Seq<JsonV>, BindError>(e),
        },
{
    broadcast use crate::json::lemma_json_view_list_len, crate::json::lemma_json_view_list_index;

    let n = params.len();
    match args {
        Json::Arr(mut items) => {
            let ghost items0 = json_view_list(items@);
            let has_opt = has_optional(params);
            if has_opt {
                if items.len() > n {
                    let ghost pre = items@;
                    items.truncate(n);
                    proof {
                        assert(items@ == pre.subrange(0, n as int));
                        assert(json_view_list(items@) =~= items0.take(n as int)) by {
                            assert forall|k: int|
                                0 <= k < n implies json_view_list(items@)[k] == items0.take(
                                n as int,
                            )[k] by {
                                crate::json::lemma_json_view_list_index(items@, k);
                                crate::json::lemma_json_view_list_index(pre, k);
                            }
                        }
                    }
                }
                let ghost base = json_view_list(items@);
                proof {
                    assert(base.len() <= n);
                }
                while items.len() < n
                    invariant
                        base.len() <= n,
                        items@.len() <= n || items@.len() == base.len(),
                        base.len() <= json_view_list(items@).len(),
                        json_view_list(items@) == base + Seq::new(
                            (json_view_list(items@).len() - base.len()) as nat,
                            |i: int| JsonV::Null,
                        ),
                    decreases n - items@.len(),
                {
                    let ghost pre = json_view_list(items@);
                    items.push(Json::Null);
                    proof {
                        assert(json_view_list(items@) == pre.push(JsonV::Null));
                        assert(pre.push(JsonV::Null) =~= base + Seq::new(
                            (json_view_list(items@).len() - base.len()) as nat,
                            |i: int| JsonV::Null,
                        ));
                    }
                }
                proof {
                    assert(json_view_list(items@) =~= spec_padded(items0, n as int));
                }
            } else {
                if items.len() != n {
                    return Err(BindError::WrongCount);
                }
                proof {
                    assert(items0.len() == n);
                }
            }
            let ghost vals = json_view_list(items@);
            proof {
                assert(vals.len() == n);
            }
            let mut i: usize = 0;
            while i < n
                invariant
                    i <= n,
                    vals == json_view_list(items@),
                    items@.len() == n,
                    forall|k: int|
                        0 <= k < i ==> spec_param_matches(params@[k], #[trigger] vals[k]),
                decreases n - i,
            {
                if !param_matches(&params[i], &items[i]) {
                    proof {
                        lemma_first_mismatch_at(params@, vals, i as int);
                    }
                    return Err(BindError::WrongType(i));
                }
                i = i + 1;
            }
            proof {
                lemma_first_mismatch_none(params@, vals);
            }
            Ok(items)
        },
        _ => Err(BindError::NotArray),
    }
}

proof fn lemma_first_mismatch_at(params: Seq<ParamSpec>, vals: Seq<JsonV>, i: int)
    requires
        params.len() == vals.len(),
        0 <= i < params.len(),
        !spec_param_matches(params[i], vals[i]),
        forall|k: int| 0 <= k < i ==> spec_param_matches(params[k], #[trigger] vals[k]),
    ensures
        spec_first_mismatch(params, vals, 0) == i,
{
    lemma_first_mismatch_from(params, vals, 0, i);
}

proof fn lemma_first_mismatch_from(params: Seq<ParamSpec>, vals: Seq<JsonV>, j: int, i: int)
    requires
        params.len() == vals.len(),
        0 <= j <= i < params.len(),
        !spec_param_matches(params[i], vals[i]),
        forall|k: int| j <= k < i ==> spec_param_matches(params[k], #[trigger] vals[k]),
    ensures
        spec_first_mismatch(params, vals, j) == i,
    decreases i - j,
{
    if j < i {
        lemma_first_mismatch_from(params, vals, j + 1, i);
    }
}

proof fn lemma_first_mismatch_none(params: Seq<ParamSpec>, vals: Seq<JsonV>)
    requires
        params.len() == vals.len(),
        forall|k: int|
            0 <= k < params.len() ==> spec_param_matches(params[k], #[trigger] vals[k]),
    ensures
        spec_first_mismatch(params, vals, 0) == params.len(),
{
    lemma_first_mismatch_none_from(params, vals, 0);
}

proof fn lemma_first_mismatch_none_from(params: Seq<ParamSpec>, vals: Seq<JsonV>, j: int)
    requires
        params.len() == vals.len(),
        0 <= j <= params.len(),
        forall|k: int|
            j <= k < params.len() ==> spec_param_matches(params[k], #[trigger] vals[k]),
    ensures
        spec_first_mismatch(params, vals, j) == params.len(),
    decreases params.len() - j,
{
    if j < params.len() {
        lemma_first_mismatch_none_from(params, vals, j + 1);
    }
}

#[verifier::loop_isolation(false)]
fn has_optional(params: &Vec<ParamSpec>) -> (r: bool)
    ensures
        r == spec_has_optional(params@),
{
    let n = params.len();
    let mut i: usize = 0;
    while i < n
        invariant
            i <= n,
            forall|k: int| 0 <= k < i ==> !(#[trigger] params@[k]).optional,
        decreases n - i,
    {
        if params[i].optional {
            return true;
        }
        i = i + 1;
    }
    false
}

// ---------------------------------------------------------------------
// The table itself
// ---------------------------------------------------------------------

/// What the GUI thread must do with a dispatched request.
pub enum DispatchOutcome {
    /// The response is already decided; the op, if any, is performed
    /// on the window first.
    Respond(ApiResponse, Option<WindowOp>),
    /// Perform the op; its success forms the response's boolean data.
    AwaitBool(u8, WindowOp),
    /// Fetch the value; it forms the response's data.
    Query(u8, WindowQuery),
    /// A handler the embedder registered: it runs outside the library
    /// with the bound arguments and builds the response itself.
    Host(u8, u32, Vec<Json>),
}

pub ghost enum DispatchOutcomeV {
    Respond(ApiResponseV, Option<WindowOpV>),
    AwaitBool(int, WindowOpV),
    Query(int, WindowQuery),
    Host(int, int, Seq<JsonV>),
}

impl View for DispatchOutcome {
    type V = DispatchOutcomeV;

    open spec fn view(&self) -> DispatchOutcomeV {
        match self {
            DispatchOutcome::Respond(resp, op) => DispatchOutcomeV::Respond(
                resp@,
                match op {
                    Some(o) => Some(o@),
                    None => None,
                },
            ),
            DispatchOutcome::AwaitBool(id, op) => DispatchOutcomeV::AwaitBool(*id as int, op@),
            DispatchOutcome::Query(id, q) => DispatchOutcomeV::Query(*id as int, *q),
            DispatchOutcome::Host(id, h, vals) => DispatchOutcomeV::Host(
                *id as int,
                *h as int,
                json_view_list(vals@),
            ),
        }
    }
}

/// A handler as the table knows it.
#[derive(Clone, Copy, Debug)]
pub enum HandlerKind {
    /// Decided in the library: one of the window/webview methods.
    Window(WindowMethod),
    /// Executed by the embedder under this registration number.
    Host(u32),
}

/// One registered method.
pub struct MethodEntry {
    pub name: String,
    pub params: Vec<ParamSpec>,
    pub handler: HandlerKind,
}

/// The dispatch table: an ordered list of registrations, newest first,
/// looked up by exact method name.
pub struct ApiManager {
    entries: Vec<MethodEntry>,
}

pub open spec fn spec_lookup_in(l: Seq<MethodEntry>, name: Seq<char>) -> Option<
    (Seq<ParamSpec>, HandlerKind),
>
    decreases l,
{
    if l.len() == 0 {
        None
    } else if l[0].name@ == name {
        Some((l[0].params@, l[0].handler))
    } else {
        spec_lookup_in(l.drop_first(), name)
    }
}

impl ApiManager {
    /// What `name` is registered as.
    pub closed spec fn spec_lookup(&self, name: Seq<char>) -> Option<
        (Seq<ParamSpec>, HandlerKind),
    > {
        spec_lookup_in(self.entries@, name)
    }

    /// An empty table: every method unknown.
    pub fn new() -> (r: Self)
        ensures
            forall|n: Seq<char>| r.spec_lookup(n) is None,
    {
        ApiManager { entries: Vec::new() }
    }

    /// Registers `name`; a later registration of the same name shadows
    /// an earlier one.  Called only during startup, before the event
    /// loop runs.
    pub fn register_api(&mut self, name: String, params: Vec<ParamSpec>, handler: HandlerKind)
        ensures
            forall|n: Seq<char>|
                final(self).spec_lookup(n) == if n == name@ {
                    Some((params@, handler))
                } else {
                    old(self).spec_lookup(n)
                },
    {
        let ghost old_entries = self.entries@;
        self.entries.insert(0, MethodEntry { name, params, handler });
        proof {
            assert(self.entries@.drop_first() =~= old_entries);
        }
    }

    #[verifier::loop_isolation(false)]
    fn lookup(&self, name: &String) -> (r: Option<&MethodEntry>)
        ensures
            match r {
                Some(e) => self.spec_lookup(name@) == Some((e.params@, e.handler)),
                None => self.spec_lookup(name@) is None,
            },
    {
        let n = self.entries.len();
        let mut i: usize = 0;
        while i < n
            invariant
                i <= n,
                forall|k: int| 0 <= k < i ==> (#[trigger] self.entries@[k]).name@ != name@,
            decreases n - i,
        {
            if self.entries[i].name == *name {
                proof {
                    lemma_lookup_found(self.entries@, name@, i as int);
                }
                return Some(&self.entries[i]);
            }
            i = i + 1;
        }
        proof {
            lemma_lookup_missing(self.entries@, name@);
        }
        None
    }

    /// Looks a request's method up and binds its arguments, yielding
    /// what the GUI thread must do: a failure response for an unknown
    /// method or a binding error, a decided response with its window
    /// op, an op or query whose result forms the response, or a
    /// host-executed handler's number and arguments.
    pub fn call(&self, has_window: bool, req: ApiRequest) -> (r: DispatchOutcome)
        ensures
            ({
                let reqv = req@;
                match self.spec_lookup(reqv.method) {
                    None => r@ == DispatchOutcomeV::Respond(
                        spec_unknown_response(reqv.id, reqv.method),
                        None,
                    ),
                    Some((params, kind)) => match spec_bind_args(reqv.args, params) {
                        Err(e) => r@ == DispatchOutcomeV::Respond(
                            spec_bind_error_response(reqv.id, e),
                            None,
                        ),
                        Ok(vals) => match kind {
                            HandlerKind::Host(h) => r@ == DispatchOutcomeV::Host(
                                reqv.id,
                                h as int,
                                vals,
                            ),
                            HandlerKind::Window(m) => r@ == spec_invoke_window(
                                m,
                                has_window,
                                reqv.id,
                                vals,
                            ),
                        },
                    },
                }
            }),
    {
        let ApiRequest(id, method, ApiArguments(args)) = req;
        match self.lookup(&method) {
            None => {
                let msg = String::from_str("Unknown method: ").concat(method.as_str());
                DispatchOutcome::Respond(err_response(id, -1, msg), None)
            },
            Some(entry) => {
                let handler = entry.handler;
                match bind_args(args, &entry.params) {
                    Err(e) => DispatchOutcome::Respond(bind_error_response(id, e), None),
                    Ok(vals) => match handler {
                        HandlerKind::Host(h) => DispatchOutcome::Host(id, h, vals),
                        HandlerKind::Window(m) => invoke_window(m, has_window, id, vals),
                    },
                }
            },
        }
    }
}

proof fn lemma_lookup_found(l: Seq<MethodEntry>, name: Seq<char>, i: int)
    requires
        0 <= i < l.len(),
        l[i].name@ == name,
        forall|k: int| 0 <= k < i ==> (#[trigger] l[k]).name@ != name,
    ensures
        spec_lookup_in(l, name) == Some((l[i].params@, l[i].handler)),
    decreases i,
{
    if i > 0 {
        lemma_lookup_found(l.drop_first(), name, i - 1);
    }
}

proof fn lemma_lookup_missing(l: Seq<MethodEntry>, name: Seq<char>)
    requires
        forall|k: int| 0 <= k < l.len() ==> (#[trigger] l[k]).name@ != name,
    ensures
        spec_lookup_in(l, name) is None,
    decreases l.len(),
{
    if l.len() > 0 {
        lemma_lookup_missing(l.drop_first(), name);
    }
}

// ---------------------------------------------------------------------
// Responses the dispatcher synthesizes
// ---------------------------------------------------------------------

/// A success response: code 0, message `ok`, the handler's value as
/// data.
pub open spec fn spec_ok_response(id: int, data: JsonV) -> ApiResponseV {
    ApiResponseV { id, code: 0, message: "ok"@, data }
}

/// A failure response: a non-zero code, the cause, null data.
pub open spec fn spec_err_response(id: int, code: int, msg: Seq<char>) -> ApiResponseV {
    ApiResponseV { id, code, message: msg, data: JsonV::Null }
}

/// The unknown-method failure: code -1 and the offending name.
pub open spec fn spec_unknown_response(id: int, method: Seq<char>) -> ApiResponseV {
    spec_err_response(id, -1, "Unknown method: "@ + method)
}

pub open spec fn spec_bind_error_message(e: BindError) -> Seq<char> {
    match e {
        BindError::NotArray => "arguments must be an array"@,
        BindError::WrongCount => "wrong number of arguments"@,
        BindError::WrongType(_) => "argument has wrong type"@,
    }
}

/// The binding-failure response: code -1 and the binding error's
/// message.
pub open spec fn spec_bind_error_response(id: int, e: BindError) -> ApiResponseV {
    spec_err_response(id, -1, spec_bind_error_message(e))
}

/// Builds a success response, exactly `spec_ok_response`.
pub fn ok_response(id: u8, data: Json) -> (r: ApiResponse)
    ensures
        r@ == spec_ok_response(id as int, data@),
{
    ApiResponse(id, 0, String::from_str("ok"), data)
}

/// Builds a failure response, exactly `spec_err_response`.
pub fn err_response(id: u8, code: i32, msg: String) -> (r: ApiResponse)
    ensures
        r@ == spec_err_response(id as int, code as int, msg@),
{
    ApiResponse(id, code, msg, Json::Null)
}

fn bind_error_response(id: u8, e: BindError) -> (r: ApiResponse)
    ensures
        r@ == spec_bind_error_response(id as int, e),
{
    let msg = match e {
        BindError::NotArray => String::from_str("arguments must be an array"),
        BindError::WrongCount => String::from_str("wrong number of arguments"),
        BindError::WrongType(_) => String::from_str("argument has wrong type"),
    };
    err_response(id, -1, msg)
}

// ---------------------------------------------------------------------
// Laws of the synthesized responses
// ---------------------------------------------------------------------

/// A response carries a successful result exactly when its code is 0,
/// and a failing code always carries null data: of the responses the
/// dispatcher synthesizes, the success form has code 0 and the
/// handler's data, and every failure form has a non-zero code and null
/// data.
pub proof fn lemma_response_code_discipline(id: int, data: JsonV, code: int, msg: Seq<char>)
    requires
        code != 0,
    ensures
        spec_ok_response(id, data).code == 0,
        spec_ok_response(id, data).data == data,
        spec_err_response(id, code, msg).code != 0,
        spec_err_response(id, code, msg).data == JsonV::Null,
{
}

/// Dispatching an unregistered method always yields code -1 — never a
/// success, never a panic: the unknown-method response is a plain
/// value.
pub proof fn lemma_unknown_method_rejected(id: int, method: Seq<char>)
    ensures
        spec_unknown_response(id, method).code == -1,
        spec_unknown_response(id, method).code != 0,
        spec_unknown_response(id, method).data == JsonV::Null,
        spec_unknown_response(id, method).message == "Unknown method: "@ + method,
{
}

/// Strict binding rejects any argument array whose length differs
/// from the declared count (no optional parameters declared).
pub proof fn lemma_strict_arity_rejected(items: Seq<JsonV>, params: Seq<ParamSpec>)
    requires
        !spec_has_optional(params),
        items.len() != params.len(),
    ensures
        spec_bind_args(JsonV::Arr(items), params) == Err::<Seq<JsonV>, BindError>(
            BindError::WrongCount,
        ),
{
}

/// With one optional trailing parameter, both the full-length array
/// and one missing the trailing element bind; the absent argument
/// becomes null.
pub proof fn lemma_optional_trailing_accepted(items: Seq<JsonV>, params: Seq<ParamSpec>)
    requires
        params.len() >= 1,
        params[params.len() - 1].optional,
        forall|k: int| 0 <= k < params.len() - 1 ==> !(#[trigger] params[k]).optional,
        items.len() == params.len() - 1,
        forall|k: int|
            0 <= k < items.len() ==> spec_param_matches(params[k], #[trigger] items[k]),
    ensures
        spec_bind_args(JsonV::Arr(items), params) == Ok::<Seq<JsonV>, BindError>(
            items.push(JsonV::Null),
        ),
        spec_bind_args(JsonV::Arr(items.push(JsonV::Null)), params) == Ok::<
            Seq<JsonV>,
            BindError,
        >(items.push(JsonV::Null)),
{
    let n = params.len() as int;
    assert(spec_has_optional(params));
    let padded = spec_padded(items, n);
    assert(padded =~= items.push(JsonV::Null));
    assert(spec_param_matches(params[n - 1], padded[n - 1]));
    assert(forall|k: int| 0 <= k < n ==> spec_param_matches(params[k], #[trigger] padded[k]));
    lemma_first_mismatch_none(params, padded);
    let full = items.push(JsonV::Null);
    assert(spec_padded(full, n) =~= full);
    lemma_first_mismatch_none(params, full);
}

} // verus!
