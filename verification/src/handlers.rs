//! The library-decided handlers: the window and webview methods, each
//! a function from the registry's state and the bound arguments to
//! what the GUI thread must do.
//!
//! Every mutation a handler asks for is returned as a `WindowOp` for
//! the embedder to perform on the toolkit window; every value a
//! handler needs back is returned as a `WindowQuery`.  The decision —
//! which op, which response, which error — is made and verified here.

use crate::dispatch::{
    err_response, ok_response, spec_err_response, spec_ok_response, ApiManager, BindError,
    DispatchOutcome, DispatchOutcomeV, HandlerKind, MethodEntry, ParamKind, ParamSpec,
};
use crate::json::{json_view_list, Json, JsonV};
use crate::options::{
    cursor_icon_of_str, position_of_json, progress_bar_of_json, rgba_of_json, size_of_json,
    spec_cursor_icon_of_str, spec_position_of_json, spec_progress_bar_of_json, spec_rgba_of_json,
    spec_size_of_json, spec_theme_of_str, theme_of_str, CursorIcon, Position, ProgressBarState,
    ProgressBarStateV, Size, Theme,
};
use vstd::prelude::*;
use vstd::string::StringExecFns;

verus! {

/// A mutation the GUI thread performs on the primary window or its
/// webview.
pub enum WindowOp {
    SetTitle(String),
    SetAlwaysOnBottom(bool),
    SetAlwaysOnTop(bool),
    SetBackgroundColor(Option<(u8, u8, u8, u8)>),
    SetClosable(bool),
    SetContentProtection(bool),
    SetCursorGrab(bool),
    SetCursorIcon(CursorIcon),
    SetCursorPosition(Position),
    SetCursorVisible(bool),
    SetDecorations(bool),
    SetFocus,
    SetFocusable(bool),
    SetFullscreen(bool),
    SetIgnoreCursorEvents(bool),
    SetImePosition(Position),
    SetProgressBar(ProgressBarState),
    SetInnerSize(Size),
    SetMaxInnerSize(Size),
    SetMaximizable(bool),
    SetMinimized(bool),
    SetMinInnerSize(Size),
    SetMinimizable(bool),
    SetOuterPosition(Position),
    SetTheme(Theme),
    SetVisible(bool),
    SetVisibleOnAllWorkspaces(bool),
    SetEnable(bool),
    SetRtl(bool),
    SetUndecoratedShadow(bool),
    OpenDevtools,
    CloseDevtools,
}

/// The mathematical form of a window op: strings as their characters.
pub ghost enum WindowOpV {
    SetTitle(Seq<char>),
    SetAlwaysOnBottom(bool),
    SetAlwaysOnTop(bool),
    SetBackgroundColor(Option<(u8, u8, u8, u8)>),
    SetClosable(bool),
    SetContentProtection(bool),
    SetCursorGrab(bool),
    SetCursorIcon(CursorIcon),
    SetCursorPosition(Position),
    SetCursorVisible(bool),
    SetDecorations(bool),
    SetFocus,
    SetFocusable(bool),
    SetFullscreen(bool),
    SetIgnoreCursorEvents(bool),
    SetImePosition(Position),
    SetProgressBar(ProgressBarStateV),
    SetInnerSize(Size),
    SetMaxInnerSize(Size),
    SetMaximizable(bool),
    SetMinimized(bool),
    SetMinInnerSize(Size),
    SetMinimizable(bool),
    SetOuterPosition(Position),
    SetTheme(Theme),
    SetVisible(bool),
    SetVisibleOnAllWorkspaces(bool),
    SetEnable(bool),
    SetRtl(bool),
    SetUndecoratedShadow(bool),
    OpenDevtools,
    CloseDevtools,
}

/// The mathematical form of a progress bar update.
pub open spec fn spec_progress_bar_view(p: ProgressBarState) -> ProgressBarStateV {
    ProgressBarStateV {
        progress: p.progress,
        status: p.status,
        desktop_filename: match p.desktop_filename {
            Some(s) => Some(s@),
            None => None,
        },
    }
}

impl View for WindowOp {
    type V = WindowOpV;

    open spec fn view(&self) -> WindowOpV {
        match self {
            WindowOp::SetTitle(x) => WindowOpV::SetTitle(x@),
            WindowOp::SetAlwaysOnBottom(x) => WindowOpV::SetAlwaysOnBottom(*x),
            WindowOp::SetAlwaysOnTop(x) => WindowOpV::SetAlwaysOnTop(*x),
            WindowOp::SetBackgroundColor(x) => WindowOpV::SetBackgroundColor(*x),
            WindowOp::SetClosable(x) => WindowOpV::SetClosable(*x),
            WindowOp::SetContentProtection(x) => WindowOpV::SetContentProtection(*x),
            WindowOp::SetCursorGrab(x) => WindowOpV::SetCursorGrab(*x),
            WindowOp::SetCursorIcon(x) => WindowOpV::SetCursorIcon(*x),
            WindowOp::SetCursorPosition(x) => WindowOpV::SetCursorPosition(*x),
            WindowOp::SetCursorVisible(x) => WindowOpV::SetCursorVisible(*x),
            WindowOp::SetDecorations(x) => WindowOpV::SetDecorations(*x),
            WindowOp::SetFocus => WindowOpV::SetFocus,
            WindowOp::SetFocusable(x) => WindowOpV::SetFocusable(*x),
            WindowOp::SetFullscreen(x) => WindowOpV::SetFullscreen(*x),
            WindowOp::SetIgnoreCursorEvents(x) => WindowOpV::SetIgnoreCursorEvents(*x),
            WindowOp::SetImePosition(x) => WindowOpV::SetImePosition(*x),
            WindowOp::SetProgressBar(x) => WindowOpV::SetProgressBar(spec_progress_bar_view(*x)),
            WindowOp::SetInnerSize(x) => WindowOpV::SetInnerSize(*x),
            WindowOp::SetMaxInnerSize(x) => WindowOpV::SetMaxInnerSize(*x),
            WindowOp::SetMaximizable(x) => WindowOpV::SetMaximizable(*x),
            WindowOp::SetMinimized(x) => WindowOpV::SetMinimized(*x),
            WindowOp::SetMinInnerSize(x) => WindowOpV::SetMinInnerSize(*x),
            WindowOp::SetMinimizable(x) => WindowOpV::SetMinimizable(*x),
            WindowOp::SetOuterPosition(x) => WindowOpV::SetOuterPosition(*x),
            WindowOp::SetTheme(x) => WindowOpV::SetTheme(*x),
            WindowOp::SetVisible(x) => WindowOpV::SetVisible(*x),
            WindowOp::SetVisibleOnAllWorkspaces(x) => WindowOpV::SetVisibleOnAllWorkspaces(*x),
            WindowOp::SetEnable(x) => WindowOpV::SetEnable(*x),
            WindowOp::SetRtl(x) => WindowOpV::SetRtl(*x),
            WindowOp::SetUndecoratedShadow(x) => WindowOpV::SetUndecoratedShadow(*x),
            WindowOp::OpenDevtools => WindowOpV::OpenDevtools,
            WindowOp::CloseDevtools => WindowOpV::CloseDevtools,
        }
    }
}

/// A value the GUI thread fetches to answer a request.
#[derive(Clone, Copy, Debug, PartialEq, Eq, Structural)]
pub enum WindowQuery {
    GetTitle,
    InnerSize,
    OuterSize,
    OuterPosition,
    IsDevtoolsOpen,
}

/// The library-decided window and webview methods.
#[derive(Clone, Copy, Debug)]
pub enum WindowMethod {
    SetTitle,
    GetTitle,
    SetAlwaysOnBottom,
    SetAlwaysOnTop,
    SetBackgroundColor,
    SetClosable,
    SetContentProtection,
    SetCursorGrab,
    SetCursorIcon,
    SetCursorPosition,
    SetCursorVisible,
    SetDecorations,
    SetFocus,
    SetFocusable,
    SetFullscreen,
    SetIgnoreCursorEvents,
    SetImePosition,
    SetProgressBar,
    SetInnerSize,
    SetMaxInnerSize,
    SetMaximizable,
    SetMinimized,
    SetMinInnerSize,
    SetMinimizable,
    SetOuterPosition,
    SetTheme,
    SetVisible,
    SetVisibleOnAllWorkspaces,
    SetEnable,
    SetRtl,
    SetUndecoratedShadow,
    InnerSize,
    OuterSize,
    OuterPosition,
    IsDevtoolsOpen,
    OpenDevtools,
    CloseDevtools,
}

// ---------------------------------------------------------------------
// Outcome shapes
// ---------------------------------------------------------------------

/// An op whose response is fixed: performed when the window is
/// present, answering true; answering false otherwise.
pub open spec fn spec_fixed_bool(id: int, has_window: bool, op: WindowOpV) -> DispatchOutcomeV {
    if has_window {
        DispatchOutcomeV::Respond(spec_ok_response(id, JsonV::Bool(true)), Some(op))
    } else {
        DispatchOutcomeV::Respond(spec_ok_response(id, JsonV::Bool(false)), None)
    }
}

/// An op whose own success answers; with no window, false.
pub open spec fn spec_await_bool(id: int, has_window: bool, op: WindowOpV) -> DispatchOutcomeV {
    if has_window {
        DispatchOutcomeV::AwaitBool(id, op)
    } else {
        DispatchOutcomeV::Respond(spec_ok_response(id, JsonV::Bool(false)), None)
    }
}

/// A fetched value answers; with no window, the given error.
pub open spec fn spec_query_outcome(
    id: int,
    has_window: bool,
    q: WindowQuery,
    errmsg: Seq<char>,
) -> DispatchOutcomeV {
    if has_window {
        DispatchOutcomeV::Query(id, q)
    } else {
        DispatchOutcomeV::Respond(spec_err_response(id, -1, errmsg), None)
    }
}

/// An op answering null on success; with no window, the given error.
pub open spec fn spec_fixed_null(
    id: int,
    has_window: bool,
    op: WindowOpV,
    errmsg: Seq<char>,
) -> DispatchOutcomeV {
    if has_window {
        DispatchOutcomeV::Respond(spec_ok_response(id, JsonV::Null), Some(op))
    } else {
        DispatchOutcomeV::Respond(spec_err_response(id, -1, errmsg), None)
    }
}

/// The response to arguments that bound but could not be decoded to
/// the handler's types.
pub open spec fn spec_invalid(id: int) -> DispatchOutcomeV {
    DispatchOutcomeV::Respond(spec_err_response(id, -1, "invalid arguments"@), None)
}

fn fixed_bool(id: u8, has_window: bool, op: WindowOp) -> (r: DispatchOutcome)
    ensures
        r@ == spec_fixed_bool(id as int, has_window, op@),
{
    if has_window {
        DispatchOutcome::Respond(ok_response(id, Json::Bool(true)), Some(op))
    } else {
        DispatchOutcome::Respond(ok_response(id, Json::Bool(false)), None)
    }
}

fn await_bool(id: u8, has_window: bool, op: WindowOp) -> (r: DispatchOutcome)
    ensures
        r@ == spec_await_bool(id as int, has_window, op@),
{
    if has_window {
        DispatchOutcome::AwaitBool(id, op)
    } else {
        DispatchOutcome::Respond(ok_response(id, Json::Bool(false)), None)
    }
}

fn query_outcome(id: u8, has_window: bool, q: WindowQuery, errmsg: &str) -> (r: DispatchOutcome)
    ensures
        r@ == spec_query_outcome(id as int, has_window, q, errmsg@),
{
    if has_window {
        DispatchOutcome::Query(id, q)
    } else {
        DispatchOutcome::Respond(err_response(id, -1, String::from_str(errmsg)), None)
    }
}

fn fixed_null(id: u8, has_window: bool, op: WindowOp, errmsg: &str) -> (r: DispatchOutcome)
    ensures
        r@ == spec_fixed_null(id as int, has_window, op@, errmsg@),
{
    if has_window {
        DispatchOutcome::Respond(ok_response(id, Json::Null), Some(op))
    } else {
        DispatchOutcome::Respond(err_response(id, -1, String::from_str(errmsg)), None)
    }
}

fn invalid_args(id: u8) -> (r: DispatchOutcome)
    ensures
        r@ == spec_invalid(id as int),
{
    DispatchOutcome::Respond(err_response(id, -1, String::from_str("invalid arguments")), None)
}

/// The single argument of a one-parameter handler.
pub open spec fn spec_take1(vals: Seq<JsonV>) -> Option<JsonV> {
    if vals.len() == 1 {
        Some(vals[0])
    } else {
        None
    }
}

fn take1(vals: Vec<Json>) -> (r: Option<Json>)
    ensures
        match r {
            Some(v) => spec_take1(json_view_list(vals@)) == Some(v@),
            None => spec_take1(json_view_list(vals@)) is None,
        },
{
    broadcast use crate::json::lemma_json_view_list_len, crate::json::lemma_json_view_list_index;

    let mut vals = vals;
    if vals.len() == 1 {
        vals.pop()
    } else {
        None
    }
}

// ---------------------------------------------------------------------
// The named handlers
// ---------------------------------------------------------------------

/// Window present: retitle it, answer true; absent: answer false.
pub fn set_title(has_window: bool, id: u8, title: String) -> (r: DispatchOutcome)
    ensures
        r@ == spec_fixed_bool(id as int, has_window, WindowOpV::SetTitle(title@)),
{
    fixed_bool(id, has_window, WindowOp::SetTitle(title))
}

/// Window present: the fetched value answers; absent: an error.
pub fn get_title(has_window: bool, id: u8) -> (r: DispatchOutcome)
    ensures
        r@ == spec_query_outcome(id as int, has_window, WindowQuery::GetTitle, "No window ID set"@),
{
    query_outcome(id, has_window, WindowQuery::GetTitle, "No window ID set")
}

/// Window present: perform the op, answer true; absent: answer false.
pub fn set_always_on_bottom(has_window: bool, id: u8, value: bool) -> (r: DispatchOutcome)
    ensures
        r@ == spec_fixed_bool(id as int, has_window, WindowOpV::SetAlwaysOnBottom(value)),
{
    fixed_bool(id, has_window, WindowOp::SetAlwaysOnBottom(value))
}

/// Window present: perform the op, answer true; absent: answer false.
pub fn set_always_on_top(has_window: bool, id: u8, value: bool) -> (r: DispatchOutcome)
    ensures
        r@ == spec_fixed_bool(id as int, has_window, WindowOpV::SetAlwaysOnTop(value)),
{
    fixed_bool(id, has_window, WindowOp::SetAlwaysOnTop(value))
}

/// Window present: apply (or clear) the background color, answer
/// true; absent: false.
pub fn set_background_color(has_window: bool, id: u8, color: Option<(u8, u8, u8, u8)>) -> (r:
    DispatchOutcome)
    ensures
        r@ == spec_fixed_bool(id as int, has_window, WindowOpV::SetBackgroundColor(color)),
{
    fixed_bool(id, has_window, WindowOp::SetBackgroundColor(color))
}

/// Window present: perform the op, answer true; absent: answer false.
pub fn set_closable(has_window: bool, id: u8, value: bool) -> (r: DispatchOutcome)
    ensures
        r@ == spec_fixed_bool(id as int, has_window, WindowOpV::SetClosable(value)),
{
    fixed_bool(id, has_window, WindowOp::SetClosable(value))
}

/// Window present: perform the op, answer true; absent: answer false.
pub fn set_content_protection(has_window: bool, id: u8, value: bool) -> (r: DispatchOutcome)
    ensures
        r@ == spec_fixed_bool(id as int, has_window, WindowOpV::SetContentProtection(value)),
{
    fixed_bool(id, has_window, WindowOp::SetContentProtection(value))
}

/// Window present: the op's own success answers; absent: false.
pub fn set_cursor_grab(has_window: bool, id: u8, value: bool) -> (r: DispatchOutcome)
    ensures
        r@ == spec_await_bool(id as int, has_window, WindowOpV::SetCursorGrab(value)),
{
    await_bool(id, has_window, WindowOp::SetCursorGrab(value))
}

/// Window present: set the cursor icon, answer true; absent: false.
pub fn set_cursor_icon(has_window: bool, id: u8, cursor: CursorIcon) -> (r: DispatchOutcome)
    ensures
        r@ == spec_fixed_bool(id as int, has_window, WindowOpV::SetCursorIcon(cursor)),
{
    fixed_bool(id, has_window, WindowOp::SetCursorIcon(cursor))
}

/// Window present: the move's own success answers; absent: false.
pub fn set_cursor_position(has_window: bool, id: u8, position: Position) -> (r: DispatchOutcome)
    ensures
        r@ == spec_await_bool(id as int, has_window, WindowOpV::SetCursorPosition(position)),
{
    await_bool(id, has_window, WindowOp::SetCursorPosition(position))
}

/// Window present: perform the op, answer true; absent: answer false.
pub fn set_cursor_visible(has_window: bool, id: u8, value: bool) -> (r: DispatchOutcome)
    ensures
        r@ == spec_fixed_bool(id as int, has_window, WindowOpV::SetCursorVisible(value)),
{
    fixed_bool(id, has_window, WindowOp::SetCursorVisible(value))
}

/// Window present: perform the op, answer true; absent: answer false.
pub fn set_decorations(has_window: bool, id: u8, value: bool) -> (r: DispatchOutcome)
    ensures
        r@ == spec_fixed_bool(id as int, has_window, WindowOpV::SetDecorations(value)),
{
    fixed_bool(id, has_window, WindowOp::SetDecorations(value))
}

/// Window present: focus it, answer true; absent: answer false.
pub fn set_focus(has_window: bool, id: u8) -> (r: DispatchOutcome)
    ensures
        r@ == spec_fixed_bool(id as int, has_window, WindowOpV::SetFocus),
{
    fixed_bool(id, has_window, WindowOp::SetFocus)
}

/// Window present: perform the op, answer true; absent: answer false.
pub fn set_focusable(has_window: bool, id: u8, value: bool) -> (r: DispatchOutcome)
    ensures
        r@ == spec_fixed_bool(id as int, has_window, WindowOpV::SetFocusable(value)),
{
    fixed_bool(id, has_window, WindowOp::SetFocusable(value))
}

/// Window present: perform the op, answer true; absent: answer false.
pub fn set_fullscreen(has_window: bool, id: u8, value: bool) -> (r: DispatchOutcome)
    ensures
        r@ == spec_fixed_bool(id as int, has_window, WindowOpV::SetFullscreen(value)),
{
    fixed_bool(id, has_window, WindowOp::SetFullscreen(value))
}

/// Window present: the op's own success answers; absent: false.
pub fn set_ignore_cursor_events(has_window: bool, id: u8, value: bool) -> (r: DispatchOutcome)
    ensures
        r@ == spec_await_bool(id as int, has_window, WindowOpV::SetIgnoreCursorEvents(value)),
{
    await_bool(id, has_window, WindowOp::SetIgnoreCursorEvents(value))
}

/// Window present: apply the position, answer true; absent: false.
pub fn set_ime_position(has_window: bool, id: u8, position: Position) -> (r: DispatchOutcome)
    ensures
        r@ == spec_fixed_bool(id as int, has_window, WindowOpV::SetImePosition(position)),
{
    fixed_bool(id, has_window, WindowOp::SetImePosition(position))
}

/// Window present: apply the progress state, answer true; absent:
/// false.
pub fn set_progress_bar(has_window: bool, id: u8, progress: ProgressBarState) -> (r: DispatchOutcome)
    ensures
        r@ == spec_fixed_bool(
            id as int,
            has_window,
            WindowOpV::SetProgressBar(spec_progress_bar_view(progress)),
        ),
{
    fixed_bool(id, has_window, WindowOp::SetProgressBar(progress))
}

/// Window present: apply the size, answer true; absent: false.
pub fn set_inner_size(has_window: bool, id: u8, size: Size) -> (r: DispatchOutcome)
    ensures
        r@ == spec_fixed_bool(id as int, has_window, WindowOpV::SetInnerSize(size)),
{
    fixed_bool(id, has_window, WindowOp::SetInnerSize(size))
}

/// Window present: apply the size, answer true; absent: false.
pub fn set_max_inner_size(has_window: bool, id: u8, size: Size) -> (r: DispatchOutcome)
    ensures
        r@ == spec_fixed_bool(id as int, has_window, WindowOpV::SetMaxInnerSize(size)),
{
    fixed_bool(id, has_window, WindowOp::SetMaxInnerSize(size))
}

/// Window present: perform the op, answer true; absent: answer false.
pub fn set_maximizable(has_window: bool, id: u8, value: bool) -> (r: DispatchOutcome)
    ensures
        r@ == spec_fixed_bool(id as int, has_window, WindowOpV::SetMaximizable(value)),
{
    fixed_bool(id, has_window, WindowOp::SetMaximizable(value))
}

/// Window present: perform the op, answer true; absent: answer false.
pub fn set_minimized(has_window: bool, id: u8, value: bool) -> (r: DispatchOutcome)
    ensures
        r@ == spec_fixed_bool(id as int, has_window, WindowOpV::SetMinimized(value)),
{
    fixed_bool(id, has_window, WindowOp::SetMinimized(value))
}

/// Window present: apply the size, answer true; absent: false.
pub fn set_min_inner_size(has_window: bool, id: u8, size: Size) -> (r: DispatchOutcome)
    ensures
        r@ == spec_fixed_bool(id as int, has_window, WindowOpV::SetMinInnerSize(size)),
{
    fixed_bool(id, has_window, WindowOp::SetMinInnerSize(size))
}

/// Window present: perform the op, answer true; absent: answer false.
pub fn set_minimizable(has_window: bool, id: u8, value: bool) -> (r: DispatchOutcome)
    ensures
        r@ == spec_fixed_bool(id as int, has_window, WindowOpV::SetMinimizable(value)),
{
    fixed_bool(id, has_window, WindowOp::SetMinimizable(value))
}

/// Window present: apply the position, answer true; absent: false.
pub fn set_outer_position(has_window: bool, id: u8, position: Position) -> (r: DispatchOutcome)
    ensures
        r@ == spec_fixed_bool(id as int, has_window, WindowOpV::SetOuterPosition(position)),
{
    fixed_bool(id, has_window, WindowOp::SetOuterPosition(position))
}

/// Window present: set the theme, answer true; absent: false.
pub fn set_theme(has_window: bool, id: u8, theme: Theme) -> (r: DispatchOutcome)
    ensures
        r@ == spec_fixed_bool(id as int, has_window, WindowOpV::SetTheme(theme)),
{
    fixed_bool(id, has_window, WindowOp::SetTheme(theme))
}

/// Window present: perform the op, answer true; absent: answer false.
pub fn set_visible(has_window: bool, id: u8, value: bool) -> (r: DispatchOutcome)
    ensures
        r@ == spec_fixed_bool(id as int, has_window, WindowOpV::SetVisible(value)),
{
    fixed_bool(id, has_window, WindowOp::SetVisible(value))
}

/// Window present: perform the op, answer true; absent: answer false.
pub fn set_visible_on_all_workspaces(has_window: bool, id: u8, value: bool) -> (r: DispatchOutcome)
    ensures
        r@ == spec_fixed_bool(id as int, has_window, WindowOpV::SetVisibleOnAllWorkspaces(value)),
{
    fixed_bool(id, has_window, WindowOp::SetVisibleOnAllWorkspaces(value))
}

/// Window present: the op's own success answers; absent: false.
pub fn set_enable(has_window: bool, id: u8, value: bool) -> (r: DispatchOutcome)
    ensures
        r@ == spec_await_bool(id as int, has_window, WindowOpV::SetEnable(value)),
{
    await_bool(id, has_window, WindowOp::SetEnable(value))
}

/// Window present: the op's own success answers; absent: false.
pub fn set_rtl(has_window: bool, id: u8, value: bool) -> (r: DispatchOutcome)
    ensures
        r@ == spec_await_bool(id as int, has_window, WindowOpV::SetRtl(value)),
{
    await_bool(id, has_window, WindowOp::SetRtl(value))
}

/// Window present: the op's own success answers; absent: false.
pub fn set_undecorated_shadow(has_window: bool, id: u8, value: bool) -> (r: DispatchOutcome)
    ensures
        r@ == spec_await_bool(id as int, has_window, WindowOpV::SetUndecoratedShadow(value)),
{
    await_bool(id, has_window, WindowOp::SetUndecoratedShadow(value))
}

/// Window present: the fetched value answers; absent: an error.
pub fn inner_size(has_window: bool, id: u8) -> (r: DispatchOutcome)
    ensures
        r@ == spec_query_outcome(id as int, has_window, WindowQuery::InnerSize, "No window ID set"@),
{
    query_outcome(id, has_window, WindowQuery::InnerSize, "No window ID set")
}

/// Window present: the fetched value answers; absent: an error.
pub fn outer_size(has_window: bool, id: u8) -> (r: DispatchOutcome)
    ensures
        r@ == spec_query_outcome(id as int, has_window, WindowQuery::OuterSize, "No window ID set"@),
{
    query_outcome(id, has_window, WindowQuery::OuterSize, "No window ID set")
}

/// Window present: the fetched value answers; absent: an error.
pub fn outer_position(has_window: bool, id: u8) -> (r: DispatchOutcome)
    ensures
        r@ == spec_query_outcome(id as int, has_window, WindowQuery::OuterPosition, "No window ID set"@),
{
    query_outcome(id, has_window, WindowQuery::OuterPosition, "No window ID set")
}

/// Webview present: the fetched value answers; absent: an error.
pub fn is_devtools_open(has_window: bool, id: u8) -> (r: DispatchOutcome)
    ensures
        r@ == spec_query_outcome(
            id as int,
            has_window,
            WindowQuery::IsDevtoolsOpen,
            "No WebView ID set"@,
        ),
{
    query_outcome(id, has_window, WindowQuery::IsDevtoolsOpen, "No WebView ID set")
}

/// Webview present: perform the op, answer null; absent: an error.
pub fn open_devtools(has_window: bool, id: u8) -> (r: DispatchOutcome)
    ensures
        r@ == spec_fixed_null(id as int, has_window, WindowOpV::OpenDevtools, "No WebView ID set"@),
{
    fixed_null(id, has_window, WindowOp::OpenDevtools, "No WebView ID set")
}

/// Webview present: perform the op, answer null; absent: an error.
pub fn close_devtools(has_window: bool, id: u8) -> (r: DispatchOutcome)
    ensures
        r@ == spec_fixed_null(id as int, has_window, WindowOpV::CloseDevtools, "No WebView ID set"@),
{
    fixed_null(id, has_window, WindowOp::CloseDevtools, "No WebView ID set")
}

// ---------------------------------------------------------------------
// Dispatching to them
// ---------------------------------------------------------------------

/// What method `m` decides on the bound arguments `vals`, as a pure
/// function.
pub open spec fn spec_invoke_window(
    m: WindowMethod,
    has_window: bool,
    id: int,
    vals: Seq<JsonV>,
) -> DispatchOutcomeV {
    match m {
        WindowMethod::SetTitle => match spec_take1(vals) {
            Some(JsonV::Str(s)) => spec_fixed_bool(id, has_window, WindowOpV::SetTitle(s)),
            _ => spec_invalid(id),
        },
        WindowMethod::GetTitle => if vals.len() == 0 {
            spec_query_outcome(id, has_window, WindowQuery::GetTitle, "No window ID set"@)
        } else {
            spec_invalid(id)
        },
        WindowMethod::SetAlwaysOnBottom => match spec_take1(vals) {
            Some(JsonV::Bool(b)) => spec_fixed_bool(id, has_window, WindowOpV::SetAlwaysOnBottom(b)),
            _ => spec_invalid(id),
        },
        WindowMethod::SetAlwaysOnTop => match spec_take1(vals) {
            Some(JsonV::Bool(b)) => spec_fixed_bool(id, has_window, WindowOpV::SetAlwaysOnTop(b)),
            _ => spec_invalid(id),
        },
        WindowMethod::SetBackgroundColor => match spec_take1(vals) {
            Some(JsonV::Null) => spec_fixed_bool(id, has_window, WindowOpV::SetBackgroundColor(None)),
            Some(av) => match spec_rgba_of_json(av) {
                Some(c) => spec_fixed_bool(id, has_window, WindowOpV::SetBackgroundColor(Some(c))),
                None => spec_invalid(id),
            },
            None => spec_invalid(id),
        },
        WindowMethod::SetClosable => match spec_take1(vals) {
            Some(JsonV::Bool(b)) => spec_fixed_bool(id, has_window, WindowOpV::SetClosable(b)),
            _ => spec_invalid(id),
        },
        WindowMethod::SetContentProtection => match spec_take1(vals) {
            Some(JsonV::Bool(b)) => spec_fixed_bool(id, has_window, WindowOpV::SetContentProtection(b)),
            _ => spec_invalid(id),
        },
        WindowMethod::SetCursorGrab => match spec_take1(vals) {
            Some(JsonV::Bool(b)) => spec_await_bool(id, has_window, WindowOpV::SetCursorGrab(b)),
            _ => spec_invalid(id),
        },
        WindowMethod::SetCursorIcon => match spec_take1(vals) {
            Some(JsonV::Str(s)) => match spec_cursor_icon_of_str(s) {
                Some(c) => spec_fixed_bool(id, has_window, WindowOpV::SetCursorIcon(c)),
                None => spec_invalid(id),
            },
            _ => spec_invalid(id),
        },
        WindowMethod::SetCursorPosition => match spec_take1(vals) {
            Some(av) => match spec_position_of_json(av) {
                Some(p) => spec_await_bool(id, has_window, WindowOpV::SetCursorPosition(p)),
                None => spec_invalid(id),
            },
            None => spec_invalid(id),
        },
        WindowMethod::SetCursorVisible => match spec_take1(vals) {
            Some(JsonV::Bool(b)) => spec_fixed_bool(id, has_window, WindowOpV::SetCursorVisible(b)),
            _ => spec_invalid(id),
        },
        WindowMethod::SetDecorations => match spec_take1(vals) {
            Some(JsonV::Bool(b)) => spec_fixed_bool(id, has_window, WindowOpV::SetDecorations(b)),
            _ => spec_invalid(id),
        },
        WindowMethod::SetFocus => if vals.len() == 0 {
            spec_fixed_bool(id, has_window, WindowOpV::SetFocus)
        } else {
            spec_invalid(id)
        },
        WindowMethod::SetFocusable => match spec_take1(vals) {
            Some(JsonV::Bool(b)) => spec_fixed_bool(id, has_window, WindowOpV::SetFocusable(b)),
            _ => spec_invalid(id),
        },
        WindowMethod::SetFullscreen => match spec_take1(vals) {
            Some(JsonV::Bool(b)) => spec_fixed_bool(id, has_window, WindowOpV::SetFullscreen(b)),
            _ => spec_invalid(id),
        },
        WindowMethod::SetIgnoreCursorEvents => match spec_take1(vals) {
            Some(JsonV::Bool(b)) => spec_await_bool(id, has_window, WindowOpV::SetIgnoreCursorEvents(b)),
            _ => spec_invalid(id),
        },
        WindowMethod::SetImePosition => match spec_take1(vals) {
            Some(av) => match spec_position_of_json(av) {
                Some(p) => spec_fixed_bool(id, has_window, WindowOpV::SetImePosition(p)),
                None => spec_invalid(id),
            },
            None => spec_invalid(id),
        },
        WindowMethod::SetProgressBar => match spec_take1(vals) {
            Some(av) => match spec_progress_bar_of_json(av) {
                Some(p) => spec_fixed_bool(id, has_window, WindowOpV::SetProgressBar(p)),
                None => spec_invalid(id),
            },
            None => spec_invalid(id),
        },
        WindowMethod::SetInnerSize => match spec_take1(vals) {
            Some(av) => match spec_size_of_json(av) {
                Some(sz) => spec_fixed_bool(id, has_window, WindowOpV::SetInnerSize(sz)),
                None => spec_invalid(id),
            },
            None => spec_invalid(id),
        },
        WindowMethod::SetMaxInnerSize => match spec_take1(vals) {
            Some(av) => match spec_size_of_json(av) {
                Some(sz) => spec_fixed_bool(id, has_window, WindowOpV::SetMaxInnerSize(sz)),
                None => spec_invalid(id),
            },
            None => spec_invalid(id),
        },
        WindowMethod::SetMaximizable => match spec_take1(vals) {
            Some(JsonV::Bool(b)) => spec_fixed_bool(id, has_window, WindowOpV::SetMaximizable(b)),
            _ => spec_invalid(id),
        },
        WindowMethod::SetMinimized => match spec_take1(vals) {
            Some(JsonV::Bool(b)) => spec_fixed_bool(id, has_window, WindowOpV::SetMinimized(b)),
            _ => spec_invalid(id),
        },
        WindowMethod::SetMinInnerSize => match spec_take1(vals) {
            Some(av) => match spec_size_of_json(av) {
                Some(sz) => spec_fixed_bool(id, has_window, WindowOpV::SetMinInnerSize(sz)),
                None => spec_invalid(id),
            },
            None => spec_invalid(id),
        },
        WindowMethod::SetMinimizable => match spec_take1(vals) {
            Some(JsonV::Bool(b)) => spec_fixed_bool(id, has_window, WindowOpV::SetMinimizable(b)),
            _ => spec_invalid(id),
        },
        WindowMethod::SetOuterPosition => match spec_take1(vals) {
            Some(av) => match spec_position_of_json(av) {
                Some(p) => spec_fixed_bool(id, has_window, WindowOpV::SetOuterPosition(p)),
                None => spec_invalid(id),
            },
            None => spec_invalid(id),
        },
        WindowMethod::SetTheme => match spec_take1(vals) {
            Some(JsonV::Str(s)) => match spec_theme_of_str(s) {
                Some(t) => spec_fixed_bool(id, has_window, WindowOpV::SetTheme(t)),
                None => spec_invalid(id),
            },
            _ => spec_invalid(id),
        },
        WindowMethod::SetVisible => match spec_take1(vals) {
            Some(JsonV::Bool(b)) => spec_fixed_bool(id, has_window, WindowOpV::SetVisible(b)),
            _ => spec_invalid(id),
        },
        WindowMethod::SetVisibleOnAllWorkspaces => match spec_take1(vals) {
            Some(JsonV::Bool(b)) => spec_fixed_bool(id, has_window, WindowOpV::SetVisibleOnAllWorkspaces(b)),
            _ => spec_invalid(id),
        },
        WindowMethod::SetEnable => match spec_take1(vals) {
            Some(JsonV::Bool(b)) => spec_await_bool(id, has_window, WindowOpV::SetEnable(b)),
            _ => spec_invalid(id),
        },
        WindowMethod::SetRtl => match spec_take1(vals) {
            Some(JsonV::Bool(b)) => spec_await_bool(id, has_window, WindowOpV::SetRtl(b)),
            _ => spec_invalid(id),
        },
        WindowMethod::SetUndecoratedShadow => match spec_take1(vals) {
            Some(JsonV::Bool(b)) => spec_await_bool(id, has_window, WindowOpV::SetUndecoratedShadow(b)),
            _ => spec_invalid(id),
        },
        WindowMethod::InnerSize => if vals.len() == 0 {
            spec_query_outcome(id, has_window, WindowQuery::InnerSize, "No window ID set"@)
        } else {
            spec_invalid(id)
        },
        WindowMethod::OuterSize => if vals.len() == 0 {
            spec_query_outcome(id, has_window, WindowQuery::OuterSize, "No window ID set"@)
        } else {
            spec_invalid(id)
        },
        WindowMethod::OuterPosition => if vals.len() == 0 {
            spec_query_outcome(id, has_window, WindowQuery::OuterPosition, "No window ID set"@)
        } else {
            spec_invalid(id)
        },
        WindowMethod::IsDevtoolsOpen => if vals.len() == 0 {
            spec_query_outcome(id, has_window, WindowQuery::IsDevtoolsOpen, "No WebView ID set"@)
        } else {
            spec_invalid(id)
        },
        WindowMethod::OpenDevtools => if vals.len() == 0 {
            spec_fixed_null(id, has_window, WindowOpV::OpenDevtools, "No WebView ID set"@)
        } else {
            spec_invalid(id)
        },
        WindowMethod::CloseDevtools => if vals.len() == 0 {
            spec_fixed_null(id, has_window, WindowOpV::CloseDevtools, "No WebView ID set"@)
        } else {
            spec_invalid(id)
        },
    }
}

/// Runs method `m` on the bound arguments, exactly as
/// `spec_invoke_window` says.
#[verifier::rlimit(100)]
pub fn invoke_window(m: WindowMethod, has_window: bool, id: u8, vals: Vec<Json>) -> (r:
    DispatchOutcome)
    ensures
        r@ == spec_invoke_window(m, has_window, id as int, json_view_list(vals@)),
{
    broadcast use crate::json::lemma_json_view_list_len;

    match m {
        WindowMethod::SetTitle => match take1(vals) {
            Some(Json::Str(s)) => set_title(has_window, id, s),
            _ => invalid_args(id),
        },
        WindowMethod::GetTitle => if vals.len() == 0 {
            get_title(has_window, id)
        } else {
            invalid_args(id)
        },
        WindowMethod::SetAlwaysOnBottom => match take1(vals) {
            Some(Json::Bool(b)) => set_always_on_bottom(has_window, id, b),
            _ => invalid_args(id),
        },
        WindowMethod::SetAlwaysOnTop => match take1(vals) {
            Some(Json::Bool(b)) => set_always_on_top(has_window, id, b),
            _ => invalid_args(id),
        },
        WindowMethod::SetBackgroundColor => match take1(vals) {
            Some(Json::Null) => set_background_color(has_window, id, None),
            Some(av) => match rgba_of_json(&av) {
                Some(c) => set_background_color(has_window, id, Some(c)),
                None => invalid_args(id),
            },
            None => invalid_args(id),
        },
        WindowMethod::SetClosable => match take1(vals) {
            Some(Json::Bool(b)) => set_closable(has_window, id, b),
            _ => invalid_args(id),
        },
        WindowMethod::SetContentProtection => match take1(vals) {
            Some(Json::Bool(b)) => set_content_protection(has_window, id, b),
            _ => invalid_args(id),
        },
        WindowMethod::SetCursorGrab => match take1(vals) {
            Some(Json::Bool(b)) => set_cursor_grab(has_window, id, b),
            _ => invalid_args(id),
        },
        WindowMethod::SetCursorIcon => match take1(vals) {
            Some(Json::Str(s)) => match cursor_icon_of_str(&s) {
                Some(c) => set_cursor_icon(has_window, id, c),
                None => invalid_args(id),
            },
            _ => invalid_args(id),
        },
        WindowMethod::SetCursorPosition => match take1(vals) {
            Some(av) => match position_of_json(&av) {
                Some(p) => set_cursor_position(has_window, id, p),
                None => invalid_args(id),
            },
            None => invalid_args(id),
        },
        WindowMethod::SetCursorVisible => match take1(vals) {
            Some(Json::Bool(b)) => set_cursor_visible(has_window, id, b),
            _ => invalid_args(id),
        },
        WindowMethod::SetDecorations => match take1(vals) {
            Some(Json::Bool(b)) => set_decorations(has_window, id, b),
            _ => invalid_args(id),
        },
        WindowMethod::SetFocus => if vals.len() == 0 {
            set_focus(has_window, id)
        } else {
            invalid_args(id)
        },
        WindowMethod::SetFocusable => match take1(vals) {
            Some(Json::Bool(b)) => set_focusable(has_window, id, b),
            _ => invalid_args(id),
        },
        WindowMethod::SetFullscreen => match take1(vals) {
            Some(Json::Bool(b)) => set_fullscreen(has_window, id, b),
            _ => invalid_args(id),
        },
        WindowMethod::SetIgnoreCursorEvents => match take1(vals) {
            Some(Json::Bool(b)) => set_ignore_cursor_events(has_window, id, b),
            _ => invalid_args(id),
        },
        WindowMethod::SetImePosition => match take1(vals) {
            Some(av) => match position_of_json(&av) {
                Some(p) => set_ime_position(has_window, id, p),
                None => invalid_args(id),
            },
            None => invalid_args(id),
        },
        WindowMethod::SetProgressBar => match take1(vals) {
            Some(av) => match progress_bar_of_json(&av) {
                Some(p) => {
                    proof {
                        assert(spec_progress_bar_of_json(av@) matches Some(pv) ==> (
                        spec_progress_bar_view(p) == pv));
                    }
                    set_progress_bar(has_window, id, p)
                },
                None => invalid_args(id),
            },
            None => invalid_args(id),
        },
        WindowMethod::SetInnerSize => match take1(vals) {
            Some(av) => match size_of_json(&av) {
                Some(sz) => set_inner_size(has_window, id, sz),
                None => invalid_args(id),
            },
            None => invalid_args(id),
        },
        WindowMethod::SetMaxInnerSize => match take1(vals) {
            Some(av) => match size_of_json(&av) {
                Some(sz) => set_max_inner_size(has_window, id, sz),
                None => invalid_args(id),
            },
            None => invalid_args(id),
        },
        WindowMethod::SetMaximizable => match take1(vals) {
            Some(Json::Bool(b)) => set_maximizable(has_window, id, b),
            _ => invalid_args(id),
        },
        WindowMethod::SetMinimized => match take1(vals) {
            Some(Json::Bool(b)) => set_minimized(has_window, id, b),
            _ => invalid_args(id),
        },
        WindowMethod::SetMinInnerSize => match take1(vals) {
            Some(av) => match size_of_json(&av) {
                Some(sz) => set_min_inner_size(has_window, id, sz),
                None => invalid_args(id),
            },
            None => invalid_args(id),
        },
        WindowMethod::SetMinimizable => match take1(vals) {
            Some(Json::Bool(b)) => set_minimizable(has_window, id, b),
            _ => invalid_args(id),
        },
        WindowMethod::SetOuterPosition => match take1(vals) {
            Some(av) => match position_of_json(&av) {
                Some(p) => set_outer_position(has_window, id, p),
                None => invalid_args(id),
            },
            None => invalid_args(id),
        },
        WindowMethod::SetTheme => match take1(vals) {
            Some(Json::Str(s)) => match theme_of_str(&s) {
                Some(t) => set_theme(has_window, id, t),
                None => invalid_args(id),
            },
            _ => invalid_args(id),
        },
        WindowMethod::SetVisible => match take1(vals) {
            Some(Json::Bool(b)) => set_visible(has_window, id, b),
            _ => invalid_args(id),
        },
        WindowMethod::SetVisibleOnAllWorkspaces => match take1(vals) {
            Some(Json::Bool(b)) => set_visible_on_all_workspaces(has_window, id, b),
            _ => invalid_args(id),
        },
        WindowMethod::SetEnable => match take1(vals) {
            Some(Json::Bool(b)) => set_enable(has_window, id, b),
            _ => invalid_args(id),
        },
        WindowMethod::SetRtl => match take1(vals) {
            Some(Json::Bool(b)) => set_rtl(has_window, id, b),
            _ => invalid_args(id),
        },
        WindowMethod::SetUndecoratedShadow => match take1(vals) {
            Some(Json::Bool(b)) => set_undecorated_shadow(has_window, id, b),
            _ => invalid_args(id),
        },
        WindowMethod::InnerSize => if vals.len() == 0 {
            inner_size(has_window, id)
        } else {
            invalid_args(id)
        },
        WindowMethod::OuterSize => if vals.len() == 0 {
            outer_size(has_window, id)
        } else {
            invalid_args(id)
        },
        WindowMethod::OuterPosition => if vals.len() == 0 {
            outer_position(has_window, id)
        } else {
            invalid_args(id)
        },
        WindowMethod::IsDevtoolsOpen => if vals.len() == 0 {
            is_devtools_open(has_window, id)
        } else {
            invalid_args(id)
        },
        WindowMethod::OpenDevtools => if vals.len() == 0 {
            open_devtools(has_window, id)
        } else {
            invalid_args(id)
        },
        WindowMethod::CloseDevtools => if vals.len() == 0 {
            close_devtools(has_window, id)
        } else {
            invalid_args(id)
        },
    }
}

// ---------------------------------------------------------------------
// Registration
// ---------------------------------------------------------------------

fn required(kind: ParamKind) -> (r: Vec<ParamSpec>)
    ensures
        r@ =~= seq![ParamSpec { kind, optional: false }],
{
    let mut v: Vec<ParamSpec> = Vec::new();
    v.push(ParamSpec { kind, optional: false });
    v
}

fn optional(kind: ParamKind) -> (r: Vec<ParamSpec>)
    ensures
        r@ =~= seq![ParamSpec { kind, optional: true }],
{
    let mut v: Vec<ParamSpec> = Vec::new();
    v.push(ParamSpec { kind, optional: true });
    v
}

/// Registers the cursor methods: each name looks up afterwards as its
/// handler with its declared parameters; no other name is touched.
#[verifier::rlimit(100)]
fn window_api_cursor(api_manager: &mut ApiManager)
    ensures
        final(api_manager).spec_lookup("window.set_cursor_grab"@) == Some(
            (seq![ParamSpec { kind: ParamKind::Bool, optional: false }], HandlerKind::Window(WindowMethod::SetCursorGrab)),
        ),
        final(api_manager).spec_lookup("window.set_cursor_icon"@) == Some(
            (seq![ParamSpec { kind: ParamKind::Str, optional: false }], HandlerKind::Window(WindowMethod::SetCursorIcon)),
        ),
        final(api_manager).spec_lookup("window.set_cursor_position"@) == Some(
            (seq![ParamSpec { kind: ParamKind::Any, optional: false }], HandlerKind::Window(WindowMethod::SetCursorPosition)),
        ),
        final(api_manager).spec_lookup("window.set_cursor_visible"@) == Some(
            (seq![ParamSpec { kind: ParamKind::Bool, optional: false }], HandlerKind::Window(WindowMethod::SetCursorVisible)),
        ),
        final(api_manager).spec_lookup("window.set_ignore_cursor_events"@) == Some(
            (seq![ParamSpec { kind: ParamKind::Bool, optional: false }], HandlerKind::Window(WindowMethod::SetIgnoreCursorEvents)),
        ),
        final(api_manager).spec_lookup("window.set_ime_position"@) == Some(
            (seq![ParamSpec { kind: ParamKind::Any, optional: false }], HandlerKind::Window(WindowMethod::SetImePosition)),
        ),
        forall|n: Seq<char>|
            !(n == "window.set_cursor_grab"@
                || n == "window.set_cursor_icon"@
                || n == "window.set_cursor_position"@
                || n == "window.set_cursor_visible"@
                || n == "window.set_ignore_cursor_events"@
                || n == "window.set_ime_position"@) ==> final(api_manager).spec_lookup(n) == old(api_manager).spec_lookup(n),
{
    proof {
        reveal_strlit("window.set_cursor_grab");
        reveal_strlit("window.set_cursor_icon");
        reveal_strlit("window.set_cursor_position");
        reveal_strlit("window.set_cursor_visible");
        reveal_strlit("window.set_ignore_cursor_events");
        reveal_strlit("window.set_ime_position");
        assert("window.set_cursor_grab"@.len() == 22);
        assert("window.set_cursor_icon"@.len() == 22);
        assert("window.set_cursor_position"@.len() == 26);
        assert("window.set_cursor_visible"@.len() == 25);
        assert("window.set_ignore_cursor_events"@.len() == 31);
        assert("window.set_ime_position"@.len() == 23);
        assert("window.set_cursor_grab"@ != "window.set_cursor_icon"@) by {
            assert("window.set_cursor_grab"@[18] != "window.set_cursor_icon"@[18]);
        }
    }
    api_manager.register_api(String::from_str("window.set_cursor_grab"), required(ParamKind::Bool), HandlerKind::Window(WindowMethod::SetCursorGrab));
    api_manager.register_api(String::from_str("window.set_cursor_icon"), required(ParamKind::Str), HandlerKind::Window(WindowMethod::SetCursorIcon));
    proof {
        assert(api_manager.spec_lookup("window.set_cursor_grab"@) == Some((seq![ParamSpec { kind: ParamKind::Bool, optional: false }], HandlerKind::Window(WindowMethod::SetCursorGrab))));
    }
    api_manager.register_api(String::from_str("window.set_cursor_position"), required(ParamKind::Any), HandlerKind::Window(WindowMethod::SetCursorPosition));
    proof {
        assert(api_manager.spec_lookup("window.set_cursor_grab"@) == Some((seq![ParamSpec { kind: ParamKind::Bool, optional: false }], HandlerKind::Window(WindowMethod::SetCursorGrab))));
        assert(api_manager.spec_lookup("window.set_cursor_icon"@) == Some((seq![ParamSpec { kind: ParamKind::Str, optional: false }], HandlerKind::Window(WindowMethod::SetCursorIcon))));
    }
    api_manager.register_api(String::from_str("window.set_cursor_visible"), required(ParamKind::Bool), HandlerKind::Window(WindowMethod::SetCursorVisible));
    proof {
        assert(api_manager.spec_lookup("window.set_cursor_grab"@) == Some((seq![ParamSpec { kind: ParamKind::Bool, optional: false }], HandlerKind::Window(WindowMethod::SetCursorGrab))));
        assert(api_manager.spec_lookup("window.set_cursor_icon"@) == Some((seq![ParamSpec { kind: ParamKind::Str, optional: false }], HandlerKind::Window(WindowMethod::SetCursorIcon))));
        assert(api_manager.spec_lookup("window.set_cursor_position"@) == Some((seq![ParamSpec { kind: ParamKind::Any, optional: false }], HandlerKind::Window(WindowMethod::SetCursorPosition))));
    }
    api_manager.register_api(String::from_str("window.set_ignore_cursor_events"), required(ParamKind::Bool), HandlerKind::Window(WindowMethod::SetIgnoreCursorEvents));
    proof {
        assert(api_manager.spec_lookup("window.set_cursor_grab"@) == Some((seq![ParamSpec { kind: ParamKind::Bool, optional: false }], HandlerKind::Window(WindowMethod::SetCursorGrab))));
        assert(api_manager.spec_lookup("window.set_cursor_icon"@) == Some((seq![ParamSpec { kind: ParamKind::Str, optional: false }], HandlerKind::Window(WindowMethod::SetCursorIcon))));
        assert(api_manager.spec_lookup("window.set_cursor_position"@) == Some((seq![ParamSpec { kind: ParamKind::Any, optional: false }], HandlerKind::Window(WindowMethod::SetCursorPosition))));
        assert(api_manager.spec_lookup("window.set_cursor_visible"@) == Some((seq![ParamSpec { kind: ParamKind::Bool, optional: false }], HandlerKind::Window(WindowMethod::SetCursorVisible))));
    }
    api_manager.register_api(String::from_str("window.set_ime_position"), required(ParamKind::Any), HandlerKind::Window(WindowMethod::SetImePosition));
    proof {
        assert(api_manager.spec_lookup("window.set_cursor_grab"@) == Some((seq![ParamSpec { kind: ParamKind::Bool, optional: false }], HandlerKind::Window(WindowMethod::SetCursorGrab))));
        assert(api_manager.spec_lookup("window.set_cursor_icon"@) == Some((seq![ParamSpec { kind: ParamKind::Str, optional: false }], HandlerKind::Window(WindowMethod::SetCursorIcon))));
        assert(api_manager.spec_lookup("window.set_cursor_position"@) == Some((seq![ParamSpec { kind: ParamKind::Any, optional: false }], HandlerKind::Window(WindowMethod::SetCursorPosition))));
        assert(api_manager.spec_lookup("window.set_cursor_visible"@) == Some((seq![ParamSpec { kind: ParamKind::Bool, optional: false }], HandlerKind::Window(WindowMethod::SetCursorVisible))));
        assert(api_manager.spec_lookup("window.set_ignore_cursor_events"@) == Some((seq![ParamSpec { kind: ParamKind::Bool, optional: false }], HandlerKind::Window(WindowMethod::SetIgnoreCursorEvents))));
    }
}

/// Registers the size and position methods: each name looks up afterwards as its
/// handler with its declared parameters; no other name is touched.
#[verifier::rlimit(100)]
fn window_api_geometry(api_manager: &mut ApiManager)
    ensures
        final(api_manager).spec_lookup("window.set_inner_size"@) == Some(
            (seq![ParamSpec { kind: ParamKind::Any, optional: false }], HandlerKind::Window(WindowMethod::SetInnerSize)),
        ),
        final(api_manager).spec_lookup("window.set_max_inner_size"@) == Some(
            (seq![ParamSpec { kind: ParamKind::Any, optional: false }], HandlerKind::Window(WindowMethod::SetMaxInnerSize)),
        ),
        final(api_manager).spec_lookup("window.set_min_inner_size"@) == Some(
            (seq![ParamSpec { kind: ParamKind::Any, optional: false }], HandlerKind::Window(WindowMethod::SetMinInnerSize)),
        ),
        final(api_manager).spec_lookup("window.set_outer_position"@) == Some(
            (seq![ParamSpec { kind: ParamKind::Any, optional: false }], HandlerKind::Window(WindowMethod::SetOuterPosition)),
        ),
        final(api_manager).spec_lookup("window.inner_size"@) == Some(
            (Seq::<ParamSpec>::empty(), HandlerKind::Window(WindowMethod::InnerSize)),
        ),
        final(api_manager).spec_lookup("window.outer_size"@) == Some(
            (Seq::<ParamSpec>::empty(), HandlerKind::Window(WindowMethod::OuterSize)),
        ),
        final(api_manager).spec_lookup("window.outer_position"@) == Some(
            (Seq::<ParamSpec>::empty(), HandlerKind::Window(WindowMethod::OuterPosition)),
        ),
        forall|n: Seq<char>|
            !(n == "window.set_inner_size"@
                || n == "window.set_max_inner_size"@
                || n == "window.set_min_inner_size"@
                || n == "window.set_outer_position"@
                || n == "window.inner_size"@
                || n == "window.outer_size"@
                || n == "window.outer_position"@) ==> final(api_manager).spec_lookup(n) == old(api_manager).spec_lookup(n),
{
    proof {
        reveal_strlit("window.set_inner_size");
        reveal_strlit("window.set_max_inner_size");
        reveal_strlit("window.set_min_inner_size");
        reveal_strlit("window.set_outer_position");
        reveal_strlit("window.inner_size");
        reveal_strlit("window.outer_size");
        reveal_strlit("window.outer_position");
        assert("window.set_inner_size"@.len() == 21);
        assert("window.set_max_inner_size"@.len() == 25);
        assert("window.set_min_inner_size"@.len() == 25);
        assert("window.set_outer_position"@.len() == 25);
        assert("window.inner_size"@.len() == 17);
        assert("window.outer_size"@.len() == 17);
        assert("window.outer_position"@.len() == 21);
        assert("window.set_inner_size"@ != "window.outer_position"@) by {
            assert("window.set_inner_size"@[7] != "window.outer_position"@[7]);
        }
        assert("window.set_max_inner_size"@ != "window.set_min_inner_size"@) by {
            assert("window.set_max_inner_size"@[12] != "window.set_min_inner_size"@[12]);
        }
        assert("window.set_max_inner_size"@ != "window.set_outer_position"@) by {
            assert("window.set_max_inner_size"@[11] != "window.set_outer_position"@[11]);
        }
        assert("window.set_min_inner_size"@ != "window.set_outer_position"@) by {
            assert("window.set_min_inner_size"@[11] != "window.set_outer_position"@[11]);
        }
        assert("window.inner_size"@ != "window.outer_size"@) by {
            assert("window.inner_size"@[7] != "window.outer_size"@[7]);
        }
    }
    api_manager.register_api(String::from_str("window.set_inner_size"), required(ParamKind::Any), HandlerKind::Window(WindowMethod::SetInnerSize));
    api_manager.register_api(String::from_str("window.set_max_inner_size"), required(ParamKind::Any), HandlerKind::Window(WindowMethod::SetMaxInnerSize));
    proof {
        assert(api_manager.spec_lookup("window.set_inner_size"@) == Some((seq![ParamSpec { kind: ParamKind::Any, optional: false }], HandlerKind::Window(WindowMethod::SetInnerSize))));
    }
    api_manager.register_api(String::from_str("window.set_min_inner_size"), required(ParamKind::Any), HandlerKind::Window(WindowMethod::SetMinInnerSize));
    proof {
        assert(api_manager.spec_lookup("window.set_inner_size"@) == Some((seq![ParamSpec { kind: ParamKind::Any, optional: false }], HandlerKind::Window(WindowMethod::SetInnerSize))));
        assert(api_manager.spec_lookup("window.set_max_inner_size"@) == Some((seq![ParamSpec { kind: ParamKind::Any, optional: false }], HandlerKind::Window(WindowMethod::SetMaxInnerSize))));
    }
    api_manager.register_api(String::from_str("window.set_outer_position"), required(ParamKind::Any), HandlerKind::Window(WindowMethod::SetOuterPosition));
    proof {
        assert(api_manager.spec_lookup("window.set_inner_size"@) == Some((seq![ParamSpec { kind: ParamKind::Any, optional: false }], HandlerKind::Window(WindowMethod::SetInnerSize))));
        assert(api_manager.spec_lookup("window.set_max_inner_size"@) == Some((seq![ParamSpec { kind: ParamKind::Any, optional: false }], HandlerKind::Window(WindowMethod::SetMaxInnerSize))));
        assert(api_manager.spec_lookup("window.set_min_inner_size"@) == Some((seq![ParamSpec { kind: ParamKind::Any, optional: false }], HandlerKind::Window(WindowMethod::SetMinInnerSize))));
    }
    api_manager.register_api(String::from_str("window.inner_size"), Vec::new(), HandlerKind::Window(WindowMethod::InnerSize));
    proof {
        assert(api_manager.spec_lookup("window.set_inner_size"@) == Some((seq![ParamSpec { kind: ParamKind::Any, optional: false }], HandlerKind::Window(WindowMethod::SetInnerSize))));
        assert(api_manager.spec_lookup("window.set_max_inner_size"@) == Some((seq![ParamSpec { kind: ParamKind::Any, optional: false }], HandlerKind::Window(WindowMethod::SetMaxInnerSize))));
        assert(api_manager.spec_lookup("window.set_min_inner_size"@) == Some((seq![ParamSpec { kind: ParamKind::Any, optional: false }], HandlerKind::Window(WindowMethod::SetMinInnerSize))));
        assert(api_manager.spec_lookup("window.set_outer_position"@) == Some((seq![ParamSpec { kind: ParamKind::Any, optional: false }], HandlerKind::Window(WindowMethod::SetOuterPosition))));
    }
    api_manager.register_api(String::from_str("window.outer_size"), Vec::new(), HandlerKind::Window(WindowMethod::OuterSize));
    proof {
        assert(api_manager.spec_lookup("window.set_inner_size"@) == Some((seq![ParamSpec { kind: ParamKind::Any, optional: false }], HandlerKind::Window(WindowMethod::SetInnerSize))));
        assert(api_manager.spec_lookup("window.set_max_inner_size"@) == Some((seq![ParamSpec { kind: ParamKind::Any, optional: false }], HandlerKind::Window(WindowMethod::SetMaxInnerSize))));
        assert(api_manager.spec_lookup("window.set_min_inner_size"@) == Some((seq![ParamSpec { kind: ParamKind::Any, optional: false }], HandlerKind::Window(WindowMethod::SetMinInnerSize))));
        assert(api_manager.spec_lookup("window.set_outer_position"@) == Some((seq![ParamSpec { kind: ParamKind::Any, optional: false }], HandlerKind::Window(WindowMethod::SetOuterPosition))));
        assert(api_manager.spec_lookup("window.inner_size"@) == Some((Seq::<ParamSpec>::empty(), HandlerKind::Window(WindowMethod::InnerSize))));
    }
    api_manager.register_api(String::from_str("window.outer_position"), Vec::new(), HandlerKind::Window(WindowMethod::OuterPosition));
    proof {
        assert(api_manager.spec_lookup("window.set_inner_size"@) == Some((seq![ParamSpec { kind: ParamKind::Any, optional: false }], HandlerKind::Window(WindowMethod::SetInnerSize))));
        assert(api_manager.spec_lookup("window.set_max_inner_size"@) == Some((seq![ParamSpec { kind: ParamKind::Any, optional: false }], HandlerKind::Window(WindowMethod::SetMaxInnerSize))));
        assert(api_manager.spec_lookup("window.set_min_inner_size"@) == Some((seq![ParamSpec { kind: ParamKind::Any, optional: false }], HandlerKind::Window(WindowMethod::SetMinInnerSize))));
        assert(api_manager.spec_lookup("window.set_outer_position"@) == Some((seq![ParamSpec { kind: ParamKind::Any, optional: false }], HandlerKind::Window(WindowMethod::SetOuterPosition))));
        assert(api_manager.spec_lookup("window.inner_size"@) == Some((Seq::<ParamSpec>::empty(), HandlerKind::Window(WindowMethod::InnerSize))));
        assert(api_manager.spec_lookup("window.outer_size"@) == Some((Seq::<ParamSpec>::empty(), HandlerKind::Window(WindowMethod::OuterSize))));
    }
}

/// Registers the visibility and focus methods: each name looks up afterwards as its
/// handler with its declared parameters; no other name is touched.
#[verifier::rlimit(100)]
fn window_api_visibility(api_manager: &mut ApiManager)
    ensures
        final(api_manager).spec_lookup("window.set_visible"@) == Some(
            (seq![ParamSpec { kind: ParamKind::Bool, optional: false }], HandlerKind::Window(WindowMethod::SetVisible)),
        ),
        final(api_manager).spec_lookup("window.set_visible_on_all_workspaces"@) == Some(
            (seq![ParamSpec { kind: ParamKind::Bool, optional: false }], HandlerKind::Window(WindowMethod::SetVisibleOnAllWorkspaces)),
        ),
        final(api_manager).spec_lookup("window.set_fullscreen"@) == Some(
            (seq![ParamSpec { kind: ParamKind::Bool, optional: false }], HandlerKind::Window(WindowMethod::SetFullscreen)),
        ),
        final(api_manager).spec_lookup("window.set_focus"@) == Some(
            (Seq::<ParamSpec>::empty(), HandlerKind::Window(WindowMethod::SetFocus)),
        ),
        final(api_manager).spec_lookup("window.set_focusable"@) == Some(
            (seq![ParamSpec { kind: ParamKind::Bool, optional: false }], HandlerKind::Window(WindowMethod::SetFocusable)),
        ),
        final(api_manager).spec_lookup("window.set_decorations"@) == Some(
            (seq![ParamSpec { kind: ParamKind::Bool, optional: false }], HandlerKind::Window(WindowMethod::SetDecorations)),
        ),
        forall|n: Seq<char>|
            !(n == "window.set_visible"@
                || n == "window.set_visible_on_all_workspaces"@
                || n == "window.set_fullscreen"@
                || n == "window.set_focus"@
                || n == "window.set_focusable"@
                || n == "window.set_decorations"@) ==> final(api_manager).spec_lookup(n) == old(api_manager).spec_lookup(n),
{
    proof {
        reveal_strlit("window.set_visible");
        reveal_strlit("window.set_visible_on_all_workspaces");
        reveal_strlit("window.set_fullscreen");
        reveal_strlit("window.set_focus");
        reveal_strlit("window.set_focusable");
        reveal_strlit("window.set_decorations");
        assert("window.set_visible"@.len() == 18);
        assert("window.set_visible_on_all_workspaces"@.len() == 36);
        assert("window.set_fullscreen"@.len() == 21);
        assert("window.set_focus"@.len() == 16);
        assert("window.set_focusable"@.len() == 20);
        assert("window.set_decorations"@.len() == 22);
    }
    api_manager.register_api(String::from_str("window.set_visible"), required(ParamKind::Bool), HandlerKind::Window(WindowMethod::SetVisible));
    api_manager.register_api(String::from_str("window.set_visible_on_all_workspaces"), required(ParamKind::Bool), HandlerKind::Window(WindowMethod::SetVisibleOnAllWorkspaces));
    proof {
        assert(api_manager.spec_lookup("window.set_visible"@) == Some((seq![ParamSpec { kind: ParamKind::Bool, optional: false }], HandlerKind::Window(WindowMethod::SetVisible))));
    }
    api_manager.register_api(String::from_str("window.set_fullscreen"), required(ParamKind::Bool), HandlerKind::Window(WindowMethod::SetFullscreen));
    proof {
        assert(api_manager.spec_lookup("window.set_visible"@) == Some((seq![ParamSpec { kind: ParamKind::Bool, optional: false }], HandlerKind::Window(WindowMethod::SetVisible))));
        assert(api_manager.spec_lookup("window.set_visible_on_all_workspaces"@) == Some((seq![ParamSpec { kind: ParamKind::Bool, optional: false }], HandlerKind::Window(WindowMethod::SetVisibleOnAllWorkspaces))));
    }
    api_manager.register_api(String::from_str("window.set_focus"), Vec::new(), HandlerKind::Window(WindowMethod::SetFocus));
    proof {
        assert(api_manager.spec_lookup("window.set_visible"@) == Some((seq![ParamSpec { kind: ParamKind::Bool, optional: false }], HandlerKind::Window(WindowMethod::SetVisible))));
        assert(api_manager.spec_lookup("window.set_visible_on_all_workspaces"@) == Some((seq![ParamSpec { kind: ParamKind::Bool, optional: false }], HandlerKind::Window(WindowMethod::SetVisibleOnAllWorkspaces))));
        assert(api_manager.spec_lookup("window.set_fullscreen"@) == Some((seq![ParamSpec { kind: ParamKind::Bool, optional: false }], HandlerKind::Window(WindowMethod::SetFullscreen))));
    }
    api_manager.register_api(String::from_str("window.set_focusable"), required(ParamKind::Bool), HandlerKind::Window(WindowMethod::SetFocusable));
    proof {
        assert(api_manager.spec_lookup("window.set_visible"@) == Some((seq![ParamSpec { kind: ParamKind::Bool, optional: false }], HandlerKind::Window(WindowMethod::SetVisible))));
        assert(api_manager.spec_lookup("window.set_visible_on_all_workspaces"@) == Some((seq![ParamSpec { kind: ParamKind::Bool, optional: false }], HandlerKind::Window(WindowMethod::SetVisibleOnAllWorkspaces))));
        assert(api_manager.spec_lookup("window.set_fullscreen"@) == Some((seq![ParamSpec { kind: ParamKind::Bool, optional: false }], HandlerKind::Window(WindowMethod::SetFullscreen))));
        assert(api_manager.spec_lookup("window.set_focus"@) == Some((Seq::<ParamSpec>::empty(), HandlerKind::Window(WindowMethod::SetFocus))));
    }
    api_manager.register_api(String::from_str("window.set_decorations"), required(ParamKind::Bool), HandlerKind::Window(WindowMethod::SetDecorations));
    proof {
        assert(api_manager.spec_lookup("window.set_visible"@) == Some((seq![ParamSpec { kind: ParamKind::Bool, optional: false }], HandlerKind::Window(WindowMethod::SetVisible))));
        assert(api_manager.spec_lookup("window.set_visible_on_all_workspaces"@) == Some((seq![ParamSpec { kind: ParamKind::Bool, optional: false }], HandlerKind::Window(WindowMethod::SetVisibleOnAllWorkspaces))));
        assert(api_manager.spec_lookup("window.set_fullscreen"@) == Some((seq![ParamSpec { kind: ParamKind::Bool, optional: false }], HandlerKind::Window(WindowMethod::SetFullscreen))));
        assert(api_manager.spec_lookup("window.set_focus"@) == Some((Seq::<ParamSpec>::empty(), HandlerKind::Window(WindowMethod::SetFocus))));
        assert(api_manager.spec_lookup("window.set_focusable"@) == Some((seq![ParamSpec { kind: ParamKind::Bool, optional: false }], HandlerKind::Window(WindowMethod::SetFocusable))));
    }
}

/// Registers the stacking and sizing-flag methods: each name looks up afterwards as its
/// handler with its declared parameters; no other name is touched.
#[verifier::rlimit(100)]
fn window_api_constraints(api_manager: &mut ApiManager)
    ensures
        final(api_manager).spec_lookup("window.set_closable"@) == Some(
            (seq![ParamSpec { kind: ParamKind::Bool, optional: false }], HandlerKind::Window(WindowMethod::SetClosable)),
        ),
        final(api_manager).spec_lookup("window.set_maximizable"@) == Some(
            (seq![ParamSpec { kind: ParamKind::Bool, optional: false }], HandlerKind::Window(WindowMethod::SetMaximizable)),
        ),
        final(api_manager).spec_lookup("window.set_minimizable"@) == Some(
            (seq![ParamSpec { kind: ParamKind::Bool, optional: false }], HandlerKind::Window(WindowMethod::SetMinimizable)),
        ),
        final(api_manager).spec_lookup("window.set_minimized"@) == Some(
            (seq![ParamSpec { kind: ParamKind::Bool, optional: false }], HandlerKind::Window(WindowMethod::SetMinimized)),
        ),
        final(api_manager).spec_lookup("window.set_always_on_bottom"@) == Some(
            (seq![ParamSpec { kind: ParamKind::Bool, optional: false }], HandlerKind::Window(WindowMethod::SetAlwaysOnBottom)),
        ),
        final(api_manager).spec_lookup("window.set_always_on_top"@) == Some(
            (seq![ParamSpec { kind: ParamKind::Bool, optional: false }], HandlerKind::Window(WindowMethod::SetAlwaysOnTop)),
        ),
        final(api_manager).spec_lookup("window.set_content_protection"@) == Some(
            (seq![ParamSpec { kind: ParamKind::Bool, optional: false }], HandlerKind::Window(WindowMethod::SetContentProtection)),
        ),
        forall|n: Seq<char>|
            !(n == "window.set_closable"@
                || n == "window.set_maximizable"@
                || n == "window.set_minimizable"@
                || n == "window.set_minimized"@
                || n == "window.set_always_on_bottom"@
                || n == "window.set_always_on_top"@
                || n == "window.set_content_protection"@) ==> final(api_manager).spec_lookup(n) == old(api_manager).spec_lookup(n),
{
    proof {
        reveal_strlit("window.set_closable");
        reveal_strlit("window.set_maximizable");
        reveal_strlit("window.set_minimizable");
        reveal_strlit("window.set_minimized");
        reveal_strlit("window.set_always_on_bottom");
        reveal_strlit("window.set_always_on_top");
        reveal_strlit("window.set_content_protection");
        assert("window.set_closable"@.len() == 19);
        assert("window.set_maximizable"@.len() == 22);
        assert("window.set_minimizable"@.len() == 22);
        assert("window.set_minimized"@.len() == 20);
        assert("window.set_always_on_bottom"@.len() == 27);
        assert("window.set_always_on_top"@.len() == 24);
        assert("window.set_content_protection"@.len() == 29);
        assert("window.set_maximizable"@ != "window.set_minimizable"@) by {
            assert("window.set_maximizable"@[12] != "window.set_minimizable"@[12]);
        }
    }
    api_manager.register_api(String::from_str("window.set_closable"), required(ParamKind::Bool), HandlerKind::Window(WindowMethod::SetClosable));
    api_manager.register_api(String::from_str("window.set_maximizable"), required(ParamKind::Bool), HandlerKind::Window(WindowMethod::SetMaximizable));
    proof {
        assert(api_manager.spec_lookup("window.set_closable"@) == Some((seq![ParamSpec { kind: ParamKind::Bool, optional: false }], HandlerKind::Window(WindowMethod::SetClosable))));
    }
    api_manager.register_api(String::from_str("window.set_minimizable"), required(ParamKind::Bool), HandlerKind::Window(WindowMethod::SetMinimizable));
    proof {
        assert(api_manager.spec_lookup("window.set_closable"@) == Some((seq![ParamSpec { kind: ParamKind::Bool, optional: false }], HandlerKind::Window(WindowMethod::SetClosable))));
        assert(api_manager.spec_lookup("window.set_maximizable"@) == Some((seq![ParamSpec { kind: ParamKind::Bool, optional: false }], HandlerKind::Window(WindowMethod::SetMaximizable))));
    }
    api_manager.register_api(String::from_str("window.set_minimized"), required(ParamKind::Bool), HandlerKind::Window(WindowMethod::SetMinimized));
    proof {
        assert(api_manager.spec_lookup("window.set_closable"@) == Some((seq![ParamSpec { kind: ParamKind::Bool, optional: false }], HandlerKind::Window(WindowMethod::SetClosable))));
        assert(api_manager.spec_lookup("window.set_maximizable"@) == Some((seq![ParamSpec { kind: ParamKind::Bool, optional: false }], HandlerKind::Window(WindowMethod::SetMaximizable))));
        assert(api_manager.spec_lookup("window.set_minimizable"@) == Some((seq![ParamSpec { kind: ParamKind::Bool, optional: false }], HandlerKind::Window(WindowMethod::SetMinimizable))));
    }
    api_manager.register_api(String::from_str("window.set_always_on_bottom"), required(ParamKind::Bool), HandlerKind::Window(WindowMethod::SetAlwaysOnBottom));
    proof {
        assert(api_manager.spec_lookup("window.set_closable"@) == Some((seq![ParamSpec { kind: ParamKind::Bool, optional: false }], HandlerKind::Window(WindowMethod::SetClosable))));
        assert(api_manager.spec_lookup("window.set_maximizable"@) == Some((seq![ParamSpec { kind: ParamKind::Bool, optional: false }], HandlerKind::Window(WindowMethod::SetMaximizable))));
        assert(api_manager.spec_lookup("window.set_minimizable"@) == Some((seq![ParamSpec { kind: ParamKind::Bool, optional: false }], HandlerKind::Window(WindowMethod::SetMinimizable))));
        assert(api_manager.spec_lookup("window.set_minimized"@) == Some((seq![ParamSpec { kind: ParamKind::Bool, optional: false }], HandlerKind::Window(WindowMethod::SetMinimized))));
    }
    api_manager.register_api(String::from_str("window.set_always_on_top"), required(ParamKind::Bool), HandlerKind::Window(WindowMethod::SetAlwaysOnTop));
    proof {
        assert(api_manager.spec_lookup("window.set_closable"@) == Some((seq![ParamSpec { kind: ParamKind::Bool, optional: false }], HandlerKind::Window(WindowMethod::SetClosable))));
        assert(api_manager.spec_lookup("window.set_maximizable"@) == Some((seq![ParamSpec { kind: ParamKind::Bool, optional: false }], HandlerKind::Window(WindowMethod::SetMaximizable))));
        assert(api_manager.spec_lookup("window.set_minimizable"@) == Some((seq![ParamSpec { kind: ParamKind::Bool, optional: false }], HandlerKind::Window(WindowMethod::SetMinimizable))));
        assert(api_manager.spec_lookup("window.set_minimized"@) == Some((seq![ParamSpec { kind: ParamKind::Bool, optional: false }], HandlerKind::Window(WindowMethod::SetMinimized))));
        assert(api_manager.spec_lookup("window.set_always_on_bottom"@) == Some((seq![ParamSpec { kind: ParamKind::Bool, optional: false }], HandlerKind::Window(WindowMethod::SetAlwaysOnBottom))));
    }
    api_manager.register_api(String::from_str("window.set_content_protection"), required(ParamKind::Bool), HandlerKind::Window(WindowMethod::SetContentProtection));
    proof {
        assert(api_manager.spec_lookup("window.set_closable"@) == Some((seq![ParamSpec { kind: ParamKind::Bool, optional: false }], HandlerKind::Window(WindowMethod::SetClosable))));
        assert(api_manager.spec_lookup("window.set_maximizable"@) == Some((seq![ParamSpec { kind: ParamKind::Bool, optional: false }], HandlerKind::Window(WindowMethod::SetMaximizable))));
        assert(api_manager.spec_lookup("window.set_minimizable"@) == Some((seq![ParamSpec { kind: ParamKind::Bool, optional: false }], HandlerKind::Window(WindowMethod::SetMinimizable))));
        assert(api_manager.spec_lookup("window.set_minimized"@) == Some((seq![ParamSpec { kind: ParamKind::Bool, optional: false }], HandlerKind::Window(WindowMethod::SetMinimized))));
        assert(api_manager.spec_lookup("window.set_always_on_bottom"@) == Some((seq![ParamSpec { kind: ParamKind::Bool, optional: false }], HandlerKind::Window(WindowMethod::SetAlwaysOnBottom))));
        assert(api_manager.spec_lookup("window.set_always_on_top"@) == Some((seq![ParamSpec { kind: ParamKind::Bool, optional: false }], HandlerKind::Window(WindowMethod::SetAlwaysOnTop))));
    }
}

/// Registers the appearance and platform methods: each name looks up afterwards as its
/// handler with its declared parameters; no other name is touched.
#[verifier::rlimit(100)]
fn window_api_appearance(api_manager: &mut ApiManager)
    ensures
        final(api_manager).spec_lookup("window.set_background_color"@) == Some(
            (seq![ParamSpec { kind: ParamKind::Any, optional: true }], HandlerKind::Window(WindowMethod::SetBackgroundColor)),
        ),
        final(api_manager).spec_lookup("window.set_theme"@) == Some(
            (seq![ParamSpec { kind: ParamKind::Str, optional: false }], HandlerKind::Window(WindowMethod::SetTheme)),
        ),
        final(api_manager).spec_lookup("window.set_progress_bar"@) == Some(
            (seq![ParamSpec { kind: ParamKind::Any, optional: false }], HandlerKind::Window(WindowMethod::SetProgressBar)),
        ),
        final(api_manager).spec_lookup("window.set_enable"@) == Some(
            (seq![ParamSpec { kind: ParamKind::Bool, optional: false }], HandlerKind::Window(WindowMethod::SetEnable)),
        ),
        final(api_manager).spec_lookup("window.set_rtl"@) == Some(
            (seq![ParamSpec { kind: ParamKind::Bool, optional: false }], HandlerKind::Window(WindowMethod::SetRtl)),
        ),
        final(api_manager).spec_lookup("window.set_undecorated_shadow"@) == Some(
            (seq![ParamSpec { kind: ParamKind::Bool, optional: false }], HandlerKind::Window(WindowMethod::SetUndecoratedShadow)),
        ),
        forall|n: Seq<char>|
            !(n == "window.set_background_color"@
                || n == "window.set_theme"@
                || n == "window.set_progress_bar"@
                || n == "window.set_enable"@
                || n == "window.set_rtl"@
                || n == "window.set_undecorated_shadow"@) ==> final(api_manager).spec_lookup(n) == old(api_manager).spec_lookup(n),
{
    proof {
        reveal_strlit("window.set_background_color");
        reveal_strlit("window.set_theme");
        reveal_strlit("window.set_progress_bar");
        reveal_strlit("window.set_enable");
        reveal_strlit("window.set_rtl");
        reveal_strlit("window.set_undecorated_shadow");
        assert("window.set_background_color"@.len() == 27);
        assert("window.set_theme"@.len() == 16);
        assert("window.set_progress_bar"@.len() == 23);
        assert("window.set_enable"@.len() == 17);
        assert("window.set_rtl"@.len() == 14);
        assert("window.set_undecorated_shadow"@.len() == 29);
    }
    api_manager.register_api(String::from_str("window.set_background_color"), optional(ParamKind::Any), HandlerKind::Window(WindowMethod::SetBackgroundColor));
    api_manager.register_api(String::from_str("window.set_theme"), required(ParamKind::Str), HandlerKind::Window(WindowMethod::SetTheme));
    proof {
        assert(api_manager.spec_lookup("window.set_background_color"@) == Some((seq![ParamSpec { kind: ParamKind::Any, optional: true }], HandlerKind::Window(WindowMethod::SetBackgroundColor))));
    }
    api_manager.register_api(String::from_str("window.set_progress_bar"), required(ParamKind::Any), HandlerKind::Window(WindowMethod::SetProgressBar));
    proof {
        assert(api_manager.spec_lookup("window.set_background_color"@) == Some((seq![ParamSpec { kind: ParamKind::Any, optional: true }], HandlerKind::Window(WindowMethod::SetBackgroundColor))));
        assert(api_manager.spec_lookup("window.set_theme"@) == Some((seq![ParamSpec { kind: ParamKind::Str, optional: false }], HandlerKind::Window(WindowMethod::SetTheme))));
    }
    api_manager.register_api(String::from_str("window.set_enable"), required(ParamKind::Bool), HandlerKind::Window(WindowMethod::SetEnable));
    proof {
        assert(api_manager.spec_lookup("window.set_background_color"@) == Some((seq![ParamSpec { kind: ParamKind::Any, optional: true }], HandlerKind::Window(WindowMethod::SetBackgroundColor))));
        assert(api_manager.spec_lookup("window.set_theme"@) == Some((seq![ParamSpec { kind: ParamKind::Str, optional: false }], HandlerKind::Window(WindowMethod::SetTheme))));
        assert(api_manager.spec_lookup("window.set_progress_bar"@) == Some((seq![ParamSpec { kind: ParamKind::Any, optional: false }], HandlerKind::Window(WindowMethod::SetProgressBar))));
    }
    api_manager.register_api(String::from_str("window.set_rtl"), required(ParamKind::Bool), HandlerKind::Window(WindowMethod::SetRtl));
    proof {
        assert(api_manager.spec_lookup("window.set_background_color"@) == Some((seq![ParamSpec { kind: ParamKind::Any, optional: true }], HandlerKind::Window(WindowMethod::SetBackgroundColor))));
        assert(api_manager.spec_lookup("window.set_theme"@) == Some((seq![ParamSpec { kind: ParamKind::Str, optional: false }], HandlerKind::Window(WindowMethod::SetTheme))));
        assert(api_manager.spec_lookup("window.set_progress_bar"@) == Some((seq![ParamSpec { kind: ParamKind::Any, optional: false }], HandlerKind::Window(WindowMethod::SetProgressBar))));
        assert(api_manager.spec_lookup("window.set_enable"@) == Some((seq![ParamSpec { kind: ParamKind::Bool, optional: false }], HandlerKind::Window(WindowMethod::SetEnable))));
    }
    api_manager.register_api(String::from_str("window.set_undecorated_shadow"), required(ParamKind::Bool), HandlerKind::Window(WindowMethod::SetUndecoratedShadow));
    proof {
        assert(api_manager.spec_lookup("window.set_background_color"@) == Some((seq![ParamSpec { kind: ParamKind::Any, optional: true }], HandlerKind::Window(WindowMethod::SetBackgroundColor))));
        assert(api_manager.spec_lookup("window.set_theme"@) == Some((seq![ParamSpec { kind: ParamKind::Str, optional: false }], HandlerKind::Window(WindowMethod::SetTheme))));
        assert(api_manager.spec_lookup("window.set_progress_bar"@) == Some((seq![ParamSpec { kind: ParamKind::Any, optional: false }], HandlerKind::Window(WindowMethod::SetProgressBar))));
        assert(api_manager.spec_lookup("window.set_enable"@) == Some((seq![ParamSpec { kind: ParamKind::Bool, optional: false }], HandlerKind::Window(WindowMethod::SetEnable))));
        assert(api_manager.spec_lookup("window.set_rtl"@) == Some((seq![ParamSpec { kind: ParamKind::Bool, optional: false }], HandlerKind::Window(WindowMethod::SetRtl))));
    }
}

/// Registers the title methods: each name looks up afterwards as its
/// handler with its declared parameters; no other name is touched.
#[verifier::rlimit(100)]
fn window_api_title(api_manager: &mut ApiManager)
    ensures
        final(api_manager).spec_lookup("window.get_title"@) == Some(
            (Seq::<ParamSpec>::empty(), HandlerKind::Window(WindowMethod::GetTitle)),
        ),
        final(api_manager).spec_lookup("window.set_title"@) == Some(
            (seq![ParamSpec { kind: ParamKind::Str, optional: false }], HandlerKind::Window(WindowMethod::SetTitle)),
        ),
        forall|n: Seq<char>|
            !(n == "window.get_title"@
                || n == "window.set_title"@) ==> final(api_manager).spec_lookup(n) == old(api_manager).spec_lookup(n),
{
    proof {
        reveal_strlit("window.get_title");
        reveal_strlit("window.set_title");
        assert("window.get_title"@.len() == 16);
        assert("window.set_title"@.len() == 16);
        assert("window.get_title"@ != "window.set_title"@) by {
            assert("window.get_title"@[7] != "window.set_title"@[7]);
        }
    }
    api_manager.register_api(String::from_str("window.get_title"), Vec::new(), HandlerKind::Window(WindowMethod::GetTitle));
    api_manager.register_api(String::from_str("window.set_title"), required(ParamKind::Str), HandlerKind::Window(WindowMethod::SetTitle));
    proof {
        assert(api_manager.spec_lookup("window.get_title"@) == Some((Seq::<ParamSpec>::empty(), HandlerKind::Window(WindowMethod::GetTitle))));
    }
}

/// Registers the window methods: each of the 34 names below looks up
/// afterwards as its handler with its declared parameters, and no
/// other name is touched.
#[verifier::rlimit(100)]
#[verifier::spinoff_prover]
// The literal length and disequality facts, and the re-assertions
// after each registration step, keep every lookup fact one rewriting
// step away from the last registration, so no proof walks a long
// chain of table states.
pub fn window_api(api_manager: &mut ApiManager)
    ensures
        final(api_manager).spec_lookup("window.set_cursor_grab"@) == Some(
            (seq![ParamSpec { kind: ParamKind::Bool, optional: false }], HandlerKind::Window(WindowMethod::SetCursorGrab)),
        ),
        final(api_manager).spec_lookup("window.set_cursor_icon"@) == Some(
            (seq![ParamSpec { kind: ParamKind::Str, optional: false }], HandlerKind::Window(WindowMethod::SetCursorIcon)),
        ),
        final(api_manager).spec_lookup("window.set_cursor_position"@) == Some(
            (seq![ParamSpec { kind: ParamKind::Any, optional: false }], HandlerKind::Window(WindowMethod::SetCursorPosition)),
        ),
        final(api_manager).spec_lookup("window.set_cursor_visible"@) == Some(
            (seq![ParamSpec { kind: ParamKind::Bool, optional: false }], HandlerKind::Window(WindowMethod::SetCursorVisible)),
        ),
        final(api_manager).spec_lookup("window.set_ignore_cursor_events"@) == Some(
            (seq![ParamSpec { kind: ParamKind::Bool, optional: false }], HandlerKind::Window(WindowMethod::SetIgnoreCursorEvents)),
        ),
        final(api_manager).spec_lookup("window.set_ime_position"@) == Some(
            (seq![ParamSpec { kind: ParamKind::Any, optional: false }], HandlerKind::Window(WindowMethod::SetImePosition)),
        ),
        final(api_manager).spec_lookup("window.set_inner_size"@) == Some(
            (seq![ParamSpec { kind: ParamKind::Any, optional: false }], HandlerKind::Window(WindowMethod::SetInnerSize)),
        ),
        final(api_manager).spec_lookup("window.set_max_inner_size"@) == Some(
            (seq![ParamSpec { kind: ParamKind::Any, optional: false }], HandlerKind::Window(WindowMethod::SetMaxInnerSize)),
        ),
        final(api_manager).spec_lookup("window.set_min_inner_size"@) == Some(
            (seq![ParamSpec { kind: ParamKind::Any, optional: false }], HandlerKind::Window(WindowMethod::SetMinInnerSize)),
        ),
        final(api_manager).spec_lookup("window.set_outer_position"@) == Some(
            (seq![ParamSpec { kind: ParamKind::Any, optional: false }], HandlerKind::Window(WindowMethod::SetOuterPosition)),
        ),
        final(api_manager).spec_lookup("window.inner_size"@) == Some(
            (Seq::<ParamSpec>::empty(), HandlerKind::Window(WindowMethod::InnerSize)),
        ),
        final(api_manager).spec_lookup("window.outer_size"@) == Some(
            (Seq::<ParamSpec>::empty(), HandlerKind::Window(WindowMethod::OuterSize)),
        ),
        final(api_manager).spec_lookup("window.outer_position"@) == Some(
            (Seq::<ParamSpec>::empty(), HandlerKind::Window(WindowMethod::OuterPosition)),
        ),
        final(api_manager).spec_lookup("window.set_visible"@) == Some(
            (seq![ParamSpec { kind: ParamKind::Bool, optional: false }], HandlerKind::Window(WindowMethod::SetVisible)),
        ),
        final(api_manager).spec_lookup("window.set_visible_on_all_workspaces"@) == Some(
            (seq![ParamSpec { kind: ParamKind::Bool, optional: false }], HandlerKind::Window(WindowMethod::SetVisibleOnAllWorkspaces)),
        ),
        final(api_manager).spec_lookup("window.set_fullscreen"@) == Some(
            (seq![ParamSpec { kind: ParamKind::Bool, optional: false }], HandlerKind::Window(WindowMethod::SetFullscreen)),
        ),
        final(api_manager).spec_lookup("window.set_focus"@) == Some(
            (Seq::<ParamSpec>::empty(), HandlerKind::Window(WindowMethod::SetFocus)),
        ),
        final(api_manager).spec_lookup("window.set_focusable"@) == Some(
            (seq![ParamSpec { kind: ParamKind::Bool, optional: false }], HandlerKind::Window(WindowMethod::SetFocusable)),
        ),
        final(api_manager).spec_lookup("window.set_decorations"@) == Some(
            (seq![ParamSpec { kind: ParamKind::Bool, optional: false }], HandlerKind::Window(WindowMethod::SetDecorations)),
        ),
        final(api_manager).spec_lookup("window.set_closable"@) == Some(
            (seq![ParamSpec { kind: ParamKind::Bool, optional: false }], HandlerKind::Window(WindowMethod::SetClosable)),
        ),
        final(api_manager).spec_lookup("window.set_maximizable"@) == Some(
            (seq![ParamSpec { kind: ParamKind::Bool, optional: false }], HandlerKind::Window(WindowMethod::SetMaximizable)),
        ),
        final(api_manager).spec_lookup("window.set_minimizable"@) == Some(
            (seq![ParamSpec { kind: ParamKind::Bool, optional: false }], HandlerKind::Window(WindowMethod::SetMinimizable)),
        ),
        final(api_manager).spec_lookup("window.set_minimized"@) == Some(
            (seq![ParamSpec { kind: ParamKind::Bool, optional: false }], HandlerKind::Window(WindowMethod::SetMinimized)),
        ),
        final(api_manager).spec_lookup("window.set_always_on_bottom"@) == Some(
            (seq![ParamSpec { kind: ParamKind::Bool, optional: false }], HandlerKind::Window(WindowMethod::SetAlwaysOnBottom)),
        ),
        final(api_manager).spec_lookup("window.set_always_on_top"@) == Some(
            (seq![ParamSpec { kind: ParamKind::Bool, optional: false }], HandlerKind::Window(WindowMethod::SetAlwaysOnTop)),
        ),
        final(api_manager).spec_lookup("window.set_content_protection"@) == Some(
            (seq![ParamSpec { kind: ParamKind::Bool, optional: false }], HandlerKind::Window(WindowMethod::SetContentProtection)),
        ),
        final(api_manager).spec_lookup("window.set_background_color"@) == Some(
            (seq![ParamSpec { kind: ParamKind::Any, optional: true }], HandlerKind::Window(WindowMethod::SetBackgroundColor)),
        ),
        final(api_manager).spec_lookup("window.set_theme"@) == Some(
            (seq![ParamSpec { kind: ParamKind::Str, optional: false }], HandlerKind::Window(WindowMethod::SetTheme)),
        ),
        final(api_manager).spec_lookup("window.set_progress_bar"@) == Some(
            (seq![ParamSpec { kind: ParamKind::Any, optional: false }], HandlerKind::Window(WindowMethod::SetProgressBar)),
        ),
        final(api_manager).spec_lookup("window.set_enable"@) == Some(
            (seq![ParamSpec { kind: ParamKind::Bool, optional: false }], HandlerKind::Window(WindowMethod::SetEnable)),
        ),
        final(api_manager).spec_lookup("window.set_rtl"@) == Some(
            (seq![ParamSpec { kind: ParamKind::Bool, optional: false }], HandlerKind::Window(WindowMethod::SetRtl)),
        ),
        final(api_manager).spec_lookup("window.set_undecorated_shadow"@) == Some(
            (seq![ParamSpec { kind: ParamKind::Bool, optional: false }], HandlerKind::Window(WindowMethod::SetUndecoratedShadow)),
        ),
        final(api_manager).spec_lookup("window.get_title"@) == Some(
            (Seq::<ParamSpec>::empty(), HandlerKind::Window(WindowMethod::GetTitle)),
        ),
        final(api_manager).spec_lookup("window.set_title"@) == Some(
            (seq![ParamSpec { kind: ParamKind::Str, optional: false }], HandlerKind::Window(WindowMethod::SetTitle)),
        ),
        forall|n: Seq<char>|
            !(n == "window.set_cursor_grab"@
                || n == "window.set_cursor_icon"@
                || n == "window.set_cursor_position"@
                || n == "window.set_cursor_visible"@
                || n == "window.set_ignore_cursor_events"@
                || n == "window.set_ime_position"@
                || n == "window.set_inner_size"@
                || n == "window.set_max_inner_size"@
                || n == "window.set_min_inner_size"@
                || n == "window.set_outer_position"@
                || n == "window.inner_size"@
                || n == "window.outer_size"@
                || n == "window.outer_position"@
                || n == "window.set_visible"@
                || n == "window.set_visible_on_all_workspaces"@
                || n == "window.set_fullscreen"@
                || n == "window.set_focus"@
                || n == "window.set_focusable"@
                || n == "window.set_decorations"@
                || n == "window.set_closable"@
                || n == "window.set_maximizable"@
                || n == "window.set_minimizable"@
                || n == "window.set_minimized"@
                || n == "window.set_always_on_bottom"@
                || n == "window.set_always_on_top"@
                || n == "window.set_content_protection"@
                || n == "window.set_background_color"@
                || n == "window.set_theme"@
                || n == "window.set_progress_bar"@
                || n == "window.set_enable"@
                || n == "window.set_rtl"@
                || n == "window.set_undecorated_shadow"@
                || n == "window.get_title"@
                || n == "window.set_title"@) ==> final(api_manager).spec_lookup(n) == old(api_manager).spec_lookup(n),
{
    proof {
        reveal_strlit("window.set_cursor_grab");
        reveal_strlit("window.set_cursor_icon");
        reveal_strlit("window.set_cursor_position");
        reveal_strlit("window.set_cursor_visible");
        reveal_strlit("window.set_ignore_cursor_events");
        reveal_strlit("window.set_ime_position");
        reveal_strlit("window.set_inner_size");
        reveal_strlit("window.set_max_inner_size");
        reveal_strlit("window.set_min_inner_size");
        reveal_strlit("window.set_outer_position");
        reveal_strlit("window.inner_size");
        reveal_strlit("window.outer_size");
        reveal_strlit("window.outer_position");
        reveal_strlit("window.set_visible");
        reveal_strlit("window.set_visible_on_all_workspaces");
        reveal_strlit("window.set_fullscreen");
        reveal_strlit("window.set_focus");
        reveal_strlit("window.set_focusable");
        reveal_strlit("window.set_decorations");
        reveal_strlit("window.set_closable");
        reveal_strlit("window.set_maximizable");
        reveal_strlit("window.set_minimizable");
        reveal_strlit("window.set_minimized");
        reveal_strlit("window.set_always_on_bottom");
        reveal_strlit("window.set_always_on_top");
        reveal_strlit("window.set_content_protection");
        reveal_strlit("window.set_background_color");
        reveal_strlit("window.set_theme");
        reveal_strlit("window.set_progress_bar");
        reveal_strlit("window.set_enable");
        reveal_strlit("window.set_rtl");
        reveal_strlit("window.set_undecorated_shadow");
        reveal_strlit("window.get_title");
        reveal_strlit("window.set_title");
        assert("window.set_cursor_grab"@.len() == 22);
        assert("window.set_cursor_icon"@.len() == 22);
        assert("window.set_cursor_position"@.len() == 26);
        assert("window.set_cursor_visible"@.len() == 25);
        assert("window.set_ignore_cursor_events"@.len() == 31);
        assert("window.set_ime_position"@.len() == 23);
        assert("window.set_inner_size"@.len() == 21);
        assert("window.set_max_inner_size"@.len() == 25);
        assert("window.set_min_inner_size"@.len() == 25);
        assert("window.set_outer_position"@.len() == 25);
        assert("window.inner_size"@.len() == 17);
        assert("window.outer_size"@.len() == 17);
        assert("window.outer_position"@.len() == 21);
        assert("window.set_visible"@.len() == 18);
        assert("window.set_visible_on_all_workspaces"@.len() == 36);
        assert("window.set_fullscreen"@.len() == 21);
        assert("window.set_focus"@.len() == 16);
        assert("window.set_focusable"@.len() == 20);
        assert("window.set_decorations"@.len() == 22);
        assert("window.set_closable"@.len() == 19);
        assert("window.set_maximizable"@.len() == 22);
        assert("window.set_minimizable"@.len() == 22);
        assert("window.set_minimized"@.len() == 20);
        assert("window.set_always_on_bottom"@.len() == 27);
        assert("window.set_always_on_top"@.len() == 24);
        assert("window.set_content_protection"@.len() == 29);
        assert("window.set_background_color"@.len() == 27);
        assert("window.set_theme"@.len() == 16);
        assert("window.set_progress_bar"@.len() == 23);
        assert("window.set_enable"@.len() == 17);
        assert("window.set_rtl"@.len() == 14);
        assert("window.set_undecorated_shadow"@.len() == 29);
        assert("window.get_title"@.len() == 16);
        assert("window.set_title"@.len() == 16);
        assert("window.set_cursor_grab"@ != "window.set_cursor_icon"@) by {
            assert("window.set_cursor_grab"@[18] != "window.set_cursor_icon"@[18]);
        }
        assert("window.set_cursor_grab"@ != "window.set_decorations"@) by {
            assert("window.set_cursor_grab"@[11] != "window.set_decorations"@[11]);
        }
        assert("window.set_cursor_grab"@ != "window.set_maximizable"@) by {
            assert("window.set_cursor_grab"@[11] != "window.set_maximizable"@[11]);
        }
        assert("window.set_cursor_grab"@ != "window.set_minimizable"@) by {
            assert("window.set_cursor_grab"@[11] != "window.set_minimizable"@[11]);
        }
        assert("window.set_cursor_icon"@ != "window.set_decorations"@) by {
            assert("window.set_cursor_icon"@[11] != "window.set_decorations"@[11]);
        }
        assert("window.set_cursor_icon"@ != "window.set_maximizable"@) by {
            assert("window.set_cursor_icon"@[11] != "window.set_maximizable"@[11]);
        }
        assert("window.set_cursor_icon"@ != "window.set_minimizable"@) by {
            assert("window.set_cursor_icon"@[11] != "window.set_minimizable"@[11]);
        }
        assert("window.set_cursor_visible"@ != "window.set_max_inner_size"@) by {
            assert("window.set_cursor_visible"@[11] != "window.set_max_inner_size"@[11]);
        }
        assert("window.set_cursor_visible"@ != "window.set_min_inner_size"@) by {
            assert("window.set_cursor_visible"@[11] != "window.set_min_inner_size"@[11]);
        }
        assert("window.set_cursor_visible"@ != "window.set_outer_position"@) by {
            assert("window.set_cursor_visible"@[11] != "window.set_outer_position"@[11]);
        }
        assert("window.set_ime_position"@ != "window.set_progress_bar"@) by {
            assert("window.set_ime_position"@[11] != "window.set_progress_bar"@[11]);
        }
        assert("window.set_inner_size"@ != "window.outer_position"@) by {
            assert("window.set_inner_size"@[7] != "window.outer_position"@[7]);
        }
        assert("window.set_inner_size"@ != "window.set_fullscreen"@) by {
            assert("window.set_inner_size"@[11] != "window.set_fullscreen"@[11]);
        }
        assert("window.set_max_inner_size"@ != "window.set_min_inner_size"@) by {
            assert("window.set_max_inner_size"@[12] != "window.set_min_inner_size"@[12]);
        }
        assert("window.set_max_inner_size"@ != "window.set_outer_position"@) by {
            assert("window.set_max_inner_size"@[11] != "window.set_outer_position"@[11]);
        }
        assert("window.set_min_inner_size"@ != "window.set_outer_position"@) by {
            assert("window.set_min_inner_size"@[11] != "window.set_outer_position"@[11]);
        }
        assert("window.inner_size"@ != "window.outer_size"@) by {
            assert("window.inner_size"@[7] != "window.outer_size"@[7]);
        }
        assert("window.inner_size"@ != "window.set_enable"@) by {
            assert("window.inner_size"@[7] != "window.set_enable"@[7]);
        }
        assert("window.outer_size"@ != "window.set_enable"@) by {
            assert("window.outer_size"@[7] != "window.set_enable"@[7]);
        }
        assert("window.outer_position"@ != "window.set_fullscreen"@) by {
            assert("window.outer_position"@[7] != "window.set_fullscreen"@[7]);
        }
        assert("window.set_focus"@ != "window.set_theme"@) by {
            assert("window.set_focus"@[11] != "window.set_theme"@[11]);
        }
        assert("window.set_focus"@ != "window.get_title"@) by {
            assert("window.set_focus"@[7] != "window.get_title"@[7]);
        }
        assert("window.set_focus"@ != "window.set_title"@) by {
            assert("window.set_focus"@[11] != "window.set_title"@[11]);
        }
        assert("window.set_focusable"@ != "window.set_minimized"@) by {
            assert("window.set_focusable"@[11] != "window.set_minimized"@[11]);
        }
        assert("window.set_decorations"@ != "window.set_maximizable"@) by {
            assert("window.set_decorations"@[11] != "window.set_maximizable"@[11]);
        }
        assert("window.set_decorations"@ != "window.set_minimizable"@) by {
            assert("window.set_decorations"@[11] != "window.set_minimizable"@[11]);
        }
        assert("window.set_maximizable"@ != "window.set_minimizable"@) by {
            assert("window.set_maximizable"@[12] != "window.set_minimizable"@[12]);
        }
        assert("window.set_always_on_bottom"@ != "window.set_background_color"@) by {
            assert("window.set_always_on_bottom"@[11] != "window.set_background_color"@[11]);
        }
        assert("window.set_content_protection"@ != "window.set_undecorated_shadow"@) by {
            assert("window.set_content_protection"@[11] != "window.set_undecorated_shadow"@[11]);
        }
        assert("window.set_theme"@ != "window.get_title"@) by {
            assert("window.set_theme"@[7] != "window.get_title"@[7]);
        }
        assert("window.set_theme"@ != "window.set_title"@) by {
            assert("window.set_theme"@[12] != "window.set_title"@[12]);
        }
        assert("window.get_title"@ != "window.set_title"@) by {
            assert("window.get_title"@[7] != "window.set_title"@[7]);
        }
    }
    window_api_cursor(api_manager);
    window_api_geometry(api_manager);
    proof {
        assert(api_manager.spec_lookup("window.set_cursor_grab"@) == Some((seq![ParamSpec { kind: ParamKind::Bool, optional: false }], HandlerKind::Window(WindowMethod::SetCursorGrab))));
        assert(api_manager.spec_lookup("window.set_cursor_icon"@) == Some((seq![ParamSpec { kind: ParamKind::Str, optional: false }], HandlerKind::Window(WindowMethod::SetCursorIcon))));
        assert(api_manager.spec_lookup("window.set_cursor_position"@) == Some((seq![ParamSpec { kind: ParamKind::Any, optional: false }], HandlerKind::Window(WindowMethod::SetCursorPosition))));
        assert(api_manager.spec_lookup("window.set_cursor_visible"@) == Some((seq![ParamSpec { kind: ParamKind::Bool, optional: false }], HandlerKind::Window(WindowMethod::SetCursorVisible))));
        assert(api_manager.spec_lookup("window.set_ignore_cursor_events"@) == Some((seq![ParamSpec { kind: ParamKind::Bool, optional: false }], HandlerKind::Window(WindowMethod::SetIgnoreCursorEvents))));
        assert(api_manager.spec_lookup("window.set_ime_position"@) == Some((seq![ParamSpec { kind: ParamKind::Any, optional: false }], HandlerKind::Window(WindowMethod::SetImePosition))));
    }
    window_api_visibility(api_manager);
    proof {
        assert(api_manager.spec_lookup("window.set_cursor_grab"@) == Some((seq![ParamSpec { kind: ParamKind::Bool, optional: false }], HandlerKind::Window(WindowMethod::SetCursorGrab))));
        assert(api_manager.spec_lookup("window.set_cursor_icon"@) == Some((seq![ParamSpec { kind: ParamKind::Str, optional: false }], HandlerKind::Window(WindowMethod::SetCursorIcon))));
        assert(api_manager.spec_lookup("window.set_cursor_position"@) == Some((seq![ParamSpec { kind: ParamKind::Any, optional: false }], HandlerKind::Window(WindowMethod::SetCursorPosition))));
        assert(api_manager.spec_lookup("window.set_cursor_visible"@) == Some((seq![ParamSpec { kind: ParamKind::Bool, optional: false }], HandlerKind::Window(WindowMethod::SetCursorVisible))));
        assert(api_manager.spec_lookup("window.set_ignore_cursor_events"@) == Some((seq![ParamSpec { kind: ParamKind::Bool, optional: false }], HandlerKind::Window(WindowMethod::SetIgnoreCursorEvents))));
        assert(api_manager.spec_lookup("window.set_ime_position"@) == Some((seq![ParamSpec { kind: ParamKind::Any, optional: false }], HandlerKind::Window(WindowMethod::SetImePosition))));
        assert(api_manager.spec_lookup("window.set_inner_size"@) == Some((seq![ParamSpec { kind: ParamKind::Any, optional: false }], HandlerKind::Window(WindowMethod::SetInnerSize))));
        assert(api_manager.spec_lookup("window.set_max_inner_size"@) == Some((seq![ParamSpec { kind: ParamKind::Any, optional: false }], HandlerKind::Window(WindowMethod::SetMaxInnerSize))));
        assert(api_manager.spec_lookup("window.set_min_inner_size"@) == Some((seq![ParamSpec { kind: ParamKind::Any, optional: false }], HandlerKind::Window(WindowMethod::SetMinInnerSize))));
        assert(api_manager.spec_lookup("window.set_outer_position"@) == Some((seq![ParamSpec { kind: ParamKind::Any, optional: false }], HandlerKind::Window(WindowMethod::SetOuterPosition))));
        assert(api_manager.spec_lookup("window.inner_size"@) == Some((Seq::<ParamSpec>::empty(), HandlerKind::Window(WindowMethod::InnerSize))));
        assert(api_manager.spec_lookup("window.outer_size"@) == Some((Seq::<ParamSpec>::empty(), HandlerKind::Window(WindowMethod::OuterSize))));
        assert(api_manager.spec_lookup("window.outer_position"@) == Some((Seq::<ParamSpec>::empty(), HandlerKind::Window(WindowMethod::OuterPosition))));
    }
    window_api_constraints(api_manager);
    proof {
        assert(api_manager.spec_lookup("window.set_cursor_grab"@) == Some((seq![ParamSpec { kind: ParamKind::Bool, optional: false }], HandlerKind::Window(WindowMethod::SetCursorGrab))));
        assert(api_manager.spec_lookup("window.set_cursor_icon"@) == Some((seq![ParamSpec { kind: ParamKind::Str, optional: false }], HandlerKind::Window(WindowMethod::SetCursorIcon))));
        assert(api_manager.spec_lookup("window.set_cursor_position"@) == Some((seq![ParamSpec { kind: ParamKind::Any, optional: false }], HandlerKind::Window(WindowMethod::SetCursorPosition))));
        assert(api_manager.spec_lookup("window.set_cursor_visible"@) == Some((seq![ParamSpec { kind: ParamKind::Bool, optional: false }], HandlerKind::Window(WindowMethod::SetCursorVisible))));
        assert(api_manager.spec_lookup("window.set_ignore_cursor_events"@) == Some((seq![ParamSpec { kind: ParamKind::Bool, optional: false }], HandlerKind::Window(WindowMethod::SetIgnoreCursorEvents))));
        assert(api_manager.spec_lookup("window.set_ime_position"@) == Some((seq![ParamSpec { kind: ParamKind::Any, optional: false }], HandlerKind::Window(WindowMethod::SetImePosition))));
        assert(api_manager.spec_lookup("window.set_inner_size"@) == Some((seq![ParamSpec { kind: ParamKind::Any, optional: false }], HandlerKind::Window(WindowMethod::SetInnerSize))));
        assert(api_manager.spec_lookup("window.set_max_inner_size"@) == Some((seq![ParamSpec { kind: ParamKind::Any, optional: false }], HandlerKind::Window(WindowMethod::SetMaxInnerSize))));
        assert(api_manager.spec_lookup("window.set_min_inner_size"@) == Some((seq![ParamSpec { kind: ParamKind::Any, optional: false }], HandlerKind::Window(WindowMethod::SetMinInnerSize))));
        assert(api_manager.spec_lookup("window.set_outer_position"@) == Some((seq![ParamSpec { kind: ParamKind::Any, optional: false }], HandlerKind::Window(WindowMethod::SetOuterPosition))));
        assert(api_manager.spec_lookup("window.inner_size"@) == Some((Seq::<ParamSpec>::empty(), HandlerKind::Window(WindowMethod::InnerSize))));
        assert(api_manager.spec_lookup("window.outer_size"@) == Some((Seq::<ParamSpec>::empty(), HandlerKind::Window(WindowMethod::OuterSize))));
        assert(api_manager.spec_lookup("window.outer_position"@) == Some((Seq::<ParamSpec>::empty(), HandlerKind::Window(WindowMethod::OuterPosition))));
        assert(api_manager.spec_lookup("window.set_visible"@) == Some((seq![ParamSpec { kind: ParamKind::Bool, optional: false }], HandlerKind::Window(WindowMethod::SetVisible))));
        assert(api_manager.spec_lookup("window.set_visible_on_all_workspaces"@) == Some((seq![ParamSpec { kind: ParamKind::Bool, optional: false }], HandlerKind::Window(WindowMethod::SetVisibleOnAllWorkspaces))));
        assert(api_manager.spec_lookup("window.set_fullscreen"@) == Some((seq![ParamSpec { kind: ParamKind::Bool, optional: false }], HandlerKind::Window(WindowMethod::SetFullscreen))));
        assert(api_manager.spec_lookup("window.set_focus"@) == Some((Seq::<ParamSpec>::empty(), HandlerKind::Window(WindowMethod::SetFocus))));
        assert(api_manager.spec_lookup("window.set_focusable"@) == Some((seq![ParamSpec { kind: ParamKind::Bool, optional: false }], HandlerKind::Window(WindowMethod::SetFocusable))));
        assert(api_manager.spec_lookup("window.set_decorations"@) == Some((seq![ParamSpec { kind: ParamKind::Bool, optional: false }], HandlerKind::Window(WindowMethod::SetDecorations))));
    }
    window_api_appearance(api_manager);
    proof {
        assert(api_manager.spec_lookup("window.set_cursor_grab"@) == Some((seq![ParamSpec { kind: ParamKind::Bool, optional: false }], HandlerKind::Window(WindowMethod::SetCursorGrab))));
        assert(api_manager.spec_lookup("window.set_cursor_icon"@) == Some((seq![ParamSpec { kind: ParamKind::Str, optional: false }], HandlerKind::Window(WindowMethod::SetCursorIcon))));
        assert(api_manager.spec_lookup("window.set_cursor_position"@) == Some((seq![ParamSpec { kind: ParamKind::Any, optional: false }], HandlerKind::Window(WindowMethod::SetCursorPosition))));
        assert(api_manager.spec_lookup("window.set_cursor_visible"@) == Some((seq![ParamSpec { kind: ParamKind::Bool, optional: false }], HandlerKind::Window(WindowMethod::SetCursorVisible))));
        assert(api_manager.spec_lookup("window.set_ignore_cursor_events"@) == Some((seq![ParamSpec { kind: ParamKind::Bool, optional: false }], HandlerKind::Window(WindowMethod::SetIgnoreCursorEvents))));
        assert(api_manager.spec_lookup("window.set_ime_position"@) == Some((seq![ParamSpec { kind: ParamKind::Any, optional: false }], HandlerKind::Window(WindowMethod::SetImePosition))));
        assert(api_manager.spec_lookup("window.set_inner_size"@) == Some((seq![ParamSpec { kind: ParamKind::Any, optional: false }], HandlerKind::Window(WindowMethod::SetInnerSize))));
        assert(api_manager.spec_lookup("window.set_max_inner_size"@) == Some((seq![ParamSpec { kind: ParamKind::Any, optional: false }], HandlerKind::Window(WindowMethod::SetMaxInnerSize))));
        assert(api_manager.spec_lookup("window.set_min_inner_size"@) == Some((seq![ParamSpec { kind: ParamKind::Any, optional: false }], HandlerKind::Window(WindowMethod::SetMinInnerSize))));
        assert(api_manager.spec_lookup("window.set_outer_position"@) == Some((seq![ParamSpec { kind: ParamKind::Any, optional: false }], HandlerKind::Window(WindowMethod::SetOuterPosition))));
        assert(api_manager.spec_lookup("window.inner_size"@) == Some((Seq::<ParamSpec>::empty(), HandlerKind::Window(WindowMethod::InnerSize))));
        assert(api_manager.spec_lookup("window.outer_size"@) == Some((Seq::<ParamSpec>::empty(), HandlerKind::Window(WindowMethod::OuterSize))));
        assert(api_manager.spec_lookup("window.outer_position"@) == Some((Seq::<ParamSpec>::empty(), HandlerKind::Window(WindowMethod::OuterPosition))));
        assert(api_manager.spec_lookup("window.set_visible"@) == Some((seq![ParamSpec { kind: ParamKind::Bool, optional: false }], HandlerKind::Window(WindowMethod::SetVisible))));
        assert(api_manager.spec_lookup("window.set_visible_on_all_workspaces"@) == Some((seq![ParamSpec { kind: ParamKind::Bool, optional: false }], HandlerKind::Window(WindowMethod::SetVisibleOnAllWorkspaces))));
        assert(api_manager.spec_lookup("window.set_fullscreen"@) == Some((seq![ParamSpec { kind: ParamKind::Bool, optional: false }], HandlerKind::Window(WindowMethod::SetFullscreen))));
        assert(api_manager.spec_lookup("window.set_focus"@) == Some((Seq::<ParamSpec>::empty(), HandlerKind::Window(WindowMethod::SetFocus))));
        assert(api_manager.spec_lookup("window.set_focusable"@) == Some((seq![ParamSpec { kind: ParamKind::Bool, optional: false }], HandlerKind::Window(WindowMethod::SetFocusable))));
        assert(api_manager.spec_lookup("window.set_decorations"@) == Some((seq![ParamSpec { kind: ParamKind::Bool, optional: false }], HandlerKind::Window(WindowMethod::SetDecorations))));
        assert(api_manager.spec_lookup("window.set_closable"@) == Some((seq![ParamSpec { kind: ParamKind::Bool, optional: false }], HandlerKind::Window(WindowMethod::SetClosable))));
        assert(api_manager.spec_lookup("window.set_maximizable"@) == Some((seq![ParamSpec { kind: ParamKind::Bool, optional: false }], HandlerKind::Window(WindowMethod::SetMaximizable))));
        assert(api_manager.spec_lookup("window.set_minimizable"@) == Some((seq![ParamSpec { kind: ParamKind::Bool, optional: false }], HandlerKind::Window(WindowMethod::SetMinimizable))));
        assert(api_manager.spec_lookup("window.set_minimized"@) == Some((seq![ParamSpec { kind: ParamKind::Bool, optional: false }], HandlerKind::Window(WindowMethod::SetMinimized))));
        assert(api_manager.spec_lookup("window.set_always_on_bottom"@) == Some((seq![ParamSpec { kind: ParamKind::Bool, optional: false }], HandlerKind::Window(WindowMethod::SetAlwaysOnBottom))));
        assert(api_manager.spec_lookup("window.set_always_on_top"@) == Some((seq![ParamSpec { kind: ParamKind::Bool, optional: false }], HandlerKind::Window(WindowMethod::SetAlwaysOnTop))));
        assert(api_manager.spec_lookup("window.set_content_protection"@) == Some((seq![ParamSpec { kind: ParamKind::Bool, optional: false }], HandlerKind::Window(WindowMethod::SetContentProtection))));
    }
    window_api_title(api_manager);
    proof {
        assert(api_manager.spec_lookup("window.set_cursor_grab"@) == Some((seq![ParamSpec { kind: ParamKind::Bool, optional: false }], HandlerKind::Window(WindowMethod::SetCursorGrab))));
        assert(api_manager.spec_lookup("window.set_cursor_icon"@) == Some((seq![ParamSpec { kind: ParamKind::Str, optional: false }], HandlerKind::Window(WindowMethod::SetCursorIcon))));
        assert(api_manager.spec_lookup("window.set_cursor_position"@) == Some((seq![ParamSpec { kind: ParamKind::Any, optional: false }], HandlerKind::Window(WindowMethod::SetCursorPosition))));
        assert(api_manager.spec_lookup("window.set_cursor_visible"@) == Some((seq![ParamSpec { kind: ParamKind::Bool, optional: false }], HandlerKind::Window(WindowMethod::SetCursorVisible))));
        assert(api_manager.spec_lookup("window.set_ignore_cursor_events"@) == Some((seq![ParamSpec { kind: ParamKind::Bool, optional: false }], HandlerKind::Window(WindowMethod::SetIgnoreCursorEvents))));
        assert(api_manager.spec_lookup("window.set_ime_position"@) == Some((seq![ParamSpec { kind: ParamKind::Any, optional: false }], HandlerKind::Window(WindowMethod::SetImePosition))));
        assert(api_manager.spec_lookup("window.set_inner_size"@) == Some((seq![ParamSpec { kind: ParamKind::Any, optional: false }], HandlerKind::Window(WindowMethod::SetInnerSize))));
        assert(api_manager.spec_lookup("window.set_max_inner_size"@) == Some((seq![ParamSpec { kind: ParamKind::Any, optional: false }], HandlerKind::Window(WindowMethod::SetMaxInnerSize))));
        assert(api_manager.spec_lookup("window.set_min_inner_size"@) == Some((seq![ParamSpec { kind: ParamKind::Any, optional: false }], HandlerKind::Window(WindowMethod::SetMinInnerSize))));
        assert(api_manager.spec_lookup("window.set_outer_position"@) == Some((seq![ParamSpec { kind: ParamKind::Any, optional: false }], HandlerKind::Window(WindowMethod::SetOuterPosition))));
        assert(api_manager.spec_lookup("window.inner_size"@) == Some((Seq::<ParamSpec>::empty(), HandlerKind::Window(WindowMethod::InnerSize))));
        assert(api_manager.spec_lookup("window.outer_size"@) == Some((Seq::<ParamSpec>::empty(), HandlerKind::Window(WindowMethod::OuterSize))));
        assert(api_manager.spec_lookup("window.outer_position"@) == Some((Seq::<ParamSpec>::empty(), HandlerKind::Window(WindowMethod::OuterPosition))));
        assert(api_manager.spec_lookup("window.set_visible"@) == Some((seq![ParamSpec { kind: ParamKind::Bool, optional: false }], HandlerKind::Window(WindowMethod::SetVisible))));
        assert(api_manager.spec_lookup("window.set_visible_on_all_workspaces"@) == Some((seq![ParamSpec { kind: ParamKind::Bool, optional: false }], HandlerKind::Window(WindowMethod::SetVisibleOnAllWorkspaces))));
        assert(api_manager.spec_lookup("window.set_fullscreen"@) == Some((seq![ParamSpec { kind: ParamKind::Bool, optional: false }], HandlerKind::Window(WindowMethod::SetFullscreen))));
        assert(api_manager.spec_lookup("window.set_focus"@) == Some((Seq::<ParamSpec>::empty(), HandlerKind::Window(WindowMethod::SetFocus))));
        assert(api_manager.spec_lookup("window.set_focusable"@) == Some((seq![ParamSpec { kind: ParamKind::Bool, optional: false }], HandlerKind::Window(WindowMethod::SetFocusable))));
        assert(api_manager.spec_lookup("window.set_decorations"@) == Some((seq![ParamSpec { kind: ParamKind::Bool, optional: false }], HandlerKind::Window(WindowMethod::SetDecorations))));
        assert(api_manager.spec_lookup("window.set_closable"@) == Some((seq![ParamSpec { kind: ParamKind::Bool, optional: false }], HandlerKind::Window(WindowMethod::SetClosable))));
        assert(api_manager.spec_lookup("window.set_maximizable"@) == Some((seq![ParamSpec { kind: ParamKind::Bool, optional: false }], HandlerKind::Window(WindowMethod::SetMaximizable))));
        assert(api_manager.spec_lookup("window.set_minimizable"@) == Some((seq![ParamSpec { kind: ParamKind::Bool, optional: false }], HandlerKind::Window(WindowMethod::SetMinimizable))));
        assert(api_manager.spec_lookup("window.set_minimized"@) == Some((seq![ParamSpec { kind: ParamKind::Bool, optional: false }], HandlerKind::Window(WindowMethod::SetMinimized))));
        assert(api_manager.spec_lookup("window.set_always_on_bottom"@) == Some((seq![ParamSpec { kind: ParamKind::Bool, optional: false }], HandlerKind::Window(WindowMethod::SetAlwaysOnBottom))));
        assert(api_manager.spec_lookup("window.set_always_on_top"@) == Some((seq![ParamSpec { kind: ParamKind::Bool, optional: false }], HandlerKind::Window(WindowMethod::SetAlwaysOnTop))));
        assert(api_manager.spec_lookup("window.set_content_protection"@) == Some((seq![ParamSpec { kind: ParamKind::Bool, optional: false }], HandlerKind::Window(WindowMethod::SetContentProtection))));
        assert(api_manager.spec_lookup("window.set_background_color"@) == Some((seq![ParamSpec { kind: ParamKind::Any, optional: true }], HandlerKind::Window(WindowMethod::SetBackgroundColor))));
        assert(api_manager.spec_lookup("window.set_theme"@) == Some((seq![ParamSpec { kind: ParamKind::Str, optional: false }], HandlerKind::Window(WindowMethod::SetTheme))));
        assert(api_manager.spec_lookup("window.set_progress_bar"@) == Some((seq![ParamSpec { kind: ParamKind::Any, optional: false }], HandlerKind::Window(WindowMethod::SetProgressBar))));
        assert(api_manager.spec_lookup("window.set_enable"@) == Some((seq![ParamSpec { kind: ParamKind::Bool, optional: false }], HandlerKind::Window(WindowMethod::SetEnable))));
        assert(api_manager.spec_lookup("window.set_rtl"@) == Some((seq![ParamSpec { kind: ParamKind::Bool, optional: false }], HandlerKind::Window(WindowMethod::SetRtl))));
        assert(api_manager.spec_lookup("window.set_undecorated_shadow"@) == Some((seq![ParamSpec { kind: ParamKind::Bool, optional: false }], HandlerKind::Window(WindowMethod::SetUndecoratedShadow))));
    }
}

/// Registers the webview methods, the same way.
pub fn webview_api(api_manager: &mut ApiManager)
    ensures
        final(api_manager).spec_lookup("webview.isDevtoolsOpen"@) == Some(
            (Seq::<ParamSpec>::empty(), HandlerKind::Window(WindowMethod::IsDevtoolsOpen)),
        ),
        final(api_manager).spec_lookup("webview.openDevtools"@) == Some(
            (Seq::<ParamSpec>::empty(), HandlerKind::Window(WindowMethod::OpenDevtools)),
        ),
        final(api_manager).spec_lookup("webview.closeDevtools"@) == Some(
            (Seq::<ParamSpec>::empty(), HandlerKind::Window(WindowMethod::CloseDevtools)),
        ),
        forall|n: Seq<char>|
            !(n == "webview.isDevtoolsOpen"@
                || n == "webview.openDevtools"@
                || n == "webview.closeDevtools"@) ==> final(api_manager).spec_lookup(n) == old(api_manager).spec_lookup(n),
{
    proof {
        reveal_strlit("webview.isDevtoolsOpen");
        reveal_strlit("webview.openDevtools");
        reveal_strlit("webview.closeDevtools");
        assert("webview.isDevtoolsOpen"@.len() == 22);
        assert("webview.openDevtools"@.len() == 20);
        assert("webview.closeDevtools"@.len() == 21);
    }
    api_manager.register_api(String::from_str("webview.isDevtoolsOpen"), Vec::new(), HandlerKind::Window(WindowMethod::IsDevtoolsOpen));
    api_manager.register_api(String::from_str("webview.openDevtools"), Vec::new(), HandlerKind::Window(WindowMethod::OpenDevtools));
    proof {
        assert(api_manager.spec_lookup("webview.isDevtoolsOpen"@) == Some((Seq::<ParamSpec>::empty(), HandlerKind::Window(WindowMethod::IsDevtoolsOpen))));
    }
    api_manager.register_api(String::from_str("webview.closeDevtools"), Vec::new(), HandlerKind::Window(WindowMethod::CloseDevtools));
    proof {
        assert(api_manager.spec_lookup("webview.isDevtoolsOpen"@) == Some((Seq::<ParamSpec>::empty(), HandlerKind::Window(WindowMethod::IsDevtoolsOpen))));
        assert(api_manager.spec_lookup("webview.openDevtools"@) == Some((Seq::<ParamSpec>::empty(), HandlerKind::Window(WindowMethod::OpenDevtools))));
    }
}

/// Registers every library-decided method: the startup registration
/// step, run before the event loop.  Afterwards each of the 37 names
/// below looks up as its handler, and every other name is unchanged.
#[verifier::rlimit(100)]
#[verifier::spinoff_prover]
pub fn register_api_instances(api_manager: &mut ApiManager)
    ensures
        final(api_manager).spec_lookup("window.set_cursor_grab"@) == Some(
            (seq![ParamSpec { kind: ParamKind::Bool, optional: false }], HandlerKind::Window(WindowMethod::SetCursorGrab)),
        ),
        final(api_manager).spec_lookup("window.set_cursor_icon"@) == Some(
            (seq![ParamSpec { kind: ParamKind::Str, optional: false }], HandlerKind::Window(WindowMethod::SetCursorIcon)),
        ),
        final(api_manager).spec_lookup("window.set_cursor_position"@) == Some(
            (seq![ParamSpec { kind: ParamKind::Any, optional: false }], HandlerKind::Window(WindowMethod::SetCursorPosition)),
        ),
        final(api_manager).spec_lookup("window.set_cursor_visible"@) == Some(
            (seq![ParamSpec { kind: ParamKind::Bool, optional: false }], HandlerKind::Window(WindowMethod::SetCursorVisible)),
        ),
        final(api_manager).spec_lookup("window.set_ignore_cursor_events"@) == Some(
            (seq![ParamSpec { kind: ParamKind::Bool, optional: false }], HandlerKind::Window(WindowMethod::SetIgnoreCursorEvents)),
        ),
        final(api_manager).spec_lookup("window.set_ime_position"@) == Some(
            (seq![ParamSpec { kind: ParamKind::Any, optional: false }], HandlerKind::Window(WindowMethod::SetImePosition)),
        ),
        final(api_manager).spec_lookup("window.set_inner_size"@) == Some(
            (seq![ParamSpec { kind: ParamKind::Any, optional: false }], HandlerKind::Window(WindowMethod::SetInnerSize)),
        ),
        final(api_manager).spec_lookup("window.set_max_inner_size"@) == Some(
            (seq![ParamSpec { kind: ParamKind::Any, optional: false }], HandlerKind::Window(WindowMethod::SetMaxInnerSize)),
        ),
        final(api_manager).spec_lookup("window.set_min_inner_size"@) == Some(
            (seq![ParamSpec { kind: ParamKind::Any, optional: false }], HandlerKind::Window(WindowMethod::SetMinInnerSize)),
        ),
        final(api_manager).spec_lookup("window.set_outer_position"@) == Some(
            (seq![ParamSpec { kind: ParamKind::Any, optional: false }], HandlerKind::Window(WindowMethod::SetOuterPosition)),
        ),
        final(api_manager).spec_lookup("window.inner_size"@) == Some(
            (Seq::<ParamSpec>::empty(), HandlerKind::Window(WindowMethod::InnerSize)),
        ),
        final(api_manager).spec_lookup("window.outer_size"@) == Some(
            (Seq::<ParamSpec>::empty(), HandlerKind::Window(WindowMethod::OuterSize)),
        ),
        final(api_manager).spec_lookup("window.outer_position"@) == Some(
            (Seq::<ParamSpec>::empty(), HandlerKind::Window(WindowMethod::OuterPosition)),
        ),
        final(api_manager).spec_lookup("window.set_visible"@) == Some(
            (seq![ParamSpec { kind: ParamKind::Bool, optional: false }], HandlerKind::Window(WindowMethod::SetVisible)),
        ),
        final(api_manager).spec_lookup("window.set_visible_on_all_workspaces"@) == Some(
            (seq![ParamSpec { kind: ParamKind::Bool, optional: false }], HandlerKind::Window(WindowMethod::SetVisibleOnAllWorkspaces)),
        ),
        final(api_manager).spec_lookup("window.set_fullscreen"@) == Some(
            (seq![ParamSpec { kind: ParamKind::Bool, optional: false }], HandlerKind::Window(WindowMethod::SetFullscreen)),
        ),
        final(api_manager).spec_lookup("window.set_focus"@) == Some(
            (Seq::<ParamSpec>::empty(), HandlerKind::Window(WindowMethod::SetFocus)),
        ),
        final(api_manager).spec_lookup("window.set_focusable"@) == Some(
            (seq![ParamSpec { kind: ParamKind::Bool, optional: false }], HandlerKind::Window(WindowMethod::SetFocusable)),
        ),
        final(api_manager).spec_lookup("window.set_decorations"@) == Some(
            (seq![ParamSpec { kind: ParamKind::Bool, optional: false }], HandlerKind::Window(WindowMethod::SetDecorations)),
        ),
        final(api_manager).spec_lookup("window.set_closable"@) == Some(
            (seq![ParamSpec { kind: ParamKind::Bool, optional: false }], HandlerKind::Window(WindowMethod::SetClosable)),
        ),
        final(api_manager).spec_lookup("window.set_maximizable"@) == Some(
            (seq![ParamSpec { kind: ParamKind::Bool, optional: false }], HandlerKind::Window(WindowMethod::SetMaximizable)),
        ),
        final(api_manager).spec_lookup("window.set_minimizable"@) == Some(
            (seq![ParamSpec { kind: ParamKind::Bool, optional: false }], HandlerKind::Window(WindowMethod::SetMinimizable)),
        ),
        final(api_manager).spec_lookup("window.set_minimized"@) == Some(
            (seq![ParamSpec { kind: ParamKind::Bool, optional: false }], HandlerKind::Window(WindowMethod::SetMinimized)),
        ),
        final(api_manager).spec_lookup("window.set_always_on_bottom"@) == Some(
            (seq![ParamSpec { kind: ParamKind::Bool, optional: false }], HandlerKind::Window(WindowMethod::SetAlwaysOnBottom)),
        ),
        final(api_manager).spec_lookup("window.set_always_on_top"@) == Some(
            (seq![ParamSpec { kind: ParamKind::Bool, optional: false }], HandlerKind::Window(WindowMethod::SetAlwaysOnTop)),
        ),
        final(api_manager).spec_lookup("window.set_content_protection"@) == Some(
            (seq![ParamSpec { kind: ParamKind::Bool, optional: false }], HandlerKind::Window(WindowMethod::SetContentProtection)),
        ),
        final(api_manager).spec_lookup("window.set_background_color"@) == Some(
            (seq![ParamSpec { kind: ParamKind::Any, optional: true }], HandlerKind::Window(WindowMethod::SetBackgroundColor)),
        ),
        final(api_manager).spec_lookup("window.set_theme"@) == Some(
            (seq![ParamSpec { kind: ParamKind::Str, optional: false }], HandlerKind::Window(WindowMethod::SetTheme)),
        ),
        final(api_manager).spec_lookup("window.set_progress_bar"@) == Some(
            (seq![ParamSpec { kind: ParamKind::Any, optional: false }], HandlerKind::Window(WindowMethod::SetProgressBar)),
        ),
        final(api_manager).spec_lookup("window.set_enable"@) == Some(
            (seq![ParamSpec { kind: ParamKind::Bool, optional: false }], HandlerKind::Window(WindowMethod::SetEnable)),
        ),
        final(api_manager).spec_lookup("window.set_rtl"@) == Some(
            (seq![ParamSpec { kind: ParamKind::Bool, optional: false }], HandlerKind::Window(WindowMethod::SetRtl)),
        ),
        final(api_manager).spec_lookup("window.set_undecorated_shadow"@) == Some(
            (seq![ParamSpec { kind: ParamKind::Bool, optional: false }], HandlerKind::Window(WindowMethod::SetUndecoratedShadow)),
        ),
        final(api_manager).spec_lookup("window.get_title"@) == Some(
            (Seq::<ParamSpec>::empty(), HandlerKind::Window(WindowMethod::GetTitle)),
        ),
        final(api_manager).spec_lookup("window.set_title"@) == Some(
            (seq![ParamSpec { kind: ParamKind::Str, optional: false }], HandlerKind::Window(WindowMethod::SetTitle)),
        ),
        final(api_manager).spec_lookup("webview.isDevtoolsOpen"@) == Some(
            (Seq::<ParamSpec>::empty(), HandlerKind::Window(WindowMethod::IsDevtoolsOpen)),
        ),
        final(api_manager).spec_lookup("webview.openDevtools"@) == Some(
            (Seq::<ParamSpec>::empty(), HandlerKind::Window(WindowMethod::OpenDevtools)),
        ),
        final(api_manager).spec_lookup("webview.closeDevtools"@) == Some(
            (Seq::<ParamSpec>::empty(), HandlerKind::Window(WindowMethod::CloseDevtools)),
        ),
        forall|n: Seq<char>|
            !(n == "window.set_cursor_grab"@
                || n == "window.set_cursor_icon"@
                || n == "window.set_cursor_position"@
                || n == "window.set_cursor_visible"@
                || n == "window.set_ignore_cursor_events"@
                || n == "window.set_ime_position"@
                || n == "window.set_inner_size"@
                || n == "window.set_max_inner_size"@
                || n == "window.set_min_inner_size"@
                || n == "window.set_outer_position"@
                || n == "window.inner_size"@
                || n == "window.outer_size"@
                || n == "window.outer_position"@
                || n == "window.set_visible"@
                || n == "window.set_visible_on_all_workspaces"@
                || n == "window.set_fullscreen"@
                || n == "window.set_focus"@
                || n == "window.set_focusable"@
                || n == "window.set_decorations"@
                || n == "window.set_closable"@
                || n == "window.set_maximizable"@
                || n == "window.set_minimizable"@
                || n == "window.set_minimized"@
                || n == "window.set_always_on_bottom"@
                || n == "window.set_always_on_top"@
                || n == "window.set_content_protection"@
                || n == "window.set_background_color"@
                || n == "window.set_theme"@
                || n == "window.set_progress_bar"@
                || n == "window.set_enable"@
                || n == "window.set_rtl"@
                || n == "window.set_undecorated_shadow"@
                || n == "window.get_title"@
                || n == "window.set_title"@
                || n == "webview.isDevtoolsOpen"@
                || n == "webview.openDevtools"@
                || n == "webview.closeDevtools"@) ==> final(api_manager).spec_lookup(n) == old(api_manager).spec_lookup(n),
{
    proof {
        reveal_strlit("window.set_cursor_grab");
        reveal_strlit("window.set_cursor_icon");
        reveal_strlit("window.set_cursor_position");
        reveal_strlit("window.set_cursor_visible");
        reveal_strlit("window.set_ignore_cursor_events");
        reveal_strlit("window.set_ime_position");
        reveal_strlit("window.set_inner_size");
        reveal_strlit("window.set_max_inner_size");
        reveal_strlit("window.set_min_inner_size");
        reveal_strlit("window.set_outer_position");
        reveal_strlit("window.inner_size");
        reveal_strlit("window.outer_size");
        reveal_strlit("window.outer_position");
        reveal_strlit("window.set_visible");
        reveal_strlit("window.set_visible_on_all_workspaces");
        reveal_strlit("window.set_fullscreen");
        reveal_strlit("window.set_focus");
        reveal_strlit("window.set_focusable");
        reveal_strlit("window.set_decorations");
        reveal_strlit("window.set_closable");
        reveal_strlit("window.set_maximizable");
        reveal_strlit("window.set_minimizable");
        reveal_strlit("window.set_minimized");
        reveal_strlit("window.set_always_on_bottom");
        reveal_strlit("window.set_always_on_top");
        reveal_strlit("window.set_content_protection");
        reveal_strlit("window.set_background_color");
        reveal_strlit("window.set_theme");
        reveal_strlit("window.set_progress_bar");
        reveal_strlit("window.set_enable");
        reveal_strlit("window.set_rtl");
        reveal_strlit("window.set_undecorated_shadow");
        reveal_strlit("window.get_title");
        reveal_strlit("window.set_title");
        reveal_strlit("webview.isDevtoolsOpen");
        reveal_strlit("webview.openDevtools");
        reveal_strlit("webview.closeDevtools");
        assert("window.set_cursor_grab"@.len() == 22);
        assert("window.set_cursor_icon"@.len() == 22);
        assert("window.set_cursor_position"@.len() == 26);
        assert("window.set_cursor_visible"@.len() == 25);
        assert("window.set_ignore_cursor_events"@.len() == 31);
        assert("window.set_ime_position"@.len() == 23);
        assert("window.set_inner_size"@.len() == 21);
        assert("window.set_max_inner_size"@.len() == 25);
        assert("window.set_min_inner_size"@.len() == 25);
        assert("window.set_outer_position"@.len() == 25);
        assert("window.inner_size"@.len() == 17);
        assert("window.outer_size"@.len() == 17);
        assert("window.outer_position"@.len() == 21);
        assert("window.set_visible"@.len() == 18);
        assert("window.set_visible_on_all_workspaces"@.len() == 36);
        assert("window.set_fullscreen"@.len() == 21);
        assert("window.set_focus"@.len() == 16);
        assert("window.set_focusable"@.len() == 20);
        assert("window.set_decorations"@.len() == 22);
        assert("window.set_closable"@.len() == 19);
        assert("window.set_maximizable"@.len() == 22);
        assert("window.set_minimizable"@.len() == 22);
        assert("window.set_minimized"@.len() == 20);
        assert("window.set_always_on_bottom"@.len() == 27);
        assert("window.set_always_on_top"@.len() == 24);
        assert("window.set_content_protection"@.len() == 29);
        assert("window.set_background_color"@.len() == 27);
        assert("window.set_theme"@.len() == 16);
        assert("window.set_progress_bar"@.len() == 23);
        assert("window.set_enable"@.len() == 17);
        assert("window.set_rtl"@.len() == 14);
        assert("window.set_undecorated_shadow"@.len() == 29);
        assert("window.get_title"@.len() == 16);
        assert("window.set_title"@.len() == 16);
        assert("webview.isDevtoolsOpen"@.len() == 22);
        assert("webview.openDevtools"@.len() == 20);
        assert("webview.closeDevtools"@.len() == 21);
        assert("window.set_cursor_grab"@ != "window.set_cursor_icon"@) by {
            assert("window.set_cursor_grab"@[18] != "window.set_cursor_icon"@[18]);
        }
        assert("window.set_cursor_grab"@ != "window.set_decorations"@) by {
            assert("window.set_cursor_grab"@[11] != "window.set_decorations"@[11]);
        }
        assert("window.set_cursor_grab"@ != "window.set_maximizable"@) by {
            assert("window.set_cursor_grab"@[11] != "window.set_maximizable"@[11]);
        }
        assert("window.set_cursor_grab"@ != "window.set_minimizable"@) by {
            assert("window.set_cursor_grab"@[11] != "window.set_minimizable"@[11]);
        }
        assert("window.set_cursor_grab"@ != "webview.isDevtoolsOpen"@) by {
            assert("window.set_cursor_grab"@[1] != "webview.isDevtoolsOpen"@[1]);
        }
        assert("window.set_cursor_icon"@ != "window.set_decorations"@) by {
            assert("window.set_cursor_icon"@[11] != "window.set_decorations"@[11]);
        }
        assert("window.set_cursor_icon"@ != "window.set_maximizable"@) by {
            assert("window.set_cursor_icon"@[11] != "window.set_maximizable"@[11]);
        }
        assert("window.set_cursor_icon"@ != "window.set_minimizable"@) by {
            assert("window.set_cursor_icon"@[11] != "window.set_minimizable"@[11]);
        }
        assert("window.set_cursor_icon"@ != "webview.isDevtoolsOpen"@) by {
            assert("window.set_cursor_icon"@[1] != "webview.isDevtoolsOpen"@[1]);
        }
        assert("window.set_cursor_visible"@ != "window.set_max_inner_size"@) by {
            assert("window.set_cursor_visible"@[11] != "window.set_max_inner_size"@[11]);
        }
        assert("window.set_cursor_visible"@ != "window.set_min_inner_size"@) by {
            assert("window.set_cursor_visible"@[11] != "window.set_min_inner_size"@[11]);
        }
        assert("window.set_cursor_visible"@ != "window.set_outer_position"@) by {
            assert("window.set_cursor_visible"@[11] != "window.set_outer_position"@[11]);
        }
        assert("window.set_ime_position"@ != "window.set_progress_bar"@) by {
            assert("window.set_ime_position"@[11] != "window.set_progress_bar"@[11]);
        }
        assert("window.set_inner_size"@ != "window.outer_position"@) by {
            assert("window.set_inner_size"@[7] != "window.outer_position"@[7]);
        }
        assert("window.set_inner_size"@ != "window.set_fullscreen"@) by {
            assert("window.set_inner_size"@[11] != "window.set_fullscreen"@[11]);
        }
        assert("window.set_inner_size"@ != "webview.closeDevtools"@) by {
            assert("window.set_inner_size"@[1] != "webview.closeDevtools"@[1]);
        }
        assert("window.set_max_inner_size"@ != "window.set_min_inner_size"@) by {
            assert("window.set_max_inner_size"@[12] != "window.set_min_inner_size"@[12]);
        }
        assert("window.set_max_inner_size"@ != "window.set_outer_position"@) by {
            assert("window.set_max_inner_size"@[11] != "window.set_outer_position"@[11]);
        }
        assert("window.set_min_inner_size"@ != "window.set_outer_position"@) by {
            assert("window.set_min_inner_size"@[11] != "window.set_outer_position"@[11]);
        }
        assert("window.inner_size"@ != "window.outer_size"@) by {
            assert("window.inner_size"@[7] != "window.outer_size"@[7]);
        }
        assert("window.inner_size"@ != "window.set_enable"@) by {
            assert("window.inner_size"@[7] != "window.set_enable"@[7]);
        }
        assert("window.outer_size"@ != "window.set_enable"@) by {
            assert("window.outer_size"@[7] != "window.set_enable"@[7]);
        }
        assert("window.outer_position"@ != "window.set_fullscreen"@) by {
            assert("window.outer_position"@[7] != "window.set_fullscreen"@[7]);
        }
        assert("window.outer_position"@ != "webview.closeDevtools"@) by {
            assert("window.outer_position"@[1] != "webview.closeDevtools"@[1]);
        }
        assert("window.set_fullscreen"@ != "webview.closeDevtools"@) by {
            assert("window.set_fullscreen"@[1] != "webview.closeDevtools"@[1]);
        }
        assert("window.set_focus"@ != "window.set_theme"@) by {
            assert("window.set_focus"@[11] != "window.set_theme"@[11]);
        }
        assert("window.set_focus"@ != "window.get_title"@) by {
            assert("window.set_focus"@[7] != "window.get_title"@[7]);
        }
        assert("window.set_focus"@ != "window.set_title"@) by {
            assert("window.set_focus"@[11] != "window.set_title"@[11]);
        }
        assert("window.set_focusable"@ != "window.set_minimized"@) by {
            assert("window.set_focusable"@[11] != "window.set_minimized"@[11]);
        }
        assert("window.set_focusable"@ != "webview.openDevtools"@) by {
            assert("window.set_focusable"@[1] != "webview.openDevtools"@[1]);
        }
        assert("window.set_decorations"@ != "window.set_maximizable"@) by {
            assert("window.set_decorations"@[11] != "window.set_maximizable"@[11]);
        }
        assert("window.set_decorations"@ != "window.set_minimizable"@) by {
            assert("window.set_decorations"@[11] != "window.set_minimizable"@[11]);
        }
        assert("window.set_decorations"@ != "webview.isDevtoolsOpen"@) by {
            assert("window.set_decorations"@[1] != "webview.isDevtoolsOpen"@[1]);
        }
        assert("window.set_maximizable"@ != "window.set_minimizable"@) by {
            assert("window.set_maximizable"@[12] != "window.set_minimizable"@[12]);
        }
        assert("window.set_maximizable"@ != "webview.isDevtoolsOpen"@) by {
            assert("window.set_maximizable"@[1] != "webview.isDevtoolsOpen"@[1]);
        }
        assert("window.set_minimizable"@ != "webview.isDevtoolsOpen"@) by {
            assert("window.set_minimizable"@[1] != "webview.isDevtoolsOpen"@[1]);
        }
        assert("window.set_minimized"@ != "webview.openDevtools"@) by {
            assert("window.set_minimized"@[1] != "webview.openDevtools"@[1]);
        }
        assert("window.set_always_on_bottom"@ != "window.set_background_color"@) by {
            assert("window.set_always_on_bottom"@[11] != "window.set_background_color"@[11]);
        }
        assert("window.set_content_protection"@ != "window.set_undecorated_shadow"@) by {
            assert("window.set_content_protection"@[11] != "window.set_undecorated_shadow"@[11]);
        }
        assert("window.set_theme"@ != "window.get_title"@) by {
            assert("window.set_theme"@[7] != "window.get_title"@[7]);
        }
        assert("window.set_theme"@ != "window.set_title"@) by {
            assert("window.set_theme"@[12] != "window.set_title"@[12]);
        }
        assert("window.get_title"@ != "window.set_title"@) by {
            assert("window.get_title"@[7] != "window.set_title"@[7]);
        }
    }
    window_api(api_manager);
    webview_api(api_manager);
    proof {
        assert(api_manager.spec_lookup("window.set_cursor_grab"@) == Some((seq![ParamSpec { kind: ParamKind::Bool, optional: false }], HandlerKind::Window(WindowMethod::SetCursorGrab))));
        assert(api_manager.spec_lookup("window.set_cursor_icon"@) == Some((seq![ParamSpec { kind: ParamKind::Str, optional: false }], HandlerKind::Window(WindowMethod::SetCursorIcon))));
        assert(api_manager.spec_lookup("window.set_cursor_position"@) == Some((seq![ParamSpec { kind: ParamKind::Any, optional: false }], HandlerKind::Window(WindowMethod::SetCursorPosition))));
        assert(api_manager.spec_lookup("window.set_cursor_visible"@) == Some((seq![ParamSpec { kind: ParamKind::Bool, optional: false }], HandlerKind::Window(WindowMethod::SetCursorVisible))));
        assert(api_manager.spec_lookup("window.set_ignore_cursor_events"@) == Some((seq![ParamSpec { kind: ParamKind::Bool, optional: false }], HandlerKind::Window(WindowMethod::SetIgnoreCursorEvents))));
        assert(api_manager.spec_lookup("window.set_ime_position"@) == Some((seq![ParamSpec { kind: ParamKind::Any, optional: false }], HandlerKind::Window(WindowMethod::SetImePosition))));
        assert(api_manager.spec_lookup("window.set_inner_size"@) == Some((seq![ParamSpec { kind: ParamKind::Any, optional: false }], HandlerKind::Window(WindowMethod::SetInnerSize))));
        assert(api_manager.spec_lookup("window.set_max_inner_size"@) == Some((seq![ParamSpec { kind: ParamKind::Any, optional: false }], HandlerKind::Window(WindowMethod::SetMaxInnerSize))));
        assert(api_manager.spec_lookup("window.set_min_inner_size"@) == Some((seq![ParamSpec { kind: ParamKind::Any, optional: false }], HandlerKind::Window(WindowMethod::SetMinInnerSize))));
        assert(api_manager.spec_lookup("window.set_outer_position"@) == Some((seq![ParamSpec { kind: ParamKind::Any, optional: false }], HandlerKind::Window(WindowMethod::SetOuterPosition))));
        assert(api_manager.spec_lookup("window.inner_size"@) == Some((Seq::<ParamSpec>::empty(), HandlerKind::Window(WindowMethod::InnerSize))));
        assert(api_manager.spec_lookup("window.outer_size"@) == Some((Seq::<ParamSpec>::empty(), HandlerKind::Window(WindowMethod::OuterSize))));
        assert(api_manager.spec_lookup("window.outer_position"@) == Some((Seq::<ParamSpec>::empty(), HandlerKind::Window(WindowMethod::OuterPosition))));
        assert(api_manager.spec_lookup("window.set_visible"@) == Some((seq![ParamSpec { kind: ParamKind::Bool, optional: false }], HandlerKind::Window(WindowMethod::SetVisible))));
        assert(api_manager.spec_lookup("window.set_visible_on_all_workspaces"@) == Some((seq![ParamSpec { kind: ParamKind::Bool, optional: false }], HandlerKind::Window(WindowMethod::SetVisibleOnAllWorkspaces))));
        assert(api_manager.spec_lookup("window.set_fullscreen"@) == Some((seq![ParamSpec { kind: ParamKind::Bool, optional: false }], HandlerKind::Window(WindowMethod::SetFullscreen))));
        assert(api_manager.spec_lookup("window.set_focus"@) == Some((Seq::<ParamSpec>::empty(), HandlerKind::Window(WindowMethod::SetFocus))));
        assert(api_manager.spec_lookup("window.set_focusable"@) == Some((seq![ParamSpec { kind: ParamKind::Bool, optional: false }], HandlerKind::Window(WindowMethod::SetFocusable))));
        assert(api_manager.spec_lookup("window.set_decorations"@) == Some((seq![ParamSpec { kind: ParamKind::Bool, optional: false }], HandlerKind::Window(WindowMethod::SetDecorations))));
        assert(api_manager.spec_lookup("window.set_closable"@) == Some((seq![ParamSpec { kind: ParamKind::Bool, optional: false }], HandlerKind::Window(WindowMethod::SetClosable))));
        assert(api_manager.spec_lookup("window.set_maximizable"@) == Some((seq![ParamSpec { kind: ParamKind::Bool, optional: false }], HandlerKind::Window(WindowMethod::SetMaximizable))));
        assert(api_manager.spec_lookup("window.set_minimizable"@) == Some((seq![ParamSpec { kind: ParamKind::Bool, optional: false }], HandlerKind::Window(WindowMethod::SetMinimizable))));
        assert(api_manager.spec_lookup("window.set_minimized"@) == Some((seq![ParamSpec { kind: ParamKind::Bool, optional: false }], HandlerKind::Window(WindowMethod::SetMinimized))));
        assert(api_manager.spec_lookup("window.set_always_on_bottom"@) == Some((seq![ParamSpec { kind: ParamKind::Bool, optional: false }], HandlerKind::Window(WindowMethod::SetAlwaysOnBottom))));
        assert(api_manager.spec_lookup("window.set_always_on_top"@) == Some((seq![ParamSpec { kind: ParamKind::Bool, optional: false }], HandlerKind::Window(WindowMethod::SetAlwaysOnTop))));
        assert(api_manager.spec_lookup("window.set_content_protection"@) == Some((seq![ParamSpec { kind: ParamKind::Bool, optional: false }], HandlerKind::Window(WindowMethod::SetContentProtection))));
        assert(api_manager.spec_lookup("window.set_background_color"@) == Some((seq![ParamSpec { kind: ParamKind::Any, optional: true }], HandlerKind::Window(WindowMethod::SetBackgroundColor))));
        assert(api_manager.spec_lookup("window.set_theme"@) == Some((seq![ParamSpec { kind: ParamKind::Str, optional: false }], HandlerKind::Window(WindowMethod::SetTheme))));
        assert(api_manager.spec_lookup("window.set_progress_bar"@) == Some((seq![ParamSpec { kind: ParamKind::Any, optional: false }], HandlerKind::Window(WindowMethod::SetProgressBar))));
        assert(api_manager.spec_lookup("window.set_enable"@) == Some((seq![ParamSpec { kind: ParamKind::Bool, optional: false }], HandlerKind::Window(WindowMethod::SetEnable))));
        assert(api_manager.spec_lookup("window.set_rtl"@) == Some((seq![ParamSpec { kind: ParamKind::Bool, optional: false }], HandlerKind::Window(WindowMethod::SetRtl))));
        assert(api_manager.spec_lookup("window.set_undecorated_shadow"@) == Some((seq![ParamSpec { kind: ParamKind::Bool, optional: false }], HandlerKind::Window(WindowMethod::SetUndecoratedShadow))));
        assert(api_manager.spec_lookup("window.get_title"@) == Some((Seq::<ParamSpec>::empty(), HandlerKind::Window(WindowMethod::GetTitle))));
        assert(api_manager.spec_lookup("window.set_title"@) == Some((seq![ParamSpec { kind: ParamKind::Str, optional: false }], HandlerKind::Window(WindowMethod::SetTitle))));
    }
}

/// Every response the window dispatcher synthesizes keeps the code
/// discipline: a non-zero code always carries null data, and code 0
/// always carries the message `ok` with the handler's value as data.
pub proof fn lemma_dispatch_response_discipline(
    m: WindowMethod,
    has_window: bool,
    id: int,
    vals: Seq<JsonV>,
)
    ensures
        (match spec_invoke_window(m, has_window, id, vals) {
            DispatchOutcomeV::Respond(resp, _) => (resp.code != 0 ==> resp.data == JsonV::Null)
                && (resp.code == 0 ==> resp.message == "ok"@),
            _ => true,
        }),
{
}

} // verus!
