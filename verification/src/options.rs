//! The window and webview option types carried by commands and by the
//! startup configuration.
//!
//! These are plain data: the GUI toolkit's own types stay outside the
//! library, and the embedder converts at its edge.  `Color` carries the
//! `#RRGGBB`/`#RRGGBBAA` hex codec the options use on the wire.

use crate::json::{json_view_entries, Json, JsonV};
use crate::strutil::{lemma_ascii_bytes_valid_utf8, string_from_utf8};
use vstd::prelude::*;
use vstd::string::StringExecFns;
use vstd::utf8::encode_utf8;

verus! {

#[derive(Clone, Copy, Debug, PartialEq, Eq, Structural)]
pub enum UnitType {
    Logical,
    Physical,
}

#[derive(Clone, Copy, Debug)]
pub struct Position {
    pub x: Option<i32>,
    pub y: Option<i32>,
    pub unit: UnitType,
}

#[derive(Clone, Copy, Debug)]
pub struct Size {
    pub width: Option<i32>,
    pub height: Option<i32>,
    pub unit: UnitType,
}

#[derive(Clone, Copy, Debug)]
pub struct WebViewBounds {
    pub position: Position,
    pub size: Size,
}

#[derive(Clone, Copy, Debug)]
pub enum CursorIcon {
    Default,
    Crosshair,
    Hand,
    Arrow,
    Move,
    Text,
    Wait,
    Help,
    Progress,
    NotAllowed,
    ContextMenu,
    Cell,
    VerticalText,
    Alias,
    Copy,
    NoDrop,
    Grab,
    Grabbing,
    AllScroll,
    ZoomIn,
    ZoomOut,
    EResize,
    NResize,
    NeResize,
    NwResize,
    SResize,
    SeResize,
    SwResize,
    WResize,
    EwResize,
    NsResize,
    NeswResize,
    NwseResize,
    ColResize,
    RowResize,
}

#[derive(Clone, Copy, Debug)]
pub enum ProgressState {
    /// No progress indicator shown (the toolkit's `None` state).
    NoProgress,
    Normal,
    Indeterminate,
    Paused,
    Error,
}

#[derive(Clone, Debug)]
pub struct ProgressBarState {
    pub progress: Option<u64>,
    pub status: Option<ProgressState>,
    pub desktop_filename: Option<String>,
}

#[derive(Clone, Copy, Debug)]
pub enum Theme {
    Light,
    Dark,
}

#[derive(Clone, Copy, Debug)]
pub enum UserAttentionType {
    Critical,
    Informational,
}

/// A window icon as base64-encoded raw RGBA bytes.
#[derive(Clone, Debug)]
pub struct ByteIcon {
    pub rgba: String,
    pub width: u32,
    pub height: u32,
}

/// A window icon named by a file path; the embedder loads and decodes
/// it.
#[derive(Clone, Debug)]
pub struct Icon {
    pub path: String,
}

#[derive(Clone, Copy, Debug)]
pub struct Dimensions {
    pub width: u32,
    pub height: u32,
}

#[derive(Clone, Copy, Debug)]
pub struct MonitorPosition {
    pub x: i32,
    pub y: i32,
}

#[derive(Clone, Copy, Debug)]
pub struct MonitorVideoMode {
    pub size: Dimensions,
    pub bit_depth: u16,
    pub refresh_rate: u16,
}

#[derive(Clone, Copy, Debug, PartialEq, Eq)]
pub enum WindowEffect {
    Titlebar,
    Selection,
    Menu,
    Popover,
    Sidebar,
    HeaderView,
    Sheet,
    WindowBackground,
    HudWindow,
    FullScreenUI,
    Tooltip,
    ContentBackground,
    UnderWindowBackground,
    UnderPageBackground,
    Mica,
    MicaDark,
    MicaLight,
    Tabbed,
    TabbedDark,
    TabbedLight,
    Blur,
    Acrylic,
}

#[derive(Clone, Copy, Debug, PartialEq, Eq)]
pub enum WindowEffectState {
    FollowsWindowActiveState,
    Active,
    Inactive,
}

/// The startup window configuration document's shape.
#[derive(Clone, Debug)]
pub struct WindowOptions {
    pub always_on_bottom: Option<bool>,
    pub always_on_top: Option<bool>,
    pub background_color: Option<(u8, u8, u8, u8)>,
    pub closable: Option<bool>,
    pub content_protection: Option<bool>,
    pub decorations: Option<bool>,
    pub focusable: Option<bool>,
    pub focused: Option<bool>,
    pub fullscreen: Option<bool>,
    pub inner_size: Option<Size>,
    pub max_inner_size: Option<Size>,
    pub maximizable: Option<bool>,
    pub maximized: Option<bool>,
    pub min_inner_size: Option<Size>,
    pub minimizable: Option<bool>,
    pub position: Option<Position>,
    pub resizable: Option<bool>,
    pub theme: Option<Theme>,
    pub title: Option<String>,
    pub transparent: Option<bool>,
    pub visible: Option<bool>,
    pub visible_on_all_workspaces: Option<bool>,
    pub window_icon: Option<Icon>,
    pub webview: WebViewOptions,
}

/// The startup webview configuration document's shape.
#[derive(Clone, Debug)]
pub struct WebViewOptions {
    pub label: Option<String>,
    pub render_protocol: Option<String>,
    pub transparent: Option<bool>,
    pub visible: Option<bool>,
    pub devtools: Option<bool>,
    pub incognito: Option<bool>,
    pub user_agent: Option<String>,
    pub initialization_script: Option<String>,
    pub accept_first_mouse: Option<bool>,
    pub autoplay: Option<bool>,
    pub focused: Option<bool>,
    pub clipboard: Option<bool>,
    pub hotkeys_zoom: Option<bool>,
    pub background_color: Option<(u8, u8, u8, u8)>,
    pub bounds: Option<WebViewBounds>,
    pub headers: Option<Vec<(String, String)>>,
    pub proxy_config: Option<String>,
    pub zoom_hotkeys: Option<bool>,
    pub background_throttling: Option<bool>,
    pub back_forward_navigation_gestures: Option<bool>,
}

/// An image read from the clipboard: its dimensions, sniffed media
/// type, and base64-encoded bytes.
#[derive(Clone, Debug)]
pub struct ClipboardImage {
    pub width: usize,
    pub height: usize,
    pub media_type: String,
    pub bytes: String,
}

/// The websocket bridge configuration injected into the page.
#[derive(Clone, Debug)]
pub struct WebSocketConfig {
    pub url: String,
    pub protocols: Option<Vec<String>>,
    pub auto_reconnect: Option<bool>,
    pub reconnect_interval: Option<u64>,
}

/// An RGBA color with byte channels.
#[derive(Clone, Copy, Debug, PartialEq, Eq, Structural)]
pub struct Color {
    pub r: u8,
    pub g: u8,
    pub b: u8,
    pub a: u8,
}

impl Default for Color {
    /// Fully transparent black.
    fn default() -> (r: Self)
        ensures
            r == (Color { r: 0, g: 0, b: 0, a: 0 }),
    {
        Color { r: 0, g: 0, b: 0, a: 0 }
    }
}

/// Uppercase hexadecimal digit for `d`.
pub open spec fn spec_hex_upper(d: nat) -> u8
    recommends
        d < 16,
{
    if d < 10 {
        (0x30 + d) as u8
    } else {
        (0x41 + (d - 10)) as u8
    }
}

/// The two hex digits of one channel byte.
pub open spec fn spec_hex_pair(b: u8) -> Seq<u8> {
    seq![spec_hex_upper((b / 16) as nat), spec_hex_upper((b % 16) as nat)]
}

/// The hex text of a color: `#RRGGBB`, with `AA` appended when the
/// alpha channel is not opaque.
pub open spec fn spec_color_hex(c: Color) -> Seq<u8> {
    let base = seq![0x23u8] + spec_hex_pair(c.r) + spec_hex_pair(c.g) + spec_hex_pair(c.b);
    if c.a == 255 {
        base
    } else {
        base + spec_hex_pair(c.a)
    }
}

/// Value of a hexadecimal digit byte (either case), or 16 otherwise.
pub open spec fn spec_hex_digit_val(b: u8) -> nat {
    if 0x30 <= b <= 0x39 {
        (b - 0x30) as nat
    } else if 0x61 <= b <= 0x66 {
        (b - 0x61 + 10) as nat
    } else if 0x41 <= b <= 0x46 {
        (b - 0x41 + 10) as nat
    } else {
        16
    }
}

/// First index in `b` holding no `#`.
pub open spec fn spec_skip_hashes(b: Seq<u8>, i: int) -> int
    decreases b.len() - i,
{
    if 0 <= i < b.len() && b[i] == 0x23 {
        spec_skip_hashes(b, i + 1)
    } else {
        i
    }
}

/// Reading a color out of hex text: leading `#`s dropped, then exactly
/// 6 or 8 hex digits; anything else is `None`.
pub open spec fn spec_color_from_hex(b: Seq<u8>) -> Option<Color> {
    let s = spec_skip_hashes(b, 0);
    let n = b.len() - s;
    if n != 6 && n != 8 {
        None
    } else if exists|i: int| s <= i < b.len() && spec_hex_digit_val(#[trigger] b[i]) >= 16 {
        None
    } else {
        let r = spec_hex_digit_val(b[s]) * 16 + spec_hex_digit_val(b[s + 1]);
        let g = spec_hex_digit_val(b[s + 2]) * 16 + spec_hex_digit_val(b[s + 3]);
        let bl = spec_hex_digit_val(b[s + 4]) * 16 + spec_hex_digit_val(b[s + 5]);
        let a = if n == 8 {
            spec_hex_digit_val(b[s + 6]) * 16 + spec_hex_digit_val(b[s + 7])
        } else {
            255
        };
        Some(Color { r: r as u8, g: g as u8, b: bl as u8, a: a as u8 })
    }
}

fn hex_upper(d: u8) -> (r: u8)
    requires
        d < 16,
    ensures
        r == spec_hex_upper(d as nat),
{
    if d < 10 {
        0x30 + d
    } else {
        0x41 + (d - 10)
    }
}

fn hex_digit_val(b: u8) -> (r: u8)
    ensures
        r as nat == spec_hex_digit_val(b),
{
    if 0x30 <= b && b <= 0x39 {
        b - 0x30
    } else if 0x61 <= b && b <= 0x66 {
        b - 0x61 + 10
    } else if 0x41 <= b && b <= 0x46 {
        b - 0x41 + 10
    } else {
        16
    }
}

impl Color {
    pub fn new(r: u8, g: u8, b: u8, a: u8) -> (c: Self)
        ensures
            c == (Color { r, g, b, a }),
    {
        Color { r, g, b, a }
    }

    /// The color's hex text: `#RRGGBB`, or `#RRGGBBAA` when not
    /// opaque.
    pub fn to_hex(&self) -> (r: String)
        ensures
            encode_utf8(r@) == spec_color_hex(*self),
    {
        let mut bytes: Vec<u8> = Vec::new();
        bytes.push(0x23);
        bytes.push(hex_upper(self.r / 16));
        bytes.push(hex_upper(self.r % 16));
        bytes.push(hex_upper(self.g / 16));
        bytes.push(hex_upper(self.g % 16));
        bytes.push(hex_upper(self.b / 16));
        bytes.push(hex_upper(self.b % 16));
        if self.a != 255 {
            bytes.push(hex_upper(self.a / 16));
            bytes.push(hex_upper(self.a % 16));
        }
        proof {
            assert(bytes@ =~= spec_color_hex(*self));
            assert(forall|i: int| 0 <= i < bytes@.len() ==> #[trigger] bytes@[i] < 0x80);
            lemma_ascii_bytes_valid_utf8(bytes@);
        }
        let ghost bv = bytes@;
        match string_from_utf8(bytes) {
            Some(s) => {
                proof {
                    vstd::utf8::decode_utf8_encode_utf8(bv);
                }
                s
            },
            None => {
                proof {
                    assert(false);
                }
                String::new()
            },
        }
    }

    /// Reads a color back from hex text, exactly as
    /// `spec_color_from_hex` says.
    #[verifier::loop_isolation(false)]
    pub fn from_hex(hex: &str) -> (r: Option<Color>)
        ensures
            r == spec_color_from_hex(encode_utf8(hex@)),
    {
        let bytes = hex.as_bytes();
        let n = bytes.len();
        let mut s: usize = 0;
        while s < n && *vstd::slice::slice_index_get(bytes, s) == 0x23
            invariant
                s <= n,
                spec_skip_hashes(bytes@, 0) == spec_skip_hashes(bytes@, s as int),
            decreases n - s,
        {
            s = s + 1;
        }
        let rest = n - s;
        if rest != 6 && rest != 8 {
            return None;
        }
        let mut vals: Vec<u8> = Vec::new();
        let mut i: usize = s;
        while i < n
            invariant
                s <= i <= n,
                vals@.len() == i - s,
                forall|k: int|
                    s <= k < i ==> spec_hex_digit_val(#[trigger] bytes@[k]) < 16 && vals@[k - s]
                        as nat == spec_hex_digit_val(bytes@[k]),
            decreases n - i,
        {
            let v = hex_digit_val(*vstd::slice::slice_index_get(bytes, i));
            if v >= 16 {
                return None;
            }
            vals.push(v);
            i = i + 1;
        }
        let r = vals[0] * 16 + vals[1];
        let g = vals[2] * 16 + vals[3];
        let b = vals[4] * 16 + vals[5];
        let a = if rest == 8 {
            vals[6] * 16 + vals[7]
        } else {
            255
        };
        Some(Color { r, g, b, a })
    }

    /// The color as an RGBA channel array.
    pub fn to_rgba(&self) -> (r: [u8; 4])
        ensures
            r@ == seq![self.r, self.g, self.b, self.a],
    {
        let r = [self.r, self.g, self.b, self.a];
        proof {
            assert(r@ =~= seq![self.r, self.g, self.b, self.a]);
        }
        r
    }
}

/// The hex codec round trip: any color written as hex reads back as
/// itself.
pub proof fn lemma_color_hex_round_trip(c: Color)
    ensures
        spec_color_from_hex(spec_color_hex(c)) == Some(c),
{
    let b = spec_color_hex(c);
    assert(b[0] == 0x23);
    assert(forall|i: int| 1 <= i < b.len() ==> spec_hex_digit_val(#[trigger] b[i]) < 16);
    assert(spec_skip_hashes(b, 1) == 1);
    assert(spec_skip_hashes(b, 0) == 1);
    assert(spec_hex_digit_val(spec_hex_upper((c.r / 16) as nat)) == c.r / 16);
    assert(spec_hex_digit_val(spec_hex_upper((c.r % 16) as nat)) == c.r % 16);
    assert((c.r / 16) * 16 + c.r % 16 == c.r) by (nonlinear_arith);
    assert((c.g / 16) * 16 + c.g % 16 == c.g) by (nonlinear_arith);
    assert((c.b / 16) * 16 + c.b % 16 == c.b) by (nonlinear_arith);
    assert((c.a / 16) * 16 + c.a % 16 == c.a) by (nonlinear_arith);
}


// ---------------------------------------------------------------------
// Reading option values out of JSON arguments
// ---------------------------------------------------------------------

/// First value under `key` in an object's entry list.
pub open spec fn spec_obj_get(l: Seq<(Seq<char>, JsonV)>, key: Seq<char>) -> Option<JsonV>
    decreases l,
{
    if l.len() == 0 {
        None
    } else if l[0].0 == key {
        Some(l[0].1)
    } else {
        spec_obj_get(l.drop_first(), key)
    }
}

pub(crate) proof fn lemma_obj_get_found(l: Seq<(Seq<char>, JsonV)>, key: Seq<char>, i: int)
    requires
        0 <= i < l.len(),
        l[i].0 == key,
        forall|k: int| 0 <= k < i ==> (#[trigger] l[k]).0 != key,
    ensures
        spec_obj_get(l, key) == Some(l[i].1),
    decreases i,
{
    if i > 0 {
        lemma_obj_get_found(l.drop_first(), key, i - 1);
    }
}

pub(crate) proof fn lemma_obj_get_missing(l: Seq<(Seq<char>, JsonV)>, key: Seq<char>)
    requires
        forall|k: int| 0 <= k < l.len() ==> (#[trigger] l[k]).0 != key,
    ensures
        spec_obj_get(l, key) is None,
    decreases l.len(),
{
    if l.len() > 0 {
        lemma_obj_get_missing(l.drop_first(), key);
    }
}

/// First value under `key` in a decoded object, exactly as
/// `spec_obj_get` says.
#[verifier::loop_isolation(false)]
pub fn obj_get<'a>(entries: &'a Vec<(String, Json)>, key: &String) -> (r: Option<&'a Json>)
    ensures
        match r {
            Some(v) => spec_obj_get(json_view_entries(entries@), key@) == Some(v@),
            None => spec_obj_get(json_view_entries(entries@), key@) is None,
        },
{
    broadcast use crate::json::lemma_json_view_entries_len, crate::json::lemma_json_view_entries_index;

    let n = entries.len();
    let mut i: usize = 0;
    while i < n
        invariant
            i <= n,
            forall|k: int|
                0 <= k < i ==> (#[trigger] json_view_entries(entries@)[k]).0 != key@,
        decreases n - i,
    {
        if entries[i].0 == *key {
            proof {
                lemma_obj_get_found(json_view_entries(entries@), key@, i as int);
            }
            return Some(&entries[i].1);
        }
        i = i + 1;
    }
    proof {
        lemma_obj_get_missing(json_view_entries(entries@), key@);
    }
    None
}

/// A measurement unit read from its wire name.
pub open spec fn spec_unit_of_str(s: Seq<char>) -> Option<UnitType> {
    if s == "logical"@ {
        Some(UnitType::Logical)
    } else if s == "physical"@ {
        Some(UnitType::Physical)
    } else {
        None
    }
}

/// An optional `i32` field: absent or null is "not given"; a
/// non-integer or out-of-range value is a decode failure.
pub open spec fn spec_opt_i32_of(v: Option<JsonV>) -> Option<Option<i32>> {
    match v {
        None => Some(None),
        Some(jv) => match jv {
            JsonV::Null => Some(None),
            JsonV::Int(i) => if i32::MIN <= i <= i32::MAX {
                Some(Some(i as i32))
            } else {
                None
            },
            _ => None,
        },
    }
}

/// A `Position` read from its wire object `{x, y, unit}`.
pub open spec fn spec_position_of_json(v: JsonV) -> Option<Position> {
    match v {
        JsonV::Obj(entries) => match spec_obj_get(entries, "unit"@) {
            Some(uv) => match uv {
                JsonV::Str(us) => match spec_unit_of_str(us) {
                    Some(unit) => match spec_opt_i32_of(spec_obj_get(entries, "x"@)) {
                        Some(x) => match spec_opt_i32_of(spec_obj_get(entries, "y"@)) {
                            Some(y) => Some(Position { x, y, unit }),
                            None => None,
                        },
                        None => None,
                    },
                    None => None,
                },
                _ => None,
            },
            None => None,
        },
        _ => None,
    }
}

/// A `Size` read from its wire object `{width, height, unit}`.
pub open spec fn spec_size_of_json(v: JsonV) -> Option<Size> {
    match v {
        JsonV::Obj(entries) => match spec_obj_get(entries, "unit"@) {
            Some(uv) => match uv {
                JsonV::Str(us) => match spec_unit_of_str(us) {
                    Some(unit) => match spec_opt_i32_of(spec_obj_get(entries, "width"@)) {
                        Some(width) => match spec_opt_i32_of(spec_obj_get(entries, "height"@)) {
                            Some(height) => Some(Size { width, height, unit }),
                            None => None,
                        },
                        None => None,
                    },
                    None => None,
                },
                _ => None,
            },
            None => None,
        },
        _ => None,
    }
}

fn unit_of_str(s: &String) -> (r: Option<UnitType>)
    ensures
        r == spec_unit_of_str(s@),
{
    if *s == String::from_str("logical") {
        Some(UnitType::Logical)
    } else if *s == String::from_str("physical") {
        Some(UnitType::Physical)
    } else {
        None
    }
}

fn opt_i32_of(v: Option<&Json>) -> (r: Option<Option<i32>>)
    ensures
        r == spec_opt_i32_of(match v {
            Some(j) => Some(j@),
            None => None,
        }),
{
    match v {
        None => Some(None),
        Some(Json::Null) => Some(None),
        Some(Json::Int(i)) => {
            let i = *i;
            if i32::MIN as i64 <= i && i <= i32::MAX as i64 {
                Some(Some(i as i32))
            } else {
                None
            }
        },
        Some(_) => None,
    }
}

/// Reads a `Position` argument, exactly as `spec_position_of_json`
/// says.
pub fn position_of_json(v: &Json) -> (r: Option<Position>)
    ensures
        r == spec_position_of_json(v@),
{
    match v {
        Json::Obj(entries) => {
            let unit = match obj_get(entries, &String::from_str("unit")) {
                Some(Json::Str(us)) => match unit_of_str(us) {
                    Some(u) => u,
                    None => {
                        return None;
                    },
                },
                _ => {
                    return None;
                },
            };
            let x = match opt_i32_of(obj_get(entries, &String::from_str("x"))) {
                Some(x) => x,
                None => {
                    return None;
                },
            };
            let y = match opt_i32_of(obj_get(entries, &String::from_str("y"))) {
                Some(y) => y,
                None => {
                    return None;
                },
            };
            Some(Position { x, y, unit })
        },
        _ => None,
    }
}

/// Reads a `Size` argument, exactly as `spec_size_of_json` says.
pub fn size_of_json(v: &Json) -> (r: Option<Size>)
    ensures
        r == spec_size_of_json(v@),
{
    match v {
        Json::Obj(entries) => {
            let unit = match obj_get(entries, &String::from_str("unit")) {
                Some(Json::Str(us)) => match unit_of_str(us) {
                    Some(u) => u,
                    None => {
                        return None;
                    },
                },
                _ => {
                    return None;
                },
            };
            let width = match opt_i32_of(obj_get(entries, &String::from_str("width"))) {
                Some(w) => w,
                None => {
                    return None;
                },
            };
            let height = match opt_i32_of(obj_get(entries, &String::from_str("height"))) {
                Some(h) => h,
                None => {
                    return None;
                },
            };
            Some(Size { width, height, unit })
        },
        _ => None,
    }
}

/// A cursor icon read from its wire name.
pub open spec fn spec_cursor_icon_of_str(s: Seq<char>) -> Option<CursorIcon> {
    if s == "default"@ {
        Some(CursorIcon::Default)
    } else     if s == "crosshair"@ {
        Some(CursorIcon::Crosshair)
    } else     if s == "hand"@ {
        Some(CursorIcon::Hand)
    } else     if s == "arrow"@ {
        Some(CursorIcon::Arrow)
    } else     if s == "move"@ {
        Some(CursorIcon::Move)
    } else     if s == "text"@ {
        Some(CursorIcon::Text)
    } else     if s == "wait"@ {
        Some(CursorIcon::Wait)
    } else     if s == "help"@ {
        Some(CursorIcon::Help)
    } else     if s == "progress"@ {
        Some(CursorIcon::Progress)
    } else     if s == "notAllowed"@ {
        Some(CursorIcon::NotAllowed)
    } else     if s == "contextMenu"@ {
        Some(CursorIcon::ContextMenu)
    } else     if s == "cell"@ {
        Some(CursorIcon::Cell)
    } else     if s == "verticalText"@ {
        Some(CursorIcon::VerticalText)
    } else     if s == "alias"@ {
        Some(CursorIcon::Alias)
    } else     if s == "copy"@ {
        Some(CursorIcon::Copy)
    } else     if s == "noDrop"@ {
        Some(CursorIcon::NoDrop)
    } else     if s == "grab"@ {
        Some(CursorIcon::Grab)
    } else     if s == "grabbing"@ {
        Some(CursorIcon::Grabbing)
    } else     if s == "allScroll"@ {
        Some(CursorIcon::AllScroll)
    } else     if s == "zoomIn"@ {
        Some(CursorIcon::ZoomIn)
    } else     if s == "zoomOut"@ {
        Some(CursorIcon::ZoomOut)
    } else     if s == "eResize"@ {
        Some(CursorIcon::EResize)
    } else     if s == "nResize"@ {
        Some(CursorIcon::NResize)
    } else     if s == "neResize"@ {
        Some(CursorIcon::NeResize)
    } else     if s == "nwResize"@ {
        Some(CursorIcon::NwResize)
    } else     if s == "sResize"@ {
        Some(CursorIcon::SResize)
    } else     if s == "seResize"@ {
        Some(CursorIcon::SeResize)
    } else     if s == "swResize"@ {
        Some(CursorIcon::SwResize)
    } else     if s == "wResize"@ {
        Some(CursorIcon::WResize)
    } else     if s == "ewResize"@ {
        Some(CursorIcon::EwResize)
    } else     if s == "nsResize"@ {
        Some(CursorIcon::NsResize)
    } else     if s == "neswResize"@ {
        Some(CursorIcon::NeswResize)
    } else     if s == "nwseResize"@ {
        Some(CursorIcon::NwseResize)
    } else     if s == "colResize"@ {
        Some(CursorIcon::ColResize)
    } else     if s == "rowResize"@ {
        Some(CursorIcon::RowResize)
    } else {
        None
    }
}

/// Reads a cursor icon argument, exactly as `spec_cursor_icon_of_str`
/// says.
pub fn cursor_icon_of_str(s: &String) -> (r: Option<CursorIcon>)
    ensures
        r == spec_cursor_icon_of_str(s@),
{
    if *s == String::from_str("default") {
        Some(CursorIcon::Default)
    } else     if *s == String::from_str("crosshair") {
        Some(CursorIcon::Crosshair)
    } else     if *s == String::from_str("hand") {
        Some(CursorIcon::Hand)
    } else     if *s == String::from_str("arrow") {
        Some(CursorIcon::Arrow)
    } else     if *s == String::from_str("move") {
        Some(CursorIcon::Move)
    } else     if *s == String::from_str("text") {
        Some(CursorIcon::Text)
    } else     if *s == String::from_str("wait") {
        Some(CursorIcon::Wait)
    } else     if *s == String::from_str("help") {
        Some(CursorIcon::Help)
    } else     if *s == String::from_str("progress") {
        Some(CursorIcon::Progress)
    } else     if *s == String::from_str("notAllowed") {
        Some(CursorIcon::NotAllowed)
    } else     if *s == String::from_str("contextMenu") {
        Some(CursorIcon::ContextMenu)
    } else     if *s == String::from_str("cell") {
        Some(CursorIcon::Cell)
    } else     if *s == String::from_str("verticalText") {
        Some(CursorIcon::VerticalText)
    } else     if *s == String::from_str("alias") {
        Some(CursorIcon::Alias)
    } else     if *s == String::from_str("copy") {
        Some(CursorIcon::Copy)
    } else     if *s == String::from_str("noDrop") {
        Some(CursorIcon::NoDrop)
    } else     if *s == String::from_str("grab") {
        Some(CursorIcon::Grab)
    } else     if *s == String::from_str("grabbing") {
        Some(CursorIcon::Grabbing)
    } else     if *s == String::from_str("allScroll") {
        Some(CursorIcon::AllScroll)
    } else     if *s == String::from_str("zoomIn") {
        Some(CursorIcon::ZoomIn)
    } else     if *s == String::from_str("zoomOut") {
        Some(CursorIcon::ZoomOut)
    } else     if *s == String::from_str("eResize") {
        Some(CursorIcon::EResize)
    } else     if *s == String::from_str("nResize") {
        Some(CursorIcon::NResize)
    } else     if *s == String::from_str("neResize") {
        Some(CursorIcon::NeResize)
    } else     if *s == String::from_str("nwResize") {
        Some(CursorIcon::NwResize)
    } else     if *s == String::from_str("sResize") {
        Some(CursorIcon::SResize)
    } else     if *s == String::from_str("seResize") {
        Some(CursorIcon::SeResize)
    } else     if *s == String::from_str("swResize") {
        Some(CursorIcon::SwResize)
    } else     if *s == String::from_str("wResize") {
        Some(CursorIcon::WResize)
    } else     if *s == String::from_str("ewResize") {
        Some(CursorIcon::EwResize)
    } else     if *s == String::from_str("nsResize") {
        Some(CursorIcon::NsResize)
    } else     if *s == String::from_str("neswResize") {
        Some(CursorIcon::NeswResize)
    } else     if *s == String::from_str("nwseResize") {
        Some(CursorIcon::NwseResize)
    } else     if *s == String::from_str("colResize") {
        Some(CursorIcon::ColResize)
    } else     if *s == String::from_str("rowResize") {
        Some(CursorIcon::RowResize)
    } else {
        None
    }
}

/// A theme read from its wire name.
pub open spec fn spec_theme_of_str(s: Seq<char>) -> Option<Theme> {
    if s == "light"@ {
        Some(Theme::Light)
    } else if s == "dark"@ {
        Some(Theme::Dark)
    } else {
        None
    }
}

/// Reads a theme argument, exactly as `spec_theme_of_str` says.
pub fn theme_of_str(s: &String) -> (r: Option<Theme>)
    ensures
        r == spec_theme_of_str(s@),
{
    if *s == String::from_str("light") {
        Some(Theme::Light)
    } else if *s == String::from_str("dark") {
        Some(Theme::Dark)
    } else {
        None
    }
}

/// A progress state read from its wire name.
pub open spec fn spec_progress_state_of_str(s: Seq<char>) -> Option<ProgressState> {
    if s == "none"@ {
        Some(ProgressState::NoProgress)
    } else     if s == "normal"@ {
        Some(ProgressState::Normal)
    } else     if s == "indeterminate"@ {
        Some(ProgressState::Indeterminate)
    } else     if s == "paused"@ {
        Some(ProgressState::Paused)
    } else     if s == "error"@ {
        Some(ProgressState::Error)
    } else {
        None
    }
}

fn progress_state_of_str(s: &String) -> (r: Option<ProgressState>)
    ensures
        r == spec_progress_state_of_str(s@),
{
    if *s == String::from_str("none") {
        Some(ProgressState::NoProgress)
    } else     if *s == String::from_str("normal") {
        Some(ProgressState::Normal)
    } else     if *s == String::from_str("indeterminate") {
        Some(ProgressState::Indeterminate)
    } else     if *s == String::from_str("paused") {
        Some(ProgressState::Paused)
    } else     if *s == String::from_str("error") {
        Some(ProgressState::Error)
    } else {
        None
    }
}

/// The mathematical form of a progress bar update: the filename as its
/// characters.
pub ghost struct ProgressBarStateV {
    pub progress: Option<u64>,
    pub status: Option<ProgressState>,
    pub desktop_filename: Option<Seq<char>>,
}

/// A progress bar update read from its wire object
/// `{progress, status, desktopFilename}`, every field optional.
pub open spec fn spec_progress_bar_of_json(v: JsonV) -> Option<ProgressBarStateV> {
    match v {
        JsonV::Obj(entries) => {
            let progress = match spec_obj_get(entries, "progress"@) {
                None => Some(None),
                Some(JsonV::Null) => Some(None),
                Some(JsonV::Int(i)) => if 0 <= i {
                    Some(Some(i as u64))
                } else {
                    None
                },
                Some(_) => None,
            };
            let status = match spec_obj_get(entries, "status"@) {
                None => Some(None),
                Some(JsonV::Null) => Some(None),
                Some(JsonV::Str(ss)) => match spec_progress_state_of_str(ss) {
                    Some(st) => Some(Some(st)),
                    None => None,
                },
                Some(_) => None,
            };
            let fname = match spec_obj_get(entries, "desktopFilename"@) {
                None => Some(None),
                Some(JsonV::Null) => Some(None),
                Some(JsonV::Str(fs)) => Some(Some(fs)),
                Some(_) => None,
            };
            match (progress, status, fname) {
                (Some(progress), Some(status), Some(f)) => Some(
                    ProgressBarStateV { progress, status, desktop_filename: f },
                ),
                _ => None,
            }
        },
        _ => None,
    }
}

/// Reads a progress bar argument, exactly as
/// `spec_progress_bar_of_json` says (the filename compared by its
/// characters).
pub fn progress_bar_of_json(v: &Json) -> (r: Option<ProgressBarState>)
    ensures
        match (r, spec_progress_bar_of_json(v@)) {
            (Some(p), Some(sp)) => p.progress == sp.progress && p.status == sp.status && (match (
                p.desktop_filename,
                sp.desktop_filename,
            ) {
                (Some(f), Some(sf)) => f@ == sf,
                (None, None) => true,
                _ => false,
            }),
            (None, None) => true,
            _ => false,
        },
{
    match v {
        Json::Obj(entries) => {
            let progress: Option<u64> = match obj_get(entries, &String::from_str("progress")) {
                None => None,
                Some(Json::Null) => None,
                Some(Json::Int(i)) => {
                    let i = *i;
                    if 0 <= i {
                        Some(i as u64)
                    } else {
                        return None;
                    }
                },
                Some(_) => {
                    return None;
                },
            };
            let status: Option<ProgressState> = match obj_get(
                entries,
                &String::from_str("status"),
            ) {
                None => None,
                Some(Json::Null) => None,
                Some(Json::Str(ss)) => match progress_state_of_str(ss) {
                    Some(st) => Some(st),
                    None => {
                        return None;
                    },
                },
                Some(_) => {
                    return None;
                },
            };
            let desktop_filename: Option<String> = match obj_get(
                entries,
                &String::from_str("desktopFilename"),
            ) {
                None => None,
                Some(Json::Null) => None,
                Some(Json::Str(fs)) => Some(fs.clone()),
                Some(_) => {
                    return None;
                },
            };
            Some(ProgressBarState { progress, status, desktop_filename })
        },
        _ => None,
    }
}

/// An RGBA tuple read from its wire array `[r, g, b, a]` of byte
/// values.
pub open spec fn spec_rgba_of_json(v: JsonV) -> Option<(u8, u8, u8, u8)> {
    match v {
        JsonV::Arr(items) => if items.len() == 4 {
            match (items[0], items[1], items[2], items[3]) {
                (JsonV::Int(r), JsonV::Int(g), JsonV::Int(b), JsonV::Int(a)) => if 0 <= r < 256
                    && 0 <= g < 256 && 0 <= b < 256 && 0 <= a < 256 {
                    Some((r as u8, g as u8, b as u8, a as u8))
                } else {
                    None
                },
                _ => None,
            }
        } else {
            None
        },
        _ => None,
    }
}

/// Reads an RGBA argument, exactly as `spec_rgba_of_json` says.
pub fn rgba_of_json(v: &Json) -> (r: Option<(u8, u8, u8, u8)>)
    ensures
        r == spec_rgba_of_json(v@),
{
    broadcast use crate::json::lemma_json_view_list_len, crate::json::lemma_json_view_list_index;

    match v {
        Json::Arr(items) => {
            proof {
                crate::json::lemma_json_view_list_len(items@);
            }
            if items.len() != 4 {
                return None;
            }
            proof {
                crate::json::lemma_json_view_list_index(items@, 0);
                crate::json::lemma_json_view_list_index(items@, 1);
                crate::json::lemma_json_view_list_index(items@, 2);
                crate::json::lemma_json_view_list_index(items@, 3);
            }
            match (&items[0], &items[1], &items[2], &items[3]) {
                (Json::Int(r), Json::Int(g), Json::Int(b), Json::Int(a)) => {
                    let (r, g, b, a) = (*r, *g, *b, *a);
                    if 0 <= r && r < 256 && 0 <= g && g < 256 && 0 <= b && b < 256 && 0 <= a && a
                        < 256 {
                        Some((r as u8, g as u8, b as u8, a as u8))
                    } else {
                        None
                    }
                },
                _ => None,
            }
        },
        _ => None,
    }
}

} // verus!
