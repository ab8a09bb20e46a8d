//! A desktop window/webview shell binding built around a local
//! request/response command channel.
//!
//! The heart of the crate is the wire protocol between an external host
//! process and the process that owns the GUI event loop: length-prefixed
//! JSON frames carrying `[id, method, args]` requests and
//! `[id, code, message, data]` responses, a correlation table matching
//! responses to in-flight requests, a dispatch table binding method names
//! to handlers, and the single-threaded event-loop state machine that
//! executes handlers and routes results back.

pub mod codec;
pub mod context;
pub mod dispatch;
pub mod event_loop;
pub mod handlers;
pub mod json;
pub mod json_dec;
pub mod json_enc;
pub mod json_rt;
pub(crate) mod kvmap;
pub mod message;
pub mod mime;
pub mod options;
pub mod paths;
pub mod pending;
pub mod utils;
pub(crate) mod strutil;

pub use codec::encode_frame;
pub use codec::try_take_frame;
