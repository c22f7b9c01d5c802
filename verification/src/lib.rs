//! Desktop grammar-fixing helper: capture selected text, send it to a chat
//! completion API, and hand back the corrected replacement.
//!
//! The crate holds the decision logic of that pipeline: resolving layered
//! configuration into a usable endpoint/key/model/prompt tuple, planning the
//! synthetic keystrokes and clipboard steps that capture and replace a
//! selection, keeping the single global hotkey binding consistent across
//! rebind attempts, and framing and interpreting the chat-completion
//! exchange. The host process performs the OS and network calls these plans
//! describe.

pub mod capture;
pub mod client;
pub mod config;
pub mod hotkey;
pub mod protocol;
pub mod text;
