//! Retrieval of the text selected in the focused application, with a window
//! of the surrounding document as context.
//!
//! The library holds the decisions of every acquisition strategy: the
//! clipboard-copy and select-all state machines, the context window cut out
//! of a captured document, the accessibility resolvers' rules and the
//! per-application method cache. The side effects (key injection, clipboard
//! access, accessibility queries, sleeping) are performed by an implementation
//! of `Desktop` or `mac::MacMethods`, whose reports the operations feed into
//! the strategies until they finish.
mod error;
pub mod context;
pub mod clipboard;
pub mod copy;
pub mod select_all;
pub mod orchestrator;
pub mod cache;
pub mod ax;
pub mod uia;
pub mod driver;
pub mod mac;
pub mod tree;

pub use driver::{get_selected_text, get_selected_text_with_context, Desktop};
pub use error::GetTextError;
