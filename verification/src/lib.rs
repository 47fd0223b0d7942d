//! Context-window budgeting and compaction for chat-completion conversations.
//!
//! A conversation is stored as a fragment: its messages and their token total.
//! Each turn decides whether the fragment still fits the slice of the model's
//! context window that is set aside for it, compacts it into a summary when it
//! does not, assembles the request, and extends the fragment with the new
//! exchange. The crate decides and computes; the caller talks to the store and
//! to the completion service and hands the outcomes back.

pub mod assembler;
pub mod budget;
pub mod fragment;
pub mod loom;
pub mod models;
pub mod prompt;
pub mod turn;
pub mod types;

pub use crate::assembler::MessageParams;
pub use crate::fragment::{ContextMessage, TapestryFragment};
pub use crate::loom::{Config, Loom, Loreweaver, TapestryId};
pub use crate::models::Get;
