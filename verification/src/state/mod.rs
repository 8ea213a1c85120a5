//! Persistent context state: transcript entries and their conversion to chat
//! messages, the per-context bookkeeping kept in `state.json`, the layout of a
//! context's directory, task summaries and flock prompt sections.

pub mod entries;
pub mod messages;
pub mod window;
pub mod tasks;
pub mod flocks;
pub mod app;
pub mod contexts;
pub mod conversation;
pub mod save_load;
