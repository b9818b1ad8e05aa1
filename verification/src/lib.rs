//! A verified core for the bridge between embedded web content and its host:
//! event addressing and listener bookkeeping, the scope of access for remote
//! origins, and the routing of invoke requests to their handlers.

pub mod builder;
pub mod dispatch;
pub mod emit;
pub mod event;
pub mod ipc;
pub mod json;
pub mod listeners;
pub mod manager;
pub mod path;
pub mod scope;
pub mod text;
pub mod url;
pub mod webview;
pub mod window;
