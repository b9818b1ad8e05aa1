//! What the bridge reads of the application: its own addresses, whether it runs in
//! development, its grants of remote access and its event side.

use vstd::prelude::*;
use crate::event::Listeners;
use crate::scope::IpcScope;
use crate::url::PageUrl;

verus! {

/// The application, as far as the bridge reads it.
#[derive(Debug)]
pub struct AppManager {
    /// The address that the application's own pages are loaded from.
    pub url: PageUrl,
    /// The address of the application's resource protocol.
    pub protocol_url: PageUrl,
    /// Whether the application runs in development.
    pub dev: bool,
    /// The grants of remote access.
    pub ipc_scope: IpcScope,
    /// The event side.
    pub listeners: Listeners,
}

} // verus!
