//! The webview side of the bridge: what a webview is known by, the invoke requests it
//! receives, and the listeners that its script side registers.

use http::HeaderMap;
use tauri_utils::config::WebviewUrl;
use vstd::prelude::*;
use vstd::std_specs::cmp::PartialEqSpecImpl;
use crate::builder::{unset_attributes, BuilderView, WebviewBuilder};
use crate::dispatch::{
    access_of, dispatched, is_local_origin, local_to, route, route_of, Access, Dispatch, Route,
};
use crate::event::{
    following_id, EmitArgs, EventId, EventSource, EventSourceView, JsCall, ListenerKey, Listeners,
    ListenersView,
};
use crate::ipc::{
    callback_name, callback_reference, CallbackFn, Invoke, InvokeBody, InvokeError, InvokeMessage,
    InvokeResolver, InvokeResponse, Reply,
};
use crate::listeners::{
    delivered_ids, delivers, listener_key, listens, with_listener, without_listener,
    JsEventListeners,
};
use crate::manager::AppManager;
use crate::url::PageUrl;
use crate::window::Window;

verus! {

/// What a remote origin is told when the plugin it calls is not open to it.
pub const IPC_SCOPE_DOES_NOT_ALLOW: &'static str = "Not allowed by the scope";

/// The plugin that carries channel data. It is open to every origin that the scope admits.
pub const CHANNEL_PLUGIN_NAME: &'static str = "__TAURI_CHANNEL__";

/// How the command of a plugin begins.
pub const PLUGIN_PREFIX: &'static str = "plugin:";

/// What parts the plugin's name from its command.
pub const PLUGIN_SEPARATOR: char = '|';

/// The domain that counts as the application's own while it runs in development.
pub const DEV_DOMAIN: &'static str = "tauri.localhost";

/// The text of the message for an origin that no grant fits, neither by window nor by
/// domain.
pub open spec fn scope_not_found_message(label: Seq<char>, url: Seq<char>) -> Seq<char> {
    "Scope not defined for window `"@ + label + "` and URL `"@ + url
        + "`. See https://tauri.app/v1/api/config/#securityconfig.dangerousremotedomainipcaccess and https://docs.rs/tauri/1/tauri/scope/struct.IpcScope.html#method.configure_remote_access"@
}

/// The text of the message for a window that no grant names.
pub open spec fn scope_window_message(label: Seq<char>) -> Seq<char> {
    "Scope not defined for window `"@ + label
        + "`. See https://tauri.app/v1/api/config/#securityconfig.dangerousremotedomainipcaccess and https://docs.rs/tauri/1/tauri/scope/struct.IpcScope.html#method.configure_remote_access"@
}

/// The text of the message for an address whose domain no grant names.
pub open spec fn scope_domain_message(url: Seq<char>) -> Seq<char> {
    "Scope not defined for URL `"@ + url
        + "`. See https://tauri.app/v1/api/config/#securityconfig.dangerousremotedomainipcaccess and https://docs.rs/tauri/1/tauri/scope/struct.IpcScope.html#method.configure_remote_access"@
}

/// The text of the message for a command that no handler took.
pub open spec fn command_not_found_message(command: Seq<char>) -> Seq<char> {
    "Command "@ + command + " not found"@
}

/// The message for an origin that no grant fits, neither by window nor by domain.
pub fn ipc_scope_not_found_error_message(label: &str, url: &str) -> (message: String)
    ensures
        message@ == scope_not_found_message(label@, url@),
{
    let mut message = "Scope not defined for window `".to_owned();
    message.append(label);
    message.append("` and URL `");
    message.append(url);
    message.append(
        "`. See https://tauri.app/v1/api/config/#securityconfig.dangerousremotedomainipcaccess and https://docs.rs/tauri/1/tauri/scope/struct.IpcScope.html#method.configure_remote_access",
    );
    message
}

/// The message for a window that no grant names.
pub fn ipc_scope_window_error_message(label: &str) -> (message: String)
    ensures
        message@ == scope_window_message(label@),
{
    let mut message = "Scope not defined for window `".to_owned();
    message.append(label);
    message.append(
        "`. See https://tauri.app/v1/api/config/#securityconfig.dangerousremotedomainipcaccess and https://docs.rs/tauri/1/tauri/scope/struct.IpcScope.html#method.configure_remote_access",
    );
    message
}

/// The message for an address whose domain no grant names.
pub fn ipc_scope_domain_error_message(url: &str) -> (message: String)
    ensures
        message@ == scope_domain_message(url@),
{
    let mut message = "Scope not defined for URL `".to_owned();
    message.append(url);
    message.append(
        "`. See https://tauri.app/v1/api/config/#securityconfig.dangerousremotedomainipcaccess and https://docs.rs/tauri/1/tauri/scope/struct.IpcScope.html#method.configure_remote_access",
    );
    message
}

/// The message for a command that no handler took.
pub fn command_not_found_error_message(command: &str) -> (message: String)
    ensures
        message@ == command_not_found_message(command@),
{
    let mut message = "Command ".to_owned();
    message.append(command);
    message.append(" not found");
    message
}

/// How far the loading of a page has come.
#[derive(Debug, Clone, Copy, PartialEq, Eq, Structural)]
pub enum PageLoadEvent {
    /// The page began to load.
    Started,
    /// The page is loaded.
    Finished,
}

/// What a page load handler is told.
#[derive(Debug)]
pub struct PageLoadPayload<'a> {
    url: &'a PageUrl,
    event: PageLoadEvent,
}

impl<'a> PageLoadPayload<'a> {
    /// The payload for `event` on the page at `url`.
    pub fn new(url: &'a PageUrl, event: PageLoadEvent) -> (payload: Self)
        ensures
            payload.spec_url() == url,
            payload.spec_event() == event,
    {
        PageLoadPayload { url, event }
    }

    /// The address of the page.
    pub closed spec fn spec_url(&self) -> &'a PageUrl {
        self.url
    }

    /// How far the loading has come.
    pub closed spec fn spec_event(&self) -> PageLoadEvent {
        self.event
    }

    /// The address of the page.
    pub fn url(&self) -> (url: &'a PageUrl)
        ensures
            url == self.spec_url(),
    {
        self.url
    }

    /// How far the loading has come.
    pub fn event(&self) -> (event: PageLoadEvent)
        ensures
            event == self.spec_event(),
    {
        self.event
    }
}

/// An invoke request, as the webview sent it.
#[derive(Debug)]
pub struct InvokeRequest {
    /// The command: a name, or `plugin:`, a plugin's name, `|` and a name.
    pub cmd: String,
    /// The callback for success.
    pub callback: CallbackFn,
    /// The callback for failure.
    pub error: CallbackFn,
    /// The body of the request.
    pub body: InvokeBody,
    /// The headers of the request.
    pub headers: HeaderMap,
}

/// A webview, as far as the bridge reads it: its label, the window it is in, and the
/// listeners that its script side has registered.
#[derive(Debug)]
pub struct Webview {
    window: Window,
    label: String,
    js_event_listeners: JsEventListeners,
}

/// A webview as a value of the model.
pub struct WebviewView {
    /// The label of the window that the webview is in.
    pub window_label: Seq<char>,
    /// The webview's label.
    pub label: Seq<char>,
    /// The listeners, by key.
    pub listeners: Map<ListenerKey, Set<EventId>>,
}

impl View for Webview {
    type V = WebviewView;

    closed spec fn view(&self) -> WebviewView {
        WebviewView {
            window_label: self.window@,
            label: self.label@,
            listeners: self.js_event_listeners@,
        }
    }
}

impl PartialEq for Webview {
    /// Two webviews are the same where their labels are.
    fn eq(&self, other: &Self) -> (equal: bool) {
        self.label == other.label
    }
}

impl PartialEqSpecImpl for Webview {
    open spec fn obeys_eq_spec() -> bool {
        true
    }

    open spec fn eq_spec(&self, other: &Self) -> bool {
        self@.label == other@.label
    }
}

impl Eq for Webview {

}

/// The text `event` between single quotes.
pub open spec fn quoted(event: Seq<char>) -> Seq<char> {
    "'"@ + event + "'"@
}

/// Whether `call` asks the script side to start listening: to put the listener `id` for
/// the source that is written `source` as JSON, with the callback `handler`, under
/// `event` into the object `object`.
pub open spec fn is_listen_call(
    call: JsCall,
    object: Seq<char>,
    event: Seq<char>,
    id: EventId,
    source: Seq<char>,
    handler: CallbackFn,
) -> bool {
    call matches JsCall::Listen {
        listeners_object_name,
        event: quoted_event,
        event_id,
        source: listened,
        handler: reference,
    } && listeners_object_name@ == object && quoted_event@ == quoted(event) && event_id == id
        && listened@ == source && reference@ == callback_name(handler.0)
}

/// Whether `call` asks the script side to stop listening: to take the listener `id`
/// of `event` out of the object `object`.
pub open spec fn is_unlisten_call(call: JsCall, object: Seq<char>, event: Seq<char>, id: EventId)
    -> bool {
    call matches JsCall::Unlisten { listeners_object_name, event: name, event_id }
        && listeners_object_name@ == object && name@ == event && event_id == id
}

/// Whether `call` hands the emission of `event` with `payload` to exactly the
/// listeners `ids`, each named once, through the script function `function`.
pub open spec fn is_emit_call(
    call: JsCall,
    function: Seq<char>,
    event: Seq<char>,
    payload: Seq<char>,
    ids: Set<EventId>,
) -> bool {
    call matches JsCall::Emit { function_name, event: name, payload: carried, ids: listed }
        && function_name@ == function && name@ == event && carried@ == payload
        && listed@.no_duplicates() && listed@.to_set() == ids
}

impl Webview {
    /// A webview in `window`, without listeners.
    pub fn new(window: Window, label: String) -> (webview: Self)
        ensures
            webview@ == (WebviewView {
                window_label: window@,
                label: label@,
                listeners: Map::empty(),
            }),
    {
        Webview { window, label, js_event_listeners: JsEventListeners::new() }
    }

    /// A builder for the webview `label` that loads `url`.
    pub fn builder(label: String, url: WebviewUrl) -> (builder: WebviewBuilder)
        ensures
            builder@ == (BuilderView { label: label@, attributes: unset_attributes(url) }),
    {
        WebviewBuilder::new(label, url)
    }

    /// The webview's label.
    pub fn label(&self) -> (label: &str)
        ensures
            label@ == self@.label,
    {
        self.label.as_str()
    }

    /// The window that the webview is in.
    pub fn window(&self) -> (window: &Window)
        ensures
            window@ == self@.window_label,
    {
        &self.window
    }

    /// Whether the page at `current_url` is the application's own.
    pub fn is_local_url(&self, manager: &AppManager, current_url: &PageUrl) -> (local: bool)
        ensures
            local == local_to(manager, current_url@),
    {
        let relative = manager.url.make_relative(current_url);
        is_local_origin(&relative, current_url, &manager.protocol_url, manager.dev)
    }

    /// How the origin of the page at `current_url` stands to the host: the
    /// application's own pages pass without the scope, every other page is held
    /// against it.
    pub fn access(&self, manager: &AppManager, current_url: &PageUrl) -> (access: Access)
        ensures
            access@ == access_of(manager, self@.label, current_url@),
    {
        if self.is_local_url(manager, current_url) {
            Access::Local
        } else {
            Access::Remote(manager.ipc_scope.remote_access_for(self.label.as_str(), current_url))
        }
    }

    /// Handles an invoke request that this webview received while it showed the page at
    /// `current_url`. The request is rejected, or handed on for the handler of a
    /// plugin or of the application; `responder` waits in the resolver of the request
    /// either way.
    pub fn on_message<R>(
        &self,
        manager: &AppManager,
        current_url: &PageUrl,
        request: InvokeRequest,
        responder: R,
    ) -> (dispatch: Dispatch<R>)
        ensures
            dispatched(
                dispatch,
                route_of(
                    access_of(manager, self@.label, current_url@),
                    self@.label,
                    current_url@.href,
                    request.cmd@,
                ),
                self@.label,
                request,
                responder,
            ),
    {
        let access = self.access(manager, current_url);
        let route = route(&access, self.label.as_str(), current_url.as_str(), request.cmd.as_str());
        match route {
            Route::Rejected { message } => Dispatch::Rejected(
                Reply {
                    responder,
                    cmd: request.cmd,
                    response: InvokeResponse::Rejected(InvokeError::from_message(message.as_str())),
                    callback: request.callback,
                    error: request.error,
                },
            ),
            Route::Plugin { plugin, command } => Dispatch::Plugin {
                plugin,
                invoke: Invoke {
                    message: InvokeMessage {
                        webview: self.label.clone(),
                        command,
                        payload: request.body,
                        headers: request.headers,
                    },
                    resolver: InvokeResolver::new(
                        responder,
                        request.cmd,
                        request.callback,
                        request.error,
                    ),
                },
            },
            Route::Command { command } => Dispatch::Command {
                invoke: Invoke {
                    message: InvokeMessage {
                        webview: self.label.clone(),
                        command,
                        payload: request.body,
                        headers: request.headers,
                    },
                    resolver: InvokeResolver::new(
                        responder,
                        request.cmd,
                        request.callback,
                        request.error,
                    ),
                },
            },
        }
    }

    /// Registers a listener of the script side for `event` from `source`, and says how
    /// to tell the script side. The listener gets the next id. `serialized_source` is
    /// the source written as JSON, which goes into the call as it is.
    pub fn listen_js(
        &mut self,
        listeners: &mut Listeners,
        source: EventSource,
        serialized_source: String,
        event: String,
        handler: CallbackFn,
    ) -> (registered: (EventId, JsCall))
        ensures
            registered.0 == old(listeners)@.next_event_id,
            final(listeners)@ == (ListenersView {
                next_event_id: following_id(old(listeners)@.next_event_id),
                ..old(listeners)@
            }),
            final(self)@ == (WebviewView {
                listeners: with_listener(
                    old(self)@.listeners,
                    listener_key(source@, event@),
                    registered.0,
                ),
                ..old(self)@
            }),
            is_listen_call(
                registered.1,
                old(listeners)@.listeners_object_name,
                event@,
                registered.0,
                serialized_source@,
                handler,
            ),
    {
        let event_id = listeners.next_event_id();
        let mut quoted_event = "'".to_owned();
        quoted_event.append(event.as_str());
        quoted_event.append("'");
        let call = JsCall::Listen {
            listeners_object_name: listeners.listeners_object_name().to_owned(),
            event: quoted_event,
            event_id,
            source: serialized_source,
            handler: callback_reference(handler),
        };
        self.js_event_listeners.register(source, event, event_id);
        (event_id, call)
    }

    /// Takes the listener `id` of the script side away, and says how to tell the script
    /// side. A webview that does not hold `id` stays as it is.
    pub fn unlisten_js(&mut self, listeners: &Listeners, event: &str, id: EventId) -> (call:
        JsCall)
        ensures
            final(self)@.window_label == old(self)@.window_label,
            final(self)@.label == old(self)@.label,
            !listens(old(self)@.listeners, id) ==> final(self)@.listeners == old(self)@.listeners,
            listens(old(self)@.listeners, id) ==> exists|key: ListenerKey| #[trigger]
                old(self)@.listeners.dom().contains(key) && old(self)@.listeners[key].contains(id)
                    && final(self)@.listeners == without_listener(old(self)@.listeners, key, id),
            is_unlisten_call(call, listeners@.listeners_object_name, event@, id),
    {
        let call = JsCall::Unlisten {
            listeners_object_name: listeners.listeners_object_name().to_owned(),
            event: event.to_owned(),
            event_id: id,
        };
        self.js_event_listeners.unregister(id);
        call
    }

    /// Says how to hand an emission to the listeners of the script side that it
    /// reaches.
    pub fn emit_js(&self, listeners: &Listeners, emit_args: &EmitArgs) -> (call: JsCall)
        ensures
            is_emit_call(
                call,
                listeners@.function_name,
                emit_args.event@,
                emit_args.payload@,
                delivered_ids(
                    self@.listeners,
                    self@.window_label,
                    emit_args.source@,
                    emit_args.event@,
                ),
            ),
    {
        JsCall::Emit {
            function_name: listeners.function_name().to_owned(),
            event: emit_args.event.clone(),
            payload: emit_args.payload.clone(),
            ids: self.js_event_listeners.matching_ids(
                self.window.label(),
                &emit_args.source,
                emit_args.event.as_str(),
            ),
        }
    }

    /// Whether this webview registered a listener that an emission of `event` from
    /// `source` reaches.
    pub fn has_js_listener(&self, source: &EventSource, event: &str) -> (found: bool)
        ensures
            found == delivers(self@.listeners, self@.window_label, source@, event@),
    {
        self.js_event_listeners.matches(self.window.label(), source, event)
    }
}

} // verus!
