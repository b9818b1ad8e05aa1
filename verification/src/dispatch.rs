//! The way of an invoke request: the origin of the page that sent it is classified,
//! a remote origin is held against the scope of remote access, and the request is
//! rejected or routed to the handler of a plugin or of the application.

use vstd::prelude::*;
use crate::ipc::{
    reply_to, reply_view, spent, Invoke, InvokeResolver, InvokeResponseView, Reply, ReplyView,
    ResolverView,
};
use crate::json::json_string;
use crate::manager::AppManager;
use crate::scope::{contains_text, decide, ScopeDecision, ScopeDecisionView};
use crate::text::{
    after_first, before_first, lemma_split_first, lemma_split_joined, rest_after, same_text,
    skip_chars, split_first, starts_with,
};
use crate::url::{url_make_relative, PageUrl, PageUrlView};
use crate::webview::{
    command_not_found_error_message, command_not_found_message, ipc_scope_domain_error_message,
    ipc_scope_not_found_error_message, ipc_scope_window_error_message, scope_domain_message,
    scope_not_found_message, scope_window_message, InvokeRequest, CHANNEL_PLUGIN_NAME,
    DEV_DOMAIN, IPC_SCOPE_DOES_NOT_ALLOW, PLUGIN_PREFIX, PLUGIN_SEPARATOR,
};

verus! {

/// Whether a page is the application's own. It is where its address can be written
/// relative to the application's address (`relative`), where it has the scheme and
/// domain of the resource protocol, and, in development, where its domain is the
/// development domain.
pub open spec fn is_local(relative: bool, current: PageUrlView, protocol: PageUrlView, dev: bool)
    -> bool {
    ||| relative
    ||| (current.scheme == protocol.scheme && current.domain == protocol.domain)
    ||| (dev && current.domain == Some(DEV_DOMAIN@))
}

/// Whether the page at `current_url` is the application's own, given the reference
/// that leads to it from the application's address, if there is one.
pub fn is_local_origin(
    relative: &Option<String>,
    current_url: &PageUrl,
    protocol_url: &PageUrl,
    dev: bool,
) -> (local: bool)
    ensures
        local == is_local(relative is Some, current_url@, protocol_url@, dev),
{
    if relative.is_some() {
        return true;
    }
    let same_scheme = same_text(current_url.scheme(), protocol_url.scheme());
    let same_domain = match (current_url.domain(), protocol_url.domain()) {
        (Some(a), Some(b)) => same_text(a, b),
        (None, None) => true,
        _ => false,
    };
    if same_scheme && same_domain {
        return true;
    }
    if !dev {
        return false;
    }
    match current_url.domain() {
        Some(domain) => same_text(domain, DEV_DOMAIN),
        None => false,
    }
}

/// How the origin of a request stands to the host.
#[derive(Debug)]
pub enum Access {
    /// The page is the application's own: the scope is not asked.
    Local,
    /// The page is remote, and this is what the scope decided.
    Remote(ScopeDecision),
}

/// An access as a value of the model.
pub enum AccessView {
    Local,
    Remote(ScopeDecisionView),
}

impl View for Access {
    type V = AccessView;

    open spec fn view(&self) -> AccessView {
        match self {
            Access::Local => AccessView::Local,
            Access::Remote(decision) => AccessView::Remote(decision@),
        }
    }
}

/// What becomes of a request: it is rejected, or it goes to a plugin's command, or to
/// a command of the application.
#[derive(Debug)]
pub enum Route {
    /// The request is rejected with `message`.
    Rejected { message: String },
    /// The request is for the command `command` of the plugin `plugin`.
    Plugin { plugin: String, command: String },
    /// The request is for the command `command` of the application.
    Command { command: String },
}

/// A route as a value of the model.
pub enum RouteView {
    Rejected { message: Seq<char> },
    Plugin { plugin: Seq<char>, command: Seq<char> },
    Command { command: Seq<char> },
}

impl View for Route {
    type V = RouteView;

    open spec fn view(&self) -> RouteView {
        match self {
            Route::Rejected { message } => RouteView::Rejected { message: message@ },
            Route::Plugin { plugin, command } => RouteView::Plugin {
                plugin: plugin@,
                command: command@,
            },
            Route::Command { command } => RouteView::Command { command: command@ },
        }
    }
}

/// Whether `cmd` names the command of a plugin.
pub open spec fn is_plugin_command(cmd: Seq<char>) -> bool {
    PLUGIN_PREFIX@.is_prefix_of(cmd)
}

/// The plugin that `cmd` names: what stands between the prefix and the first separator.
pub open spec fn plugin_of(cmd: Seq<char>) -> Seq<char> {
    before_first(rest_after(cmd, PLUGIN_PREFIX@.len() as int), PLUGIN_SEPARATOR)
}

/// The command that `cmd` names in its plugin: what stands behind the first separator,
/// and nothing where there is no separator.
pub open spec fn plugin_command_of(cmd: Seq<char>) -> Seq<char> {
    after_first(rest_after(cmd, PLUGIN_PREFIX@.len() as int), PLUGIN_SEPARATOR)
}

/// What is said to a remote origin that the scope refused: which of the window and the
/// domain no grant names.
pub open spec fn denial_message(
    matches_window: bool,
    matches_domain: bool,
    label: Seq<char>,
    url: Seq<char>,
) -> Seq<char> {
    if matches_window {
        scope_domain_message(url)
    } else if matches_domain {
        scope_window_message(label)
    } else {
        scope_not_found_message(label, url)
    }
}

/// Whether `plugin` is open to an origin with this access: every plugin to the
/// application's own pages, and to a remote origin the channel plugin and the plugins
/// of its grant.
pub open spec fn plugin_allowed(access: AccessView, plugin: Seq<char>) -> bool {
    match access {
        AccessView::Local => true,
        AccessView::Remote(ScopeDecisionView::Allowed(plugins)) => plugin == CHANNEL_PLUGIN_NAME@
            || plugins.contains(plugin),
        AccessView::Remote(ScopeDecisionView::Denied { .. }) => false,
    }
}

/// What becomes of the request `cmd` from the webview `label` showing `url`, for an
/// origin with this access.
///
/// A remote origin that the scope refused is rejected, whatever it asks for. A command
/// of a plugin goes to that plugin if the plugin is open to the origin, and is
/// rejected if it is not. Any other command goes to the application.
pub open spec fn route_of(access: AccessView, label: Seq<char>, url: Seq<char>, cmd: Seq<char>)
    -> RouteView {
    match access {
        AccessView::Remote(ScopeDecisionView::Denied { matches_window, matches_domain }) => {
            RouteView::Rejected {
                message: denial_message(matches_window, matches_domain, label, url),
            }
        },
        _ => {
            if is_plugin_command(cmd) {
                if plugin_allowed(access, plugin_of(cmd)) {
                    RouteView::Plugin { plugin: plugin_of(cmd), command: plugin_command_of(cmd) }
                } else {
                    RouteView::Rejected { message: IPC_SCOPE_DOES_NOT_ALLOW@ }
                }
            } else {
                RouteView::Command { command: cmd }
            }
        },
    }
}

/// A command written as the prefix, a plugin's name, the separator and a name is read
/// as that plugin and that name.
pub proof fn lemma_plugin_command_parts(plugin: Seq<char>, command: Seq<char>)
    requires
        !plugin.contains(PLUGIN_SEPARATOR),
    ensures
        is_plugin_command(PLUGIN_PREFIX@ + plugin + seq![PLUGIN_SEPARATOR] + command),
        plugin_of(PLUGIN_PREFIX@ + plugin + seq![PLUGIN_SEPARATOR] + command) == plugin,
        plugin_command_of(PLUGIN_PREFIX@ + plugin + seq![PLUGIN_SEPARATOR] + command) == command,
{
    let cmd = PLUGIN_PREFIX@ + plugin + seq![PLUGIN_SEPARATOR] + command;
    let n = PLUGIN_PREFIX@.len() as int;
    assert(cmd.subrange(0, n) =~= PLUGIN_PREFIX@);
    assert(cmd.skip(n) =~= plugin + seq![PLUGIN_SEPARATOR] + command);
    lemma_split_joined(plugin, PLUGIN_SEPARATOR, command);
}

/// A command that ends with the plugin's name is read as that plugin and an empty
/// name, which no handler takes.
pub proof fn lemma_plugin_without_command(plugin: Seq<char>)
    requires
        !plugin.contains(PLUGIN_SEPARATOR),
    ensures
        is_plugin_command(PLUGIN_PREFIX@ + plugin),
        plugin_of(PLUGIN_PREFIX@ + plugin) == plugin,
        plugin_command_of(PLUGIN_PREFIX@ + plugin) == Seq::<char>::empty(),
{
    let cmd = PLUGIN_PREFIX@ + plugin;
    let n = PLUGIN_PREFIX@.len() as int;
    assert(cmd.subrange(0, n) =~= PLUGIN_PREFIX@);
    assert(cmd.skip(n) =~= plugin);
    lemma_split_first(plugin, PLUGIN_SEPARATOR);
    assert(after_first(plugin, PLUGIN_SEPARATOR) =~= Seq::<char>::empty());
}

/// The application's own pages pass without the scope: whatever grants there are, and
/// if there are none, a request from a local origin is never rejected, and a plugin's
/// command reaches its plugin.
pub proof fn lemma_local_bypasses_scope(label: Seq<char>, url: Seq<char>, cmd: Seq<char>)
    ensures
        !(route_of(AccessView::Local, label, url, cmd) is Rejected),
        is_plugin_command(cmd) ==> route_of(AccessView::Local, label, url, cmd)
            == (RouteView::Plugin { plugin: plugin_of(cmd), command: plugin_command_of(cmd) }),
        !is_plugin_command(cmd) ==> route_of(AccessView::Local, label, url, cmd)
            == (RouteView::Command { command: cmd }),
{
}

/// A page that is the application's own has local access, whatever the grants are.
pub proof fn lemma_local_access(manager: &AppManager, label: Seq<char>, url: PageUrlView)
    requires
        local_to(manager, url),
    ensures
        access_of(manager, label, url) == AccessView::Local,
{
}

/// A remote page has the access that the scope decides.
pub proof fn lemma_remote_access(manager: &AppManager, label: Seq<char>, url: PageUrlView)
    requires
        !local_to(manager, url),
    ensures
        access_of(manager, label, url) == AccessView::Remote(
            decide(manager.ipc_scope@, label, url),
        ),
{
}

/// A remote origin that the scope refused is rejected whatever it asks for: no handler
/// runs.
pub proof fn lemma_denied_is_rejected(
    matches_window: bool,
    matches_domain: bool,
    label: Seq<char>,
    url: Seq<char>,
    cmd: Seq<char>,
)
    ensures
        route_of(
            AccessView::Remote(ScopeDecisionView::Denied { matches_window, matches_domain }),
            label,
            url,
            cmd,
        ) == (RouteView::Rejected {
            message: denial_message(matches_window, matches_domain, label, url),
        }),
{
}

/// A remote origin that calls a plugin which its grant does not open, and which is not
/// the channel plugin, is rejected with the fixed message: the plugin does not run.
pub proof fn lemma_closed_plugin_rejected(
    plugins: Set<Seq<char>>,
    label: Seq<char>,
    url: Seq<char>,
    cmd: Seq<char>,
)
    requires
        is_plugin_command(cmd),
        !plugins.contains(plugin_of(cmd)),
        plugin_of(cmd) != CHANNEL_PLUGIN_NAME@,
    ensures
        route_of(AccessView::Remote(ScopeDecisionView::Allowed(plugins)), label, url, cmd) == (
        RouteView::Rejected { message: IPC_SCOPE_DOES_NOT_ALLOW@ }),
{
}

/// A remote origin that the scope admits reaches the plugins of its grant and the
/// channel plugin.
pub proof fn lemma_open_plugin_routed(
    plugins: Set<Seq<char>>,
    label: Seq<char>,
    url: Seq<char>,
    cmd: Seq<char>,
)
    requires
        is_plugin_command(cmd),
        plugins.contains(plugin_of(cmd)) || plugin_of(cmd) == CHANNEL_PLUGIN_NAME@,
    ensures
        route_of(AccessView::Remote(ScopeDecisionView::Allowed(plugins)), label, url, cmd) == (
        RouteView::Plugin { plugin: plugin_of(cmd), command: plugin_command_of(cmd) }),
{
}

/// A command without the plugin prefix goes to the application under its whole name,
/// for every origin that the scope did not refuse; where no handler takes it, the
/// rejection names it.
pub proof fn lemma_direct_command_routed<R>(
    access: AccessView,
    label: Seq<char>,
    url: Seq<char>,
    cmd: Seq<char>,
    resolver: ResolverView<R>,
)
    requires
        !(access matches AccessView::Remote(ScopeDecisionView::Denied { .. })),
        !is_plugin_command(cmd),
        resolver.responder is Some,
    ensures
        route_of(access, label, url, cmd) == (RouteView::Command { command: cmd }),
        reply_to(
            resolver,
            InvokeResponseView::Rejected(json_string(command_not_found_message(cmd))),
        ) matches Some(reply) && reply.response == InvokeResponseView::Rejected(
            json_string("Command "@ + cmd + " not found"@),
        ) && reply.error == resolver.error,
{
}

/// Routes the request `cmd` from the webview `label` showing `url`.
pub fn route(access: &Access, label: &str, url: &str, cmd: &str) -> (route: Route)
    ensures
        route@ == route_of(access@, label@, url@, cmd@),
{
    match access {
        Access::Remote(ScopeDecision::Denied { matches_window, matches_domain }) => {
            let message = if *matches_window {
                ipc_scope_domain_error_message(url)
            } else if *matches_domain {
                ipc_scope_window_error_message(label)
            } else {
                ipc_scope_not_found_error_message(label, url)
            };
            return Route::Rejected { message };
        },
        _ => {},
    }
    if !starts_with(cmd, PLUGIN_PREFIX) {
        return Route::Command { command: cmd.to_owned() };
    }
    let rest = skip_chars(cmd, PLUGIN_PREFIX.unicode_len());
    let (plugin, command) = split_first(rest.as_str(), PLUGIN_SEPARATOR);
    let allowed = match access {
        Access::Local => true,
        Access::Remote(ScopeDecision::Allowed(plugins)) => same_text(
            plugin.as_str(),
            CHANNEL_PLUGIN_NAME,
        ) || contains_text(plugins, plugin.as_str()),
        Access::Remote(ScopeDecision::Denied { .. }) => false,
    };
    if allowed {
        Route::Plugin { plugin, command }
    } else {
        Route::Rejected { message: IPC_SCOPE_DOES_NOT_ALLOW.to_owned() }
    }
}

/// Whether the page at `url` is the application's own.
pub open spec fn local_to(manager: &AppManager, url: PageUrlView) -> bool {
    is_local(
        url_make_relative(manager.url@.href, url.href) is Some,
        url,
        manager.protocol_url@,
        manager.dev,
    )
}

/// How the origin of the page at `url`, shown in the webview `label`, stands to the
/// host.
pub open spec fn access_of(manager: &AppManager, label: Seq<char>, url: PageUrlView) -> AccessView {
    if local_to(manager, url) {
        AccessView::Local
    } else {
        AccessView::Remote(decide(manager.ipc_scope@, label, url))
    }
}

/// What the dispatcher made of a request.
pub enum Dispatch<R> {
    /// The request was rejected: this is the answer to send. No handler is to run.
    Rejected(Reply<R>),
    /// The request is for the plugin `plugin`, whose handler is to run on `invoke`.
    Plugin { plugin: String, invoke: Invoke<R> },
    /// The request is for the application, whose handler is to run on `invoke`.
    Command { invoke: Invoke<R> },
}

/// Whether `invoke` hands the request on as it came: from the webview `label`, for
/// `command`, with the request's body and headers, and with a resolver in which
/// `responder` waits.
pub open spec fn carries<R>(
    invoke: Invoke<R>,
    label: Seq<char>,
    command: Seq<char>,
    request: InvokeRequest,
    responder: R,
) -> bool {
    &&& invoke.message.webview@ == label
    &&& invoke.message.command@ == command
    &&& invoke.message.payload == request.body
    &&& invoke.message.headers == request.headers
    &&& invoke.resolver@ == (ResolverView {
        responder: Some(responder),
        cmd: request.cmd@,
        callback: request.callback,
        error: request.error,
    })
}

/// Whether `dispatch` is what `route` asks for: the rejection with the route's message
/// on the request's error callback, or the request handed on to the plugin or the
/// application.
pub open spec fn dispatched<R>(
    dispatch: Dispatch<R>,
    route: RouteView,
    label: Seq<char>,
    request: InvokeRequest,
    responder: R,
) -> bool {
    match route {
        RouteView::Rejected { message } => dispatch matches Dispatch::Rejected(reply) && reply@
            == (ReplyView {
            responder,
            cmd: request.cmd@,
            response: InvokeResponseView::Rejected(json_string(message)),
            callback: request.callback,
            error: request.error,
        }),
        RouteView::Plugin { plugin, command } => dispatch matches Dispatch::Plugin {
            plugin: name,
            invoke,
        } && name@ == plugin && carries(invoke, label, command, request, responder),
        RouteView::Command { command } => dispatch matches Dispatch::Command { invoke } && carries(
            invoke,
            label,
            command,
            request,
            responder,
        ),
    }
}

/// Answers for a handler that did not take the request: the request is rejected,
/// because its command was not found. Where a handler took it, nothing is done.
pub fn answer_unhandled<R>(
    handled: bool,
    command: &str,
    resolver: &mut InvokeResolver<R>,
) -> (reply: Option<Reply<R>>)
    ensures
        handled ==> reply is None && *final(resolver) == *old(resolver),
        !handled ==> reply_view(reply) == reply_to(
            old(resolver)@,
            InvokeResponseView::Rejected(json_string(command_not_found_message(command@))),
        ) && final(resolver)@ == spent(old(resolver)@),
{
    if handled {
        None
    } else {
        let message = command_not_found_error_message(command);
        resolver.reject_with_message(message.as_str())
    }
}

} // verus!
