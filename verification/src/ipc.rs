//! Invoke requests and their answers: the message that reaches a handler, the
//! single-use resolver that answers it, and the script call that carries the answer
//! back into the webview.

use http::{HeaderMap, HeaderValue};
use vstd::prelude::*;
use crate::json::{json_string, to_json_string};
use crate::text::{decimal, decimal_string};

verus! {

/// `http::HeaderMap`, carried from the request to the handler as it is.
#[verifier::external_type_specification]
#[verifier::external_body]
#[verifier::reject_recursive_types(T)]
pub struct ExHeaderMap<T>(HeaderMap<T>);

/// `http::HeaderValue`, what a `HeaderMap` holds.
#[verifier::external_type_specification]
#[verifier::external_body]
pub struct ExHeaderValue(HeaderValue);

/// The number under which the webview keeps a callback function.
#[derive(Debug, Clone, Copy, PartialEq, Eq, Hash, Structural)]
pub struct CallbackFn(pub u32);

/// The body of an invoke request.
#[derive(Debug)]
pub enum InvokeBody {
    /// A JSON document, as text.
    Json(String),
    /// Bytes.
    Raw(Vec<u8>),
}

/// The value that a request is rejected with: a JSON document, as text.
#[derive(Debug)]
pub struct InvokeError(pub String);

/// The answer to an invoke request.
#[derive(Debug)]
pub enum InvokeResponse {
    /// The request succeeded, with this JSON document as its result.
    Resolved(String),
    /// The request failed.
    Rejected(InvokeError),
}

/// An answer as a value of the model.
pub enum InvokeResponseView {
    Resolved(Seq<char>),
    Rejected(Seq<char>),
}

impl View for InvokeResponse {
    type V = InvokeResponseView;

    open spec fn view(&self) -> InvokeResponseView {
        match self {
            InvokeResponse::Resolved(value) => InvokeResponseView::Resolved(value@),
            InvokeResponse::Rejected(error) => InvokeResponseView::Rejected(error.0@),
        }
    }
}

/// The text that a serialized value is rejected with: the value itself where it could
/// be serialized, and where it could not, the reason as a JSON string.
pub open spec fn rejection_text(serialized: Result<String, String>) -> Seq<char> {
    match serialized {
        Ok(value) => value@,
        Err(reason) => json_string(reason@),
    }
}

/// The answer that a serialized result stands for: success with the result where it
/// could be serialized, and a rejection with the reason where it could not.
pub open spec fn response_of(serialized: Result<String, String>) -> InvokeResponseView {
    match serialized {
        Ok(value) => InvokeResponseView::Resolved(value@),
        Err(reason) => InvokeResponseView::Rejected(json_string(reason@)),
    }
}

impl InvokeError {
    /// A rejection that carries `message` as a JSON string.
    pub fn from_message(message: &str) -> (error: Self)
        ensures
            error.0@ == json_string(message@),
    {
        InvokeError(to_json_string(message))
    }

    /// A rejection that carries a serialized value. Where the value could not be
    /// serialized, the rejection carries the reason instead.
    pub fn from_serialized(serialized: Result<String, String>) -> (error: Self)
        ensures
            error.0@ == rejection_text(serialized),
    {
        match serialized {
            Ok(value) => InvokeError(value),
            Err(reason) => InvokeError::from_message(reason.as_str()),
        }
    }
}

/// The name under which the webview finds the callback `id`.
pub open spec fn callback_name(id: u32) -> Seq<char> {
    "window['_"@ + decimal(id as nat) + "']"@
}

/// The script that calls the callback `id` with `payload`.
pub open spec fn callback_call(id: u32, payload: Seq<char>) -> Seq<char> {
    callback_name(id) + "("@ + payload + ")"@
}

/// The script that brings `response` back into the webview: a call of the success
/// callback with the result, or of the error callback with the rejection.
pub open spec fn response_script(response: InvokeResponseView, callback: u32, error: u32) -> Seq<
    char,
> {
    match response {
        InvokeResponseView::Resolved(value) => callback_call(callback, value),
        InvokeResponseView::Rejected(value) => callback_call(error, value),
    }
}

/// The name under which the webview finds `callback`.
pub fn callback_reference(callback: CallbackFn) -> (name: String)
    ensures
        name@ == callback_name(callback.0),
{
    let mut name = "window['_".to_owned();
    let id = decimal_string(callback.0);
    name.append(id.as_str());
    name.append("']");
    name
}

impl InvokeResponse {
    /// The answer that a serialized result stands for.
    pub fn from_serialized(serialized: Result<String, String>) -> (response: Self)
        ensures
            response@ == response_of(serialized),
    {
        match serialized {
            Ok(value) => InvokeResponse::Resolved(value),
            Err(reason) => InvokeResponse::Rejected(InvokeError::from_message(reason.as_str())),
        }
    }

    /// The script that brings this answer back into the webview.
    pub fn script(&self, callback: CallbackFn, error: CallbackFn) -> (script: String)
        ensures
            script@ == response_script(self@, callback.0, error.0),
    {
        let (target, payload) = match self {
            InvokeResponse::Resolved(value) => (callback, value.as_str()),
            InvokeResponse::Rejected(value) => (error, value.0.as_str()),
        };
        let mut script = callback_reference(target);
        script.append("(");
        script.append(payload);
        script.append(")");
        script
    }
}

/// What a handler receives of an invoke request.
#[derive(Debug)]
pub struct InvokeMessage {
    /// The label of the webview that sent the request.
    pub webview: String,
    /// The command to run: for a plugin's command, its name without the plugin.
    pub command: String,
    /// The body of the request.
    pub payload: InvokeBody,
    /// The headers of the request.
    pub headers: HeaderMap,
}

/// An answer on its way: the responder that will carry it, and what it carries.
pub struct Reply<R> {
    /// The responder that was waiting in the resolver.
    pub responder: R,
    /// The command of the request, as the webview sent it.
    pub cmd: String,
    /// The answer.
    pub response: InvokeResponse,
    /// The callback for success.
    pub callback: CallbackFn,
    /// The callback for failure.
    pub error: CallbackFn,
}

impl<R> Reply<R> {
    /// The script that brings the answer back into the webview.
    pub fn script(&self) -> (script: String)
        ensures
            script@ == response_script(self.response@, self.callback.0, self.error.0),
    {
        self.response.script(self.callback, self.error)
    }
}

/// Answers one invoke request, once. The responder waits in a slot that the first
/// answer empties; an answer that finds the slot empty is dropped.
pub struct InvokeResolver<R> {
    responder: Option<R>,
    cmd: String,
    callback: CallbackFn,
    error: CallbackFn,
}

/// A resolver as a value of the model.
pub struct ResolverView<R> {
    /// The responder, while no answer was given.
    pub responder: Option<R>,
    /// The command of the request, as the webview sent it.
    pub cmd: Seq<char>,
    /// The callback for success.
    pub callback: CallbackFn,
    /// The callback for failure.
    pub error: CallbackFn,
}

/// A reply as a value of the model.
pub struct ReplyView<R> {
    pub responder: R,
    pub cmd: Seq<char>,
    pub response: InvokeResponseView,
    pub callback: CallbackFn,
    pub error: CallbackFn,
}

impl<R> View for Reply<R> {
    type V = ReplyView<R>;

    open spec fn view(&self) -> ReplyView<R> {
        ReplyView {
            responder: self.responder,
            cmd: self.cmd@,
            response: self.response@,
            callback: self.callback,
            error: self.error,
        }
    }
}

impl<R> View for InvokeResolver<R> {
    type V = ResolverView<R>;

    closed spec fn view(&self) -> ResolverView<R> {
        ResolverView {
            responder: self.responder,
            cmd: self.cmd@,
            callback: self.callback,
            error: self.error,
        }
    }
}

/// The reply of an optional reply, as a value of the model.
pub open spec fn reply_view<R>(reply: Option<Reply<R>>) -> Option<ReplyView<R>> {
    match reply {
        Some(r) => Some(r@),
        None => None,
    }
}

/// The resolver after an answer was handed to it: the slot is empty.
pub open spec fn spent<R>(resolver: ResolverView<R>) -> ResolverView<R> {
    ResolverView { responder: None, ..resolver }
}

/// The reply that an answer handed to the resolver gives: one while the responder
/// waits in the slot, none after that.
pub open spec fn reply_to<R>(resolver: ResolverView<R>, response: InvokeResponseView) -> Option<
    ReplyView<R>,
> {
    match resolver.responder {
        Some(responder) => Some(
            ReplyView {
                responder,
                cmd: resolver.cmd,
                response,
                callback: resolver.callback,
                error: resolver.error,
            },
        ),
        None => None,
    }
}

/// Of two answers handed to a resolver, the first alone can give a reply: whatever the
/// first was, the second gives none, and it leaves the resolver as the first left it.
pub proof fn lemma_second_answer_dropped<R>(
    resolver: ResolverView<R>,
    first: InvokeResponseView,
    second: InvokeResponseView,
)
    ensures
        reply_to(spent(resolver), second) is None,
        spent(spent(resolver)) == spent(resolver),
        reply_to(resolver, first) is Some <==> resolver.responder is Some,
{
}

impl<R> InvokeResolver<R> {
    /// A resolver for the request `cmd`, with `responder` waiting in its slot.
    pub fn new(responder: R, cmd: String, callback: CallbackFn, error: CallbackFn) -> (resolver:
        Self)
        ensures
            resolver@ == (ResolverView { responder: Some(responder), cmd: cmd@, callback, error }),
    {
        InvokeResolver { responder: Some(responder), cmd, callback, error }
    }

    /// Whether no answer was given yet.
    pub fn is_pending(&self) -> (pending: bool)
        ensures
            pending == self@.responder is Some,
    {
        self.responder.is_some()
    }

    /// The command of the request, as the webview sent it.
    pub fn cmd(&self) -> (cmd: &str)
        ensures
            cmd@ == self@.cmd,
    {
        self.cmd.as_str()
    }

    /// Hands `response` to the resolver. The first answer takes the responder from the
    /// slot and comes back as a reply to send; any later one is dropped.
    pub fn respond(&mut self, response: InvokeResponse) -> (reply: Option<Reply<R>>)
        ensures
            reply_view(reply) == reply_to(old(self)@, response@),
            final(self)@ == spent(old(self)@),
    {
        match self.responder.take() {
            Some(responder) => Some(
                Reply {
                    responder,
                    cmd: self.cmd.clone(),
                    response,
                    callback: self.callback,
                    error: self.error,
                },
            ),
            None => None,
        }
    }

    /// Answers with the serialized result of the request. Where the result could not
    /// be serialized, the request is rejected with the reason.
    pub fn resolve(&mut self, serialized: Result<String, String>) -> (reply: Option<Reply<R>>)
        ensures
            reply_view(reply) == reply_to(old(self)@, response_of(serialized)),
            final(self)@ == spent(old(self)@),
    {
        self.respond(InvokeResponse::from_serialized(serialized))
    }

    /// Rejects the request with a serialized value. Where the value could not be
    /// serialized, the request is rejected with the reason.
    pub fn reject(&mut self, serialized: Result<String, String>) -> (reply: Option<Reply<R>>)
        ensures
            reply_view(reply) == reply_to(
                old(self)@,
                InvokeResponseView::Rejected(rejection_text(serialized)),
            ),
            final(self)@ == spent(old(self)@),
    {
        self.respond(InvokeResponse::Rejected(InvokeError::from_serialized(serialized)))
    }

    /// Rejects the request with `message`.
    pub fn reject_with_message(&mut self, message: &str) -> (reply: Option<Reply<R>>)
        ensures
            reply_view(reply) == reply_to(
                old(self)@,
                InvokeResponseView::Rejected(json_string(message@)),
            ),
            final(self)@ == spent(old(self)@),
    {
        self.respond(InvokeResponse::Rejected(InvokeError::from_message(message)))
    }

    /// Rejects the request with `error`.
    pub fn invoke_error(&mut self, error: InvokeError) -> (reply: Option<Reply<R>>)
        ensures
            reply_view(reply) == reply_to(old(self)@, InvokeResponseView::Rejected(error.0@)),
            final(self)@ == spent(old(self)@),
    {
        self.respond(InvokeResponse::Rejected(error))
    }
}

/// A request on its way to a handler: the message, and the resolver that answers it.
pub struct Invoke<R> {
    /// The message.
    pub message: InvokeMessage,
    /// The resolver.
    pub resolver: InvokeResolver<R>,
}

} // verus!
