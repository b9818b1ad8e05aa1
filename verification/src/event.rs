//! Event addressing: who emitted an event, and under which key a listener waits for it.

use vstd::prelude::*;
use vstd::std_specs::cmp::PartialEqSpecImpl;
use crate::json::{json_string, to_json_string};
use crate::text::{decimal, decimal_string};

verus! {

/// The handle of one registered listener.
pub type EventId = u32;

/// Where an event comes from.
#[derive(Debug, Hash)]
pub enum EventSource {
    /// No window or webview in particular.
    Global,
    /// The window with this label.
    Window { label: String },
    /// The webview with this label.
    Webview { label: String },
}

/// An event source as a value of the model: the variant and the label's characters.
pub enum EventSourceView {
    Global,
    Window { label: Seq<char> },
    Webview { label: Seq<char> },
}

impl View for EventSource {
    type V = EventSourceView;

    open spec fn view(&self) -> EventSourceView {
        match self {
            EventSource::Global => EventSourceView::Global,
            EventSource::Window { label } => EventSourceView::Window { label: label@ },
            EventSource::Webview { label } => EventSourceView::Webview { label: label@ },
        }
    }
}

impl Clone for EventSource {
    fn clone(&self) -> (copy: Self)
        ensures
            copy@ == self@,
    {
        match self {
            EventSource::Global => EventSource::Global,
            EventSource::Window { label } => EventSource::Window { label: label.clone() },
            EventSource::Webview { label } => EventSource::Webview { label: label.clone() },
        }
    }
}

impl PartialEq for EventSource {
    fn eq(&self, other: &Self) -> (equal: bool) {
        match (self, other) {
            (EventSource::Global, EventSource::Global) => true,
            (EventSource::Window { label: a }, EventSource::Window { label: b }) => *a == *b,
            (EventSource::Webview { label: a }, EventSource::Webview { label: b }) => *a == *b,
            _ => false,
        }
    }
}

impl PartialEqSpecImpl for EventSource {
    open spec fn obeys_eq_spec() -> bool {
        true
    }

    open spec fn eq_spec(&self, other: &Self) -> bool {
        self@ == other@
    }
}

impl Eq for EventSource {

}

/// The key under which listeners wait: a source and an event name.
#[derive(Debug, Hash)]
pub struct JsEventListenerKey {
    /// The source.
    pub source: EventSource,
    /// The event name.
    pub event: String,
}

/// A listener key as a value of the model.
pub struct ListenerKey {
    pub source: EventSourceView,
    pub event: Seq<char>,
}

impl View for JsEventListenerKey {
    type V = ListenerKey;

    open spec fn view(&self) -> ListenerKey {
        ListenerKey { source: self.source@, event: self.event@ }
    }
}

impl Clone for JsEventListenerKey {
    fn clone(&self) -> (copy: Self)
        ensures
            copy@ == self@,
    {
        JsEventListenerKey { source: self.source.clone(), event: self.event.clone() }
    }
}

impl PartialEq for JsEventListenerKey {
    fn eq(&self, other: &Self) -> (equal: bool) {
        self.source == other.source && self.event == other.event
    }
}

impl PartialEqSpecImpl for JsEventListenerKey {
    open spec fn obeys_eq_spec() -> bool {
        true
    }

    open spec fn eq_spec(&self, other: &Self) -> bool {
        self@ == other@
    }
}

impl Eq for JsEventListenerKey {

}

/// The event side of the application: the names that the script side knows it by, and
/// the counter that listener ids come from.
#[derive(Debug)]
pub struct Listeners {
    function_name: String,
    listeners_object_name: String,
    next_event_id: EventId,
}

/// The event side as a value of the model.
pub struct ListenersView {
    /// The name of the script function that receives emissions.
    pub function_name: Seq<char>,
    /// The name of the script object that keeps the listeners.
    pub listeners_object_name: Seq<char>,
    /// The id that the next listener gets.
    pub next_event_id: EventId,
}

impl View for Listeners {
    type V = ListenersView;

    closed spec fn view(&self) -> ListenersView {
        ListenersView {
            function_name: self.function_name@,
            listeners_object_name: self.listeners_object_name@,
            next_event_id: self.next_event_id,
        }
    }
}

/// The id that follows `id`: the next number, and zero after the greatest.
pub open spec fn following_id(id: EventId) -> EventId {
    if id == EventId::MAX {
        0
    } else {
        (id + 1) as EventId
    }
}

/// The id that is given out `n` ids after `id`.
pub open spec fn id_after(id: EventId, n: nat) -> EventId {
    ((id + n) % 0x1_0000_0000) as EventId
}

/// The ids come one after the other: the next id is the one that follows.
pub proof fn lemma_id_after_step(id: EventId, n: nat)
    ensures
        id_after(id, 0) == id,
        id_after(id, n + 1) == following_id(id_after(id, n)),
{
}

/// No id is given out twice before as many ids were given out as there are: of
/// 4294967296 ids in a row, any two differ.
pub proof fn lemma_ids_differ(id: EventId, m: nat, n: nat)
    requires
        m < n < 0x1_0000_0000,
    ensures
        id_after(id, m) != id_after(id, n),
{
}

impl Listeners {
    /// An event side that has given out no id yet.
    pub fn new(function_name: String, listeners_object_name: String) -> (listeners: Self)
        ensures
            listeners@ == (ListenersView {
                function_name: function_name@,
                listeners_object_name: listeners_object_name@,
                next_event_id: 0,
            }),
    {
        Listeners { function_name, listeners_object_name, next_event_id: 0 }
    }

    /// The name of the script function that receives emissions.
    pub fn function_name(&self) -> (name: &str)
        ensures
            name@ == self@.function_name,
    {
        self.function_name.as_str()
    }

    /// The name of the script object that keeps the listeners.
    pub fn listeners_object_name(&self) -> (name: &str)
        ensures
            name@ == self@.listeners_object_name,
    {
        self.listeners_object_name.as_str()
    }

    /// Gives out the next listener id. The ids count up from zero and start over
    /// after the greatest.
    pub fn next_event_id(&mut self) -> (id: EventId)
        ensures
            id == old(self)@.next_event_id,
            final(self)@ == (ListenersView {
                next_event_id: following_id(old(self)@.next_event_id),
                ..old(self)@
            }),
    {
        let id = self.next_event_id;
        self.next_event_id = if id == EventId::MAX {
            0
        } else {
            id + 1
        };
        id
    }
}

/// What an emission carries: where it comes from, the event, and the payload.
#[derive(Debug)]
pub struct EmitArgs {
    /// The source of the emission.
    pub source: EventSource,
    /// The name of the event.
    pub event: String,
    /// The payload, a JSON document as text.
    pub payload: String,
}

/// A call that the host makes into the script side of a webview.
#[derive(Debug)]
pub enum JsCall {
    /// Start to listen: put the listener `event_id`, with its `handler` and the
    /// `source` it listens to, into the listeners object under `event`. The event is
    /// its name between single quotes, the source is written as JSON, and the handler
    /// is the script text that names the callback.
    Listen {
        listeners_object_name: String,
        event: String,
        event_id: EventId,
        source: String,
        handler: String,
    },
    /// Stop to listen: take the listener `event_id` out of the listeners object.
    Unlisten { listeners_object_name: String, event: String, event_id: EventId },
    /// Hand an emission to the listeners `ids`.
    Emit { function_name: String, event: String, payload: String, ids: Vec<EventId> },
}

/// The numerals of `ids`, with commas between them.
pub open spec fn id_items(ids: Seq<EventId>) -> Seq<char>
    decreases ids.len(),
{
    if ids.len() == 0 {
        Seq::empty()
    } else if ids.len() == 1 {
        decimal(ids[0] as nat)
    } else {
        id_items(ids.drop_last()) + ","@ + decimal(ids.last() as nat)
    }
}

/// The ids as a JSON array of numbers.
pub open spec fn id_list(ids: Seq<EventId>) -> Seq<char> {
    "["@ + id_items(ids) + "]"@
}

/// The script that puts a listener into the listeners object `object` under `event`,
/// which is written as script text, with the numeral `id`, the source as JSON and the
/// handler as script text.
pub open spec fn listen_script(
    object: Seq<char>,
    event: Seq<char>,
    id: Seq<char>,
    source: Seq<char>,
    handler: Seq<char>,
) -> Seq<char> {
    "(function () {\n  if (window['"@
        + object
        + "'] === void 0) {\n    Object.defineProperty(window, '"@
        + object
        + "', { value: Object.create(null) });\n  }\n  if (window['"@
        + object
        + "']["@
        + event
        + "] === void 0) {\n    Object.defineProperty(window['"@
        + object
        + "'], "@
        + event
        + ", { value: [] });\n  }\n  const eventListeners = window['"@
        + object
        + "']["@
        + event
        + "]\n  const listener = {\n    id: "@
        + id
        + ",\n    source: "@
        + source
        + ",\n    handler: "@
        + handler
        + "\n  };\n  eventListeners.push(listener);\n})()"@
}

/// The script that takes the listener with the numeral `id` out of the listeners
/// object `object`, where it stands under the event named `event`.
pub open spec fn unlisten_script(object: Seq<char>, event: Seq<char>, id: Seq<char>) -> Seq<char> {
    "(function () {\n  const listeners = (window['"@
        + object
        + "'] || {})['"@
        + event
        + "']\n  if (listeners) {\n    const index = window['"@
        + object
        + "']['"@
        + event
        + "'].findIndex(e => e.id === "@
        + id
        + ")\n    if (index > -1) {\n      window['"@
        + object
        + "']['"@
        + event
        + "'].splice(index, 1)\n    }\n  }\n})()"@
}

/// The script that hands an emission to the script function `function`: the event
/// and the payload as JSON, and the ids of the listeners as a JSON array.
pub open spec fn emit_script(
    function: Seq<char>,
    event: Seq<char>,
    payload: Seq<char>,
    ids: Seq<char>,
) -> Seq<char> {
    "(function () { const fn = window['"@
        + function
        + "']; fn && fn({event: "@
        + event
        + ", payload: "@
        + payload
        + "}, "@
        + ids
        + ") })()"@
}

/// The script of a call into the script side.
pub open spec fn script_of(call: JsCall) -> Seq<char> {
    match call {
        JsCall::Listen { listeners_object_name, event, event_id, source, handler } => {
            listen_script(
                listeners_object_name@,
                event@,
                decimal(event_id as nat),
                source@,
                handler@,
            )
        },
        JsCall::Unlisten { listeners_object_name, event, event_id } => unlisten_script(
            listeners_object_name@,
            event@,
            decimal(event_id as nat),
        ),
        JsCall::Emit { function_name, event, payload, ids } => emit_script(
            function_name@,
            json_string(event@),
            payload@,
            id_list(ids@),
        ),
    }
}

/// Writes `ids` as a JSON array of numbers.
pub fn id_list_string(ids: &Vec<EventId>) -> (list: String)
    ensures
        list@ == id_list(ids@),
{
    let mut list = "[".to_owned();
    let mut i: usize = 0;
    while i < ids.len()
        invariant
            i <= ids.len(),
            list@ == "["@ + id_items(ids@.take(i as int)),
        decreases ids.len() - i,
    {
        proof {
            assert(ids@.take(i + 1).drop_last() =~= ids@.take(i as int));
        }
        if i > 0 {
            list.append(",");
        }
        let numeral = decimal_string(ids[i]);
        list.append(numeral.as_str());
        proof {
            let upto = ids@.take(i + 1);
            if i == 0 {
                assert(id_items(upto) == decimal(ids[0] as nat));
                assert(list@ =~= "["@ + id_items(upto));
            } else {
                assert(id_items(upto) == id_items(ids@.take(i as int)) + ","@ + decimal(
                    ids[i as int] as nat,
                ));
                assert(list@ =~= "["@ + id_items(upto));
            }
        }
        i += 1;
    }
    assert(ids@.take(ids@.len() as int) =~= ids@);
    list.append("]");
    list
}

/// The script that puts the listener `event_id` into the listeners object.
pub fn listen_js(
    listeners_object_name: &str,
    event: &str,
    event_id: EventId,
    serialized_source: &str,
    handler: &str,
) -> (script: String)
    ensures
        script@ == listen_script(
            listeners_object_name@,
            event@,
            decimal(event_id as nat),
            serialized_source@,
            handler@,
        ),
{
    let id = decimal_string(event_id);
    let mut script = "(function () {\n  if (window['".to_owned();
    script.append(listeners_object_name);
    script.append("'] === void 0) {\n    Object.defineProperty(window, '");
    script.append(listeners_object_name);
    script.append("', { value: Object.create(null) });\n  }\n  if (window['");
    script.append(listeners_object_name);
    script.append("'][");
    script.append(event);
    script.append("] === void 0) {\n    Object.defineProperty(window['");
    script.append(listeners_object_name);
    script.append("'], ");
    script.append(event);
    script.append(", { value: [] });\n  }\n  const eventListeners = window['");
    script.append(listeners_object_name);
    script.append("'][");
    script.append(event);
    script.append("]\n  const listener = {\n    id: ");
    script.append(id.as_str());
    script.append(",\n    source: ");
    script.append(serialized_source);
    script.append(",\n    handler: ");
    script.append(handler);
    script.append("\n  };\n  eventListeners.push(listener);\n})()");
    script
}

/// The script that takes the listener `event_id` out of the listeners object.
pub fn unlisten_js(listeners_object_name: &str, event_name: &str, event_id: EventId) -> (script:
    String)
    ensures
        script@ == unlisten_script(listeners_object_name@, event_name@, decimal(event_id as nat)),
{
    let id = decimal_string(event_id);
    let mut script = "(function () {\n  const listeners = (window['".to_owned();
    script.append(listeners_object_name);
    script.append("'] || {})['");
    script.append(event_name);
    script.append("']\n  if (listeners) {\n    const index = window['");
    script.append(listeners_object_name);
    script.append("']['");
    script.append(event_name);
    script.append("'].findIndex(e => e.id === ");
    script.append(id.as_str());
    script.append(")\n    if (index > -1) {\n      window['");
    script.append(listeners_object_name);
    script.append("']['");
    script.append(event_name);
    script.append("'].splice(index, 1)\n    }\n  }\n})()");
    script
}

/// The script that hands an emission to the listeners `ids`.
pub fn emit_js(function_name: &str, event: &str, payload: &str, ids: &Vec<EventId>) -> (script:
    String)
    ensures
        script@ == emit_script(function_name@, json_string(event@), payload@, id_list(ids@)),
{
    let event_json = to_json_string(event);
    let id_list = id_list_string(ids);
    let mut script = "(function () { const fn = window['".to_owned();
    script.append(function_name);
    script.append("']; fn && fn({event: ");
    script.append(event_json.as_str());
    script.append(", payload: ");
    script.append(payload);
    script.append("}, ");
    script.append(id_list.as_str());
    script.append(") })()");
    script
}

impl JsCall {
    /// The script of the call, to evaluate in the webview.
    pub fn script(&self) -> (script: String)
        ensures
            script@ == script_of(*self),
    {
        match self {
            JsCall::Listen { listeners_object_name, event, event_id, source, handler } => listen_js(
                listeners_object_name.as_str(),
                event.as_str(),
                *event_id,
                source.as_str(),
                handler.as_str(),
            ),
            JsCall::Unlisten { listeners_object_name, event, event_id } => unlisten_js(
                listeners_object_name.as_str(),
                event.as_str(),
                *event_id,
            ),
            JsCall::Emit { function_name, event, payload, ids } => emit_js(
                function_name.as_str(),
                event.as_str(),
                payload.as_str(),
                ids,
            ),
        }
    }
}

} // verus!
