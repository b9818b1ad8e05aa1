//! The listener registry of one webview: which listener ids wait under which key,
//! and which emissions reach them.

use vstd::prelude::*;
use crate::event::{EventId, EventSource, EventSourceView, JsEventListenerKey, ListenerKey};
use crate::text::same_text;

verus! {

/// The key made of a source and an event name.
pub open spec fn listener_key(source: EventSourceView, event: Seq<char>) -> ListenerKey {
    ListenerKey { source, event }
}

/// Whether an emission of `event` from `source` reaches the listeners that wait under
/// `key` in a webview of the window `window_label`.
///
/// A global emission reaches every listener of the event. An emission from the
/// webview's own window reaches the listeners of that window, those of the webview of
/// the same label, and the global ones. Any other emission reaches the listeners of
/// exactly its source and the global ones.
pub open spec fn key_matches(
    key: ListenerKey,
    window_label: Seq<char>,
    source: EventSourceView,
    event: Seq<char>,
) -> bool {
    key.event == event && match source {
        EventSourceView::Global => true,
        EventSourceView::Window { label } => if label == window_label {
            key.source == source || key.source == (EventSourceView::Webview { label })
                || key.source == EventSourceView::Global
        } else {
            key.source == source || key.source == EventSourceView::Global
        },
        EventSourceView::Webview { label } => key.source == source || key.source
            == EventSourceView::Global,
    }
}

/// Whether an emission of `event` from `source` reaches any listener of the registry
/// `listeners` in a webview of the window `window_label`.
pub open spec fn delivers(
    listeners: Map<ListenerKey, Set<EventId>>,
    window_label: Seq<char>,
    source: EventSourceView,
    event: Seq<char>,
) -> bool {
    exists|key: ListenerKey| #[trigger]
        listeners.dom().contains(key) && key_matches(key, window_label, source, event)
}

/// The listeners that an emission of `event` from `source` reaches.
pub open spec fn delivered_ids(
    listeners: Map<ListenerKey, Set<EventId>>,
    window_label: Seq<char>,
    source: EventSourceView,
    event: Seq<char>,
) -> Set<EventId> {
    Set::new(
        |id: EventId|
            exists|key: ListenerKey| #[trigger]
                listeners.dom().contains(key) && key_matches(key, window_label, source, event)
                    && listeners[key].contains(id),
    )
}

/// The ids that wait under `key`: none where the registry does not hold the key.
pub open spec fn ids_under(listeners: Map<ListenerKey, Set<EventId>>, key: ListenerKey) -> Set<
    EventId,
> {
    if listeners.dom().contains(key) {
        listeners[key]
    } else {
        Set::empty()
    }
}

/// Whether `id` waits under some key of the registry.
pub open spec fn listens(listeners: Map<ListenerKey, Set<EventId>>, id: EventId) -> bool {
    exists|key: ListenerKey| #[trigger]
        listeners.dom().contains(key) && listeners[key].contains(id)
}

/// The registry with `id` added under `key`; the key is made if it was not there.
pub open spec fn with_listener(
    listeners: Map<ListenerKey, Set<EventId>>,
    key: ListenerKey,
    id: EventId,
) -> Map<ListenerKey, Set<EventId>> {
    listeners.insert(key, ids_under(listeners, key).insert(id))
}

/// The registry with `id` taken from under `key`; a key left without ids goes too.
pub open spec fn without_listener(
    listeners: Map<ListenerKey, Set<EventId>>,
    key: ListenerKey,
    id: EventId,
) -> Map<ListenerKey, Set<EventId>> {
    if ids_under(listeners, key).remove(id) =~= Set::empty() {
        listeners.remove(key)
    } else {
        listeners.insert(key, listeners[key].remove(id))
    }
}

/// Taking a listener away ends what it contributed: where `id` waits under `key` and
/// under no other key, no emission reaches `id` once it is taken from under `key`;
/// and where it was the last one under `key`, the key is gone too.
pub proof fn lemma_unregister_ends_delivery(
    listeners: Map<ListenerKey, Set<EventId>>,
    key: ListenerKey,
    id: EventId,
    window_label: Seq<char>,
    source: EventSourceView,
    event: Seq<char>,
)
    requires
        listeners.dom().contains(key),
        listeners[key].contains(id),
        forall|other: ListenerKey|
            listeners.dom().contains(other) && other != key ==> !listeners[other].contains(id),
    ensures
        !listens(without_listener(listeners, key, id), id),
        !delivered_ids(without_listener(listeners, key, id), window_label, source, event).contains(
            id,
        ),
        (forall|other: EventId| listeners[key].contains(other) ==> other == id)
            ==> !without_listener(listeners, key, id).dom().contains(key),
        (exists|other: EventId| listeners[key].contains(other) && other != id)
            ==> without_listener(listeners, key, id).dom().contains(key),
{
    let after = without_listener(listeners, key, id);
    assert forall|k: ListenerKey| after.dom().contains(k) implies !after[k].contains(id) by {}
}

/// An emission reaches the listeners that wait for exactly its source and event,
/// whatever window the webview is in.
pub proof fn lemma_own_key_matches(
    window_label: Seq<char>,
    source: EventSourceView,
    event: Seq<char>,
)
    ensures
        key_matches(listener_key(source, event), window_label, source, event),
{
}

/// A registry that holds one listener hands an emission for the listener's source and
/// event to that listener and to no other.
pub proof fn lemma_single_listener_reached(
    window_label: Seq<char>,
    source: EventSourceView,
    event: Seq<char>,
    id: EventId,
)
    ensures
        delivers(
            with_listener(Map::empty(), listener_key(source, event), id),
            window_label,
            source,
            event,
        ),
        delivered_ids(
            with_listener(Map::empty(), listener_key(source, event), id),
            window_label,
            source,
            event,
        ) == set![id],
{
    let key = listener_key(source, event);
    let one = with_listener(Map::<ListenerKey, Set<EventId>>::empty(), key, id);
    assert(one.dom().contains(key));
    assert(key_matches(key, window_label, source, event));
    assert(one[key] =~= set![id]);
    assert(delivered_ids(one, window_label, source, event) =~= set![id]) by {
        assert forall|other: EventId|
            delivered_ids(one, window_label, source, event).contains(other) implies other
            == id by {
            let k = choose|k: ListenerKey| #[trigger]
                one.dom().contains(k) && key_matches(k, window_label, source, event)
                    && one[k].contains(other);
            assert(k == key);
        }
        assert(delivered_ids(one, window_label, source, event).contains(id));
    }
}

/// A registry that holds one listener and loses it delivers nothing any more.
pub proof fn lemma_unregister_last_listener(
    key: ListenerKey,
    id: EventId,
    window_label: Seq<char>,
    source: EventSourceView,
    event: Seq<char>,
)
    ensures
        without_listener(
            with_listener(Map::<ListenerKey, Set<EventId>>::empty(), key, id),
            key,
            id,
        ) == Map::<ListenerKey, Set<EventId>>::empty(),
        !delivers(
            without_listener(
                with_listener(Map::<ListenerKey, Set<EventId>>::empty(), key, id),
                key,
                id,
            ),
            window_label,
            source,
            event,
        ),
{
}

/// Listening and then no longer listening leaves the registry as it was, where `id`
/// did not wait under `key` before and no key of the registry is without ids.
pub proof fn lemma_register_unregister(
    listeners: Map<ListenerKey, Set<EventId>>,
    key: ListenerKey,
    id: EventId,
)
    requires
        !ids_under(listeners, key).contains(id),
        forall|k: ListenerKey|
            listeners.dom().contains(k) ==> exists|other: EventId| listeners[k].contains(other),
    ensures
        without_listener(with_listener(listeners, key, id), key, id) == listeners,
{
    let added = with_listener(listeners, key, id);
    let rest = ids_under(added, key).remove(id);
    assert(rest =~= ids_under(listeners, key));
}

/// A global emission reaches every key of its event, whatever source the key names.
pub proof fn lemma_global_reaches_all(
    listeners: Map<ListenerKey, Set<EventId>>,
    key: ListenerKey,
    window_label: Seq<char>,
)
    requires
        listeners.dom().contains(key),
    ensures
        delivers(listeners, window_label, EventSourceView::Global, key.event),
        forall|id: EventId|
            listeners[key].contains(id) ==> delivered_ids(
                listeners,
                window_label,
                EventSourceView::Global,
                key.event,
            ).contains(id),
{
}

/// An emission from a webview's own window reaches the listeners of that window, of
/// the webview of the same label, and the global ones, and no others.
pub proof fn lemma_window_reaches_webview(
    listeners: Map<ListenerKey, Set<EventId>>,
    label: Seq<char>,
    event: Seq<char>,
)
    ensures
        delivers(listeners, label, EventSourceView::Window { label }, event) <==> {
            ||| listeners.dom().contains(listener_key(EventSourceView::Window { label }, event))
            ||| listeners.dom().contains(listener_key(EventSourceView::Webview { label }, event))
            ||| listeners.dom().contains(listener_key(EventSourceView::Global, event))
        },
{
}

/// An emission from a webview reaches the listeners of that webview and the global
/// ones, and no others: a listener of the window of the same label is not reached.
pub proof fn lemma_webview_does_not_reach_window(
    listeners: Map<ListenerKey, Set<EventId>>,
    window_label: Seq<char>,
    label: Seq<char>,
    event: Seq<char>,
)
    ensures
        delivers(listeners, window_label, EventSourceView::Webview { label }, event) <==> {
            ||| listeners.dom().contains(listener_key(EventSourceView::Webview { label }, event))
            ||| listeners.dom().contains(listener_key(EventSourceView::Global, event))
        },
        !key_matches(
            listener_key(EventSourceView::Window { label }, event),
            window_label,
            EventSourceView::Webview { label },
            event,
        ),
{
}

/// An emission from another window reaches the listeners of that window and the global
/// ones, and no others.
pub proof fn lemma_other_window_reaches_itself(
    listeners: Map<ListenerKey, Set<EventId>>,
    window_label: Seq<char>,
    label: Seq<char>,
    event: Seq<char>,
)
    requires
        label != window_label,
    ensures
        delivers(listeners, window_label, EventSourceView::Window { label }, event) <==> {
            ||| listeners.dom().contains(listener_key(EventSourceView::Window { label }, event))
            ||| listeners.dom().contains(listener_key(EventSourceView::Global, event))
        },
{
}

/// One listener waiting under one key.
#[derive(Debug)]
struct Registration {
    key: JsEventListenerKey,
    id: EventId,
}

/// The listeners that a webview has registered, by key.
///
/// The model is a map from each key to the set of ids waiting under it. A key is in
/// the map only while at least one id waits under it.
#[derive(Debug)]
pub struct JsEventListeners {
    entries: Vec<Registration>,
}

impl JsEventListeners {
    /// No key and id occur together twice.
    #[verifier::type_invariant]
    closed spec fn distinct(self) -> bool {
        forall|i: int, j: int|
            0 <= i < j < self.entries.len() ==> !(#[trigger] self.entries[i].key@
                == #[trigger] self.entries[j].key@ && self.entries[i].id
                == self.entries[j].id)
    }

    /// Whether `id` waits under `key`.
    closed spec fn registered(self, key: ListenerKey, id: EventId) -> bool {
        exists|i: int|
            0 <= i < self.entries.len() && (#[trigger] self.entries[i]).key@ == key
                && self.entries[i].id == id
    }

    /// Every key of the registry has an id waiting under it.
    pub proof fn lemma_no_empty_key(self, key: ListenerKey)
        requires
            self@.dom().contains(key),
        ensures
            exists|id: EventId| self@[key].contains(id),
    {
        let id = choose|id: EventId| self.registered(key, id);
        assert(self@[key].contains(id));
    }

    /// A registry without listeners.
    pub fn new() -> (listeners: Self)
        ensures
            listeners@ == Map::<ListenerKey, Set<EventId>>::empty(),
    {
        let listeners = JsEventListeners { entries: Vec::new() };
        assert(listeners@ =~= Map::<ListenerKey, Set<EventId>>::empty());
        listeners
    }

    /// Puts `id` under the key of `source` and `event`.
    pub fn register(&mut self, source: EventSource, event: String, id: EventId)
        ensures
            final(self)@ == with_listener(
                old(self)@,
                listener_key(source@, event@),
                id,
            ),
    {
        proof {
            use_type_invariant(&*self);
        }
        let key = JsEventListenerKey { source, event };
        let mut i: usize = 0;
        while i < self.entries.len()
            invariant
                i <= self.entries.len(),
                *self == *old(self),
                key@ == listener_key(source@, event@),
                forall|j: int|
                    0 <= j < i ==> !((#[trigger] self.entries[j]).key@ == key@
                        && self.entries[j].id == id),
            decreases self.entries.len() - i,
        {
            if self.entries[i].id == id && self.entries[i].key == key {
                proof {
                    let k = key@;
                    assert(self.registered(k, id));
                    assert(self@[k] =~= ids_under(self@, k).insert(id));
                    assert(self@ =~= with_listener(self@, k, id));
                }
                return ;
            }
            i += 1;
        }
        let ghost before = *self;
        let ghost k = key@;
        let mut entries: Vec<Registration> = Vec::new();
        core::mem::swap(&mut self.entries, &mut entries);
        entries.push(Registration { key, id });
        core::mem::swap(&mut self.entries, &mut entries);
        proof {
            let n = before.entries.len() as int;
            assert(self.entries[n].key@ == k && self.entries[n].id == id);
            assert forall|key2: ListenerKey, id2: EventId|
                self.registered(key2, id2) <==> (before.registered(key2, id2) || (key2 == k
                    && id2 == id)) by {
                if before.registered(key2, id2) {
                    let w = choose|w: int|
                        0 <= w < before.entries.len() && (#[trigger] before.entries[w]).key@
                            == key2 && before.entries[w].id == id2;
                    assert(self.entries[w] == before.entries[w]);
                }
                if self.registered(key2, id2) {
                    let w = choose|w: int|
                        0 <= w < self.entries.len() && (#[trigger] self.entries[w]).key@
                            == key2 && self.entries[w].id == id2;
                    if w < n {
                        assert(self.entries[w] == before.entries[w]);
                    }
                }
            }
            let target = with_listener(before@, k, id);
            assert(self.registered(k, id));
            assert forall|key2: ListenerKey| self@.dom().contains(key2) implies #[trigger]
                target.dom().contains(key2) by {
                let w = choose|w: EventId| self.registered(key2, w);
                if key2 != k {
                    assert(before.registered(key2, w));
                }
            }
            assert forall|key2: ListenerKey| #[trigger]
                target.dom().contains(key2) implies self@.dom().contains(key2) by {
                if key2 != k {
                    let w = choose|w: EventId| before.registered(key2, w);
                    assert(self.registered(key2, w));
                }
            }
            assert forall|key2: ListenerKey| #[trigger]
                self@.dom().contains(key2) implies self@[key2] =~= target[key2] by {
                assert forall|id2: EventId|
                    self@[key2].contains(id2) <==> target[key2].contains(id2) by {
                    assert(self@[key2].contains(id2) <==> self.registered(key2, id2));
                    if key2 == k {
                        assert(target[k] == ids_under(before@, k).insert(id));
                        if before@.dom().contains(k) {
                            assert(before@[k].contains(id2) <==> before.registered(k, id2));
                        } else {
                            assert(!before.registered(k, id2));
                        }
                    } else {
                        assert(target.dom().contains(key2));
                        assert(target[key2] == before@[key2]);
                        assert(before@[key2].contains(id2) <==> before.registered(key2, id2));
                    }
                }
            }
            assert(self@ =~= target);
        }
    }

    /// Takes `id` from under a key that holds it; a registry that does not hold `id`
    /// stays as it is.
    pub fn unregister(&mut self, id: EventId)
        ensures
            !listens(old(self)@, id) ==> final(self)@ == old(self)@,
            listens(old(self)@, id) ==> exists|key: ListenerKey| #[trigger]
                old(self)@.dom().contains(key) && old(self)@[key].contains(id) && final(self)@
                    == without_listener(old(self)@, key, id),
    {
        proof {
            use_type_invariant(&*self);
        }
        let mut i: usize = 0;
        while i < self.entries.len() && self.entries[i].id != id
            invariant
                i <= self.entries.len(),
                *self == *old(self),
                forall|j: int| 0 <= j < i ==> (#[trigger] self.entries[j]).id != id,
            decreases self.entries.len() - i,
        {
            i += 1;
        }
        if i == self.entries.len() {
            proof {
                if listens(self@, id) {
                    let k = choose|k: ListenerKey| #[trigger]
                        self@.dom().contains(k) && self@[k].contains(id);
                    assert(self.registered(k, id));
                }
            }
            return ;
        }
        let ghost before = *self;
        let ghost at = i as int;
        let mut entries: Vec<Registration> = Vec::new();
        core::mem::swap(&mut self.entries, &mut entries);
        let gone = entries.remove(i);
        core::mem::swap(&mut self.entries, &mut entries);
        proof {
            let k = gone.key@;
            assert(before.entries[at].key@ == k && before.entries[at].id == id);
            assert(before.registered(k, id));
            assert(before@.dom().contains(k) && before@[k].contains(id));
            assert forall|key2: ListenerKey, id2: EventId|
                self.registered(key2, id2) <==> (before.registered(key2, id2) && !(key2 == k
                    && id2 == id)) by {
                if before.registered(key2, id2) && !(key2 == k && id2 == id) {
                    let w = choose|w: int|
                        0 <= w < before.entries.len() && (#[trigger] before.entries[w]).key@
                            == key2 && before.entries[w].id == id2;
                    if w < at {
                        assert(self.entries[w] == before.entries[w]);
                    } else {
                        assert(self.entries[w - 1] == before.entries[w]);
                    }
                }
                if self.registered(key2, id2) {
                    let w = choose|w: int|
                        0 <= w < self.entries.len() && (#[trigger] self.entries[w]).key@
                            == key2 && self.entries[w].id == id2;
                    if w < at {
                        assert(self.entries[w] == before.entries[w]);
                    } else {
                        assert(self.entries[w] == before.entries[w + 1]);
                    }
                }
            }
            let target = without_listener(before@, k, id);
            assert(ids_under(before@, k) == before@[k]);
            assert forall|key2: ListenerKey| self@.dom().contains(key2) implies #[trigger]
                target.dom().contains(key2) by {
                let w = choose|w: EventId| self.registered(key2, w);
                assert(before.registered(key2, w));
                if key2 == k {
                    assert(before@[k].remove(id).contains(w));
                }
            }
            assert forall|key2: ListenerKey| #[trigger]
                target.dom().contains(key2) implies self@.dom().contains(key2) by {
                if key2 == k {
                    let rest = before@[k].remove(id);
                    assert(!(rest =~= Set::<EventId>::empty()));
                    let w = choose|w: EventId| rest.contains(w);
                    assert(before.registered(k, w));
                    assert(self.registered(k, w));
                } else {
                    let w = choose|w: EventId| before.registered(key2, w);
                    assert(self.registered(key2, w));
                }
            }
            assert forall|key2: ListenerKey| #[trigger]
                self@.dom().contains(key2) implies self@[key2] =~= target[key2] by {
                assert forall|id2: EventId|
                    self@[key2].contains(id2) <==> target[key2].contains(id2) by {
                    assert(self@[key2].contains(id2) <==> self.registered(key2, id2));
                    assert(target.dom().contains(key2));
                    assert(before@[key2].contains(id2) <==> before.registered(key2, id2));
                    if key2 == k {
                        assert(target[k] == before@[k].remove(id));
                    } else {
                        assert(target[key2] == before@[key2]);
                    }
                }
            }
            assert(self@ =~= target);
        }
    }

    /// Whether an emission of `event` from `source` reaches a listener of this
    /// registry, which belongs to a webview of the window `window_label`.
    pub fn matches(&self, window_label: &str, source: &EventSource, event: &str) -> (found: bool)
        ensures
            found == delivers(self@, window_label@, source@, event@),
    {
        let mut i: usize = 0;
        while i < self.entries.len()
            invariant
                i <= self.entries.len(),
                forall|j: int|
                    0 <= j < i ==> !key_matches(
                        (#[trigger] self.entries[j]).key@,
                        window_label@,
                        source@,
                        event@,
                    ),
            decreases self.entries.len() - i,
        {
            if reaches(&self.entries[i].key, window_label, source, event) {
                proof {
                    let k = self.entries[i as int].key@;
                    assert(self.registered(k, self.entries[i as int].id));
                    assert(self@.dom().contains(k));
                }
                return true;
            }
            i += 1;
        }
        proof {
            if delivers(self@, window_label@, source@, event@) {
                let k = choose|k: ListenerKey| #[trigger]
                    self@.dom().contains(k) && key_matches(k, window_label@, source@, event@);
                let w = choose|w: EventId| self.registered(k, w);
                assert(false);
            }
        }
        false
    }

    /// The listeners that an emission of `event` from `source` reaches, each once.
    pub fn matching_ids(&self, window_label: &str, source: &EventSource, event: &str) -> (ids:
        Vec<EventId>)
        ensures
            ids@.no_duplicates(),
            ids@.to_set() == delivered_ids(self@, window_label@, source@, event@),
    {
        let mut ids: Vec<EventId> = Vec::new();
        let mut i: usize = 0;
        while i < self.entries.len()
            invariant
                i <= self.entries.len(),
                ids@.no_duplicates(),
                forall|id: EventId|
                    ids@.contains(id) <==> exists|j: int|
                        0 <= j < i && key_matches(
                            (#[trigger] self.entries[j]).key@,
                            window_label@,
                            source@,
                            event@,
                        ) && self.entries[j].id == id,
            decreases self.entries.len() - i,
        {
            let id = self.entries[i].id;
            let ghost before = ids@;
            if reaches(&self.entries[i].key, window_label, source, event) && !holds(&ids, id) {
                ids.push(id);
            }
            proof {
                let reached = key_matches(
                    self.entries[i as int].key@,
                    window_label@,
                    source@,
                    event@,
                );
                assert forall|id2: EventId| ids@.contains(id2) implies exists|j: int|
                    0 <= j < i + 1 && key_matches(
                        (#[trigger] self.entries[j]).key@,
                        window_label@,
                        source@,
                        event@,
                    ) && self.entries[j].id == id2 by {
                    if before.contains(id2) {
                        let j = choose|j: int|
                            0 <= j < i && key_matches(
                                (#[trigger] self.entries[j]).key@,
                                window_label@,
                                source@,
                                event@,
                            ) && self.entries[j].id == id2;
                        assert(0 <= j < i + 1);
                    } else {
                        let at = choose|at: int| 0 <= at < ids@.len() && ids@[at] == id2;
                        if at < before.len() {
                            assert(before[at] == id2);
                        }
                        assert(id2 == id && reached);
                        assert(self.entries[i as int].id == id2);
                    }
                }
                assert forall|id2: EventId|
                    (exists|j: int|
                        0 <= j < i + 1 && key_matches(
                            (#[trigger] self.entries[j]).key@,
                            window_label@,
                            source@,
                            event@,
                        ) && self.entries[j].id == id2) implies ids@.contains(id2) by {
                    let j = choose|j: int|
                        0 <= j < i + 1 && key_matches(
                            (#[trigger] self.entries[j]).key@,
                            window_label@,
                            source@,
                            event@,
                        ) && self.entries[j].id == id2;
                    if j < i {
                        assert(before.contains(id2));
                        let at = choose|at: int| 0 <= at < before.len() && before[at] == id2;
                        assert(ids@[at] == id2);
                    } else {
                        if before.contains(id) {
                            let at = choose|at: int| 0 <= at < before.len() && before[at] == id;
                            assert(ids@[at] == id);
                        } else {
                            assert(ids@[before.len() as int] == id);
                        }
                    }
                }
            }
            i += 1;
        }
        proof {
            let target = delivered_ids(self@, window_label@, source@, event@);
            assert forall|id: EventId| ids@.to_set().contains(id) implies target.contains(
                id,
            ) by {
                let j = choose|j: int|
                    0 <= j < i && key_matches(
                        (#[trigger] self.entries[j]).key@,
                        window_label@,
                        source@,
                        event@,
                    ) && self.entries[j].id == id;
                let k = self.entries[j].key@;
                assert(self.registered(k, id));
                assert(self@.dom().contains(k) && self@[k].contains(id));
            }
            assert forall|id: EventId| target.contains(id) implies ids@.to_set().contains(
                id,
            ) by {
                let k = choose|k: ListenerKey| #[trigger]
                    self@.dom().contains(k) && key_matches(k, window_label@, source@, event@)
                        && self@[k].contains(id);
                assert(self.registered(k, id));
                let j = choose|j: int|
                    0 <= j < self.entries.len() && (#[trigger] self.entries[j]).key@ == k
                        && self.entries[j].id == id;
                assert(key_matches(self.entries[j].key@, window_label@, source@, event@));
            }
            assert(ids@.to_set() =~= target);
        }
        ids
    }
}

impl View for JsEventListeners {
    type V = Map<ListenerKey, Set<EventId>>;

    closed spec fn view(&self) -> Map<ListenerKey, Set<EventId>> {
        Map::new(
            |key: ListenerKey| exists|id: EventId| self.registered(key, id),
            |key: ListenerKey| Set::new(|id: EventId| self.registered(key, id)),
        )
    }
}

/// Whether `id` is among `ids`.
fn holds(ids: &Vec<EventId>, id: EventId) -> (found: bool)
    ensures
        found == ids@.contains(id),
{
    let mut i: usize = 0;
    while i < ids.len()
        invariant
            i <= ids.len(),
            forall|j: int| 0 <= j < i ==> ids[j] != id,
        decreases ids.len() - i,
    {
        if ids[i] == id {
            return true;
        }
        i += 1;
    }
    false
}

/// Whether an emission of `event` from `source` reaches the listeners under `key`.
fn reaches(key: &JsEventListenerKey, window_label: &str, source: &EventSource, event: &str) -> (b:
    bool)
    ensures
        b == key_matches(key@, window_label@, source@, event@),
{
    if !same_text(key.event.as_str(), event) {
        return false;
    }
    match source {
        EventSource::Global => true,
        EventSource::Window { label } => {
            if same_text(label.as_str(), window_label) {
                match &key.source {
                    EventSource::Global => true,
                    EventSource::Window { label: own } => *own == *label,
                    EventSource::Webview { label: own } => *own == *label,
                }
            } else {
                match &key.source {
                    EventSource::Global => true,
                    EventSource::Window { label: own } => *own == *label,
                    EventSource::Webview { .. } => false,
                }
            }
        },
        EventSource::Webview { label } => {
            match &key.source {
                EventSource::Global => true,
                EventSource::Window { .. } => false,
                EventSource::Webview { label: own } => *own == *label,
            }
        },
    }
}

} // verus!
