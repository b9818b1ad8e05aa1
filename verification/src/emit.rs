//! Emissions: which webviews an event reaches, and the calls that hand it to them.

use vstd::prelude::*;
use crate::event::{EmitArgs, EventSource, EventSourceView, JsCall, Listeners};
use crate::listeners::{delivered_ids, delivers};
use crate::text::same_text;
use crate::webview::{is_emit_call, Webview, WebviewView};

verus! {

/// A call to evaluate in one webview.
#[derive(Debug)]
pub struct Emission {
    /// The label of the webview to evaluate the call in.
    pub label: String,
    /// The call.
    pub call: JsCall,
}

/// Whether the webview at a position is chosen and holds a listener that the emission
/// of `event` from `source` reaches.
pub open spec fn is_reached(
    webviews: Seq<Webview>,
    chosen: Seq<bool>,
    source: EventSourceView,
    event: Seq<char>,
) -> spec_fn(int) -> bool {
    |i: int|
        0 <= i < chosen.len() && 0 <= i < webviews.len() && chosen[i] && delivers(
            webviews[i]@.listeners,
            webviews[i]@.window_label,
            source,
            event,
        )
}

/// The positions, in order, of those among the first `n` webviews that the emission
/// reaches.
pub open spec fn reached_among(
    webviews: Seq<Webview>,
    chosen: Seq<bool>,
    source: EventSourceView,
    event: Seq<char>,
    n: nat,
) -> Seq<int> {
    Seq::new(n, |i: int| i).filter(is_reached(webviews, chosen, source, event))
}

/// Whether `emission` hands the emission to `webview`: it names the webview, and its
/// call carries the event and the payload to the listeners that the emission reaches
/// there.
pub open spec fn emits_to(
    emission: Emission,
    webview: WebviewView,
    function: Seq<char>,
    source: EventSourceView,
    event: Seq<char>,
    payload: Seq<char>,
) -> bool {
    emission.label@ == webview.label && is_emit_call(
        emission.call,
        function,
        event,
        payload,
        delivered_ids(webview.listeners, webview.window_label, source, event),
    )
}

/// Whether `emissions` are the calls of one emission: one for each chosen webview
/// that holds a listener which the emission reaches, in the order of the webviews,
/// and none besides.
pub open spec fn emitted(
    emissions: Seq<Emission>,
    webviews: Seq<Webview>,
    chosen: Seq<bool>,
    function: Seq<char>,
    source: EventSourceView,
    event: Seq<char>,
    payload: Seq<char>,
) -> bool {
    let targets = reached_among(webviews, chosen, source, event, webviews.len());
    &&& emissions.len() == targets.len()
    &&& forall|k: int|
        0 <= k < emissions.len() ==> 0 <= #[trigger] targets[k] < webviews.len() && emits_to(
            emissions[k],
            webviews[targets[k]]@,
            function,
            source,
            event,
            payload,
        )
}

/// The positions that an emission reaches are positions of reached webviews, in
/// rising order, and every reached webview is among them.
pub proof fn lemma_reached_among(
    webviews: Seq<Webview>,
    chosen: Seq<bool>,
    source: EventSourceView,
    event: Seq<char>,
    n: nat,
)
    ensures
        forall|k: int|
            0 <= k < reached_among(webviews, chosen, source, event, n).len() ==> {
                let at = #[trigger] reached_among(webviews, chosen, source, event, n)[k];
                0 <= at < n && is_reached(webviews, chosen, source, event)(at)
            },
        forall|j: int, k: int|
            0 <= j < k < reached_among(webviews, chosen, source, event, n).len()
                ==> reached_among(webviews, chosen, source, event, n)[j] < reached_among(
                webviews,
                chosen,
                source,
                event,
                n,
            )[k],
        forall|i: int|
            0 <= i < n && is_reached(webviews, chosen, source, event)(i) ==> reached_among(
                webviews,
                chosen,
                source,
                event,
                n,
            ).contains(i),
    decreases n,
{
    let pred = is_reached(webviews, chosen, source, event);
    if n == 0 {
        reveal(Seq::filter);
        assert(Seq::new(0, |i: int| i).len() == 0);
    } else {
        let m = (n - 1) as nat;
        lemma_reached_among(webviews, chosen, source, event, m);
        let before = Seq::new(m, |i: int| i);
        assert(Seq::new(n, |i: int| i) =~= before.push(m as int));
        before.lemma_filter_push(m as int, pred);
        let shorter = reached_among(webviews, chosen, source, event, m);
        let longer = reached_among(webviews, chosen, source, event, n);
        if pred(m as int) {
            assert(longer == shorter.push(m as int));
            assert(longer[shorter.len() as int] == m);
        } else {
            assert(longer == shorter);
        }
        assert forall|i: int| 0 <= i < n && pred(i) implies longer.contains(i) by {
            if i < m {
                assert(shorter.contains(i));
                let k = choose|k: int| 0 <= k < shorter.len() && shorter[k] == i;
                assert(longer[k] == i);
            }
        }
    }
}

/// Hands an emission to the chosen webviews that hold a listener which it reaches.
/// `chosen` says of each webview, by its position, whether it is chosen; a webview for
/// which it says nothing is not.
pub fn emit_chosen(
    webviews: &Vec<Webview>,
    chosen: &Vec<bool>,
    listeners: &Listeners,
    emit_args: &EmitArgs,
) -> (emissions: Vec<Emission>)
    ensures
        emitted(
            emissions@,
            webviews@,
            chosen@,
            listeners@.function_name,
            emit_args.source@,
            emit_args.event@,
            emit_args.payload@,
        ),
{
    let mut emissions: Vec<Emission> = Vec::new();
    let mut i: usize = 0;
    proof {
        reveal(Seq::filter);
        assert(Seq::new(0, |i: int| i).len() == 0);
    }
    while i < webviews.len()
        invariant
            i <= webviews.len(),
            emissions.len() == reached_among(
                webviews@,
                chosen@,
                emit_args.source@,
                emit_args.event@,
                i as nat,
            ).len(),
            forall|k: int|
                0 <= k < emissions.len() ==> {
                    let at = #[trigger] reached_among(
                        webviews@,
                        chosen@,
                        emit_args.source@,
                        emit_args.event@,
                        i as nat,
                    )[k];
                    0 <= at < i && emits_to(
                        emissions[k],
                        webviews[at]@,
                        listeners@.function_name,
                        emit_args.source@,
                        emit_args.event@,
                        emit_args.payload@,
                    )
                },
        decreases webviews.len() - i,
    {
        let ghost shorter = reached_among(
            webviews@,
            chosen@,
            emit_args.source@,
            emit_args.event@,
            i as nat,
        );
        let ghost longer = reached_among(
            webviews@,
            chosen@,
            emit_args.source@,
            emit_args.event@,
            (i + 1) as nat,
        );
        let ghost pred = is_reached(webviews@, chosen@, emit_args.source@, emit_args.event@);
        proof {
            let before = Seq::new(i as nat, |j: int| j);
            assert(Seq::new((i + 1) as nat, |j: int| j) =~= before.push(i as int));
            before.lemma_filter_push(i as int, pred);
        }
        let webview = &webviews[i];
        if i < chosen.len() && chosen[i] && webview.has_js_listener(
            &emit_args.source,
            emit_args.event.as_str(),
        ) {
            assert(pred(i as int));
            assert(longer == shorter.push(i as int));
            let emission = Emission {
                label: webview.label().to_owned(),
                call: webview.emit_js(listeners, emit_args),
            };
            emissions.push(emission);
            assert(longer[shorter.len() as int] == i);
            assert forall|k: int| 0 <= k < emissions.len() implies {
                let at = #[trigger] longer[k];
                0 <= at < i + 1 && emits_to(
                    emissions[k],
                    webviews[at]@,
                    listeners@.function_name,
                    emit_args.source@,
                    emit_args.event@,
                    emit_args.payload@,
                )
            } by {
                if k < shorter.len() {
                    assert(longer[k] == shorter[k]);
                }
            }
        } else {
            assert(!pred(i as int));
            assert(longer == shorter);
        }
        i += 1;
    }
    emissions
}

/// Hands an emission to the webviews that `filter` lets through, of those that hold a
/// listener which it reaches. The filter is asked about those webviews only.
pub fn emit_filter<F: Fn(&Webview) -> bool>(
    webviews: &Vec<Webview>,
    listeners: &Listeners,
    emit_args: &EmitArgs,
    filter: F,
) -> (emissions: Vec<Emission>)
    requires
        forall|webview: &Webview| call_requires(filter, (webview,)),
    ensures
        exists|chosen: Seq<bool>|
            {
                &&& chosen.len() == webviews.len()
                &&& forall|i: int|
                    0 <= i < webviews.len() && delivers(
                        webviews[i]@.listeners,
                        webviews[i]@.window_label,
                        emit_args.source@,
                        emit_args.event@,
                    ) ==> call_ensures(filter, (&webviews[i],), #[trigger] chosen[i])
                &&& emitted(
                    emissions@,
                    webviews@,
                    chosen,
                    listeners@.function_name,
                    emit_args.source@,
                    emit_args.event@,
                    emit_args.payload@,
                )
            },
{
    let mut chosen: Vec<bool> = Vec::new();
    let mut i: usize = 0;
    while i < webviews.len()
        invariant
            i <= webviews.len(),
            chosen.len() == i,
            forall|webview: &Webview| call_requires(filter, (webview,)),
            forall|j: int|
                0 <= j < i && delivers(
                    webviews[j]@.listeners,
                    webviews[j]@.window_label,
                    emit_args.source@,
                    emit_args.event@,
                ) ==> call_ensures(filter, (&webviews[j],), #[trigger] chosen[j]),
        decreases webviews.len() - i,
    {
        let webview = &webviews[i];
        let through = if webview.has_js_listener(&emit_args.source, emit_args.event.as_str()) {
            filter(webview)
        } else {
            false
        };
        chosen.push(through);
        i += 1;
    }
    emit_chosen(webviews, &chosen, listeners, emit_args)
}

/// As many times `true` as there are webviews: every webview is chosen.
pub open spec fn all_chosen(webviews: Seq<Webview>) -> Seq<bool> {
    Seq::new(webviews.len(), |i: int| true)
}

/// For each webview, whether it has the label `label`.
pub open spec fn chosen_by_label(webviews: Seq<Webview>, label: Seq<char>) -> Seq<bool> {
    Seq::new(webviews.len(), |i: int| webviews[i]@.label == label)
}

/// Hands an emission to every webview that holds a listener which it reaches.
pub fn emit_all(webviews: &Vec<Webview>, listeners: &Listeners, emit_args: &EmitArgs) -> (emissions:
    Vec<Emission>)
    ensures
        emitted(
            emissions@,
            webviews@,
            all_chosen(webviews@),
            listeners@.function_name,
            emit_args.source@,
            emit_args.event@,
            emit_args.payload@,
        ),
{
    let mut chosen: Vec<bool> = Vec::new();
    let mut i: usize = 0;
    while i < webviews.len()
        invariant
            i <= webviews.len(),
            chosen.len() == i,
            forall|j: int| 0 <= j < i ==> chosen[j],
        decreases webviews.len() - i,
    {
        chosen.push(true);
        i += 1;
    }
    assert(chosen@ =~= all_chosen(webviews@));
    emit_chosen(webviews, &chosen, listeners, emit_args)
}

/// Hands an emission to the webviews labelled `label` that hold a listener which it
/// reaches.
pub fn emit_to_label(
    webviews: &Vec<Webview>,
    listeners: &Listeners,
    label: &str,
    emit_args: &EmitArgs,
) -> (emissions: Vec<Emission>)
    ensures
        emitted(
            emissions@,
            webviews@,
            chosen_by_label(webviews@, label@),
            listeners@.function_name,
            emit_args.source@,
            emit_args.event@,
            emit_args.payload@,
        ),
{
    let mut chosen: Vec<bool> = Vec::new();
    let mut i: usize = 0;
    while i < webviews.len()
        invariant
            i <= webviews.len(),
            chosen.len() == i,
            forall|j: int| 0 <= j < i ==> chosen[j] == (webviews[j]@.label == label@),
        decreases webviews.len() - i,
    {
        chosen.push(same_text(webviews[i].label(), label));
        i += 1;
    }
    assert(chosen@ =~= chosen_by_label(webviews@, label@));
    emit_chosen(webviews, &chosen, listeners, emit_args)
}

impl Webview {
    /// What this webview emits: the event and the payload, with the webview as their
    /// source.
    fn emit_args(&self, event: &str, payload: String) -> (emit_args: EmitArgs)
        ensures
            emit_args.source@ == (EventSourceView::Webview { label: self@.label }),
            emit_args.event@ == event@,
            emit_args.payload@ == payload@,
    {
        EmitArgs {
            source: EventSource::Webview { label: self.label().to_owned() },
            event: event.to_owned(),
            payload,
        }
    }

    /// Emits `event` with `payload` from this webview to every webview of `webviews`
    /// that holds a listener which the emission reaches.
    pub fn emit(
        &self,
        webviews: &Vec<Webview>,
        listeners: &Listeners,
        event: &str,
        payload: String,
    ) -> (emissions: Vec<Emission>)
        ensures
            emitted(
                emissions@,
                webviews@,
                all_chosen(webviews@),
                listeners@.function_name,
                EventSourceView::Webview { label: self@.label },
                event@,
                payload@,
            ),
    {
        let emit_args = self.emit_args(event, payload);
        emit_all(webviews, listeners, &emit_args)
    }

    /// Emits `event` with `payload` from this webview to the webviews labelled `label`.
    pub fn emit_to(
        &self,
        webviews: &Vec<Webview>,
        listeners: &Listeners,
        label: &str,
        event: &str,
        payload: String,
    ) -> (emissions: Vec<Emission>)
        ensures
            emitted(
                emissions@,
                webviews@,
                chosen_by_label(webviews@, label@),
                listeners@.function_name,
                EventSourceView::Webview { label: self@.label },
                event@,
                payload@,
            ),
    {
        let emit_args = self.emit_args(event, payload);
        emit_to_label(webviews, listeners, label, &emit_args)
    }

    /// Emits `event` with `payload` from this webview to the webviews that `filter`
    /// lets through.
    pub fn emit_filter<F: Fn(&Webview) -> bool>(
        &self,
        webviews: &Vec<Webview>,
        listeners: &Listeners,
        event: &str,
        payload: String,
        filter: F,
    ) -> (emissions: Vec<Emission>)
        requires
            forall|webview: &Webview| call_requires(filter, (webview,)),
        ensures
            exists|chosen: Seq<bool>|
                {
                    &&& chosen.len() == webviews.len()
                    &&& forall|i: int|
                        0 <= i < webviews.len() && delivers(
                            webviews[i]@.listeners,
                            webviews[i]@.window_label,
                            EventSourceView::Webview { label: self@.label },
                            event@,
                        ) ==> call_ensures(filter, (&webviews[i],), #[trigger] chosen[i])
                    &&& emitted(
                        emissions@,
                        webviews@,
                        chosen,
                        listeners@.function_name,
                        EventSourceView::Webview { label: self@.label },
                        event@,
                        payload@,
                    )
                },
    {
        let emit_args = self.emit_args(event, payload);
        emit_filter(webviews, listeners, &emit_args, filter)
    }
}

} // verus!
