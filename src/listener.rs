//! The bus listener's policy for each received payload and for transport
//! failures. The host runs the receive loop and carries out the actions.
use vstd::prelude::*;
use crate::decoder::{decode, json_string_field, result_view, spec_decode};
use crate::dispatcher::{actions_view, lower_of, spec_handle, Action, ActionView, Dispatcher, DispatcherView};
use crate::notification::{chat_tag, kind_of, DecodeError, Notification, NotificationView};

verus! {

/// The one channel the listener subscribes to.
pub fn channel_name() -> (r: &'static str)
    ensures
        r@ == chat_tag(),
{
    proof {
        reveal_strlit("readChat");
        assert("readChat"@ =~= chat_tag());
    }
    "readChat"
}

/// The listener's state: its dispatcher, and whether the receive loop is
/// still to run.
pub struct BusListener {
    pub dispatcher: Dispatcher,
    pub running: bool,
}

pub struct ListenerView {
    pub dispatcher: DispatcherView,
    pub running: bool,
}

impl View for BusListener {
    type V = ListenerView;

    open spec fn view(&self) -> ListenerView {
        ListenerView { dispatcher: self.dispatcher@, running: self.running }
    }
}

impl ListenerView {
    pub open spec fn wf(self) -> bool {
        self.dispatcher.wf()
    }

    /// Whether the next payload can be taken: the loop runs and the
    /// dispatcher has a fresh timer token left.
    pub open spec fn ready(self) -> bool {
        self.running && self.dispatcher.can_arm()
    }
}

/// State and outcome after a decoded (or rejected) payload: a rejected one
/// changes nothing and is reported; an accepted one is dispatched.
pub open spec fn spec_on_decoded(
    l: ListenerView,
    decoded: Result<NotificationView, DecodeError>,
    now_ms: u64,
) -> (ListenerView, Result<Seq<ActionView>, DecodeError>) {
    match decoded {
        Ok(n) => {
            let (d, acts) = spec_handle(l.dispatcher, n, now_ms, lower_of(n.body));
            (ListenerView { dispatcher: d, ..l }, Ok(acts))
        },
        Err(e) => (l, Err(e)),
    }
}

/// State and outcome after the raw payload `raw`.
pub open spec fn spec_on_payload(l: ListenerView, raw: Seq<char>, now_ms: u64) -> (
    ListenerView,
    Result<Seq<ActionView>, DecodeError>,
) {
    spec_on_decoded(l, spec_decode(raw), now_ms)
}

pub open spec fn outcome_view(r: Result<Vec<Action>, DecodeError>) -> Result<
    Seq<ActionView>,
    DecodeError,
> {
    match r {
        Ok(v) => Ok(actions_view(v)),
        Err(e) => Err(e),
    }
}

impl BusListener {
    pub fn new() -> (r: BusListener)
        ensures
            r@.running,
            r@.wf(),
            r@.dispatcher.visibility is Hidden,
            r@.dispatcher.next_token == 0,
    {
        BusListener { dispatcher: Dispatcher::new(), running: true }
    }

    /// Whether the host should wait for the next payload.
    pub fn ready(&self) -> (r: bool)
        ensures
            r == self@.ready(),
    {
        self.running && self.dispatcher.can_arm()
    }

    /// Takes a decoded payload: dispatches a notification, or hands back the
    /// decode error for the host to log. Either way the loop goes on.
    pub fn on_decoded(&mut self, decoded: Result<Notification, DecodeError>, now_ms: u64) -> (r:
        Result<Vec<Action>, DecodeError>)
        requires
            old(self)@.wf(),
            old(self)@.ready(),
        ensures
            final(self)@.wf(),
            final(self)@.running,
            (final(self)@, outcome_view(r)) == spec_on_decoded(
                old(self)@,
                result_view(decoded),
                now_ms,
            ),
    {
        match decoded {
            Ok(n) => {
                let acts = self.dispatcher.handle(&n, now_ms);
                Ok(acts)
            },
            Err(e) => Err(e),
        }
    }

    /// Takes one raw payload from the bus.
    pub fn on_payload(&mut self, raw: &str, now_ms: u64) -> (r: Result<Vec<Action>, DecodeError>)
        requires
            old(self)@.wf(),
            old(self)@.ready(),
        ensures
            final(self)@.wf(),
            final(self)@.running,
            (final(self)@, outcome_view(r)) == spec_on_payload(old(self)@, raw@, now_ms),
    {
        let decoded = decode(raw);
        self.on_decoded(decoded, now_ms)
    }

    /// A read from the bus failed: the loop ends; the window state stays.
    pub fn on_read_error(&mut self)
        ensures
            !final(self)@.running,
            final(self)@.dispatcher == old(self)@.dispatcher,
    {
        self.running = false;
    }
}

/// State after a run of payloads, each with its arrival time.
pub open spec fn run_payloads(l: ListenerView, msgs: Seq<(Seq<char>, u64)>) -> ListenerView
    decreases msgs.len(),
{
    if msgs.len() == 0 {
        l
    } else {
        spec_on_payload(run_payloads(l, msgs.drop_last()), msgs.last().0, msgs.last().1).0
    }
}

/// Any number of malformed payloads in a row are each reported as
/// `Malformed` and leave the listener as it was: still running, the window
/// untouched, so the next well-formed payload is dispatched as usual.
pub proof fn lemma_malformed_payloads_keep_loop(
    l: ListenerView,
    msgs: Seq<(Seq<char>, u64)>,
    next: Seq<char>,
    now_ms: u64,
)
    requires
        l.wf(),
        l.ready(),
        forall|i: int| 0 <= i < msgs.len() ==> (#[trigger] spec_decode(msgs[i].0)) is Err,
    ensures
        run_payloads(l, msgs) == l,
        forall|i: int|
            0 <= i < msgs.len() ==> #[trigger] spec_on_payload(
                run_payloads(l, msgs.take(i)),
                msgs[i].0,
                msgs[i].1,
            ).1 == Err::<Seq<ActionView>, DecodeError>(DecodeError::Malformed),
        spec_decode(next) is Ok ==> spec_on_payload(run_payloads(l, msgs), next, now_ms).1 is Ok,
    decreases msgs.len(),
{
    if msgs.len() > 0 {
        let p = msgs.drop_last();
        assert forall|i: int| 0 <= i < p.len() implies (#[trigger] spec_decode(p[i].0)) is Err by {
            assert(p[i] == msgs[i]);
        }
        lemma_malformed_payloads_keep_loop(l, p, next, now_ms);
        assert(spec_decode(msgs[msgs.len() - 1].0) is Err);
    }
    assert forall|i: int| 0 <= i < msgs.len() implies #[trigger] spec_on_payload(
        run_payloads(l, msgs.take(i)),
        msgs[i].0,
        msgs[i].1,
    ).1 == Err::<Seq<ActionView>, DecodeError>(DecodeError::Malformed) by {
        lemma_malformed_prefix(l, msgs, i);
        assert(spec_decode(msgs[i].0) is Err);
    }
}

proof fn lemma_malformed_prefix(l: ListenerView, msgs: Seq<(Seq<char>, u64)>, i: int)
    requires
        0 <= i <= msgs.len(),
        forall|j: int| 0 <= j < msgs.len() ==> (#[trigger] spec_decode(msgs[j].0)) is Err,
    ensures
        run_payloads(l, msgs.take(i)) == l,
    decreases i,
{
    if i > 0 {
        let t = msgs.take(i);
        assert(t.drop_last() =~= msgs.take(i - 1));
        lemma_malformed_prefix(l, msgs, i - 1);
        assert(t.last() == msgs[i - 1]);
        assert(spec_decode(msgs[i - 1].0) is Err);
    } else {
        assert(msgs.take(0) =~= Seq::<(Seq<char>, u64)>::empty());
    }
}

/// A payload whose `type` is not recognised changes nothing and starts no
/// effect: it is dropped, or rejected when another field is missing.
pub proof fn lemma_unknown_type_is_dropped(
    l: ListenerView,
    text: Seq<char>,
    tag: Seq<char>,
    now_ms: u64,
)
    requires
        json_string_field(text, seq!['t', 'y', 'p', 'e']) == Some(tag),
        kind_of(tag) is Unknown,
    ensures
        spec_on_payload(l, text, now_ms).0 == l,
        spec_on_payload(l, text, now_ms).1 == Ok::<Seq<ActionView>, DecodeError>(Seq::empty())
            || spec_on_payload(l, text, now_ms).1 == Err::<Seq<ActionView>, DecodeError>(
            DecodeError::Malformed,
        ),
{
}

} // verus!
