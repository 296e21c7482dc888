//! The dispatcher: routes notifications to effects and drives the
//! visibility state machine of the single notification window.
use vstd::prelude::*;
use crate::notification::{Notification, NotificationKind, NotificationView};

verus! {

/// How long the window stays up after the last chat message.
pub const HIDE_DELAY_MS: u64 = 10000;

/// The string that `text` lower-cases to.
pub uninterp spec fn lower_of(text: Seq<char>) -> Seq<char>;

/// Relies on str::to_lowercase: the lower-cased copy of `s`, which depends
/// on the characters of `s` alone.
#[verifier::external_body]
fn lowercase(s: &str) -> (r: String)
    ensures
        r@ == lower_of(s@),
{
    s.to_lowercase()
}

/// Visibility of the notification window. While visible, `token`
/// identifies the one hide timer that may still hide it.
#[derive(Clone, Copy, Debug, PartialEq, Eq, Structural)]
pub enum Visibility {
    Hidden,
    Visible { since_ms: u64, token: u64 },
}

/// A side effect that the dispatcher asks its host to carry out.
#[derive(Clone, Debug, PartialEq, Eq)]
pub enum Action {
    /// Hand the chat message to the display layer.
    EmitToUi { sender: String, body: String },
    /// Start a detached speech task for `text`.
    Speak { text: String },
    /// Stop the hide timer armed under `token`, if it has not fired.
    CancelHideTimer { token: u64 },
    MoveTopRight,
    Show,
    Focus,
    /// Start a timer that reports `token` back after `delay_ms`.
    ArmHideTimer { token: u64, delay_ms: u64 },
    Hide,
    /// Start a detached screen-shake task.
    Shake,
    /// Start a detached task that plays the sound cue.
    PlayCue,
}

pub enum ActionView {
    EmitToUi { sender: Seq<char>, body: Seq<char> },
    Speak { text: Seq<char> },
    CancelHideTimer { token: u64 },
    MoveTopRight,
    Show,
    Focus,
    ArmHideTimer { token: u64, delay_ms: u64 },
    Hide,
    Shake,
    PlayCue,
}

impl View for Action {
    type V = ActionView;

    open spec fn view(&self) -> ActionView {
        match self {
            Action::EmitToUi { sender, body } => ActionView::EmitToUi {
                sender: sender@,
                body: body@,
            },
            Action::Speak { text } => ActionView::Speak { text: text@ },
            Action::CancelHideTimer { token } => ActionView::CancelHideTimer { token: *token },
            Action::MoveTopRight => ActionView::MoveTopRight,
            Action::Show => ActionView::Show,
            Action::Focus => ActionView::Focus,
            Action::ArmHideTimer { token, delay_ms } => ActionView::ArmHideTimer {
                token: *token,
                delay_ms: *delay_ms,
            },
            Action::Hide => ActionView::Hide,
            Action::Shake => ActionView::Shake,
            Action::PlayCue => ActionView::PlayCue,
        }
    }
}

pub open spec fn actions_view(v: Vec<Action>) -> Seq<ActionView> {
    v@.map_values(|a: Action| a@)
}

/// The dispatcher's state: the window's visibility and the token that the
/// next hide timer gets.
pub struct Dispatcher {
    pub visibility: Visibility,
    pub next_token: u64,
}

pub struct DispatcherView {
    pub visibility: Visibility,
    pub next_token: u64,
}

impl View for Dispatcher {
    type V = DispatcherView;

    open spec fn view(&self) -> DispatcherView {
        DispatcherView { visibility: self.visibility, next_token: self.next_token }
    }
}

impl DispatcherView {
    /// Every token handed out is below `next_token`, so a fresh token never
    /// equals the live one.
    pub open spec fn wf(self) -> bool {
        match self.visibility {
            Visibility::Hidden => true,
            Visibility::Visible { token, .. } => token < self.next_token,
        }
    }

    /// Whether a chat message can be handled: a fresh token is left.
    pub open spec fn can_arm(self) -> bool {
        self.next_token < u64::MAX
    }

    pub open spec fn is_visible(self) -> bool {
        self.visibility is Visible
    }
}

/// Next state after a chat message at `now_ms`: visible (since the earlier
/// show, if it is still up) under a fresh token.
pub open spec fn chat_state(d: DispatcherView, now_ms: u64) -> DispatcherView {
    let since = match d.visibility {
        Visibility::Visible { since_ms, .. } => since_ms,
        Visibility::Hidden => now_ms,
    };
    DispatcherView {
        visibility: Visibility::Visible { since_ms: since, token: d.next_token },
        next_token: (d.next_token + 1) as u64,
    }
}

/// Actions for a chat message: forward it, speak `spoken`, cancel the live
/// hide timer if any, show the window at the top right with focus, and arm
/// a fresh hide timer.
pub open spec fn chat_actions(
    d: DispatcherView,
    n: NotificationView,
    spoken: Seq<char>,
) -> Seq<ActionView> {
    let head = seq![
        ActionView::EmitToUi { sender: n.sender, body: n.body },
        ActionView::Speak { text: spoken },
    ];
    let cancel = match d.visibility {
        Visibility::Visible { token, .. } => seq![ActionView::CancelHideTimer { token }],
        Visibility::Hidden => Seq::empty(),
    };
    head + cancel + seq![
        ActionView::MoveTopRight,
        ActionView::Show,
        ActionView::Focus,
        ActionView::ArmHideTimer { token: d.next_token, delay_ms: HIDE_DELAY_MS },
    ]
}

/// State and actions after handling `n`, when its body lower-cases to
/// `spoken`.
pub open spec fn spec_handle(
    d: DispatcherView,
    n: NotificationView,
    now_ms: u64,
    spoken: Seq<char>,
) -> (DispatcherView, Seq<ActionView>) {
    match n.kind {
        NotificationKind::ChatMessage => (chat_state(d, now_ms), chat_actions(d, n, spoken)),
        NotificationKind::ShakeEffect => (d, seq![ActionView::Shake, ActionView::PlayCue]),
        NotificationKind::Unknown => (d, Seq::empty()),
    }
}

/// State and actions when the hide timer armed under `token` fires: only
/// the live timer hides the window; any other is a no-op.
pub open spec fn spec_timer_fired(d: DispatcherView, token: u64) -> (DispatcherView, Seq<
    ActionView,
>) {
    match d.visibility {
        Visibility::Visible { token: live, .. } => if live == token {
            (DispatcherView { visibility: Visibility::Hidden, ..d }, seq![ActionView::Hide])
        } else {
            (d, Seq::empty())
        },
        Visibility::Hidden => (d, Seq::empty()),
    }
}

impl Dispatcher {
    /// A dispatcher with the window hidden.
    pub fn new() -> (r: Dispatcher)
        ensures
            r@.visibility == Visibility::Hidden,
            r@.next_token == 0,
            r@.wf(),
    {
        Dispatcher { visibility: Visibility::Hidden, next_token: 0 }
    }

    pub fn is_visible(&self) -> (r: bool)
        ensures
            r == self@.is_visible(),
    {
        match self.visibility {
            Visibility::Visible { .. } => true,
            Visibility::Hidden => false,
        }
    }

    pub fn can_arm(&self) -> (r: bool)
        ensures
            r == self@.can_arm(),
    {
        self.next_token < u64::MAX
    }

    /// Handles `n`, given the lower-cased form `spoken` of its body.
    pub fn handle_lowered(&mut self, n: &Notification, now_ms: u64, spoken: String) -> (r: Vec<
        Action,
    >)
        requires
            old(self)@.wf(),
            old(self)@.can_arm(),
        ensures
            final(self)@.wf(),
            (final(self)@, actions_view(r)) == spec_handle(old(self)@, n@, now_ms, spoken@),
    {
        let mut out: Vec<Action> = Vec::new();
        match n.kind {
            NotificationKind::ChatMessage => {
                let ghost d = self@;
                out.push(Action::EmitToUi { sender: n.sender.clone(), body: n.body.clone() });
                out.push(Action::Speak { text: spoken });
                let since = match self.visibility {
                    Visibility::Visible { since_ms, token } => {
                        out.push(Action::CancelHideTimer { token });
                        since_ms
                    },
                    Visibility::Hidden => now_ms,
                };
                let token = self.next_token;
                out.push(Action::MoveTopRight);
                out.push(Action::Show);
                out.push(Action::Focus);
                out.push(Action::ArmHideTimer { token, delay_ms: HIDE_DELAY_MS });
                self.visibility = Visibility::Visible { since_ms: since, token };
                self.next_token = token + 1;
                assert(actions_view(out) =~= chat_actions(d, n@, spoken@));
            },
            NotificationKind::ShakeEffect => {
                out.push(Action::Shake);
                out.push(Action::PlayCue);
                assert(actions_view(out) =~= seq![ActionView::Shake, ActionView::PlayCue]);
            },
            NotificationKind::Unknown => {
                assert(actions_view(out) =~= Seq::<ActionView>::empty());
            },
        }
        out
    }

    /// Handles one decoded notification: routes it by kind and returns the
    /// actions for the host, in order.
    pub fn handle(&mut self, n: &Notification, now_ms: u64) -> (r: Vec<Action>)
        requires
            old(self)@.wf(),
            old(self)@.can_arm(),
        ensures
            final(self)@.wf(),
            (final(self)@, actions_view(r)) == spec_handle(
                old(self)@,
                n@,
                now_ms,
                lower_of(n.body@),
            ),
    {
        let spoken = lowercase(n.body.as_str());
        self.handle_lowered(n, now_ms, spoken)
    }

    /// Reacts to the firing of the hide timer armed under `token`.
    pub fn on_hide_timer(&mut self, token: u64) -> (r: Vec<Action>)
        requires
            old(self)@.wf(),
        ensures
            final(self)@.wf(),
            (final(self)@, actions_view(r)) == spec_timer_fired(old(self)@, token),
    {
        let mut out: Vec<Action> = Vec::new();
        match self.visibility {
            Visibility::Visible { token: live, .. } => {
                if live == token {
                    self.visibility = Visibility::Hidden;
                    out.push(Action::Hide);
                    assert(actions_view(out) =~= seq![ActionView::Hide]);
                } else {
                    assert(actions_view(out) =~= Seq::<ActionView>::empty());
                }
            },
            Visibility::Hidden => {
                assert(actions_view(out) =~= Seq::<ActionView>::empty());
            },
        }
        out
    }
}

} // verus!

verus! {

/// One input of the dispatcher: a notification at a time, or the firing of
/// the hide timer armed under a token.
pub enum DispatchEvent {
    Message { n: NotificationView, now_ms: u64 },
    TimerFired { token: u64 },
}

pub open spec fn spec_step(d: DispatcherView, e: DispatchEvent) -> (DispatcherView, Seq<
    ActionView,
>) {
    match e {
        DispatchEvent::Message { n, now_ms } => spec_handle(d, n, now_ms, lower_of(n.body)),
        DispatchEvent::TimerFired { token } => spec_timer_fired(d, token),
    }
}

pub open spec fn count_hides(acts: Seq<ActionView>) -> nat
    decreases acts.len(),
{
    if acts.len() == 0 {
        0
    } else {
        count_hides(acts.drop_last()) + if acts.last() is Hide { 1nat } else { 0nat }
    }
}

/// State after a run of events.
pub open spec fn run_state(d: DispatcherView, evs: Seq<DispatchEvent>) -> DispatcherView
    decreases evs.len(),
{
    if evs.len() == 0 {
        d
    } else {
        spec_step(run_state(d, evs.drop_last()), evs.last()).0
    }
}

/// Number of `Hide` actions over a run of events.
pub open spec fn run_hides(d: DispatcherView, evs: Seq<DispatchEvent>) -> nat
    decreases evs.len(),
{
    if evs.len() == 0 {
        0
    } else {
        run_hides(d, evs.drop_last()) + count_hides(
            spec_step(run_state(d, evs.drop_last()), evs.last()).1,
        )
    }
}

/// Number of messages among the events.
pub open spec fn message_count(evs: Seq<DispatchEvent>) -> nat
    decreases evs.len(),
{
    if evs.len() == 0 {
        0
    } else {
        message_count(evs.drop_last()) + if evs.last() is Message { 1nat } else { 0nat }
    }
}

/// A burst of chat messages, starting with one, in which every timer that
/// fires belongs to a message that a later one has since superseded (or to
/// an earlier show): its token is below the token of the latest message.
pub open spec fn is_superseded_burst(d: DispatcherView, evs: Seq<DispatchEvent>) -> bool {
    &&& evs.len() > 0
    &&& evs[0] is Message
    &&& forall|j: int|
        0 <= j < evs.len() ==> match #[trigger] evs[j] {
            DispatchEvent::Message { n, .. } => n.kind is ChatMessage,
            DispatchEvent::TimerFired { token } => token + 1 < d.next_token + message_count(
                evs.take(j),
            ),
        }
}

proof fn lemma_no_hide_counts_zero(acts: Seq<ActionView>)
    requires
        forall|i: int| 0 <= i < acts.len() ==> !(#[trigger] acts[i] is Hide),
    ensures
        count_hides(acts) == 0,
    decreases acts.len(),
{
    if acts.len() > 0 {
        let p = acts.drop_last();
        assert forall|i: int| 0 <= i < p.len() implies !(#[trigger] p[i] is Hide) by {
            assert(p[i] == acts[i]);
        }
        lemma_no_hide_counts_zero(p);
    }
}

/// A chat message, or the firing of a timer other than the live one, while
/// the live token is the last one handed out: the window is visible after
/// it, nothing is hidden, and the live token is again the last one.
proof fn lemma_burst_step(s: DispatcherView, e: DispatchEvent)
    requires
        s.wf(),
        match e {
            DispatchEvent::Message { n, .. } => n.kind is ChatMessage && s.can_arm(),
            DispatchEvent::TimerFired { token } => s.visibility is Visible && token + 1
                < s.next_token && s.visibility->token + 1 == s.next_token,
        },
    ensures
        spec_step(s, e).0.wf(),
        spec_step(s, e).0.visibility is Visible,
        spec_step(s, e).0.visibility->token + 1 == spec_step(s, e).0.next_token,
        spec_step(s, e).0.next_token == s.next_token + if e is Message { 1int } else { 0int },
        count_hides(spec_step(s, e).1) == 0,
{
    let acts = spec_step(s, e).1;
    match e {
        DispatchEvent::Message { n, now_ms } => {
            let cancel = match s.visibility {
                Visibility::Visible { token, .. } => seq![ActionView::CancelHideTimer { token }],
                Visibility::Hidden => Seq::empty(),
            };
            assert forall|i: int| 0 <= i < acts.len() implies !(#[trigger] acts[i] is Hide) by {
                assert(acts == chat_actions(s, n, lower_of(n.body)));
                if i >= 2 && i < 2 + cancel.len() {
                    assert(acts[i] == cancel[i - 2]);
                }
            }
        },
        DispatchEvent::TimerFired { token } => {
            assert(acts.len() == 0);
        },
    }
    lemma_no_hide_counts_zero(acts);
}

proof fn lemma_burst_prefix(d: DispatcherView, evs: Seq<DispatchEvent>)
    requires
        d.wf(),
        is_superseded_burst(d, evs),
        d.next_token + message_count(evs) < u64::MAX,
    ensures
        message_count(evs) >= 1,
        run_state(d, evs).wf(),
        run_state(d, evs).visibility is Visible,
        run_state(d, evs).visibility->token + 1 == d.next_token + message_count(evs),
        run_state(d, evs).next_token == d.next_token + message_count(evs),
        run_hides(d, evs) == 0,
    decreases evs.len(),
{
    let k = (evs.len() - 1) as int;
    let pre = evs.drop_last();
    assert(evs.take(k) =~= pre);
    assert(evs[k] == evs.last());
    if evs.len() == 1 {
        assert(pre =~= Seq::<DispatchEvent>::empty());
        assert(message_count(pre) == 0);
        assert(run_state(d, pre) == d);
        assert(run_hides(d, pre) == 0);
        lemma_burst_step(d, evs.last());
    } else {
        assert forall|j: int| 0 <= j < pre.len() implies match #[trigger] pre[j] {
            DispatchEvent::Message { n, .. } => n.kind is ChatMessage,
            DispatchEvent::TimerFired { token } => token + 1 < d.next_token + message_count(
                pre.take(j),
            ),
        } by {
            assert(pre.take(j) =~= evs.take(j));
            assert(pre[j] == evs[j]);
        }
        lemma_message_count_grows(evs);
        lemma_burst_prefix(d, pre);
        lemma_burst_step(run_state(d, pre), evs.last());
    }
}

proof fn lemma_message_count_grows(evs: Seq<DispatchEvent>)
    requires
        evs.len() > 0,
    ensures
        message_count(evs.drop_last()) <= message_count(evs),
        message_count(evs) == message_count(evs.drop_last()) + if evs.last() is Message {
            1nat
        } else {
            0nat
        },
{
}

/// A burst of chat messages keeps the window up: whatever stale timers fire
/// in between, after each event it is visible and nothing has hidden it.
/// The live timer is that of the last message; its firing hides the window
/// exactly once, and no timer of the burst hides it again.
pub proof fn lemma_burst_hides_once_after_last(d: DispatcherView, evs: Seq<DispatchEvent>)
    requires
        d.wf(),
        is_superseded_burst(d, evs),
        d.next_token + message_count(evs) < u64::MAX,
    ensures
        forall|i: int|
            1 <= i <= evs.len() ==> (#[trigger] run_state(d, evs.take(i))).visibility is Visible
                && run_hides(d, evs.take(i)) == 0,
        ({
            let last = run_state(d, evs);
            let live = last.visibility->token;
            let fired = spec_timer_fired(last, live);
            &&& live + 1 == d.next_token + message_count(evs)
            &&& fired.0.visibility is Hidden
            &&& count_hides(fired.1) == 1
            &&& forall|t: u64| #[trigger] spec_timer_fired(fired.0, t).1.len() == 0
        }),
{
    assert forall|i: int| 1 <= i <= evs.len() implies (#[trigger] run_state(
        d,
        evs.take(i),
    )).visibility is Visible && run_hides(d, evs.take(i)) == 0 by {
        let p = evs.take(i);
        assert forall|j: int| 0 <= j < p.len() implies match #[trigger] p[j] {
            DispatchEvent::Message { n, .. } => n.kind is ChatMessage,
            DispatchEvent::TimerFired { token } => token + 1 < d.next_token + message_count(
                p.take(j),
            ),
        } by {
            assert(p.take(j) =~= evs.take(j));
            assert(p[j] == evs[j]);
        }
        lemma_message_count_prefix(evs, i);
        lemma_burst_prefix(d, p);
    }
    lemma_burst_prefix(d, evs);
    let last = run_state(d, evs);
    let fired = spec_timer_fired(last, last.visibility->token);
    assert(count_hides(fired.1) == 1) by {
        reveal_with_fuel(count_hides, 2);
    }
}

proof fn lemma_message_count_prefix(evs: Seq<DispatchEvent>, i: int)
    requires
        0 <= i <= evs.len(),
    ensures
        message_count(evs.take(i)) <= message_count(evs),
    decreases evs.len(),
{
    if i < evs.len() {
        assert(evs.drop_last().take(i) =~= evs.take(i));
        lemma_message_count_prefix(evs.drop_last(), i);
    } else {
        assert(evs.take(i) =~= evs);
    }
}

} // verus!

verus! {

/// With messages less than `HIDE_DELAY_MS` apart, the timer that each
/// message arms is due after the next message has arrived, and no later than
/// the timer of the last message: every timer but the last is superseded
/// when it fires.
pub proof fn lemma_close_messages_supersede_timers(times: Seq<u64>)
    requires
        forall|i: int|
            0 <= i < times.len() - 1 ==> times[i] <= #[trigger] times[i + 1] < times[i]
                + HIDE_DELAY_MS,
    ensures
        forall|i: int|
            0 <= i < times.len() - 1 ==> times[i + 1] < #[trigger] times[i] + HIDE_DELAY_MS
                <= times[times.len() - 1] + HIDE_DELAY_MS,
    decreases times.len(),
{
    if times.len() > 1 {
        let p = times.drop_last();
        assert forall|i: int| 0 <= i < p.len() - 1 implies p[i] <= #[trigger] p[i + 1] < p[i]
            + HIDE_DELAY_MS by {
            assert(times[i + 1] == p[i + 1]);
        }
        lemma_close_messages_supersede_timers(p);
        let n = times.len() - 1;
        assert(times[n - 1] <= times[n]) by {
            assert(times[(n - 1) + 1] == times[n]);
        }
        assert forall|i: int| 0 <= i < times.len() - 1 implies times[i + 1] < #[trigger] times[i]
            + HIDE_DELAY_MS <= times[times.len() - 1] + HIDE_DELAY_MS by {
            assert(times[i] <= times[i + 1] < times[i] + HIDE_DELAY_MS);
            if i < n - 1 {
                assert(p[i] == times[i]);
                assert(p[p.len() - 1] == times[n - 1]);
            }
        }
    }
}

/// A chat message while hidden shows the window once and arms one timer of
/// `HIDE_DELAY_MS`; when that timer fires, the window is hidden once.
pub proof fn lemma_single_message_shows_then_hides(
    d: DispatcherView,
    n: NotificationView,
    now_ms: u64,
)
    requires
        d.wf(),
        d.can_arm(),
        d.visibility is Hidden,
        n.kind is ChatMessage,
    ensures
        ({
            let (shown, acts) = spec_handle(d, n, now_ms, lower_of(n.body));
            let (hidden, hide_acts) = spec_timer_fired(shown, d.next_token);
            &&& shown.visibility == (Visibility::Visible { since_ms: now_ms, token: d.next_token })
            &&& acts.filter(|a: ActionView| a is Show).len() == 1
            &&& acts.filter(|a: ActionView| a is ArmHideTimer).len() == 1
            &&& acts.contains(
                ActionView::ArmHideTimer { token: d.next_token, delay_ms: HIDE_DELAY_MS },
            )
            &&& hidden.visibility is Hidden
            &&& hide_acts == seq![ActionView::Hide]
        }),
{
    let acts = spec_handle(d, n, now_ms, lower_of(n.body)).1;
    reveal_with_fuel(Seq::filter, 7);
    assert(acts[5] == ActionView::ArmHideTimer { token: d.next_token, delay_ms: HIDE_DELAY_MS });
    assert(acts.drop_last().drop_last().drop_last().drop_last().drop_last().drop_last() =~= seq![]);
}

/// Shake notifications never change the dispatcher's state; they start the
/// visual effect and the sound cue, and nothing else.
pub proof fn lemma_shake_keeps_visibility(
    d: DispatcherView,
    n: NotificationView,
    now_ms: u64,
    spoken: Seq<char>,
)
    requires
        n.kind is ShakeEffect,
    ensures
        spec_handle(d, n, now_ms, spoken).0 == d,
        spec_handle(d, n, now_ms, spoken).1 == seq![ActionView::Shake, ActionView::PlayCue],
{
}

/// A chat message is forwarded to the display layer first, before and apart
/// from the speech task: what becomes of that task has no bearing on it.
pub proof fn lemma_chat_forwarded_before_speech(
    d: DispatcherView,
    n: NotificationView,
    now_ms: u64,
    spoken: Seq<char>,
)
    requires
        n.kind is ChatMessage,
    ensures
        spec_handle(d, n, now_ms, spoken).1[0] == (ActionView::EmitToUi {
            sender: n.sender,
            body: n.body,
        }),
        spec_handle(d, n, now_ms, spoken).1[1] == (ActionView::Speak { text: spoken }),
{
}

/// Two chat messages in direct succession leave one coherent visible state:
/// visible since the first show, with only the second timer live; the first
/// timer then fires as a no-op.
pub proof fn lemma_repeated_show_is_coherent(
    d: DispatcherView,
    n1: NotificationView,
    n2: NotificationView,
    t1: u64,
    t2: u64,
)
    requires
        d.wf(),
        d.next_token + 1 < u64::MAX,
        n1.kind is ChatMessage,
        n2.kind is ChatMessage,
    ensures
        ({
            let s1 = spec_handle(d, n1, t1, lower_of(n1.body)).0;
            let (s2, acts) = spec_handle(s1, n2, t2, lower_of(n2.body));
            let since = match d.visibility {
                Visibility::Visible { since_ms, .. } => since_ms,
                Visibility::Hidden => t1,
            };
            &&& s2.wf()
            &&& s2.visibility == (Visibility::Visible {
                since_ms: since,
                token: (d.next_token + 1) as u64,
            })
            &&& acts.contains(ActionView::CancelHideTimer { token: d.next_token })
            &&& spec_timer_fired(s2, d.next_token) == (s2, Seq::<ActionView>::empty())
        }),
{
    let s1 = spec_handle(d, n1, t1, lower_of(n1.body)).0;
    let acts = spec_handle(s1, n2, t2, lower_of(n2.body)).1;
    assert(acts[2] == ActionView::CancelHideTimer { token: d.next_token });
}

} // verus!
