//! The event loop and the agent's lifecycle.
//!
//! The loop consumes one merged, arrival-ordered sequence of stream items —
//! control signals and platform updates — and routes each update until it
//! observes a stop signal. Its behaviour is pinned by the transition
//! function [`spec_step`] and its fold [`spec_run`]: routing is
//! [`crate::stream::spec_dispatch`], a stop signal ends the run, and nothing
//! after the first stop is processed.

use vstd::prelude::*;

use crate::context::{Context, ContextHolder};
use crate::errors::Error;
use crate::models::ChatV;
use crate::store::ChatStore;
use crate::stream::{is_start_command, lemma_command_not_ready, opt_action_view, spec_dispatch, Handler, NOT_READY};
use crate::templates::{base_templates_compile, replies_render, TemplateRegistry};
use crate::update::{Action, ActionV, ControlSignal, StreamItem, StreamItemV, UpdateV, User, UserV};

verus! {

/// The lifecycle of the loop: accepting items while the context is pending,
/// serving with a populated context, then draining after a stop signal, and
/// done.
#[derive(Clone, Copy, PartialEq, Eq, Structural, Debug)]
pub enum Phase {
    Initializing,
    Running,
    Stopping,
    Terminated,
}

/// Mathematical state of the event loop.
#[verifier::ext_equal]
pub struct StateV {
    pub phase: Phase,
    pub user: Option<UserV>,
    pub chats: Seq<ChatV>,
}

/// A state that still consumes items.
pub open spec fn live(st: StateV) -> bool {
    st.phase is Initializing || st.phase is Running
}

/// The state after the loop has wound down.
pub open spec fn finish(st: StateV) -> StateV {
    StateV { phase: Phase::Terminated, ..st }
}

/// What one step decides: the state afterwards, whether the loop ends, and
/// the outbound action, if any.
#[verifier::ext_equal]
pub struct StepV {
    pub state: StateV,
    pub stop: bool,
    pub action: Option<ActionV>,
}

/// One step of the loop. A state past its stop consumes nothing; a stop
/// signal moves a live state to draining and ends the run; an update is
/// dispatched and neither the phase nor the context changes.
pub open spec fn spec_step(st: StateV, item: StreamItemV, now: int) -> StepV {
    if !live(st) {
        StepV { state: st, stop: true, action: None }
    } else {
        match item {
            StreamItemV::Control(ControlSignal::Stop) => StepV {
                state: StateV { phase: Phase::Stopping, ..st },
                stop: true,
                action: None,
            },
            StreamItemV::Platform(u) => {
                let d = spec_dispatch(st.user, st.chats, u, now);
                StepV {
                    state: StateV { phase: st.phase, user: st.user, chats: d.chats },
                    stop: false,
                    action: d.action,
                }
            },
        }
    }
}

/// The action of a step, as a sequence of zero or one actions.
pub open spec fn opt_seq(a: Option<ActionV>) -> Seq<ActionV> {
    match a {
        Some(x) => seq![x],
        None => Seq::empty(),
    }
}

/// What a whole run leaves behind and sends out.
#[verifier::ext_equal]
pub struct RunV {
    pub state: StateV,
    pub actions: Seq<ActionV>,
}

/// Fold [`spec_step`] over the items, in order, stopping at the first step
/// that ends the run; a run that stops is wound down to `Terminated`.
pub open spec fn spec_run(st: StateV, items: Seq<StreamItemV>, now: int) -> RunV
    decreases items.len(),
{
    if items.len() == 0 {
        RunV { state: st, actions: Seq::empty() }
    } else {
        let step = spec_step(st, items.first(), now);
        if step.stop {
            RunV { state: finish(step.state), actions: opt_seq(step.action) }
        } else {
            let rest = spec_run(step.state, items.drop_first(), now);
            RunV { state: rest.state, actions: opt_seq(step.action) + rest.actions }
        }
    }
}

/// Whether a run over these items ends before their end.
pub open spec fn run_stopped(st: StateV, items: Seq<StreamItemV>, now: int) -> bool
    decreases items.len(),
{
    if items.len() == 0 {
        false
    } else {
        let step = spec_step(st, items.first(), now);
        step.stop || run_stopped(step.state, items.drop_first(), now)
    }
}

/// Unfolding a run one item at its end: while no earlier step has stopped
/// the run, the run over `items.push(x)` is the run over `items` followed by
/// one step on `x`.
pub proof fn lemma_run_snoc(st: StateV, items: Seq<StreamItemV>, x: StreamItemV, now: int)
    requires
        !run_stopped(st, items, now),
    ensures
        ({
            let mid = spec_run(st, items, now);
            let step = spec_step(mid.state, x, now);
            &&& spec_run(st, items.push(x), now).state == if step.stop {
                finish(step.state)
            } else {
                step.state
            }
            &&& spec_run(st, items.push(x), now).actions == mid.actions + opt_seq(step.action)
            &&& run_stopped(st, items.push(x), now) == step.stop
        }),
    decreases items.len(),
{
    reveal_with_fuel(spec_run, 3);
    reveal_with_fuel(run_stopped, 3);
    let mid = spec_run(st, items, now);
    let step = spec_step(mid.state, x, now);
    if items.len() == 0 {
        assert(items.push(x).first() == x);
        assert(items.push(x).drop_first() =~= Seq::<StreamItemV>::empty());
        assert(mid.state == st);
        if step.stop {
            assert(spec_run(st, items.push(x), now).actions =~= mid.actions + opt_seq(step.action));
        } else {
            assert(spec_run(st, items.push(x), now).actions =~= mid.actions + opt_seq(step.action));
        }
    } else {
        let step0 = spec_step(st, items.first(), now);
        assert(!step0.stop);
        assert(items.push(x).first() == items.first());
        assert(items.push(x).drop_first() =~= items.drop_first().push(x));
        lemma_run_snoc(step0.state, items.drop_first(), x, now);
        let midr = spec_run(step0.state, items.drop_first(), now);
        assert(mid.state == midr.state);
        assert(mid.actions == opt_seq(step0.action) + midr.actions);
        assert(spec_run(st, items.push(x), now).actions == opt_seq(step0.action) + spec_run(
            step0.state,
            items.drop_first().push(x),
            now,
        ).actions);
        assert(opt_seq(step0.action) + (midr.actions + opt_seq(step.action)) =~= (opt_seq(
            step0.action,
        ) + midr.actions) + opt_seq(step.action));
    }
}

/// Once a prefix of the items has stopped the run, the rest of the items
/// change nothing: they are not processed.
pub proof fn lemma_run_stopped_prefix(st: StateV, items: Seq<StreamItemV>, k: int, now: int)
    requires
        0 <= k <= items.len(),
        run_stopped(st, items.take(k), now),
    ensures
        spec_run(st, items, now) == spec_run(st, items.take(k), now),
    decreases items.len(),
{
    reveal_with_fuel(spec_run, 3);
    reveal_with_fuel(run_stopped, 3);
    assert(k > 0);
    let step0 = spec_step(st, items.first(), now);
    assert(items.take(k).first() == items.first());
    if step0.stop {
        assert(spec_run(st, items, now) =~= spec_run(st, items.take(k), now));
    } else {
        assert(items.take(k).drop_first() =~= items.drop_first().take(k - 1));
        lemma_run_stopped_prefix(step0.state, items.drop_first(), k - 1, now);
        assert(spec_run(st, items, now) =~= spec_run(st, items.take(k), now));
    }
}

/// A live state stays live over platform items, and none of them stops the
/// run, and the context does not change.
pub proof fn lemma_platform_run(st: StateV, items: Seq<StreamItemV>, now: int)
    requires
        live(st),
        forall|j: int| 0 <= j < items.len() ==> items[j] is Platform,
    ensures
        !run_stopped(st, items, now),
        live(spec_run(st, items, now).state),
        spec_run(st, items, now).state.phase == st.phase,
        spec_run(st, items, now).state.user == st.user,
    decreases items.len(),
{
    if items.len() > 0 {
        assert(items[0] is Platform);
        let step0 = spec_step(st, items.first(), now);
        assert(!step0.stop);
        assert(forall|j: int|
            0 <= j < items.drop_first().len() ==> items.drop_first()[j] == items[j + 1]
                && #[trigger] items.drop_first()[j] is Platform);
        lemma_platform_run(step0.state, items.drop_first(), now);
    }
}

/// Ordering law: if the merge point observes a stop signal with only
/// platform updates before it, nothing after the stop is routed — the run
/// over all items equals the run over the items up to and including the
/// stop.
pub proof fn lemma_stop_halts_routing(st: StateV, items: Seq<StreamItemV>, k: int, now: int)
    requires
        live(st),
        0 <= k < items.len(),
        items[k] == StreamItemV::Control(ControlSignal::Stop),
        forall|j: int| 0 <= j < k ==> items[j] is Platform,
    ensures
        spec_run(st, items, now) == spec_run(st, items.take(k + 1), now),
        spec_run(st, items, now).state.phase is Terminated,
{
    let before = items.take(k);
    assert(forall|j: int| 0 <= j < before.len() ==> #[trigger] before[j] is Platform);
    lemma_platform_run(st, before, now);
    let mid = spec_run(st, before, now);
    assert(items.take(k + 1) =~= before.push(items[k]));
    lemma_run_snoc(st, before, items[k], now);
    let step = spec_step(mid.state, items[k], now);
    assert(step.stop);
    lemma_run_stopped_prefix(st, items, k + 1, now);
}

/// The step an item gets within a run: against the state left by the items
/// before it.
pub open spec fn step_at(st: StateV, items: Seq<StreamItemV>, k: int, now: int) -> StepV {
    spec_step(spec_run(st, items.take(k), now).state, items[k], now)
}

/// A command-shaped stream item: a platform message carrying the start
/// command.
pub open spec fn is_command_item(item: StreamItemV) -> bool {
    match item {
        StreamItemV::Platform(UpdateV::Message(m)) => is_start_command(m),
        _ => false,
    }
}

/// The chat a command-shaped item came from.
pub open spec fn command_chat_id(item: StreamItemV) -> int {
    match item {
        StreamItemV::Platform(UpdateV::Message(m)) => m.chat.id,
        _ => 0,
    }
}

/// Context-gating law: for every sequence of platform updates delivered
/// before the context holder is populated, the store is never mutated and
/// the context stays empty, and each command-shaped update among them is
/// answered with exactly the fixed "not ready" reply into its chat.
pub proof fn lemma_updates_before_context(st: StateV, items: Seq<StreamItemV>, now: int)
    requires
        live(st),
        st.user is None,
        forall|j: int| 0 <= j < items.len() ==> items[j] is Platform,
    ensures
        spec_run(st, items, now).state.user is None,
        spec_run(st, items, now).state.chats == st.chats,
        forall|k: int|
            0 <= k < items.len() && is_command_item(items[k]) ==> #[trigger] step_at(
                st,
                items,
                k,
                now,
            ).action == Some(
                ActionV::SendMessage {
                    chat_id: command_chat_id(items[k]),
                    text: NOT_READY@,
                },
            ),
    decreases items.len(),
{
    if items.len() > 0 {
        let step0 = spec_step(st, items.first(), now);
        assert(items[0] is Platform);
        assert(!step0.stop);
        assert(step0.state.user is None);
        assert(step0.state.chats == st.chats);
        assert(forall|j: int|
            0 <= j < items.drop_first().len() ==> items.drop_first()[j] == items[j + 1]
                && #[trigger] items.drop_first()[j] is Platform);
        lemma_updates_before_context(step0.state, items.drop_first(), now);
        assert forall|k: int| 0 <= k < items.len() && is_command_item(items[k]) implies #[trigger] step_at(
            st,
            items,
            k,
            now,
        ).action == Some(
            ActionV::SendMessage {
                chat_id: command_chat_id(items[k]),
                text: NOT_READY@,
            },
        ) by {
            let prefix = items.take(k);
            assert(forall|j: int| 0 <= j < prefix.len() ==> #[trigger] prefix[j] is Platform);
            lemma_platform_run(st, prefix, now);
            if k < items.len() {
                lemma_updates_before_context(st, prefix, now);
            }
            let stk = spec_run(st, prefix, now).state;
            assert(live(stk) && stk.user is None && stk.chats == st.chats);
            match items[k] {
                StreamItemV::Platform(u) => {
                    match u {
                        UpdateV::Message(m) => {
                            lemma_command_not_ready(stk.chats, m, now);
                        },
                        _ => {
                            assert(false);
                        },
                    }
                },
                _ => {
                    assert(false);
                },
            }
        }
    }
}

/// The items of the merged stream, as mathematical values, in order.
pub open spec fn items_view(s: Seq<StreamItem>) -> Seq<StreamItemV> {
    s.map_values(|it: StreamItem| it@)
}

pub proof fn lemma_items_view_len(s: Seq<StreamItem>)
    ensures
        items_view(s).len() == s.len(),
{
}

pub proof fn lemma_items_view_index(s: Seq<StreamItem>, j: int)
    requires
        0 <= j < s.len(),
    ensures
        items_view(s)[j] == s[j]@,
{
}

/// The actions of a run, as mathematical values, in order.
pub open spec fn actions_view(s: Seq<Action>) -> Seq<ActionV> {
    s.map_values(|a: Action| a@)
}

pub proof fn lemma_actions_view_push(s: Seq<Action>, a: Action)
    ensures
        actions_view(s.push(a)) == actions_view(s).push(a@),
{
    assert(actions_view(s.push(a)) =~= actions_view(s).push(a@));
}

/// The event loop: the merge consumer and everything it owns — the context
/// holder, the membership store, the reply templates and the router.
pub struct EventLoop {
    phase: Phase,
    context: ContextHolder,
    store: ChatStore,
    templates: TemplateRegistry,
    handler: Handler,
}

impl View for EventLoop {
    type V = StateV;

    closed spec fn view(&self) -> StateV {
        StateV { phase: self.phase, user: self.context@, chats: self.store@ }
    }
}

impl EventLoop {
    pub closed spec fn wf(&self) -> bool {
        &&& self.context.wf()
        &&& self.store.wf()
        &&& self.templates.wf()
        &&& (self.phase is Initializing ==> self.context@ is None)
        &&& (self.phase is Running ==> self.context@ is Some)
    }

    /// A fresh loop: empty store, empty context, both reply templates
    /// compiled. Succeeds exactly when the two template sources compile;
    /// a template failure is startup-fatal.
    pub fn new() -> (r: Result<EventLoop, Error>)
        ensures
            r matches Ok(l) ==> l.wf() && l@.phase is Initializing && l@.user is None && l@.chats
                == Seq::<ChatV>::empty(),
            base_templates_compile() ==> r is Ok,
            r matches Err(e) ==> e == Error::Template && !base_templates_compile(),
    {
        let templates = match TemplateRegistry::new() {
            Ok(t) => t,
            Err(e) => {
                return Err(e);
            },
        };
        Ok(
            EventLoop {
                phase: Phase::Initializing,
                context: ContextHolder::new(),
                store: ChatStore::new(),
                templates,
                handler: Handler::new(),
            },
        )
    }

    /// Populate the context with the agent's freshly resolved identity: the
    /// single authoritative write, after which handling unblocks. Succeeds
    /// exactly when both replies render for the identity's username; on a
    /// template failure the loop stays in `Initializing`, unchanged.
    pub fn resolve_identity(&mut self, user: User) -> (r: Result<(), Error>)
        requires
            old(self).wf(),
            old(self)@.phase is Initializing,
        ensures
            final(self).wf(),
            r matches Ok(()) ==> final(self)@ == (StateV {
                phase: Phase::Running,
                user: Some(user@),
                chats: old(self)@.chats,
            }),
            replies_render(user.username@) ==> r is Ok,
            r matches Err(e) ==> e == Error::Template && final(self)@ == old(self)@
                && !replies_render(user.username@),
    {
        match Context::new(user, &self.templates) {
            Ok(c) => {
                self.context.set(c);
                self.phase = Phase::Running;
                Ok(())
            },
            Err(e) => Err(e),
        }
    }

    /// Consume one item of the merged stream. Returns whether the loop is
    /// past its stop, and the outbound action to perform, exactly as
    /// [`spec_step`] decides.
    pub fn handle_item(&mut self, item: &StreamItem, now: i64) -> (r: (bool, Option<Action>))
        requires
            old(self).wf(),
        ensures
            final(self).wf(),
            final(self)@ == spec_step(old(self)@, item@, now as int).state,
            r.0 == spec_step(old(self)@, item@, now as int).stop,
            opt_action_view(r.1) == spec_step(old(self)@, item@, now as int).action,
    {
        match self.phase {
            Phase::Stopping => (true, None),
            Phase::Terminated => (true, None),
            _ => match item {
                StreamItem::Control(ControlSignal::Stop) => {
                    self.phase = Phase::Stopping;
                    proof {
                        assert(self@ =~= (StateV { phase: Phase::Stopping, ..old(self)@ }));
                    }
                    (true, None)
                },
                StreamItem::Platform(u) => {
                    let a = self.handler.dispatch(self.context.get(), &mut self.store, u, now);
                    (false, a)
                },
            },
        }
    }

    /// The merge loop over a batch of pending items: route each one in
    /// arrival order, perform no further processing once a stop signal is
    /// observed, and wind down to `Terminated` if one was. Returns the
    /// outbound actions of the processed items, in order.
    pub fn run(&mut self, items: &Vec<StreamItem>, now: i64) -> (r: Vec<Action>)
        requires
            old(self).wf(),
        ensures
            final(self).wf(),
            final(self)@ == spec_run(old(self)@, items_view(items@), now as int).state,
            actions_view(r@) == spec_run(old(self)@, items_view(items@), now as int).actions,
    {
        let ghost all = items_view(items@);
        let ghost st0 = self@;
        let mut out: Vec<Action> = Vec::new();
        let mut stopped = false;
        let mut i: usize = 0;
        let n = items.len();
        proof {
            lemma_items_view_len(items@);
            assert(all.take(0) =~= Seq::<StreamItemV>::empty());
        }
        while i < n && !stopped
            invariant
                n == items.len(),
                i <= n,
                all == items_view(items@),
                st0 == old(self)@,
                self.wf(),
                !stopped ==> {
                    &&& !run_stopped(st0, all.take(i as int), now as int)
                    &&& self@ == spec_run(st0, all.take(i as int), now as int).state
                    &&& actions_view(out@) == spec_run(st0, all.take(i as int), now as int).actions
                },
                stopped ==> {
                    &&& self@ == spec_run(st0, all, now as int).state
                    &&& actions_view(out@) == spec_run(st0, all, now as int).actions
                },
            decreases n - i + if stopped {
                0int
            } else {
                1int
            },
        {
            let ghost pre = self@;
            let ghost t0 = all.take(i as int);
            let ghost t1 = all.take(i as int + 1);
            proof {
                lemma_items_view_len(items@);
                lemma_items_view_index(items@, i as int);
                assert(t1 =~= t0.push(all[i as int]));
                lemma_run_snoc(st0, t0, all[i as int], now as int);
            }
            let (stop, act) = self.handle_item(&items[i], now);
            match act {
                Some(a) => {
                    let ghost prev = out@;
                    out.push(a);
                    proof {
                        lemma_actions_view_push(prev, a);
                    }
                },
                None => {},
            }
            i = i + 1;
            if stop {
                self.phase = Phase::Terminated;
                stopped = true;
                proof {
                    assert(self@ =~= finish(spec_step(pre, all[i as int - 1], now as int).state));
                    assert(self@ == spec_run(st0, t1, now as int).state);
                    assert(actions_view(out@) == spec_run(st0, t1, now as int).actions);
                    lemma_run_stopped_prefix(st0, all, i as int, now as int);
                }
            }
        }
        proof {
            if !stopped {
                assert(i == n);
                assert(all.take(n as int) =~= all);
            }
        }
        out
    }
}

/// The agent's lifecycle handle: what the owning process uses to start one
/// run and to request a stop. A second start and a stop after the run has
/// gone away are distinguishable, non-fatal conditions.
pub struct EnticeBot {
    started: bool,
    finished: bool,
}

impl EnticeBot {
    /// Whether a run was started.
    pub closed spec fn spec_started(&self) -> bool {
        self.started
    }

    /// Whether the run has gone away: its loop has terminated and can no
    /// longer receive a stop signal.
    pub closed spec fn spec_finished(&self) -> bool {
        self.finished
    }

    pub fn new() -> (r: EnticeBot)
        ensures
            !r.spec_started(),
            !r.spec_finished(),
    {
        EnticeBot { started: false, finished: false }
    }

    /// Claim the single run. The first call succeeds; every later one
    /// reports that the agent is already started.
    pub fn start(&mut self) -> (r: Result<(), Error>)
        ensures
            final(self).spec_finished() == old(self).spec_finished(),
            r matches Ok(()) ==> !old(self).spec_started() && final(self).spec_started(),
            r matches Err(e) ==> e == Error::AlreadyStarted && old(self).spec_started()
                && *final(self) == *old(self),
    {
        if self.started {
            Err(Error::AlreadyStarted)
        } else {
            self.started = true;
            Ok(())
        }
    }

    /// Decide a stop request: the signal to enqueue while the run is still
    /// there, and a distinguishable already-stopped condition after it has
    /// gone away.
    pub fn stop(&mut self) -> (r: Result<ControlSignal, Error>)
        ensures
            *final(self) == *old(self),
            r matches Ok(c) ==> c == ControlSignal::Stop && !old(self).spec_finished(),
            r matches Err(e) ==> e == Error::AlreadyStopped && old(self).spec_finished(),
    {
        if self.finished {
            Err(Error::AlreadyStopped)
        } else {
            Ok(ControlSignal::Stop)
        }
    }

    /// Record that the run's loop has terminated and its channel peer is
    /// gone: from here on a stop request reports already-stopped.
    pub fn mark_finished(&mut self)
        ensures
            final(self).spec_started() == old(self).spec_started(),
            final(self).spec_finished(),
    {
        self.finished = true;
    }
}

} // verus!
