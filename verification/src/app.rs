//! The application state machine: a signed counter plus a running/finished
//! lifecycle flag.
//!
//! The machine has two states. `Running` is initial; `Finished` is terminal
//! and absorbing: the only edge between them is `Running -> Finished`, taken
//! on the quit key, and once `Finished` no transition changes anything.
//! Counter changes are self-loops on `Running`.

use vstd::prelude::*;

use crate::keys::{KeyEvent, Transition, spec_transition, transition_for};

verus! {

/// Whether the application is still in its main loop or done.
#[derive(Debug, Clone, Copy, PartialEq, Eq, Structural)]
pub enum RunningState {
    Running,
    Finished,
}

impl Default for RunningState {
    /// A fresh state machine is `Running`.
    fn default() -> (s: RunningState)
        ensures
            s == RunningState::Running,
    {
        RunningState::Running
    }
}

/// The mathematical model of the application state: the counter as an
/// unbounded integer beside the lifecycle flag. Contracts and lemmas speak
/// of this model; `App` carries the same data in executable form.
pub ghost struct AppModel {
    pub counter: int,
    pub state: RunningState,
}

/// The application state: the counter value and the lifecycle flag.
#[derive(Debug, Clone, Copy, PartialEq, Eq, Structural)]
pub struct App {
    pub counter: i64,
    pub running_state: RunningState,
}

impl View for App {
    type V = AppModel;

    open spec fn view(&self) -> AppModel {
        AppModel { counter: self.counter as int, state: self.running_state }
    }
}

/// The state every run starts from: counter 0, `Running`.
pub open spec fn init_model() -> AppModel {
    AppModel { counter: 0, state: RunningState::Running }
}

/// What `increment` does: the counter rises by one, the flag is untouched.
pub open spec fn spec_increment(m: AppModel) -> AppModel {
    AppModel { counter: m.counter + 1, state: m.state }
}

/// What `decrement` does: the counter falls by one, the flag is untouched.
pub open spec fn spec_decrement(m: AppModel) -> AppModel {
    AppModel { counter: m.counter - 1, state: m.state }
}

/// What `finish` does: the flag becomes `Finished`, the counter is untouched.
pub open spec fn spec_finish(m: AppModel) -> AppModel {
    AppModel { counter: m.counter, state: RunningState::Finished }
}

/// Whether the lifecycle flag says the run is over.
pub open spec fn spec_is_finished(m: AppModel) -> bool {
    m.state is Finished
}

/// One step of the state machine: on `Running` the transition acts
/// (`Finish` is the one edge out, counter changes are self-loops);
/// on `Finished` every transition is a no-op.
pub open spec fn spec_apply(m: AppModel, t: Transition) -> AppModel {
    if m.state is Finished {
        m
    } else {
        match t {
            Transition::Increment => spec_increment(m),
            Transition::Decrement => spec_decrement(m),
            Transition::Finish => spec_finish(m),
            Transition::NoOp => m,
        }
    }
}

/// One step of the state machine driven by a key event: the key-mapping
/// table picks the transition, then the machine takes it.
pub open spec fn spec_step(m: AppModel, event: KeyEvent) -> AppModel {
    spec_apply(m, spec_transition(event))
}

impl Default for App {
    /// A fresh application: counter 0, still running.
    fn default() -> (app: App)
        ensures
            app@ == init_model(),
    {
        App { counter: 0, running_state: RunningState::Running }
    }
}

impl App {
    /// Adds one to the counter. No floor or ceiling other than the machine
    /// word: the caller keeps the counter below `i64::MAX`.
    pub fn increment(&mut self)
        requires
            old(self).counter < i64::MAX,
        ensures
            final(self)@ == spec_increment(old(self)@),
    {
        self.counter = self.counter + 1;
    }

    /// Subtracts one from the counter; negative values are allowed. The
    /// caller keeps the counter above `i64::MIN`.
    pub fn decrement(&mut self)
        requires
            old(self).counter > i64::MIN,
        ensures
            final(self)@ == spec_decrement(old(self)@),
    {
        self.counter = self.counter - 1;
    }

    /// Ends the run: the lifecycle flag becomes `Finished`. Idempotent.
    pub fn finish(&mut self)
        ensures
            final(self)@ == spec_finish(old(self)@),
    {
        self.running_state = RunningState::Finished;
    }

    /// Whether the run is over: true exactly when `finish` has run.
    pub fn is_finished(&self) -> (b: bool)
        ensures
            b == spec_is_finished(self@),
    {
        self.running_state == RunningState::Finished
    }

    /// Takes one state-machine transition. The caller keeps the counter
    /// within the machine word; every other input is welcome.
    pub fn apply(&mut self, t: Transition)
        requires
            i64::MIN <= spec_apply(old(self)@, t).counter <= i64::MAX,
        ensures
            final(self)@ == spec_apply(old(self)@, t),
    {
        if self.is_finished() {
            return;
        }
        match t {
            Transition::Increment => self.increment(),
            Transition::Decrement => self.decrement(),
            Transition::Finish => self.finish(),
            Transition::NoOp => {},
        }
    }

    /// Applies at most one transition for one keyboard event: exactly the
    /// step of the state machine. Only key presses act; repeats, releases
    /// and unbound keys leave the state untouched.
    pub fn handle_key_event(&mut self, event: KeyEvent)
        requires
            i64::MIN <= spec_step(old(self)@, event).counter <= i64::MAX,
        ensures
            final(self)@ == spec_step(old(self)@, event),
    {
        let t = transition_for(event);
        self.apply(t);
    }
}

/// How many of the transitions in `ops` are `Increment`.
pub open spec fn num_increments(ops: Seq<Transition>) -> int
    decreases ops.len(),
{
    if ops.len() == 0 {
        0
    } else {
        (if ops[0] is Increment {
            1int
        } else {
            0int
        }) + num_increments(ops.drop_first())
    }
}

/// How many of the transitions in `ops` are `Decrement`.
pub open spec fn num_decrements(ops: Seq<Transition>) -> int
    decreases ops.len(),
{
    if ops.len() == 0 {
        0
    } else {
        (if ops[0] is Decrement {
            1int
        } else {
            0int
        }) + num_decrements(ops.drop_first())
    }
}

/// The counter after a sequence of bare `increment` and `decrement` calls,
/// starting from `start`: each entry moves it the way the method of the
/// same name does (its `ensures` is exactly the step taken here), and
/// entries that touch only the lifecycle flag leave it alone.
pub open spec fn counter_after(start: int, ops: Seq<Transition>) -> int
    decreases ops.len(),
{
    if ops.len() == 0 {
        start
    } else {
        let next = if ops[0] is Increment {
            start + 1
        } else if ops[0] is Decrement {
            start - 1
        } else {
            start
        };
        counter_after(next, ops.drop_first())
    }
}

/// Any sequence of increment and decrement calls leaves the counter at the
/// net sum: the start value plus one per `Increment`, minus one per
/// `Decrement`. Over the model no bound clamps the value; a run starting
/// from `init_model()` has `start == 0`.
pub proof fn lemma_counter_net_sum(start: int, ops: Seq<Transition>)
    ensures
        counter_after(start, ops) == start + num_increments(ops) - num_decrements(ops),
    decreases ops.len(),
{
    if ops.len() > 0 {
        let next = if ops[0] is Increment {
            start + 1
        } else if ops[0] is Decrement {
            start - 1
        } else {
            start
        };
        lemma_counter_net_sum(next, ops.drop_first());
    }
}

/// The model after `n` calls of `finish` in a row.
pub open spec fn finish_n(m: AppModel, n: nat) -> AppModel
    decreases n,
{
    if n == 0 {
        m
    } else {
        spec_finish(finish_n(m, (n - 1) as nat))
    }
}

/// `finish` is idempotent: one call lands in `Finished` with the counter
/// untouched, and any number of further calls changes nothing more.
pub proof fn lemma_finish_idempotent(m: AppModel, n: nat)
    requires
        n >= 1,
    ensures
        finish_n(m, n) == spec_finish(m),
    decreases n,
{
    if n == 1 {
        assert(finish_n(m, 0) == m);
    } else {
        lemma_finish_idempotent(m, (n - 1) as nat);
    }
}

/// The model after the state machine steps through every transition in
/// `ops`, in order.
pub open spec fn apply_seq(m: AppModel, ops: Seq<Transition>) -> AppModel
    decreases ops.len(),
{
    if ops.len() == 0 {
        m
    } else {
        apply_seq(spec_apply(m, ops[0]), ops.drop_first())
    }
}

/// `is_finished` answers `false` on the initial state and `true` on any
/// state `finish` has produced.
pub proof fn lemma_is_finished_lifecycle(m: AppModel)
    ensures
        !spec_is_finished(init_model()),
        spec_is_finished(spec_finish(m)),
{
}

/// Before any `finish`: a run of the state machine that never takes the
/// `Finish` transition stays `Running`, so `is_finished` answers `false`
/// all along it.
pub proof fn lemma_running_until_finish(m: AppModel, ops: Seq<Transition>)
    requires
        !spec_is_finished(m),
        forall|i: int| 0 <= i < ops.len() ==> !(#[trigger] ops[i] is Finish),
    ensures
        !spec_is_finished(apply_seq(m, ops)),
    decreases ops.len(),
{
    if ops.len() > 0 {
        let rest = ops.drop_first();
        assert(forall|i: int| 0 <= i < rest.len() ==> !(#[trigger] rest[i] is Finish)) by {
            assert(forall|i: int|
                0 <= i < rest.len() ==> rest[i] == #[trigger] ops[i + 1]);
        }
        lemma_running_until_finish(spec_apply(m, ops[0]), rest);
    }
}

/// After `finish`, `Finished` absorbs everything: no later sequence of
/// transitions changes the state at all, the counter included.
pub proof fn lemma_finished_absorbing(m: AppModel, ops: Seq<Transition>)
    requires
        spec_is_finished(m),
    ensures
        apply_seq(m, ops) == m,
    decreases ops.len(),
{
    if ops.len() > 0 {
        lemma_finished_absorbing(m, ops.drop_first());
    }
}

} // verus!
