//! The orchestrator: owns the shared model handle, runs the control-loop
//! state machine, reclaims exclusivity before every write phase, and maps
//! errors to notifications.

use vstd::prelude::*;

use std::sync::mpsc::{Receiver, Sender};
use std::sync::Arc;

use crate::channel::{chan_recv, chan_send, chan_try_recv, make_channel, Polled};
use crate::handle::{arc_borrow, arc_clone, arc_strong_count, arc_get_mut};
use crate::input::Input;
use crate::model::error::model_not_free::ModelNotFreeError;
use crate::model::error::update::UpdateError;
use crate::model::error::ModelManagerError;
use crate::model::{Model, State};
use crate::utils::{wait_for, Clock, ErrorReporter};

verus! {

/// Control messages from outer code to the manager.
#[derive(Debug, Clone, Copy, PartialEq, Eq, Structural)]
pub enum Command {
    /// Stop the model updating loop and wait for the next commands.
    Stop,
    /// Run the model updating loop.
    Run,
    /// Leave the model updating loop.
    Exit,
}

/// The manager's only outbound diagnostic message.
#[derive(Debug, Clone, Copy, PartialEq, Eq, Structural)]
pub enum Notification {
    Error(ModelManagerError),
}

/// How long the manager polls for a free model handle before a cycle is
/// given up, by default.
pub const DEFAULT_WAIT_TIMEOUT_MICROS: u64 = 2_000_000;

/// How long the manager pauses between two holder-count checks, by default.
pub const DEFAULT_CHECK_PERIOD_MICROS: u64 = 500;

/// The target state one command asks for.
pub open spec fn command_target(c: Command) -> State {
    match c {
        Command::Stop => State::Stopped,
        Command::Run => State::Running,
        Command::Exit => State::Exiting,
    }
}

/// The state a drained batch leaves the manager in: commands are folded in
/// arrival order, each overwriting the target so far, except that the first
/// `Exit` ends interpretation at once — whatever is queued behind it is
/// left unexamined. An empty batch keeps the current state.
pub open spec fn interpret_spec(state: State, commands: Seq<Command>) -> State
    decreases commands.len(),
{
    if commands.len() == 0 {
        state
    } else if commands[0] is Exit {
        State::Exiting
    } else {
        interpret_spec(command_target(commands[0]), commands.skip(1))
    }
}

/// The decision of the Stopped-state wait, on the one command the blocking
/// receive handed over: `Run` and `Exit` transition, `Stop` — the only
/// other value — remains stopped.
pub fn next_state_of(c: Command) -> (s: State)
    ensures
        s == command_target(c),
{
    match c {
        Command::Run => State::Running,
        Command::Exit => State::Exiting,
        Command::Stop => State::Stopped,
    }
}

/// Interprets one drained batch of commands.
pub fn interpret_commands(state: State, commands: &Vec<Command>) -> (r: State)
    ensures
        r == interpret_spec(state, commands@),
{
    proof {
        assert(commands@.skip(0) =~= commands@);
    }
    let mut s = state;
    let mut i: usize = 0;
    while i < commands.len()
        invariant
            i <= commands.len(),
            interpret_spec(state, commands@) == interpret_spec(s, commands@.skip(i as int)),
        decreases commands.len() - i,
    {
        proof {
            assert(commands@.skip(i as int)[0] == commands@[i as int]);
            assert(commands@.skip(i as int).skip(1) =~= commands@.skip(i as int + 1));
        }
        match commands[i] {
            Command::Stop => {
                s = State::Stopped;
            },
            Command::Run => {
                s = State::Running;
            },
            Command::Exit => {
                return State::Exiting;
            },
        }
        i = i + 1;
    }
    s
}

/// Law: in a batch of Run and Stop commands the last write wins — with no
/// Exit anywhere in the batch, interpretation ends in the last command's
/// target state, whatever state it started from.
pub proof fn lemma_interpret_last_command_wins(state: State, commands: Seq<Command>)
    requires
        commands.len() > 0,
        forall|i: int| 0 <= i < commands.len() ==> !(commands[i] is Exit),
    ensures
        interpret_spec(state, commands) == command_target(commands.last()),
    decreases commands.len(),
{
    assert(!(commands[0] is Exit));
    assert(interpret_spec(state, commands) == interpret_spec(
        command_target(commands[0]),
        commands.skip(1),
    ));
    if commands.len() == 1 {
        assert(commands.skip(1).len() == 0);
        assert(interpret_spec(command_target(commands[0]), commands.skip(1)) == command_target(
            commands[0],
        ));
        assert(commands.last() == commands[0]);
    } else {
        assert(forall|i: int|
            0 <= i < commands.skip(1).len() ==> commands.skip(1)[i] == commands[i + 1]);
        lemma_interpret_last_command_wins(command_target(commands[0]), commands.skip(1));
        assert(commands.skip(1).last() == commands.last());
    }
}

/// Law: an Exit anywhere in the batch makes interpretation yield `Exiting`,
/// whatever was queued before it and whatever state it started from.
pub proof fn lemma_interpret_exit_wins(state: State, commands: Seq<Command>, i: int)
    requires
        0 <= i < commands.len(),
        commands[i] is Exit,
    ensures
        interpret_spec(state, commands) == State::Exiting,
    decreases commands.len(),
{
    if !(commands[0] is Exit) {
        assert(commands.skip(1)[i - 1] == commands[i]);
        lemma_interpret_exit_wins(command_target(commands[0]), commands.skip(1), i - 1);
    }
}

/// Law: commands queued behind an Exit are not reflected in any state —
/// extending a batch that holds an Exit changes nothing: interpretation
/// yields `Exiting` either way.
pub proof fn lemma_interpret_exit_masks_suffix(
    state: State,
    commands: Seq<Command>,
    i: int,
    tail: Seq<Command>,
)
    requires
        0 <= i < commands.len(),
        commands[i] is Exit,
    ensures
        interpret_spec(state, commands + tail) == interpret_spec(state, commands),
        interpret_spec(state, commands + tail) == State::Exiting,
{
    lemma_interpret_exit_wins(state, commands, i);
    assert((commands + tail)[i] == commands[i]);
    lemma_interpret_exit_wins(state, commands + tail, i);
}

/// Outer code communicates with the manager through these endpoints.
#[verifier::reject_recursive_types(M)]
pub struct OuterBonds<M> {
    pub input_tx: Sender<Input>,
    pub command_tx: Sender<Command>,
    pub notification_rx: Receiver<Notification>,
    pub model_rx: Receiver<Arc<M>>,
}

/// The manager's own ends of the same four channels.
#[verifier::reject_recursive_types(M)]
struct InnerBonds<M> {
    input_rx: Receiver<Input>,
    command_rx: Receiver<Command>,
    notification_tx: Sender<Notification>,
    model_tx: Sender<Arc<M>>,
}

/// The manager: drives a model's trait methods in the right order, at the
/// right time, with exclusivity reclaimed before every write phase.
#[verifier::reject_recursive_types(M)]
pub struct ModelManager<M: Model, C: Clock, R: ErrorReporter> {
    model: Arc<M>,
    inner_bonds: InnerBonds<M>,
    state: State,
    prior_result: Option<M::PriorResult>,
    clock: C,
    reporter: R,
    wait_timeout_micros: u64,
    check_period_micros: u64,
}

impl<M: Model, C: Clock, R: ErrorReporter> ModelManager<M, C, R> {
    /// The manager's current control state.
    pub closed spec fn spec_state(self) -> State {
        self.state
    }

    /// The model behind the manager's handle.
    pub closed spec fn spec_model(self) -> M {
        *self.model
    }

    /// The value threaded from the last cycle into the next one.
    pub closed spec fn spec_prior_result(self) -> Option<M::PriorResult> {
        self.prior_result
    }

    /// The configured deadline of one exclusivity reclaim, in microseconds.
    pub closed spec fn spec_wait_timeout_micros(self) -> u64 {
        self.wait_timeout_micros
    }

    /// The configured pause between two holder-count checks, in microseconds.
    pub closed spec fn spec_check_period_micros(self) -> u64 {
        self.check_period_micros
    }

    /// Creates a manager around a shared model handle, with the default
    /// reclaim timing, in the `Stopped` state.
    pub fn new(model: Arc<M>, clock: C, reporter: R) -> (r: (Self, OuterBonds<M>))
        ensures
            r.0.spec_state() is Stopped,
            r.0.spec_model() == model,
            r.0.spec_prior_result() is None,
            r.0.spec_wait_timeout_micros() == DEFAULT_WAIT_TIMEOUT_MICROS,
            r.0.spec_check_period_micros() == DEFAULT_CHECK_PERIOD_MICROS,
    {
        let (outer_bonds, inner_bonds) = Self::create_bonds();
        let model_manager = Self {
            model,
            inner_bonds,
            state: State::Stopped,
            prior_result: None,
            clock,
            reporter,
            wait_timeout_micros: DEFAULT_WAIT_TIMEOUT_MICROS,
            check_period_micros: DEFAULT_CHECK_PERIOD_MICROS,
        };
        (model_manager, outer_bonds)
    }

    /// Reconfigures the exclusivity-reclaim timing.
    pub fn set_timing(&mut self, wait_timeout_micros: u64, check_period_micros: u64)
        ensures
            final(self).spec_wait_timeout_micros() == wait_timeout_micros,
            final(self).spec_check_period_micros() == check_period_micros,
            final(self).spec_state() == old(self).spec_state(),
            final(self).spec_model() == old(self).spec_model(),
            final(self).spec_prior_result() == old(self).spec_prior_result(),
    {
        self.wait_timeout_micros = wait_timeout_micros;
        self.check_period_micros = check_period_micros;
    }

    /// The manager's current control state, for outer observation.
    pub fn state(&self) -> (s: State)
        ensures
            s == self.spec_state(),
    {
        self.state
    }

    /// Creates the inner and outer halves of the four communication
    /// channels.
    fn create_bonds() -> (OuterBonds<M>, InnerBonds<M>) {
        let (command_tx, command_rx) = make_channel::<Command>();
        let (notification_tx, notification_rx) = make_channel::<Notification>();
        let (input_tx, input_rx) = make_channel::<Input>();
        let (model_tx, model_rx) = make_channel::<Arc<M>>();

        let outer_bonds = OuterBonds { input_tx, command_tx, notification_rx, model_rx };

        let inner_bonds = InnerBonds { input_rx, command_rx, notification_tx, model_tx };
        (outer_bonds, inner_bonds)
    }

    /// Takes every command currently queued, in arrival order, without
    /// blocking. The number of polls is bounded so the loop provably ends.
    fn drain_commands(&mut self) -> (commands: Vec<Command>)
        ensures
            *final(self) == *old(self),
    {
        let mut commands: Vec<Command> = Vec::new();
        let mut polls: usize = 0;
        loop
            invariant
                polls < usize::MAX,
            decreases usize::MAX - polls,
        {
            match chan_try_recv(&self.inner_bonds.command_rx) {
                Polled::Item(c) => commands.push(c),
                Polled::Empty => {
                    return commands;
                },
                Polled::Disconnected => {
                    return commands;
                },
            }
            polls = polls + 1;
            if polls == usize::MAX {
                return commands;
            }
        }
    }

    /// Takes every input record currently queued, in arrival order, without
    /// blocking; a record drained here is gone from the channel and can
    /// reach no later cycle. The number of polls is bounded so the loop
    /// provably ends.
    pub fn take_input_events(&mut self) -> (inputs: Vec<Input>)
        ensures
            *final(self) == *old(self),
    {
        let mut inputs: Vec<Input> = Vec::new();
        let mut polls: usize = 0;
        loop
            invariant
                polls < usize::MAX,
            decreases usize::MAX - polls,
        {
            match chan_try_recv(&self.inner_bonds.input_rx) {
                Polled::Item(i) => inputs.push(i),
                Polled::Empty => {
                    return inputs;
                },
                Polled::Disconnected => {
                    return inputs;
                },
            }
            polls = polls + 1;
            if polls == usize::MAX {
                return inputs;
            }
        }
    }

    /// Tries to materialize the mutable view of the model handle. Fails
    /// with `ArcGetMutFailed` when some other holder still exists — the
    /// narrow race after a successful count check.
    pub fn try_get_mut_model(model: &mut Arc<M>) -> (r: Result<&mut M, ModelNotFreeError>)
        ensures
            match r {
                Ok(m) => *m == *old(model) && *final(model) == *final(m),
                Err(e) => e is ArcGetMutFailed && *final(model) == *old(model),
            },
    {
        match arc_get_mut(model) {
            Some(m) => Ok(m),
            None => Err(ModelNotFreeError::ArcGetMutFailed),
        }
    }

    /// Polls until this handle is the sole strong holder, then materializes
    /// the mutable view. `WaitTimeoutExceeded` when the count never came
    /// down within the deadline; `ArcGetMutFailed` when a new holder won
    /// the race between the count check and the acquisition.
    pub fn wait_for_mut_model<'a>(
        model: &'a mut Arc<M>,
        clock: &C,
        wait_timeout_micros: u64,
        check_period_micros: u64,
    ) -> (r: Result<&'a mut M, ModelNotFreeError>)
        ensures
            match r {
                Ok(m) => *m == *old(model) && *final(model) == *final(m),
                Err(e) => (e is ArcGetMutFailed || e is WaitTimeoutExceeded) && *final(model)
                    == *old(model),
            },
    {
        let wait_result = {
            let shared: &Arc<M> = &*model;
            wait_for(
                || arc_strong_count(shared) == 1,
                clock,
                Some(wait_timeout_micros),
                check_period_micros,
            )
        };
        if wait_result {
            Self::try_get_mut_model(model)
        } else {
            Err(ModelNotFreeError::WaitTimeoutExceeded)
        }
    }

    /// The read-only phase: runs the model's prior computation on the
    /// shared view; exclusivity is not needed and not sought.
    fn while_present(&self, prior_result: Option<M::PriorResult>) -> Option<M::PriorResult> {
        arc_borrow(&self.model).prior(prior_result)
    }

    /// The write phase: drains the queued inputs, reclaims exclusivity,
    /// and hands the batch to the model's update. On failure the model is
    /// untouched and the cycle is lost, nothing more.
    fn before_present(&mut self, prior_result: Option<M::PriorResult>) -> (r: Result<
        Option<M::PriorResult>,
        ModelNotFreeError,
    >)
        ensures
            final(self).spec_state() == old(self).spec_state(),
            final(self).spec_prior_result() == old(self).spec_prior_result(),
            final(self).spec_wait_timeout_micros() == old(self).spec_wait_timeout_micros(),
            final(self).spec_check_period_micros() == old(self).spec_check_period_micros(),
            r is Err ==> final(self).spec_model() == old(self).spec_model(),
    {
        let input_events = self.take_input_events();
        let got = Self::wait_for_mut_model(
            &mut self.model,
            &self.clock,
            self.wait_timeout_micros,
            self.check_period_micros,
        );
        match got {
            Ok(m) => Ok(m.update(prior_result, &input_events)),
            Err(e) => Err(e),
        }
    }

    /// One full cycle while running: prior phase, drain, exclusive update,
    /// publish. A failed reclaim leaves the model untouched; a failed
    /// publish reports `CantSendToPresenter`. The control state is not
    /// changed here — the loop decides what a failure means.
    fn update(&mut self, prior_result: Option<M::PriorResult>) -> (r: Result<
        Option<M::PriorResult>,
        UpdateError,
    >)
        ensures
            final(self).spec_state() == old(self).spec_state(),
            final(self).spec_prior_result() == old(self).spec_prior_result(),
            r matches Err(UpdateError::ModelNotFree(_)) ==> final(self).spec_model()
                == old(self).spec_model(),
    {
        let prior_result = self.while_present(prior_result);

        let prior_result = match self.before_present(prior_result) {
            Ok(p) => p,
            Err(e) => {
                return Err(UpdateError::from(e));
            },
        };
        let sent = chan_send(&self.inner_bonds.model_tx, arc_clone(&self.model));
        if sent {
            Ok(prior_result)
        } else {
            Err(UpdateError::CantSendToPresenter)
        }
    }

    /// Blocks until a command arrives, then moves to that command's target
    /// state — `Run` and `Exit` transition, any other command leaves the
    /// manager stopped; the decision itself is `next_state_of`, with its
    /// exact contract. A permanent disconnection of the command source is
    /// reported as an error, nothing more: the state is kept, unless the
    /// report itself escalates to `Exiting`. Which branch ran depends on
    /// the outer code, so the contract states what holds of either.
    fn wait_for_next_commands(&mut self)
        ensures
            final(self).spec_model() == old(self).spec_model(),
            final(self).spec_prior_result() == old(self).spec_prior_result(),
            final(self).spec_wait_timeout_micros() == old(self).spec_wait_timeout_micros(),
            final(self).spec_check_period_micros() == old(self).spec_check_period_micros(),
    {
        match chan_recv(&self.inner_bonds.command_rx) {
            Some(c) => {
                self.state = next_state_of(c);
            },
            None => {
                self.send_error(ModelManagerError::RecvError);
            },
        }
    }

    /// Wraps the error into a notification and sends it out, reporting
    /// whether it was delivered: on delivery the state is untouched; when
    /// delivery fails — the notification consumer is gone — the failure is
    /// surfaced through the reporter and the manager turns to `Exiting`.
    /// An error is never dropped with the state left as it was.
    fn send_error(&mut self, e: ModelManagerError) -> (delivered: bool)
        ensures
            delivered ==> final(self).spec_state() == old(self).spec_state(),
            !delivered ==> final(self).spec_state() is Exiting,
            final(self).spec_model() == old(self).spec_model(),
            final(self).spec_prior_result() == old(self).spec_prior_result(),
            final(self).spec_wait_timeout_micros() == old(self).spec_wait_timeout_micros(),
            final(self).spec_check_period_micros() == old(self).spec_check_period_micros(),
    {
        let message = e.message();
        let sent = chan_send(&self.inner_bonds.notification_tx, Notification::Error(e));
        if !sent {
            self.reporter.report("Model manager error", message);
            self.state = State::Exiting;
        }
        sent
    }

    /// What a failed cycle means: the manager falls back to `Stopped`, the
    /// threaded value is discarded, and the failure goes out as a
    /// notification — `Exiting` exactly when that delivery itself failed.
    /// The model is left as the failed cycle left it; the failure costs
    /// the cycle, not the process.
    fn abort_cycle(&mut self, e: UpdateError) -> (delivered: bool)
        ensures
            delivered ==> final(self).spec_state() is Stopped,
            !delivered ==> final(self).spec_state() is Exiting,
            final(self).spec_prior_result() is None,
            final(self).spec_model() == old(self).spec_model(),
    {
        self.state = State::Stopped;
        self.prior_result = None;
        self.send_error(ModelManagerError::from(e))
    }

    /// One turn of the control loop, on a batch already drained: interpret
    /// the batch, then act in the resulting state — run one update cycle,
    /// or block for the next command, or report that the loop must break.
    /// A failed cycle forces `Stopped`, discards the threaded value and
    /// emits a notification.
    pub fn step_with(&mut self, commands: &Vec<Command>) -> (go_on: bool)
        ensures
            ({
                let interpreted = interpret_spec(old(self).spec_state(), commands@);
                &&& go_on == !(interpreted is Exiting)
                &&& interpreted is Exiting ==> final(self).spec_state() is Exiting
                    && final(self).spec_model() == old(self).spec_model()
                    && final(self).spec_prior_result() == old(self).spec_prior_result()
                &&& interpreted is Stopped ==> final(self).spec_model() == old(self).spec_model()
                    && final(self).spec_prior_result() == old(self).spec_prior_result()
                &&& interpreted is Running && final(self).spec_state() is Stopped
                    ==> final(self).spec_prior_result() is None
            }),
    {
        self.state = interpret_commands(self.state, commands);
        match self.state {
            State::Running => {
                let prior_result = self.prior_result.take();
                match self.update(prior_result) {
                    Ok(p) => {
                        self.prior_result = p;
                    },
                    Err(e) => {
                        self.abort_cycle(e);
                    },
                }
                true
            },
            State::Stopped => {
                self.wait_for_next_commands();
                true
            },
            State::Exiting => false,
        }
    }

    /// One turn of the control loop on whatever commands are queued now.
    pub fn step(&mut self) -> (go_on: bool)
        ensures
            !go_on ==> final(self).spec_state() is Exiting,
    {
        let commands = self.drain_commands();
        self.step_with(&commands)
    }

    /// The control loop: turns until an Exit is interpreted. The turn count
    /// carries the loop's termination measure; at one turn per microsecond
    /// it outlasts any process.
    pub fn run(self) {
        let mut manager = self;
        let mut turns: u64 = 0;
        loop
            decreases u64::MAX - turns,
        {
            let go_on = manager.step();
            if !go_on {
                return;
            }
            if turns == u64::MAX {
                return;
            }
            turns = turns + 1;
        }
    }
}

} // verus!
