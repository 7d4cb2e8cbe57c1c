use std::cell::Cell;
use std::cell::RefCell;
use std::sync::Arc;

use model_manager::input::ElementState;
use model_manager::input::Input;
use model_manager::input::InputEvent;
use model_manager::input::Key;
use model_manager::model::counter_model::CounterModel;
use model_manager::model::error::model_not_free::ModelNotFreeError;
use model_manager::model::error::update::UpdateError;
use model_manager::model::error::ModelManagerError;
use model_manager::model::model_manager::Command;
use model_manager::model::model_manager::ModelManager;
use model_manager::model::model_manager::Notification;
use model_manager::model::model_manager::OuterBonds;
use model_manager::model::Model;
use model_manager::model::State;
use model_manager::utils::Clock;
use model_manager::utils::ErrorReporter;

/// A deterministic clock: time advances exactly by what is slept. It can
/// also hold a clone of the model handle and release it after a configured
/// number of sleeps, playing a consumer that gives the handle back while
/// the manager is polling for it.
struct FakeClock {
    now: Cell<u64>,
    sleeps: Cell<u64>,
    held: RefCell<Option<Arc<CounterModel>>>,
    release_after_sleeps: u64,
}

impl FakeClock {
    fn new() -> FakeClock {
        FakeClock {
            now: Cell::new(0),
            sleeps: Cell::new(0),
            held: RefCell::new(None),
            release_after_sleeps: 0,
        }
    }

    fn releasing(held: Arc<CounterModel>, release_after_sleeps: u64) -> FakeClock {
        FakeClock {
            now: Cell::new(0),
            sleeps: Cell::new(0),
            held: RefCell::new(Some(held)),
            release_after_sleeps,
        }
    }
}

impl Clock for &FakeClock {
    fn now_micros(&self) -> u64 {
        self.now.get()
    }

    fn sleep_micros(&self, micros: u64) {
        self.now.set(self.now.get() + micros);
        self.sleeps.set(self.sleeps.get() + 1);
        if self.sleeps.get() == self.release_after_sleeps {
            self.held.borrow_mut().take();
        }
    }
}

/// Records whether the escalation surface was ever used.
struct RecordingReporter {
    reported: Cell<bool>,
}

impl RecordingReporter {
    fn new() -> RecordingReporter {
        RecordingReporter { reported: Cell::new(false) }
    }
}

impl ErrorReporter for &RecordingReporter {
    fn report(&self, _title: &str, _message: &str) {
        self.reported.set(true);
    }
}

fn up(state: ElementState) -> Input {
    Input { happen_at: 0, device_id: None, event: InputEvent::Keyboard { key: Key::Up, state } }
}

fn down(state: ElementState) -> Input {
    Input { happen_at: 0, device_id: None, event: InputEvent::Keyboard { key: Key::Down, state } }
}

fn take_snapshot(bonds: &OuterBonds<CounterModel>) -> i32 {
    let snapshot = bonds.model_rx.try_recv().expect("a snapshot should have been published");
    snapshot.count()
}

#[test]
fn a_new_manager_is_stopped() {
    let reporter = RecordingReporter::new();
    let clock = FakeClock::new();
    let (manager, _bonds) =
        ModelManager::new(Arc::new(CounterModel::new()), &clock, &reporter);
    assert_eq!(manager.state(), State::Stopped);
}

#[test]
fn sole_holder_reclaims_at_the_first_check_without_timeout() {
    let reporter = RecordingReporter::new();
    let clock = FakeClock::new();
    let (mut manager, bonds) =
        ModelManager::new(Arc::new(CounterModel::new()), &clock, &reporter);

    bonds.command_tx.send(Command::Run).unwrap();
    assert!(manager.step());

    assert_eq!(manager.state(), State::Running);
    assert_eq!(take_snapshot(&bonds), 0);
    assert!(bonds.notification_rx.try_recv().is_err());
    assert!(!reporter.reported.get());
}

#[test]
fn a_holder_that_releases_before_the_timeout_lets_one_update_through() {
    let reporter = RecordingReporter::new();
    let model = Arc::new(CounterModel::new());
    let clock = FakeClock::releasing(Arc::clone(&model), 3);
    let (mut manager, bonds) = ModelManager::new(model, &clock, &reporter);

    bonds.input_tx.send(up(ElementState::Pressed)).unwrap();
    bonds.command_tx.send(Command::Run).unwrap();
    assert!(manager.step());

    assert_eq!(manager.state(), State::Running);
    // update ran exactly once on the one-event batch: one counted edge.
    assert_eq!(take_snapshot(&bonds), 1);
    assert!(bonds.notification_rx.try_recv().is_err());
}

#[test]
fn a_holder_that_never_releases_forces_a_timeout_and_a_stop() {
    let reporter = RecordingReporter::new();
    let model = Arc::new(CounterModel::new());
    let held = Arc::clone(&model);
    let clock = FakeClock::new();
    let (mut manager, bonds) = ModelManager::new(model, &clock, &reporter);
    manager.set_timing(10_000, 500);

    bonds.input_tx.send(up(ElementState::Pressed)).unwrap();
    bonds.command_tx.send(Command::Run).unwrap();
    assert!(manager.step());

    assert_eq!(manager.state(), State::Stopped);
    assert!(bonds.model_rx.try_recv().is_err());
    assert_eq!(
        bonds.notification_rx.try_recv().unwrap(),
        Notification::Error(ModelManagerError::UpdateError(UpdateError::ModelNotFree(
            ModelNotFreeError::WaitTimeoutExceeded,
        ))),
    );
    // the held clone saw no update while the reclaim was failing
    assert_eq!(held.count(), 0);
}

#[test]
fn the_timeout_is_respected_within_one_check_period() {
    let reporter = RecordingReporter::new();
    let clock = FakeClock::new();
    let model = Arc::new(CounterModel::new());
    let _held = Arc::clone(&model);
    let (mut manager, bonds) = ModelManager::new(model, &clock, &reporter);
    manager.set_timing(10_000, 500);

    bonds.command_tx.send(Command::Run).unwrap();
    assert!(manager.step());
    assert_eq!(manager.state(), State::Stopped);

    // the fake clock advanced only in the reclaim's sleeps: the wait gave up
    // past the deadline, but within one check period of it
    assert!(clock.now.get() >= 10_000);
    assert!(clock.now.get() <= 10_500);
}

#[test]
fn draining_twice_with_no_new_events_yields_nothing() {
    let reporter = RecordingReporter::new();
    let clock = FakeClock::new();
    let (mut manager, bonds) =
        ModelManager::new(Arc::new(CounterModel::new()), &clock, &reporter);

    bonds.input_tx.send(up(ElementState::Pressed)).unwrap();
    bonds.input_tx.send(up(ElementState::Released)).unwrap();
    bonds.input_tx.send(down(ElementState::Pressed)).unwrap();

    let first = manager.take_input_events();
    assert_eq!(first.len(), 3);
    assert_eq!(first[0].event, InputEvent::Keyboard { key: Key::Up, state: ElementState::Pressed });

    let second = manager.take_input_events();
    assert_eq!(second.len(), 0);
}

#[test]
fn repeated_presses_count_edges_across_cycles() {
    let reporter = RecordingReporter::new();
    let clock = FakeClock::new();
    let (mut manager, bonds) =
        ModelManager::new(Arc::new(CounterModel::new()), &clock, &reporter);

    bonds.command_tx.send(Command::Run).unwrap();

    bonds.input_tx.send(up(ElementState::Pressed)).unwrap();
    assert!(manager.step());
    assert_eq!(take_snapshot(&bonds), 1);

    bonds.input_tx.send(up(ElementState::Released)).unwrap();
    assert!(manager.step());
    assert_eq!(take_snapshot(&bonds), 1);

    bonds.input_tx.send(up(ElementState::Pressed)).unwrap();
    assert!(manager.step());
    // released-then-pressed again: two edges in all, not three
    assert_eq!(take_snapshot(&bonds), 2);
}

#[test]
fn one_batch_counts_edges_not_levels() {
    let reporter = RecordingReporter::new();
    let clock = FakeClock::new();
    let (mut manager, bonds) =
        ModelManager::new(Arc::new(CounterModel::new()), &clock, &reporter);

    bonds.command_tx.send(Command::Run).unwrap();
    bonds.input_tx.send(up(ElementState::Pressed)).unwrap();
    bonds.input_tx.send(up(ElementState::Pressed)).unwrap();
    bonds.input_tx.send(down(ElementState::Pressed)).unwrap();
    assert!(manager.step());

    // one up edge (the duplicate press is no edge) and one down edge: net zero
    assert_eq!(take_snapshot(&bonds), 0);
}

#[test]
fn a_surviving_holder_at_acquisition_time_fails_the_materialization() {
    let model = Arc::new(CounterModel::new());
    let held = Arc::clone(&model);
    let mut shared = model;
    // the count check is already behind us; a holder still exists, so the
    // mutable view cannot be materialized
    let got =
        ModelManager::<CounterModel, &FakeClock, &RecordingReporter>::try_get_mut_model(
            &mut shared,
        );
    assert_eq!(got.err(), Some(ModelNotFreeError::ArcGetMutFailed));
    drop(held);

    let got =
        ModelManager::<CounterModel, &FakeClock, &RecordingReporter>::try_get_mut_model(
            &mut shared,
        );
    assert!(got.is_ok());
}

#[test]
fn a_lost_snapshot_consumer_fails_the_publish_phase() {
    let reporter = RecordingReporter::new();
    let clock = FakeClock::new();
    let (mut manager, bonds) =
        ModelManager::new(Arc::new(CounterModel::new()), &clock, &reporter);

    drop(bonds.model_rx);
    bonds.command_tx.send(Command::Run).unwrap();
    assert!(manager.step());

    assert_eq!(manager.state(), State::Stopped);
    assert_eq!(
        bonds.notification_rx.try_recv().unwrap(),
        Notification::Error(ModelManagerError::UpdateError(UpdateError::CantSendToPresenter)),
    );
}

#[test]
fn a_disconnected_command_source_is_reported_not_fatal() {
    let reporter = RecordingReporter::new();
    let clock = FakeClock::new();
    let (mut manager, bonds) =
        ModelManager::new(Arc::new(CounterModel::new()), &clock, &reporter);

    drop(bonds.command_tx);
    assert!(manager.step());

    assert_eq!(manager.state(), State::Stopped);
    assert_eq!(
        bonds.notification_rx.try_recv().unwrap(),
        Notification::Error(ModelManagerError::RecvError),
    );
    assert!(!reporter.reported.get());
}

#[test]
fn a_lost_notification_consumer_escalates_and_exits() {
    let reporter = RecordingReporter::new();
    let clock = FakeClock::new();
    let (mut manager, bonds) =
        ModelManager::new(Arc::new(CounterModel::new()), &clock, &reporter);

    drop(bonds.command_tx);
    drop(bonds.notification_rx);
    assert!(manager.step());

    assert!(reporter.reported.get());
    assert_eq!(manager.state(), State::Exiting);
    assert!(!manager.step());
}

/// A model that counts its cycles through the threaded value: the read-only
/// phase increments it, the write phase records what it was handed.
struct PhaseModel {
    last_prior: Option<u32>,
    updates: u32,
}

impl Model for PhaseModel {
    type PriorResult = u32;

    fn prior(&self, prior_result: Option<u32>) -> Option<u32> {
        Some(prior_result.unwrap_or(0) + 1)
    }

    fn update(&mut self, prior_result: Option<u32>, _inputs: &Vec<Input>) -> Option<u32> {
        self.last_prior = prior_result;
        self.updates += 1;
        prior_result
    }
}

#[test]
fn the_prior_result_threads_from_one_cycle_into_the_next() {
    let reporter = RecordingReporter::new();
    let clock = FakeClock::new();
    let model = PhaseModel { last_prior: None, updates: 0 };
    let (mut manager, bonds) = ModelManager::new(Arc::new(model), &clock, &reporter);

    bonds.command_tx.send(Command::Run).unwrap();

    assert!(manager.step());
    let snapshot = bonds.model_rx.try_recv().unwrap();
    // first cycle: prior saw None, update was invoked exactly once
    assert_eq!(snapshot.last_prior, Some(1));
    assert_eq!(snapshot.updates, 1);
    drop(snapshot);

    assert!(manager.step());
    let snapshot = bonds.model_rx.try_recv().unwrap();
    // second cycle: the value came back through prior and grew
    assert_eq!(snapshot.last_prior, Some(2));
    assert_eq!(snapshot.updates, 2);
}

#[test]
fn exit_ends_the_loop() {
    let reporter = RecordingReporter::new();
    let clock = FakeClock::new();
    let (manager, bonds) =
        ModelManager::new(Arc::new(CounterModel::new()), &clock, &reporter);

    bonds.command_tx.send(Command::Run).unwrap();
    bonds.command_tx.send(Command::Exit).unwrap();
    bonds.command_tx.send(Command::Run).unwrap();

    // returns: the Exit is interpreted ahead of the commands queued after it
    manager.run();
}
