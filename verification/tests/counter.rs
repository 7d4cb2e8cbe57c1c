use model_manager::input::ElementState;
use model_manager::input::Input;
use model_manager::input::InputEvent;
use model_manager::input::Key;
use model_manager::model::counter_model::CounterModel;
use model_manager::model::Model;

fn key(key: Key, state: ElementState) -> Input {
    Input { happen_at: 0, device_id: None, event: InputEvent::Keyboard { key, state } }
}

#[test]
fn a_new_counter_is_zero_with_both_keys_released() {
    let model = CounterModel::new();
    assert_eq!(model.count(), 0);
    assert_eq!(model.up_state, ElementState::Released);
    assert_eq!(model.down_state, ElementState::Released);
}

#[test]
fn only_released_to_pressed_edges_count_across_batches() {
    let mut model = CounterModel::new();
    model.update(None, &vec![key(Key::Up, ElementState::Pressed)]);
    model.update(None, &vec![key(Key::Up, ElementState::Released)]);
    model.update(None, &vec![key(Key::Up, ElementState::Pressed)]);
    assert_eq!(model.count(), 2);
}

#[test]
fn one_batch_of_duplicate_press_and_a_down_press_nets_zero() {
    let mut model = CounterModel::new();
    model.update(
        None,
        &vec![
            key(Key::Up, ElementState::Pressed),
            key(Key::Up, ElementState::Pressed),
            key(Key::Down, ElementState::Pressed),
        ],
    );
    assert_eq!(model.count(), 0);
    assert_eq!(model.up_state, ElementState::Pressed);
    assert_eq!(model.down_state, ElementState::Pressed);
}

#[test]
fn other_keys_and_non_keyboard_events_leave_the_counter_alone() {
    let mut model = CounterModel::new();
    model.update(
        None,
        &vec![
            key(Key::Other(31), ElementState::Pressed),
            Input { happen_at: 0, device_id: None, event: InputEvent::Symbol('x') },
            Input { happen_at: 0, device_id: Some(1), event: InputEvent::Scroll { dx: 1, dy: 2 } },
        ],
    );
    assert_eq!(model.count(), 0);
    assert_eq!(model.up_state, ElementState::Released);
    assert_eq!(model.down_state, ElementState::Released);
}
