//! Normalized input records and the partial conversion that produces them
//! from raw platform events.

use vstd::prelude::*;

verus! {

/// Opaque identifier of the device a raw event came from.
pub type DeviceId = u64;

/// A capture time, in microseconds from an arbitrary fixed origin.
pub type Timestamp = u64;

/// A symbolic keyboard key. The control loop's example payload reads only
/// `Up` and `Down`; every other resolvable key keeps its platform code.
#[derive(Debug, Clone, Copy, PartialEq, Eq, Structural)]
pub enum Key {
    Up,
    Down,
    Other(u32),
}

/// Whether a key or button transition was a press or a release.
#[derive(Debug, Clone, Copy, PartialEq, Eq, Structural)]
pub enum ElementState {
    Pressed,
    Released,
}

/// A mouse button; buttons beyond the common three keep their platform code.
#[derive(Debug, Clone, Copy, PartialEq, Eq, Structural)]
pub enum MouseButton {
    Left,
    Right,
    Middle,
    Other(u16),
}

/// The closed union of normalized event payloads. Positions and deltas are
/// in integral device units.
#[derive(Debug, Clone, Copy, PartialEq, Eq, Structural)]
pub enum InputEvent {
    Keyboard { key: Key, state: ElementState },
    RawMouseMove { dx: i64, dy: i64 },
    CursorMove { x: i64, y: i64 },
    Scroll { dx: i64, dy: i64 },
    MouseButton { button: MouseButton, state: ElementState },
    Symbol(char),
}

/// One normalized input record: immutable once constructed, created by the
/// normalizer and consumed exactly once by a model's write phase.
#[derive(Debug, Clone, Copy, PartialEq, Eq, Structural)]
pub struct Input {
    /// When the record was normalized — not the hardware timestamp.
    pub happen_at: Timestamp,
    /// The source device, when the raw event names one.
    pub device_id: Option<DeviceId>,
    pub event: InputEvent,
}

/// What the normalizer reads from a raw platform event: the recognized
/// shapes, and `Other` for everything else (resize, focus, close, ...),
/// which the separate lifecycle path handles.
#[derive(Debug, Clone, Copy, PartialEq, Eq, Structural)]
pub enum RawEvent {
    ReceivedCharacter(char),
    KeyboardInput { device_id: DeviceId, key: Option<Key>, state: ElementState },
    CursorMoved { device_id: DeviceId, x: i64, y: i64 },
    MouseWheel { device_id: DeviceId, dx: i64, dy: i64 },
    MouseInput { device_id: DeviceId, button: MouseButton, state: ElementState },
    MouseMotion { device_id: DeviceId, dx: i64, dy: i64 },
    Other,
}

/// The normalization function: which raw events produce an input record,
/// and with which payload. Partial: an unrecognized raw event — or a key
/// press with no resolvable symbolic key — produces nothing.
pub open spec fn normalize_spec(raw: RawEvent, now: Timestamp) -> Option<Input> {
    match raw {
        RawEvent::ReceivedCharacter(c) => Some(
            Input { happen_at: now, device_id: None, event: InputEvent::Symbol(c) },
        ),
        RawEvent::KeyboardInput { device_id, key, state } => match key {
            Some(k) => Some(
                Input {
                    happen_at: now,
                    device_id: Some(device_id),
                    event: InputEvent::Keyboard { key: k, state },
                },
            ),
            None => None,
        },
        RawEvent::CursorMoved { device_id, x, y } => Some(
            Input {
                happen_at: now,
                device_id: Some(device_id),
                event: InputEvent::CursorMove { x, y },
            },
        ),
        RawEvent::MouseWheel { device_id, dx, dy } => Some(
            Input {
                happen_at: now,
                device_id: Some(device_id),
                event: InputEvent::Scroll { dx, dy },
            },
        ),
        RawEvent::MouseInput { device_id, button, state } => Some(
            Input {
                happen_at: now,
                device_id: Some(device_id),
                event: InputEvent::MouseButton { button, state },
            },
        ),
        RawEvent::MouseMotion { device_id, dx, dy } => Some(
            Input {
                happen_at: now,
                device_id: Some(device_id),
                event: InputEvent::RawMouseMove { dx, dy },
            },
        ),
        RawEvent::Other => None,
    }
}

impl Input {
    /// Normalizes one raw platform event, stamping it with the given
    /// normalization time. Exactly the recognized subset yields a record;
    /// an unrecognized raw event yields `None` and so can never reach a
    /// drained batch.
    pub fn from_raw(raw: &RawEvent, now: Timestamp) -> (r: Option<Input>)
        ensures
            r == normalize_spec(*raw, now),
    {
        match *raw {
            RawEvent::ReceivedCharacter(c) => Some(
                Input { happen_at: now, device_id: None, event: InputEvent::Symbol(c) },
            ),
            RawEvent::KeyboardInput { device_id, key, state } => match key {
                Some(k) => Some(
                    Input {
                        happen_at: now,
                        device_id: Some(device_id),
                        event: InputEvent::Keyboard { key: k, state },
                    },
                ),
                None => None,
            },
            RawEvent::CursorMoved { device_id, x, y } => Some(
                Input {
                    happen_at: now,
                    device_id: Some(device_id),
                    event: InputEvent::CursorMove { x, y },
                },
            ),
            RawEvent::MouseWheel { device_id, dx, dy } => Some(
                Input {
                    happen_at: now,
                    device_id: Some(device_id),
                    event: InputEvent::Scroll { dx, dy },
                },
            ),
            RawEvent::MouseInput { device_id, button, state } => Some(
                Input {
                    happen_at: now,
                    device_id: Some(device_id),
                    event: InputEvent::MouseButton { button, state },
                },
            ),
            RawEvent::MouseMotion { device_id, dx, dy } => Some(
                Input {
                    happen_at: now,
                    device_id: Some(device_id),
                    event: InputEvent::RawMouseMove { dx, dy },
                },
            ),
            RawEvent::Other => None,
        }
    }
}

} // verus!
