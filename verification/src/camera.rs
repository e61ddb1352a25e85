use vstd::prelude::*;

use crate::input::{ElementState, Key, WindowEvent};

verus! {

/// One of the six directions of motion that the camera controller tracks.
#[derive(Clone, Copy, Debug, PartialEq, Eq, Structural)]
pub enum Axis {
    XMovement,
    YMovement,
    ZMovement,
    XRotation,
    YRotation,
    ZRotation,
}

/// The axis that a key drives and the sign it drives it with, if the key is
/// bound at all.
pub open spec fn key_binding(key: Key) -> Option<(Axis, int)> {
    match key {
        Key::D => Some((Axis::XMovement, 1)),
        Key::A => Some((Axis::XMovement, -1)),
        Key::Q => Some((Axis::YMovement, 1)),
        Key::E => Some((Axis::YMovement, -1)),
        Key::W => Some((Axis::ZMovement, -1)),
        Key::S => Some((Axis::ZMovement, 1)),
        Key::L => Some((Axis::XRotation, 1)),
        Key::J => Some((Axis::XRotation, -1)),
        Key::U => Some((Axis::YRotation, 1)),
        Key::O => Some((Axis::YRotation, -1)),
        Key::I => Some((Axis::ZRotation, -1)),
        Key::K => Some((Axis::ZRotation, 1)),
        _ => None,
    }
}

/// How strongly a key state drives its axis: fully while pressed, not at all
/// once released.
pub open spec fn key_amount(state: ElementState) -> int {
    match state {
        ElementState::Pressed => 1,
        ElementState::Released => 0,
    }
}

/// The axis an event sets and the value it sets it to, or `None` when the
/// camera controller ignores the event.
pub open spec fn camera_update(event: WindowEvent) -> Option<(Axis, int)> {
    match event {
        WindowEvent::KeyboardInput { state, virtual_keycode: Some(key) } => match key_binding(key) {
            Some((axis, sign)) => Some((axis, sign * key_amount(state))),
            None => None,
        },
        _ => None,
    }
}

/// The controller's state after it has seen `event` in state `m`.
pub open spec fn apply_event(m: Map<Axis, int>, event: WindowEvent) -> Map<Axis, int> {
    match camera_update(event) {
        Some((axis, value)) => m.insert(axis, value),
        None => m,
    }
}

/// The state of a controller on which no key is held.
pub open spec fn at_rest() -> Map<Axis, int> {
    Map::total(|a: Axis| 0int)
}

/// Every axis is present and lies in {-1, 0, 1}.
pub open spec fn bounded(m: Map<Axis, int>) -> bool {
    forall|a: Axis| #[trigger] m.dom().contains(a) && -1 <= m[a] <= 1
}

/// A direction of travel with one signed component per coordinate.
#[derive(Clone, Copy, Debug, PartialEq, Eq, Structural)]
pub struct Direction {
    pub x: i8,
    pub y: i8,
    pub z: i8,
}

/// Where the eye and the target move, per unit of controller speed, in one
/// camera update.
#[derive(Clone, Copy, Debug, PartialEq, Eq, Structural)]
pub struct CameraStep {
    pub eye: Direction,
    pub target: Direction,
}

/// The eye moves along the three movement axes.
pub open spec fn eye_direction(m: Map<Axis, int>) -> (int, int, int) {
    (m[Axis::XMovement], m[Axis::YMovement], m[Axis::ZMovement])
}

/// The target moves along movement plus rotation, axis by axis.
pub open spec fn target_direction(m: Map<Axis, int>) -> (int, int, int) {
    (
        m[Axis::XRotation] + m[Axis::XMovement],
        m[Axis::YMovement] + m[Axis::YRotation],
        m[Axis::ZMovement] + m[Axis::ZRotation],
    )
}

pub open spec fn direction_value(d: Direction) -> (int, int, int) {
    (d.x as int, d.y as int, d.z as int)
}

/// Turns key presses into camera motion. Each axis holds -1, 0 or 1: the sign
/// in which the last key event on that axis drives it.
pub struct CameraController {
    x_movement: i8,
    y_movement: i8,
    z_movement: i8,
    x_rotation: i8,
    y_rotation: i8,
    z_rotation: i8,
}

impl CameraController {
    #[verifier::type_invariant]
    spec fn axes_in_range(self) -> bool {
        &&& -1 <= self.x_movement <= 1
        &&& -1 <= self.y_movement <= 1
        &&& -1 <= self.z_movement <= 1
        &&& -1 <= self.x_rotation <= 1
        &&& -1 <= self.y_rotation <= 1
        &&& -1 <= self.z_rotation <= 1
    }

    spec fn axis_value(self, a: Axis) -> int {
        match a {
            Axis::XMovement => self.x_movement as int,
            Axis::YMovement => self.y_movement as int,
            Axis::ZMovement => self.z_movement as int,
            Axis::XRotation => self.x_rotation as int,
            Axis::YRotation => self.y_rotation as int,
            Axis::ZRotation => self.z_rotation as int,
        }
    }
}

impl View for CameraController {
    type V = Map<Axis, int>;

    closed spec fn view(&self) -> Map<Axis, int> {
        Map::total(|a: Axis| self.axis_value(a))
    }
}

impl CameraController {
    /// A controller with no key held.
    pub fn new() -> (c: Self)
        ensures
            c@ == at_rest(),
    {
        let c = CameraController {
            x_movement: 0,
            y_movement: 0,
            z_movement: 0,
            x_rotation: 0,
            y_rotation: 0,
            z_rotation: 0,
        };
        assert(c@ =~= at_rest());
        c
    }

    /// Feeds one window event to the controller. A key event whose key is
    /// bound sets that key's axis to the key's sign while pressed and to 0
    /// once released, and is reported as handled; every other event leaves
    /// the controller as it was and is reported as not handled.
    pub fn process_events(&mut self, event: &WindowEvent) -> (handled: bool)
        ensures
            handled == camera_update(*event).is_some(),
            final(self)@ == apply_event(old(self)@, *event),
            bounded(final(self)@),
    {
        proof {
            use_type_invariant(&*self);
        }
        let handled = match event {
            WindowEvent::KeyboardInput { state, virtual_keycode: Some(keycode) } => {
                let amount: i8 = match state {
                    ElementState::Pressed => 1,
                    ElementState::Released => 0,
                };
                match keycode {
                    Key::D => {
                        self.x_movement = amount;
                        true
                    },
                    Key::A => {
                        self.x_movement = -amount;
                        true
                    },
                    Key::Q => {
                        self.y_movement = amount;
                        true
                    },
                    Key::E => {
                        self.y_movement = -amount;
                        true
                    },
                    Key::W => {
                        self.z_movement = -amount;
                        true
                    },
                    Key::S => {
                        self.z_movement = amount;
                        true
                    },
                    Key::L => {
                        self.x_rotation = amount;
                        true
                    },
                    Key::J => {
                        self.x_rotation = -amount;
                        true
                    },
                    Key::U => {
                        self.y_rotation = amount;
                        true
                    },
                    Key::O => {
                        self.y_rotation = -amount;
                        true
                    },
                    Key::I => {
                        self.z_rotation = -amount;
                        true
                    },
                    Key::K => {
                        self.z_rotation = amount;
                        true
                    },
                    _ => false,
                }
            },
            _ => false,
        };
        proof {
            use_type_invariant(&*self);
            assert(self@ =~= apply_event(old(self)@, *event));
        }
        handled
    }

    /// The current value of one axis.
    pub fn axis(&self, a: Axis) -> (value: i8)
        ensures
            value == self@[a],
            -1 <= value <= 1,
    {
        proof {
            use_type_invariant(self);
        }
        match a {
            Axis::XMovement => self.x_movement,
            Axis::YMovement => self.y_movement,
            Axis::ZMovement => self.z_movement,
            Axis::XRotation => self.x_rotation,
            Axis::YRotation => self.y_rotation,
            Axis::ZRotation => self.z_rotation,
        }
    }

    /// The motion of one camera update: the eye moves along the movement
    /// axes, the target along movement plus rotation. The caller scales both
    /// by the controller's speed.
    pub fn camera_step(&self) -> (step: CameraStep)
        ensures
            direction_value(step.eye) == eye_direction(self@),
            direction_value(step.target) == target_direction(self@),
    {
        proof {
            use_type_invariant(self);
        }
        CameraStep {
            eye: Direction { x: self.x_movement, y: self.y_movement, z: self.z_movement },
            target: Direction {
                x: self.x_rotation + self.x_movement,
                y: self.y_movement + self.y_rotation,
                z: self.z_movement + self.z_rotation,
            },
        }
    }
}

/// A key event changes the controller the same way however often it is seen:
/// processing it twice leaves the same state as processing it once.
pub proof fn lemma_apply_event_idempotent(m: Map<Axis, int>, event: WindowEvent)
    ensures
        apply_event(apply_event(m, event), event) == apply_event(m, event),
{
    assert(apply_event(apply_event(m, event), event) =~= apply_event(m, event));
}

/// Every event keeps each axis in {-1, 0, 1}.
pub proof fn lemma_apply_event_bounded(m: Map<Axis, int>, event: WindowEvent)
    requires
        bounded(m),
    ensures
        bounded(apply_event(m, event)),
{
    if let WindowEvent::KeyboardInput { state, virtual_keycode: Some(key) } = event {
        if let Some((axis, sign)) = key_binding(key) {
            let amount = key_amount(state);
            assert(sign == 1 || sign == -1);
            assert(amount == 0 || amount == 1);
            assert(-1 <= sign * amount <= 1) by (nonlinear_arith)
                requires
                    sign == 1 || sign == -1,
                    amount == 0 || amount == 1,
            ;
            let after = m.insert(axis, sign * key_amount(state));
            assert forall|b: Axis| #[trigger] after.dom().contains(b) && -1 <= after[b] <= 1 by {
                assert(m.dom().contains(b));
            }
            assert(bounded(after));
            assert(apply_event(m, event) == after);
        } else {
            assert(apply_event(m, event) == m);
        }
    } else {
        assert(apply_event(m, event) == m);
    }
}

/// Pressing a bound key drives its axis in the key's direction.
pub proof fn lemma_press_drives_axis(m: Map<Axis, int>, key: Key)
    requires
        key_binding(key) is Some,
    ensures
        apply_event(
            m,
            WindowEvent::KeyboardInput { state: ElementState::Pressed, virtual_keycode: Some(key) },
        )[key_binding(key).unwrap().0] == key_binding(key).unwrap().1,
{
}

/// Releasing a bound key stops its axis, whatever key last drove it.
pub proof fn lemma_release_stops_axis(m: Map<Axis, int>, key: Key)
    requires
        key_binding(key) is Some,
    ensures
        apply_event(
            m,
            WindowEvent::KeyboardInput { state: ElementState::Released, virtual_keycode: Some(key) },
        )[key_binding(key).unwrap().0] == 0,
{
}

/// Keys that share an axis overwrite each other: only the later event counts.
pub proof fn lemma_later_event_on_axis_wins(m: Map<Axis, int>, first: WindowEvent, second: WindowEvent)
    requires
        camera_update(first) is Some,
        camera_update(second) is Some,
        camera_update(first).unwrap().0 == camera_update(second).unwrap().0,
    ensures
        apply_event(apply_event(m, first), second) == apply_event(m, second),
{
    assert(apply_event(apply_event(m, first), second) =~= apply_event(m, second));
}

/// Events on different axes do not interfere: their order does not matter.
pub proof fn lemma_events_on_distinct_axes_commute(m: Map<Axis, int>, first: WindowEvent, second: WindowEvent)
    requires
        camera_update(first) is Some,
        camera_update(second) is Some,
        camera_update(first).unwrap().0 != camera_update(second).unwrap().0,
    ensures
        apply_event(apply_event(m, first), second) == apply_event(apply_event(m, second), first),
{
    assert(apply_event(apply_event(m, first), second) =~= apply_event(apply_event(m, second), first));
}

/// Keys that are not bound to an axis, and key events without a key code,
/// leave the controller unchanged.
pub proof fn lemma_unbound_keys_ignored(m: Map<Axis, int>, state: ElementState, key: Key)
    requires
        key_binding(key) is None,
    ensures
        apply_event(m, WindowEvent::KeyboardInput { state, virtual_keycode: Some(key) }) == m,
        apply_event(m, WindowEvent::KeyboardInput { state, virtual_keycode: None }) == m,
{
}

/// With no rotation key held the target moves with the eye, so the camera
/// translates without turning.
pub proof fn lemma_no_rotation_moves_rigidly(m: Map<Axis, int>)
    requires
        m[Axis::XRotation] == 0,
        m[Axis::YRotation] == 0,
        m[Axis::ZRotation] == 0,
    ensures
        target_direction(m) == eye_direction(m),
{
}

/// A controller with no key held does not move the camera.
pub proof fn lemma_at_rest_is_still()
    ensures
        bounded(at_rest()),
        eye_direction(at_rest()) == (0int, 0int, 0int),
        target_direction(at_rest()) == (0int, 0int, 0int),
{
}

/// Each coordinate of the target's motion is the eye's motion along that
/// coordinate plus the rotation axis of the same coordinate, and the eye
/// moves along the movement axes alone.
pub proof fn lemma_target_turns_per_coordinate(m: Map<Axis, int>)
    ensures
        eye_direction(m).0 == m[Axis::XMovement],
        eye_direction(m).1 == m[Axis::YMovement],
        eye_direction(m).2 == m[Axis::ZMovement],
        target_direction(m).0 == eye_direction(m).0 + m[Axis::XRotation],
        target_direction(m).1 == eye_direction(m).1 + m[Axis::YRotation],
        target_direction(m).2 == eye_direction(m).2 + m[Axis::ZRotation],
{
}

/// From rest, holding one rotation key turns the target along that key's own
/// coordinate only, in the key's direction, while the eye stays put:
/// J/L along x, U/O along y, I/K along z.
pub proof fn lemma_rotation_key_from_rest(key: Key)
    requires
        key == Key::J || key == Key::L || key == Key::U || key == Key::O || key == Key::I || key
            == Key::K,
    ensures
        ({
            let m = apply_event(
                at_rest(),
                WindowEvent::KeyboardInput { state: ElementState::Pressed, virtual_keycode: Some(key) },
            );
            &&& eye_direction(m) == (0int, 0int, 0int)
            &&& key == Key::L ==> target_direction(m) == (1int, 0int, 0int)
            &&& key == Key::J ==> target_direction(m) == (-1int, 0int, 0int)
            &&& key == Key::U ==> target_direction(m) == (0int, 1int, 0int)
            &&& key == Key::O ==> target_direction(m) == (0int, -1int, 0int)
            &&& key == Key::K ==> target_direction(m) == (0int, 0int, 1int)
            &&& key == Key::I ==> target_direction(m) == (0int, 0int, -1int)
        }),
{
}

} // verus!
