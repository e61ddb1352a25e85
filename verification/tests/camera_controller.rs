use muziekshaker::camera::{Axis, CameraController, CameraStep, Direction};
use muziekshaker::input::{ElementState, Key, WindowEvent};

const AXES: [Axis; 6] = [
    Axis::XMovement,
    Axis::YMovement,
    Axis::ZMovement,
    Axis::XRotation,
    Axis::YRotation,
    Axis::ZRotation,
];

fn press(key: Key) -> WindowEvent {
    WindowEvent::KeyboardInput { state: ElementState::Pressed, virtual_keycode: Some(key) }
}

fn release(key: Key) -> WindowEvent {
    WindowEvent::KeyboardInput { state: ElementState::Released, virtual_keycode: Some(key) }
}

fn axes(c: &CameraController) -> Vec<i8> {
    AXES.iter().map(|a| c.axis(*a)).collect()
}

#[test]
fn new_controller_is_at_rest() {
    let c = CameraController::new();
    assert_eq!(axes(&c), vec![0, 0, 0, 0, 0, 0]);
    assert_eq!(
        c.camera_step(),
        CameraStep {
            eye: Direction { x: 0, y: 0, z: 0 },
            target: Direction { x: 0, y: 0, z: 0 },
        }
    );
}

#[test]
fn each_bound_key_drives_its_axis() {
    let bindings = [
        (Key::D, Axis::XMovement, 1),
        (Key::A, Axis::XMovement, -1),
        (Key::Q, Axis::YMovement, 1),
        (Key::E, Axis::YMovement, -1),
        (Key::W, Axis::ZMovement, -1),
        (Key::S, Axis::ZMovement, 1),
        (Key::L, Axis::XRotation, 1),
        (Key::J, Axis::XRotation, -1),
        (Key::U, Axis::YRotation, 1),
        (Key::O, Axis::YRotation, -1),
        (Key::I, Axis::ZRotation, -1),
        (Key::K, Axis::ZRotation, 1),
    ];
    for (key, axis, sign) in bindings {
        let mut c = CameraController::new();
        assert!(c.process_events(&press(key)));
        for a in AXES {
            let expected = if a == axis { sign } else { 0 };
            assert_eq!(c.axis(a), expected, "{:?} on {:?}", key, a);
        }
        assert!(c.process_events(&release(key)));
        assert_eq!(axes(&c), vec![0, 0, 0, 0, 0, 0]);
    }
}

#[test]
fn unbound_events_are_not_handled() {
    let mut c = CameraController::new();
    assert!(c.process_events(&press(Key::D)));
    let before = axes(&c);
    let ignored = [
        press(Key::Escape),
        press(Key::F1),
        press(Key::Other),
        release(Key::Other),
        WindowEvent::KeyboardInput { state: ElementState::Pressed, virtual_keycode: None },
        WindowEvent::CloseRequested,
        WindowEvent::Resized { width: 10, height: 10 },
        WindowEvent::ScaleFactorChanged { width: 10, height: 10 },
        WindowEvent::Other,
    ];
    for e in ignored {
        assert!(!c.process_events(&e));
        assert_eq!(axes(&c), before);
    }
}

#[test]
fn later_key_on_same_axis_wins() {
    let mut c = CameraController::new();
    c.process_events(&press(Key::D));
    c.process_events(&press(Key::A));
    assert_eq!(c.axis(Axis::XMovement), -1);
    // Releasing D stops the axis even though A is still held.
    c.process_events(&release(Key::D));
    assert_eq!(c.axis(Axis::XMovement), 0);
}

#[test]
fn repeated_event_is_idempotent() {
    let mut once = CameraController::new();
    let mut twice = CameraController::new();
    once.process_events(&press(Key::W));
    twice.process_events(&press(Key::W));
    twice.process_events(&press(Key::W));
    assert_eq!(axes(&once), axes(&twice));
}

#[test]
fn distinct_axes_commute() {
    let mut first = CameraController::new();
    let mut second = CameraController::new();
    first.process_events(&press(Key::Q));
    first.process_events(&press(Key::L));
    second.process_events(&press(Key::L));
    second.process_events(&press(Key::Q));
    assert_eq!(axes(&first), axes(&second));
}

#[test]
fn camera_step_adds_rotation_to_movement() {
    let mut c = CameraController::new();
    for k in [Key::D, Key::E, Key::S, Key::L, Key::O, Key::I] {
        c.process_events(&press(k));
    }
    assert_eq!(
        c.camera_step(),
        CameraStep {
            eye: Direction { x: 1, y: -1, z: 1 },
            target: Direction { x: 2, y: -2, z: 0 },
        }
    );
}

#[test]
fn camera_moves_rigidly_without_rotation() {
    let mut c = CameraController::new();
    c.process_events(&press(Key::A));
    c.process_events(&press(Key::W));
    let step = c.camera_step();
    assert_eq!(step.eye, step.target);
    assert_eq!(step.eye, Direction { x: -1, y: 0, z: -1 });
}
