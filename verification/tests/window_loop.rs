use muziekshaker::camera::{Axis, CameraController};
use muziekshaker::events::{after_render, handle_event, Action, Event, RenderAction, SurfaceError};
use muziekshaker::input::{ElementState, Key, WindowEvent};
use muziekshaker::render_mode::{next_render_mode, PolygonMode};
use muziekshaker::surface::SurfaceSize;

fn own(event: WindowEvent) -> Event {
    Event::WindowEvent { own_window: true, event }
}

fn press(key: Key) -> WindowEvent {
    WindowEvent::KeyboardInput { state: ElementState::Pressed, virtual_keycode: Some(key) }
}

#[test]
fn render_modes_cycle() {
    assert_eq!(next_render_mode(PolygonMode::Fill), PolygonMode::Line);
    assert_eq!(next_render_mode(PolygonMode::Line), PolygonMode::Point);
    assert_eq!(next_render_mode(PolygonMode::Point), PolygonMode::Fill);
    for m in [PolygonMode::Fill, PolygonMode::Line, PolygonMode::Point] {
        assert_ne!(next_render_mode(m), m);
        assert_eq!(next_render_mode(next_render_mode(next_render_mode(m))), m);
    }
}

#[test]
fn close_and_escape_exit() {
    let mut c = CameraController::new();
    c.process_events(&press(Key::D));
    for mode in [PolygonMode::Fill, PolygonMode::Line, PolygonMode::Point] {
        assert_eq!(handle_event(&mut c, mode, &own(WindowEvent::CloseRequested)), Action::Exit);
        assert_eq!(handle_event(&mut c, mode, &own(press(Key::Escape))), Action::Exit);
    }
    // Releasing Escape does nothing.
    let released = WindowEvent::KeyboardInput {
        state: ElementState::Released,
        virtual_keycode: Some(Key::Escape),
    };
    assert_eq!(handle_event(&mut c, PolygonMode::Fill, &own(released)), Action::Continue);
}

#[test]
fn f1_switches_to_next_mode() {
    let mut c = CameraController::new();
    assert_eq!(
        handle_event(&mut c, PolygonMode::Fill, &own(press(Key::F1))),
        Action::SwitchRenderMode(PolygonMode::Line)
    );
    assert_eq!(
        handle_event(&mut c, PolygonMode::Point, &own(press(Key::F1))),
        Action::SwitchRenderMode(PolygonMode::Fill)
    );
}

#[test]
fn camera_keys_are_taken_by_the_controller() {
    let mut c = CameraController::new();
    assert_eq!(handle_event(&mut c, PolygonMode::Fill, &own(press(Key::S))), Action::Continue);
    assert_eq!(c.axis(Axis::ZMovement), 1);
}

#[test]
fn resizes_are_forwarded() {
    let mut c = CameraController::new();
    assert_eq!(
        handle_event(&mut c, PolygonMode::Fill, &own(WindowEvent::Resized { width: 640, height: 480 })),
        Action::Resize { width: 640, height: 480 }
    );
    assert_eq!(
        handle_event(
            &mut c,
            PolygonMode::Fill,
            &own(WindowEvent::ScaleFactorChanged { width: 1280, height: 960 })
        ),
        Action::Resize { width: 1280, height: 960 }
    );
}

#[test]
fn other_windows_and_other_events() {
    let mut c = CameraController::new();
    let foreign = Event::WindowEvent { own_window: false, event: press(Key::D) };
    assert_eq!(handle_event(&mut c, PolygonMode::Fill, &foreign), Action::Continue);
    assert_eq!(c.axis(Axis::XMovement), 0);
    let foreign_close = Event::WindowEvent { own_window: false, event: WindowEvent::CloseRequested };
    assert_eq!(handle_event(&mut c, PolygonMode::Fill, &foreign_close), Action::Continue);
    assert_eq!(
        handle_event(&mut c, PolygonMode::Fill, &Event::RedrawRequested { own_window: true }),
        Action::Redraw
    );
    assert_eq!(
        handle_event(&mut c, PolygonMode::Fill, &Event::RedrawRequested { own_window: false }),
        Action::Continue
    );
    assert_eq!(handle_event(&mut c, PolygonMode::Fill, &Event::MainEventsCleared), Action::RequestRedraw);
    assert_eq!(handle_event(&mut c, PolygonMode::Fill, &Event::Other), Action::Continue);
    assert_eq!(handle_event(&mut c, PolygonMode::Fill, &own(WindowEvent::Other)), Action::Continue);
}

#[test]
fn render_outcomes() {
    assert_eq!(after_render(Ok(())), RenderAction::Reconfigure);
    assert_eq!(after_render(Err(SurfaceError::Lost)), RenderAction::Reconfigure);
    assert_eq!(after_render(Err(SurfaceError::OutOfMemory)), RenderAction::Exit);
    assert_eq!(after_render(Err(SurfaceError::Timeout)), RenderAction::Report(SurfaceError::Timeout));
    assert_eq!(after_render(Err(SurfaceError::Outdated)), RenderAction::Report(SurfaceError::Outdated));
}

#[test]
fn resize_ignores_zero_dimensions() {
    let mut s = SurfaceSize::new(800, 600);
    assert!(!s.resize(0, 600));
    assert!(!s.resize(800, 0));
    assert!(!s.resize(0, 0));
    assert_eq!(s, SurfaceSize { width: 800, height: 600 });
    assert!(s.resize(1024, 768));
    assert_eq!(s, SurfaceSize { width: 1024, height: 768 });
    assert!(s.resize(1024, 768));
    assert_eq!(s, SurfaceSize { width: 1024, height: 768 });
}
