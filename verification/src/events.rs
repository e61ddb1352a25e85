use vstd::prelude::*;

use crate::camera::{apply_event, camera_update, Axis, CameraController};
use crate::input::{ElementState, Key, WindowEvent};
use crate::render_mode::{next_render_mode, spec_next_render_mode, PolygonMode};

verus! {

/// An event of the window loop, reduced to what the viewer decides on.
/// `own_window` tells whether the event concerns the viewer's window.
#[derive(Clone, Copy, Debug, PartialEq, Eq, Structural)]
pub enum Event {
    WindowEvent { own_window: bool, event: WindowEvent },
    RedrawRequested { own_window: bool },
    MainEventsCleared,
    Other,
}

/// What the window loop does in answer to an event.
#[derive(Clone, Copy, Debug, PartialEq, Eq, Structural)]
pub enum Action {
    /// Nothing beyond what the camera controller already took in.
    Continue,
    /// Leave the loop.
    Exit,
    /// Resize the surface to the given physical size.
    Resize { width: u32, height: u32 },
    /// Rebuild the renderer with this polygon mode.
    SwitchRenderMode(PolygonMode),
    /// Update the camera and draw a frame.
    Redraw,
    /// Ask the window for a redraw.
    RequestRedraw,
}

/// Why a frame could not be acquired from the surface.
#[derive(Clone, Copy, Debug, PartialEq, Eq, Structural)]
pub enum SurfaceError {
    Timeout,
    Outdated,
    Lost,
    OutOfMemory,
}

/// What the window loop does after an attempt to draw a frame.
#[derive(Clone, Copy, Debug, PartialEq, Eq, Structural)]
pub enum RenderAction {
    /// Reconfigure the surface with its current size.
    Reconfigure,
    /// Leave the loop.
    Exit,
    /// Report the error and carry on.
    Report(SurfaceError),
}

/// The answer to a window event that the camera controller did not take.
pub open spec fn window_action(mode: PolygonMode, event: WindowEvent) -> Action {
    match event {
        WindowEvent::CloseRequested => Action::Exit,
        WindowEvent::KeyboardInput {
            state: ElementState::Pressed,
            virtual_keycode: Some(Key::Escape),
        } => Action::Exit,
        WindowEvent::KeyboardInput {
            state: ElementState::Pressed,
            virtual_keycode: Some(Key::F1),
        } => Action::SwitchRenderMode(spec_next_render_mode(mode)),
        WindowEvent::Resized { width, height } => Action::Resize { width, height },
        WindowEvent::ScaleFactorChanged { width, height } => Action::Resize { width, height },
        _ => Action::Continue,
    }
}

/// The answer to an event of the window loop, with the renderer in `mode`.
pub open spec fn event_action(mode: PolygonMode, event: Event) -> Action {
    match event {
        Event::WindowEvent { own_window: true, event } => if camera_update(event) is Some {
            Action::Continue
        } else {
            window_action(mode, event)
        },
        Event::RedrawRequested { own_window: true } => Action::Redraw,
        Event::MainEventsCleared => Action::RequestRedraw,
        _ => Action::Continue,
    }
}

/// The camera controller's state after the loop has handled `event`.
pub open spec fn controller_after(m: Map<Axis, int>, event: Event) -> Map<Axis, int> {
    match event {
        Event::WindowEvent { own_window: true, event } => apply_event(m, event),
        _ => m,
    }
}

/// Decides the answer to one event of the window loop. An event for the
/// viewer's window goes first to the camera controller; if the controller
/// takes it, nothing else happens. Otherwise closing the window or pressing
/// Escape leaves the loop, a resize or a change of scale factor resizes the
/// surface, and pressing F1 switches to the next polygon mode. A redraw
/// request for the window draws a frame, and once the queue of events is
/// empty a redraw is requested.
pub fn handle_event(controller: &mut CameraController, mode: PolygonMode, event: &Event) -> (action:
    Action)
    ensures
        action == event_action(mode, *event),
        final(controller)@ == controller_after(old(controller)@, *event),
        action is SwitchRenderMode ==> *event == (Event::WindowEvent {
            own_window: true,
            event: WindowEvent::KeyboardInput {
                state: ElementState::Pressed,
                virtual_keycode: Some(Key::F1),
            },
        }),
{
    match event {
        Event::WindowEvent { own_window, event } => {
            if !*own_window {
                return Action::Continue;
            }
            if controller.process_events(event) {
                return Action::Continue;
            }
            match event {
                WindowEvent::CloseRequested => Action::Exit,
                WindowEvent::KeyboardInput {
                    state: ElementState::Pressed,
                    virtual_keycode: Some(Key::Escape),
                } => Action::Exit,
                WindowEvent::KeyboardInput {
                    state: ElementState::Pressed,
                    virtual_keycode: Some(Key::F1),
                } => Action::SwitchRenderMode(next_render_mode(mode)),
                WindowEvent::Resized { width, height } => Action::Resize {
                    width: *width,
                    height: *height,
                },
                WindowEvent::ScaleFactorChanged { width, height } => Action::Resize {
                    width: *width,
                    height: *height,
                },
                _ => Action::Continue,
            }
        },
        Event::RedrawRequested { own_window } => {
            if *own_window {
                Action::Redraw
            } else {
                Action::Continue
            }
        },
        Event::MainEventsCleared => Action::RequestRedraw,
        Event::Other => Action::Continue,
    }
}

/// The answer to the outcome of drawing a frame.
pub open spec fn spec_after_render(outcome: Result<(), SurfaceError>) -> RenderAction {
    match outcome {
        Ok(()) => RenderAction::Reconfigure,
        Err(SurfaceError::Lost) => RenderAction::Reconfigure,
        Err(SurfaceError::OutOfMemory) => RenderAction::Exit,
        Err(e) => RenderAction::Report(e),
    }
}

/// Decides what follows an attempt to draw a frame: after a drawn frame or a
/// lost surface the surface is reconfigured with its current size, running
/// out of memory leaves the loop, and any other error is reported.
pub fn after_render(outcome: Result<(), SurfaceError>) -> (action: RenderAction)
    ensures
        action == spec_after_render(outcome),
{
    match outcome {
        Ok(()) => RenderAction::Reconfigure,
        Err(SurfaceError::Lost) => RenderAction::Reconfigure,
        Err(SurfaceError::OutOfMemory) => RenderAction::Exit,
        Err(e) => RenderAction::Report(e),
    }
}

/// Closing the window, or pressing Escape in it, always leaves the loop,
/// whatever keys are held and whatever polygon mode is on.
pub proof fn lemma_close_and_escape_exit(mode: PolygonMode)
    ensures
        event_action(
            mode,
            Event::WindowEvent { own_window: true, event: WindowEvent::CloseRequested },
        ) == Action::Exit,
        event_action(
            mode,
            Event::WindowEvent {
                own_window: true,
                event: WindowEvent::KeyboardInput {
                    state: ElementState::Pressed,
                    virtual_keycode: Some(Key::Escape),
                },
            },
        ) == Action::Exit,
{
}

/// Events of other windows change nothing and are answered with `Continue`.
pub proof fn lemma_other_windows_ignored(mode: PolygonMode, m: Map<Axis, int>, event: WindowEvent)
    ensures
        event_action(mode, Event::WindowEvent { own_window: false, event }) == Action::Continue,
        controller_after(m, Event::WindowEvent { own_window: false, event }) == m,
        event_action(mode, Event::RedrawRequested { own_window: false }) == Action::Continue,
{
}

/// An event makes the loop leave only when it is a close request for the
/// viewer's window or an Escape press in it.
pub proof fn lemma_exit_only_on_request(mode: PolygonMode, event: Event)
    ensures
        event_action(mode, event) == Action::Exit ==> (event == Event::WindowEvent {
            own_window: true,
            event: WindowEvent::CloseRequested,
        } || event == Event::WindowEvent {
            own_window: true,
            event: WindowEvent::KeyboardInput {
                state: ElementState::Pressed,
                virtual_keycode: Some(Key::Escape),
            },
        }),
{
}

/// Releasing any key, or a key the platform cannot name, never switches the
/// polygon mode, never exits and never resizes: the loop only carries on.
pub proof fn lemma_key_release_continues(mode: PolygonMode, key: Option<Key>)
    ensures
        event_action(
            mode,
            Event::WindowEvent {
                own_window: true,
                event: WindowEvent::KeyboardInput { state: ElementState::Released, virtual_keycode: key },
            },
        ) == Action::Continue,
{
}

/// The polygon mode switches only on a pressed F1 in the viewer's window, and
/// then to the mode after the current one: one tap of F1 advances the mode by
/// exactly one step.
pub proof fn lemma_switch_only_on_f1_press(mode: PolygonMode, event: Event)
    ensures
        event_action(mode, event) is SwitchRenderMode ==> event == (Event::WindowEvent {
            own_window: true,
            event: WindowEvent::KeyboardInput {
                state: ElementState::Pressed,
                virtual_keycode: Some(Key::F1),
            },
        }),
        event == (Event::WindowEvent {
            own_window: true,
            event: WindowEvent::KeyboardInput {
                state: ElementState::Pressed,
                virtual_keycode: Some(Key::F1),
            },
        }) ==> event_action(mode, event) == Action::SwitchRenderMode(spec_next_render_mode(mode)),
        mode == PolygonMode::Fill && event_action(mode, event) is SwitchRenderMode ==> event_action(
            mode,
            event,
        ) == Action::SwitchRenderMode(PolygonMode::Line),
{
}

/// Every event of the viewer's window reaches the camera controller, key
/// releases included: the loop leaves the controller exactly as
/// `process_events` does, so releasing a bound key through the loop stops its
/// axis.
pub proof fn lemma_own_window_events_reach_controller(m: Map<Axis, int>, event: WindowEvent, key: Key)
    ensures
        controller_after(m, Event::WindowEvent { own_window: true, event }) == apply_event(m, event),
        crate::camera::key_binding(key) is Some ==> controller_after(
            m,
            Event::WindowEvent {
                own_window: true,
                event: WindowEvent::KeyboardInput {
                    state: ElementState::Released,
                    virtual_keycode: Some(key),
                },
            },
        )[crate::camera::key_binding(key).unwrap().0] == 0,
        controller_after(
            m,
            Event::WindowEvent {
                own_window: true,
                event: WindowEvent::KeyboardInput {
                    state: ElementState::Released,
                    virtual_keycode: Some(Key::W),
                },
            },
        )[Axis::ZMovement] == 0,
        forall|a: Axis|
            a != Axis::ZMovement ==> controller_after(
                m,
                Event::WindowEvent {
                    own_window: true,
                    event: WindowEvent::KeyboardInput {
                        state: ElementState::Released,
                        virtual_keycode: Some(Key::W),
                    },
                },
            )[a] == m[a],
{
}

} // verus!
