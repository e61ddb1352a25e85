use vstd::prelude::*;

verus! {

/// The keys that the viewer reacts to; every other key is `Other`.
#[derive(Clone, Copy, Debug, PartialEq, Eq, Structural)]
pub enum Key {
    A,
    D,
    E,
    I,
    J,
    K,
    L,
    O,
    Q,
    S,
    U,
    W,
    Escape,
    F1,
    Other,
}

/// Whether a key went down or came up.
#[derive(Clone, Copy, Debug, PartialEq, Eq, Structural)]
pub enum ElementState {
    Pressed,
    Released,
}

/// An event addressed to the viewer's window, reduced to what the viewer reads.
#[derive(Clone, Copy, Debug, PartialEq, Eq, Structural)]
pub enum WindowEvent {
    /// A key changed state; `virtual_keycode` is `None` when the platform
    /// could not name the key.
    KeyboardInput { state: ElementState, virtual_keycode: Option<Key> },
    /// The user asked to close the window.
    CloseRequested,
    /// The window's inner size changed, in physical pixels.
    Resized { width: u32, height: u32 },
    /// The scale factor changed; the new inner size in physical pixels.
    ScaleFactorChanged { width: u32, height: u32 },
    /// Anything else.
    Other,
}

} // verus!
