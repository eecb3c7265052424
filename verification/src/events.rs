//! Events: what plugins post to the render loop, and the part of the
//! window system's events that the renderer and its resources act on.

use vstd::prelude::*;

verus! {

/// An application event, posted to the render loop by a plugin or by the
/// user interface.
#[derive(Debug)]
pub enum CubensisEvent {
    GuiRedrawRequest {  },
    /// Contains the name of the scene to change to.
    SceneChange(String),
    /// Contains the path of the file that has changed.
    FileEdit(String),
}

/// The mathematical value of a [`CubensisEvent`].
pub enum CubensisEventView {
    GuiRedrawRequest,
    SceneChange(Seq<char>),
    FileEdit(Seq<char>),
}

impl View for CubensisEvent {
    type V = CubensisEventView;

    open spec fn view(&self) -> CubensisEventView {
        match *self {
            CubensisEvent::GuiRedrawRequest {  } => CubensisEventView::GuiRedrawRequest,
            CubensisEvent::SceneChange(name) => CubensisEventView::SceneChange(name@),
            CubensisEvent::FileEdit(path) => CubensisEventView::FileEdit(path@),
        }
    }
}

impl Clone for CubensisEvent {
    fn clone(&self) -> (copy: Self)
        ensures
            copy@ == self@,
    {
        match self {
            CubensisEvent::GuiRedrawRequest {  } => CubensisEvent::GuiRedrawRequest {  },
            CubensisEvent::SceneChange(name) => CubensisEvent::SceneChange(name.clone()),
            CubensisEvent::FileEdit(path) => CubensisEvent::FileEdit(path.clone()),
        }
    }
}

/// A mouse button, as far as the camera tells them apart.
#[derive(Clone, Copy, Debug, PartialEq, Eq, Structural)]
pub enum MouseButton {
    Left,
    Right,
    Other,
}

/// A key, as far as the renderer and the panels tell them apart.
#[derive(Clone, Copy, Debug, PartialEq, Eq, Structural)]
pub enum Key {
    Escape,
    Grave,
    F1,
    Other,
}

/// A cursor position in physical pixels. Each coordinate is carried as the
/// bit pattern of a double-precision number: the library hands positions on
/// and never computes with them.
#[derive(Clone, Copy, Debug, PartialEq, Eq, Structural)]
pub struct CursorPosition {
    pub x_bits: u64,
    pub y_bits: u64,
}

/// An event of a window.
#[derive(Clone, Copy, Debug, PartialEq, Eq, Structural)]
pub enum WindowInput {
    Resized { width: u32, height: u32 },
    ScaleFactorChanged { width: u32, height: u32 },
    CloseRequested,
    /// A key went down (`pressed`) or up.
    KeyboardInput { key: Key, pressed: bool },
    CursorMoved { position: CursorPosition },
    /// The wheel moved; `amount_bits` is the bit pattern of the
    /// single-precision vertical amount.
    MouseWheel { amount_bits: u32 },
    MouseInput { button: MouseButton, pressed: bool },
    Other,
}

/// An event of the window system's loop.
#[derive(Debug)]
pub enum InputEvent {
    Window { window_id: u64, event: WindowInput },
    User(CubensisEvent),
    MainEventsCleared,
    RedrawRequested,
    Other,
}

} // verus!
