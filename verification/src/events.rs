//! The window events that the example applications react to, and the
//! attributes they make windows with, as plain values.
use vstd::prelude::*;

verus! {

/// A window event, reduced to what the applications decide on.
#[derive(Debug, Clone, Copy, PartialEq, Eq, Structural)]
pub enum Event {
    /// The user asked to close the window.
    CloseRequested,
    /// The window's inner size changed to `width` x `height` physical pixels.
    Resized { width: u32, height: u32 },
    /// The window asks to be drawn again.
    RedrawRequested,
    /// Any other event.
    Other,
}

/// The inner size asked for a new window.
#[derive(Debug, Clone, Copy, PartialEq, Eq)]
pub enum WindowSize {
    /// In logical units, scaled by the display's scale factor.
    Logical { width: u32, height: u32 },
    /// In physical pixels.
    Physical { width: u32, height: u32 },
}

/// The attributes a new window is made with. Where no inner size is given the
/// windowing system picks one.
#[derive(Debug, Clone, Copy, PartialEq, Eq)]
pub struct WindowAttrs {
    pub title: &'static str,
    pub inner_size: Option<WindowSize>,
    pub resizable: bool,
    pub visible: bool,
    pub active: bool,
}

} // verus!
