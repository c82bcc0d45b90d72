//! The decisions of the CPU-rendered window: when to make a window sized to
//! the canvas, and which events to act on.
use vstd::prelude::*;
use vello_common::pixmap::Pixmap;
use crate::canvas::{pixmap_dimensions, pixmap_pixels, pixmap_size, resize_canvas, SurfaceSize, at_least_one};
use crate::events::{Event, WindowAttrs, WindowSize};

verus! {

/// Whether the application shows a window (named by its 64-bit id).
#[derive(Debug, Clone, Copy, PartialEq, Eq, Structural)]
pub enum CpuState {
    Active { window: u64 },
    Suspended,
}

/// What to do when the application is resumed.
#[derive(Debug, Clone, Copy, PartialEq, Eq)]
pub enum CpuResume {
    /// A window is shown already; nothing to do.
    AlreadyActive,
    /// Make a window with these attributes.
    CreateWindow(WindowAttrs),
}

/// The window the CPU example makes: its inner size is the canvas size in
/// physical pixels, and it is resizable, titled "vello cpu", visible and
/// active.
pub open spec fn cpu_window_attrs(width: u16, height: u16) -> WindowAttrs {
    WindowAttrs {
        title: "vello cpu",
        inner_size: Some(WindowSize::Physical { width: width as u32, height: height as u32 }),
        resizable: true,
        visible: true,
        active: true,
    }
}

/// What to do about a window event.
#[derive(Debug, Clone, Copy, PartialEq, Eq, Structural)]
pub enum CpuAction {
    Nothing,
    /// Leave the event loop.
    Exit,
    /// The canvas has been resized: resize the window surface and the
    /// renderer to match, and ask for a redraw.
    Resized(SurfaceSize),
    /// Render the scene into the canvas and copy it to the window.
    Render,
}

/// The action for `event` arriving for `window` (before any resizing).
pub open spec fn cpu_event_action(s: CpuState, window: u64, event: Event) -> CpuAction {
    match s {
        CpuState::Suspended => CpuAction::Nothing,
        CpuState::Active { window: own } => {
            if own != window {
                CpuAction::Nothing
            } else {
                match event {
                    Event::CloseRequested => CpuAction::Exit,
                    Event::Resized { width, height } => CpuAction::Resized(
                        SurfaceSize { width: at_least_one(width), height: at_least_one(height) },
                    ),
                    Event::RedrawRequested => CpuAction::Render,
                    Event::Other => CpuAction::Nothing,
                }
            }
        },
    }
}

impl CpuState {
    /// The state at start-up: no window.
    pub fn new() -> (s: CpuState)
        ensures
            s == CpuState::Suspended,
    {
        CpuState::Suspended
    }

    /// Decides what to do on resume: a new window takes the canvas size and
    /// the example's title and flags.
    pub fn resume_plan(&self, canvas: &Pixmap) -> (plan: CpuResume)
        ensures
            plan == match *self {
                CpuState::Active { .. } => CpuResume::AlreadyActive,
                CpuState::Suspended => CpuResume::CreateWindow(
                    cpu_window_attrs(pixmap_size(*canvas).0, pixmap_size(*canvas).1),
                ),
            },
    {
        match *self {
            CpuState::Active { .. } => CpuResume::AlreadyActive,
            CpuState::Suspended => {
                let (w, h) = pixmap_dimensions(canvas);
                CpuResume::CreateWindow(
                    WindowAttrs {
                        title: "vello cpu",
                        inner_size: Some(WindowSize::Physical { width: w as u32, height: h as u32 }),
                        resizable: true,
                        visible: true,
                        active: true,
                    },
                )
            },
        }
    }

    /// Records that `window` is shown.
    pub fn activate(&mut self, window: u64)
        ensures
            *final(self) == (CpuState::Active { window }),
    {
        *self = CpuState::Active { window };
    }

    /// Decides what to do about `event`, which arrived for `window`. A resize
    /// of the shown window resizes the canvas at once; no other event touches
    /// it.
    pub fn window_event(&self, window: u64, event: Event, canvas: &mut Pixmap) -> (action: CpuAction)
        ensures
            action == cpu_event_action(*self, window, event),
            action is Resized ==> {
                &&& pixmap_size(*final(canvas)) == (
                    (action->Resized_0.width % 65536) as u16,
                    (action->Resized_0.height % 65536) as u16,
                )
                &&& pixmap_pixels(*final(canvas)).len() == (action->Resized_0.width % 65536) * (
                action->Resized_0.height % 65536)
                &&& forall|k: int|
                    0 <= k < pixmap_pixels(*final(canvas)).len() ==> #[trigger] pixmap_pixels(
                        *final(canvas),
                    )[k] == if k < pixmap_pixels(*old(canvas)).len() {
                        pixmap_pixels(*old(canvas))[k]
                    } else {
                        (0u8, 0u8, 0u8, 0u8)
                    }
            },
            !(action is Resized) ==> *final(canvas) == *old(canvas),
    {
        match *self {
            CpuState::Suspended => CpuAction::Nothing,
            CpuState::Active { window: own } => {
                if own != window {
                    return CpuAction::Nothing;
                }
                match event {
                    Event::CloseRequested => CpuAction::Exit,
                    Event::Resized { width, height } => {
                        let size = resize_canvas(canvas, width, height);
                        CpuAction::Resized(size)
                    },
                    Event::RedrawRequested => CpuAction::Render,
                    Event::Other => CpuAction::Nothing,
                }
            },
        }
    }

    /// Forgets the window.
    pub fn suspend(&mut self)
        ensures
            *final(self) == CpuState::Suspended,
    {
        *self = CpuState::Suspended;
    }
}

/// Events for another window, or while no window is shown, are not acted on
/// and leave the canvas as it was.
pub proof fn lemma_cpu_foreign_events_ignored(s: CpuState, window: u64, event: Event)
    requires
        s is Suspended || s->window != window,
    ensures
        cpu_event_action(s, window, event) == CpuAction::Nothing,
{
}

/// A resize of the shown window never gives the surface a zero side.
pub proof fn lemma_cpu_resize_nonzero(s: CpuState, width: u32, height: u32)
    requires
        s is Active,
    ensures
        cpu_event_action(s, s->window, Event::Resized { width, height }) matches CpuAction::Resized(size)
            && size.width >= 1 && size.height >= 1 && (width != 0 ==> size.width == width) && (
        height != 0 ==> size.height == height),
{
}

/// Only a close request exits, only a redraw renders, only a resize resizes
/// (with each side of the event's size, raised to at least one), and any
/// other event is ignored. Events for the shown window are acted on.
pub proof fn lemma_cpu_event_kinds(s: CpuState, window: u64, event: Event)
    ensures
        cpu_event_action(s, window, event) == CpuAction::Exit ==> event == Event::CloseRequested,
        cpu_event_action(s, window, event) == CpuAction::Render ==> event == Event::RedrawRequested,
        cpu_event_action(s, window, event) is Resized ==> event is Resized,
        event == Event::Other ==> cpu_event_action(s, window, event) == CpuAction::Nothing,
        (s is Active && s->window == window) ==> {
            &&& (event == Event::CloseRequested ==> cpu_event_action(s, window, event) == CpuAction::Exit)
            &&& (event == Event::RedrawRequested ==> cpu_event_action(s, window, event) == CpuAction::Render)
            &&& (event matches Event::Resized { width, height } ==> cpu_event_action(s, window, event)
                matches CpuAction::Resized(size) && size.width >= 1 && size.height >= 1 && (width
                != 0 ==> size.width == width) && (height != 0 ==> size.height == height) && (width
                == 0 ==> size.width == 1) && (height == 0 ==> size.height == 1))
        },
{
}

} // verus!
