//! The decisions of the GPU-rendered window: when to create or reuse a window,
//! which events to act on, when a surface may be drawn to, and what to do with
//! each outcome of asking the surface for a texture.
use vstd::prelude::*;
use crate::events::{Event, WindowAttrs, WindowSize};

verus! {

/// Whether the application has a window with a surface, and whether that
/// surface may be drawn to. Windows are named by their 64-bit id.
#[derive(Debug, Clone, Copy, PartialEq, Eq, Structural)]
pub enum GpuState {
    /// A window with a surface; `valid_surface` is false while the window has
    /// a zero side.
    Active { window: u64, valid_surface: bool },
    /// No surface; a window kept from the last suspension, if any.
    Suspended { cached_window: Option<u64> },
}

/// What to do when the application is resumed.
#[derive(Debug, Clone, Copy, PartialEq, Eq)]
pub enum ResumePlan {
    /// There is a surface already; nothing to do.
    AlreadyActive,
    /// Create a surface for the window kept from the last suspension.
    ReuseWindow(u64),
    /// Create a new window with these attributes, and a surface for it.
    CreateWindow(WindowAttrs),
}

/// The window the GPU example makes: 600 x 400 logical units, resizable,
/// titled "vello", visible and active.
pub open spec fn gpu_window_attrs() -> WindowAttrs {
    WindowAttrs {
        title: "vello",
        inner_size: Some(WindowSize::Logical { width: 600, height: 400 }),
        resizable: true,
        visible: true,
        active: true,
    }
}

/// What to do about a window event.
#[derive(Debug, Clone, Copy, PartialEq, Eq, Structural)]
pub enum GpuAction {
    Nothing,
    /// Leave the event loop.
    Exit,
    /// Resize the surface to the given size.
    ResizeSurface { width: u32, height: u32 },
    /// Draw the scene and present it.
    Render,
}

/// The outcomes of asking a surface for its current texture.
#[derive(Debug, Clone, Copy, PartialEq, Eq, Structural)]
pub enum SurfaceStatus {
    Success,
    Outdated,
    Suboptimal,
    Occluded,
    Timeout,
    Lost,
    Validation,
}

/// Why a frame cannot be drawn at all.
#[derive(Debug, Clone, Copy, PartialEq, Eq, Structural)]
pub enum FrameError {
    /// The surface was lost.
    SurfaceLost,
    /// Getting the surface texture failed validation.
    Validation,
}

/// What to do with the outcome of asking the surface for its texture.
#[derive(Debug, Clone, Copy, PartialEq, Eq, Structural)]
pub enum FrameStep {
    /// Copy the rendered image into the texture and present it.
    Present,
    /// Configure the surface again and ask for another redraw.
    Reconfigure,
    /// Ask for another redraw.
    Retry,
    /// Stop with an error.
    Fail(FrameError),
}

/// The state and plan after a resume.
pub open spec fn resume_step(s: GpuState) -> (GpuState, ResumePlan) {
    match s {
        GpuState::Active { .. } => (s, ResumePlan::AlreadyActive),
        GpuState::Suspended { cached_window } => match cached_window {
            Some(w) => (GpuState::Suspended { cached_window: None }, ResumePlan::ReuseWindow(w)),
            None => (s, ResumePlan::CreateWindow(gpu_window_attrs())),
        },
    }
}

/// The state once a surface has been made for `window`.
pub open spec fn activate_step(window: u64) -> GpuState {
    GpuState::Active { window, valid_surface: true }
}

/// The state and action after `event` arrives for `window`. Only events for
/// the active window are acted on.
pub open spec fn event_step(s: GpuState, window: u64, event: Event) -> (GpuState, GpuAction) {
    match s {
        GpuState::Suspended { .. } => (s, GpuAction::Nothing),
        GpuState::Active { window: own, valid_surface } => {
            if own != window {
                (s, GpuAction::Nothing)
            } else {
                match event {
                    Event::CloseRequested => (s, GpuAction::Exit),
                    Event::Resized { width, height } => {
                        if width != 0 && height != 0 {
                            (
                                GpuState::Active { window: own, valid_surface: true },
                                GpuAction::ResizeSurface { width, height },
                            )
                        } else {
                            (GpuState::Active { window: own, valid_surface: false }, GpuAction::Nothing)
                        }
                    },
                    Event::RedrawRequested => {
                        if valid_surface {
                            (s, GpuAction::Render)
                        } else {
                            (s, GpuAction::Nothing)
                        }
                    },
                    Event::Other => (s, GpuAction::Nothing),
                }
            }
        },
    }
}

/// The state after a suspension: the window is kept for the next resume.
pub open spec fn suspend_step(s: GpuState) -> GpuState {
    match s {
        GpuState::Active { window, .. } => GpuState::Suspended { cached_window: Some(window) },
        GpuState::Suspended { .. } => s,
    }
}

/// What to do with each outcome of asking the surface for its texture.
pub open spec fn frame_step(status: SurfaceStatus) -> FrameStep {
    match status {
        SurfaceStatus::Success => FrameStep::Present,
        SurfaceStatus::Outdated | SurfaceStatus::Suboptimal => FrameStep::Reconfigure,
        SurfaceStatus::Occluded | SurfaceStatus::Timeout => FrameStep::Retry,
        SurfaceStatus::Lost => FrameStep::Fail(FrameError::SurfaceLost),
        SurfaceStatus::Validation => FrameStep::Fail(FrameError::Validation),
    }
}

impl GpuState {
    /// The state at start-up: suspended, with no window.
    pub fn new() -> (s: GpuState)
        ensures
            s == (GpuState::Suspended { cached_window: None }),
    {
        GpuState::Suspended { cached_window: None }
    }

    /// Decides what to do on resume. A kept window is handed out once.
    pub fn resume(&mut self) -> (plan: ResumePlan)
        ensures
            (*final(self), plan) == resume_step(*old(self)),
    {
        match *self {
            GpuState::Active { .. } => ResumePlan::AlreadyActive,
            GpuState::Suspended { cached_window } => match cached_window {
                Some(w) => {
                    *self = GpuState::Suspended { cached_window: None };
                    ResumePlan::ReuseWindow(w)
                },
                None => ResumePlan::CreateWindow(
                    WindowAttrs {
                        title: "vello",
                        inner_size: Some(WindowSize::Logical { width: 600, height: 400 }),
                        resizable: true,
                        visible: true,
                        active: true,
                    },
                ),
            },
        }
    }

    /// Records that a surface has been made for `window`; it may be drawn to.
    pub fn activate(&mut self, window: u64)
        ensures
            *final(self) == activate_step(window),
    {
        *self = GpuState::Active { window, valid_surface: true };
    }

    /// Decides what to do about `event`, which arrived for `window`.
    pub fn window_event(&mut self, window: u64, event: Event) -> (action: GpuAction)
        ensures
            (*final(self), action) == event_step(*old(self), window, event),
    {
        match *self {
            GpuState::Suspended { .. } => GpuAction::Nothing,
            GpuState::Active { window: own, valid_surface } => {
                if own != window {
                    return GpuAction::Nothing;
                }
                match event {
                    Event::CloseRequested => GpuAction::Exit,
                    Event::Resized { width, height } => {
                        if width != 0 && height != 0 {
                            *self = GpuState::Active { window: own, valid_surface: true };
                            GpuAction::ResizeSurface { width, height }
                        } else {
                            *self = GpuState::Active { window: own, valid_surface: false };
                            GpuAction::Nothing
                        }
                    },
                    Event::RedrawRequested => {
                        if valid_surface {
                            GpuAction::Render
                        } else {
                            GpuAction::Nothing
                        }
                    },
                    Event::Other => GpuAction::Nothing,
                }
            },
        }
    }

    /// Drops the surface and keeps the window for the next resume.
    pub fn suspend(&mut self)
        ensures
            *final(self) == suspend_step(*old(self)),
    {
        if let GpuState::Active { window, .. } = *self {
            *self = GpuState::Suspended { cached_window: Some(window) };
        }
    }
}

/// Decides what to do with the outcome of asking the surface for its texture.
pub fn present_step(status: SurfaceStatus) -> (step: FrameStep)
    ensures
        step == frame_step(status),
{
    match status {
        SurfaceStatus::Success => FrameStep::Present,
        SurfaceStatus::Outdated | SurfaceStatus::Suboptimal => FrameStep::Reconfigure,
        SurfaceStatus::Occluded | SurfaceStatus::Timeout => FrameStep::Retry,
        SurfaceStatus::Lost => FrameStep::Fail(FrameError::SurfaceLost),
        SurfaceStatus::Validation => FrameStep::Fail(FrameError::Validation),
    }
}

/// Gives the table of renderers, one slot per device, exactly `devices`
/// slots: slots that were there are kept, added slots are empty.
pub fn fit_renderer_slots<T>(slots: &mut Vec<Option<T>>, devices: usize)
    ensures
        final(slots)@.len() == devices,
        forall|k: int|
            0 <= k < devices ==> #[trigger] final(slots)@[k] == if k < old(slots)@.len() {
                old(slots)@[k]
            } else {
                None
            },
{
    if slots.len() > devices {
        slots.truncate(devices);
    }
    while slots.len() < devices
        invariant
            slots@.len() <= devices || slots@.len() == old(slots)@.len(),
            slots@.len() <= devices,
            forall|k: int|
                0 <= k < slots@.len() ==> #[trigger] slots@[k] == if k < old(slots)@.len() {
                    old(slots)@[k]
                } else {
                    None
                },
            slots@.len() >= if old(slots)@.len() < devices {
                old(slots)@.len()
            } else {
                devices as nat
            },
        decreases devices - slots@.len(),
    {
        slots.push(None);
    }
}

/// Gives the table of renderers one slot per device, as `fit_renderer_slots`
/// does, and makes sure the slot of `device` holds a renderer: an empty slot
/// is filled with what `make` returns, a filled one is kept and `make` is not
/// called. Every other slot is kept (or empty, where it was added).
pub fn prepare_renderer<T, F: FnOnce() -> T>(
    slots: &mut Vec<Option<T>>,
    devices: usize,
    device: usize,
    make: F,
)
    requires
        device < devices,
        call_requires(make, ()),
    ensures
        final(slots)@.len() == devices,
        final(slots)@[device as int] is Some,
        device < old(slots)@.len() && old(slots)@[device as int] is Some ==> final(slots)@[device as int]
            == old(slots)@[device as int],
        !(device < old(slots)@.len() && old(slots)@[device as int] is Some) ==> call_ensures(
            make,
            (),
            final(slots)@[device as int]->0,
        ),
        forall|k: int|
            0 <= k < devices && k != device ==> #[trigger] final(slots)@[k] == if k < old(
                slots,
            )@.len() {
                old(slots)@[k]
            } else {
                None
            },
{
    fit_renderer_slots(slots, devices);
    if slots[device].is_none() {
        let renderer = make();
        slots.set(device, Some(renderer));
    }
}

impl GpuState {
    /// Finishes a resume: records that a surface has been made for `window`,
    /// on device `device` of `devices`, and makes sure that device's slot in
    /// the table of renderers holds a renderer (see `prepare_renderer`), so
    /// that a redraw finds one.
    pub fn activate_with_renderer<T, F: FnOnce() -> T>(
        &mut self,
        window: u64,
        slots: &mut Vec<Option<T>>,
        devices: usize,
        device: usize,
        make: F,
    )
        requires
            device < devices,
            call_requires(make, ()),
        ensures
            *final(self) == activate_step(window),
            final(slots)@.len() == devices,
            final(slots)@[device as int] is Some,
            device < old(slots)@.len() && old(slots)@[device as int] is Some ==> final(slots)@[device as int]
                == old(slots)@[device as int],
            !(device < old(slots)@.len() && old(slots)@[device as int] is Some) ==> call_ensures(
                make,
                (),
                final(slots)@[device as int]->0,
            ),
            forall|k: int|
                0 <= k < devices && k != device ==> #[trigger] final(slots)@[k] == if k < old(
                    slots,
                )@.len() {
                    old(slots)@[k]
                } else {
                    None
                },
    {
        prepare_renderer(slots, devices, device, make);
        self.activate(window);
    }
}

/// Events for another window, or while suspended, change nothing and are not
/// acted on.
pub proof fn lemma_foreign_events_ignored(s: GpuState, window: u64, event: Event)
    requires
        s is Suspended || s->window != window,
    ensures
        event_step(s, window, event) == (s, GpuAction::Nothing),
{
}

/// No window event makes or drops a surface, or changes which window is used.
pub proof fn lemma_events_keep_window(s: GpuState, window: u64, event: Event)
    ensures
        event_step(s, window, event).0 is Active <==> s is Active,
        s is Active ==> event_step(s, window, event).0->window == s->window,
        s is Suspended ==> event_step(s, window, event).0 == s,
{
}

/// A window kept at suspension is the one reused at the next resume, and it
/// is handed out only once; once its new surface is made, that same window is
/// active again and may be drawn to.
pub proof fn lemma_suspend_then_resume(s: GpuState)
    requires
        s is Active,
    ensures
        resume_step(suspend_step(s)).1 == ResumePlan::ReuseWindow(s->window),
        activate_step(resume_step(suspend_step(s)).1->ReuseWindow_0) == (GpuState::Active {
            window: s->window,
            valid_surface: true,
        }),
        resume_step(resume_step(suspend_step(s)).0).1 == ResumePlan::CreateWindow(gpu_window_attrs()),
{
}

/// Resuming while a surface exists changes nothing.
pub proof fn lemma_resume_when_active(s: GpuState)
    requires
        s is Active,
    ensures
        resume_step(s) == (s, ResumePlan::AlreadyActive),
{
}

/// After a resize, a redraw draws exactly when both sides are non-zero; a new
/// surface may be drawn to at once.
pub proof fn lemma_redraw_after_resize(s: GpuState, width: u32, height: u32)
    requires
        s is Active,
    ensures
        event_step(
            event_step(s, s->window, Event::Resized { width, height }).0,
            s->window,
            Event::RedrawRequested,
        ).1 == if width != 0 && height != 0 {
            GpuAction::Render
        } else {
            GpuAction::Nothing
        },
        forall|w: u64|
            event_step(activate_step(w), w, Event::RedrawRequested).1 == GpuAction::Render,
{
}

/// For the active window: a close request always exits, whether or not the
/// surface may be drawn to, and changes nothing; only a close exits; a resize
/// to a non-zero size resizes the surface to exactly that size and makes it
/// drawable, a resize with a zero side makes it undrawable; a redraw renders
/// exactly when the surface is drawable; any other event is ignored.
pub proof fn lemma_gpu_event_kinds(s: GpuState, event: Event)
    requires
        s is Active,
    ensures
        event_step(s, s->window, Event::CloseRequested) == (s, GpuAction::Exit),
        event_step(s, s->window, event).1 == GpuAction::Exit ==> event == Event::CloseRequested,
        event == Event::Other ==> event_step(s, s->window, event) == (s, GpuAction::Nothing),
        event_step(s, s->window, Event::RedrawRequested).1 == GpuAction::Render <==> s->valid_surface,
        event_step(s, s->window, event).1 == GpuAction::Render ==> event == Event::RedrawRequested,
        event_step(s, s->window, Event::RedrawRequested).0 == s,
        event matches Event::Resized { width, height } ==> {
            &&& (width != 0 && height != 0) ==> event_step(s, s->window, event) == (
                GpuState::Active { window: s->window, valid_surface: true },
                GpuAction::ResizeSurface { width, height },
            )
            &&& !(width != 0 && height != 0) ==> event_step(s, s->window, event) == (
                GpuState::Active { window: s->window, valid_surface: false },
                GpuAction::Nothing,
            )
        },
        event_step(s, s->window, event).1 matches GpuAction::ResizeSurface { width, height } ==> event
            == (Event::Resized { width, height }) && width != 0 && height != 0,
{
}

/// Only a valid texture is presented; an outdated or suboptimal surface is
/// configured again; an occluded or timed-out one is retried; only a lost
/// surface or a validation error stops, each with its own error.
pub proof fn lemma_frame_steps(status: SurfaceStatus)
    ensures
        (frame_step(status) == FrameStep::Present) <==> status == SurfaceStatus::Success,
        (frame_step(status) == FrameStep::Reconfigure) <==> (status == SurfaceStatus::Outdated
            || status == SurfaceStatus::Suboptimal),
        (frame_step(status) == FrameStep::Retry) <==> (status == SurfaceStatus::Occluded || status
            == SurfaceStatus::Timeout),
        (frame_step(status) == FrameStep::Fail(FrameError::SurfaceLost)) <==> status
            == SurfaceStatus::Lost,
        (frame_step(status) == FrameStep::Fail(FrameError::Validation)) <==> status
            == SurfaceStatus::Validation,
{
}

} // verus!
