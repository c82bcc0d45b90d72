//! The decisions of the window that draws laid-out text: which events to act
//! on, and when there is something to draw on.
use vstd::prelude::*;
use crate::events::Event;

verus! {

/// What to do about a window event.
#[derive(Debug, Clone, Copy, PartialEq, Eq, Structural)]
pub enum TextAction {
    Nothing,
    /// Leave the event loop.
    Exit,
    /// Resize the surface to the given size.
    ResizeSurface { width: u32, height: u32 },
    /// Lay out the text and draw it on a target of the given size.
    Render { width: u32, height: u32 },
}

/// The action for `event`, given whether the render context and surface have
/// been made (`has_surface`), whether the renderer has been made, and the
/// window's current inner size.
pub open spec fn text_action(
    has_surface: bool,
    has_renderer: bool,
    event: Event,
    inner_width: u32,
    inner_height: u32,
) -> TextAction {
    match event {
        Event::CloseRequested => TextAction::Exit,
        Event::Resized { width, height } => if has_surface {
            TextAction::ResizeSurface { width, height }
        } else {
            TextAction::Nothing
        },
        Event::RedrawRequested => if has_surface && has_renderer && inner_width != 0 && inner_height
            != 0 {
            TextAction::Render { width: inner_width, height: inner_height }
        } else {
            TextAction::Nothing
        },
        Event::Other => TextAction::Nothing,
    }
}

/// Decides what to do about `event`. Closing always exits; a resize is passed
/// to the surface once there is one; a redraw draws once the surface and the
/// renderer have been made and the window has no zero side.
pub fn text_window_event(
    has_surface: bool,
    has_renderer: bool,
    event: Event,
    inner_width: u32,
    inner_height: u32,
) -> (action: TextAction)
    ensures
        action == text_action(has_surface, has_renderer, event, inner_width, inner_height),
{
    match event {
        Event::CloseRequested => TextAction::Exit,
        Event::Resized { width, height } => {
            if has_surface {
                TextAction::ResizeSurface { width, height }
            } else {
                TextAction::Nothing
            }
        },
        Event::RedrawRequested => {
            if has_surface && has_renderer && inner_width != 0 && inner_height != 0 {
                TextAction::Render { width: inner_width, height: inner_height }
            } else {
                TextAction::Nothing
            }
        },
        Event::Other => TextAction::Nothing,
    }
}

/// Nothing is drawn before the surface and renderer exist, nor on a window
/// with a zero side, and nothing is resized before there is a surface.
pub proof fn lemma_text_never_draws_empty(
    has_surface: bool,
    has_renderer: bool,
    event: Event,
    inner_width: u32,
    inner_height: u32,
)
    ensures
        text_action(has_surface, has_renderer, event, inner_width, inner_height) matches TextAction::Render {
            width,
            height,
        } ==> has_surface && has_renderer && width != 0 && height != 0,
        text_action(has_surface, has_renderer, event, inner_width, inner_height) is ResizeSurface
            ==> has_surface,
{
}

/// Closing always exits, whatever has been made and whatever the size; only a
/// close exits; a resize passes on the event's own size; a draw uses the
/// window's inner size; any other event is ignored.
pub proof fn lemma_text_event_kinds(
    has_surface: bool,
    has_renderer: bool,
    event: Event,
    inner_width: u32,
    inner_height: u32,
)
    ensures
        text_action(has_surface, has_renderer, Event::CloseRequested, inner_width, inner_height)
            == TextAction::Exit,
        text_action(has_surface, has_renderer, event, inner_width, inner_height) == TextAction::Exit
            ==> event == Event::CloseRequested,
        event == Event::Other ==> text_action(has_surface, has_renderer, event, inner_width, inner_height)
            == TextAction::Nothing,
        text_action(has_surface, has_renderer, event, inner_width, inner_height) matches TextAction::ResizeSurface {
            width,
            height,
        } ==> event == (Event::Resized { width, height }),
        text_action(has_surface, has_renderer, event, inner_width, inner_height) matches TextAction::Render {
            width,
            height,
        } ==> event == Event::RedrawRequested && width == inner_width && height == inner_height,
        (has_surface && event is Resized) ==> text_action(
            has_surface,
            has_renderer,
            event,
            inner_width,
            inner_height,
        ) is ResizeSurface,
        (has_surface && has_renderer && inner_width != 0 && inner_height != 0 && event
            == Event::RedrawRequested) ==> text_action(
            has_surface,
            has_renderer,
            event,
            inner_width,
            inner_height,
        ) is Render,
{
}

} // verus!
