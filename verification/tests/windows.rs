use hello_apps::button_actions::{on_action, ActionReply, Answer};
use hello_apps::cpu_window::{CpuAction, CpuResume, CpuState};
use hello_apps::events::{Event, WindowAttrs, WindowSize};
use hello_apps::gpu_window::{
    fit_renderer_slots, prepare_renderer, present_step, FrameError, FrameStep, GpuAction, GpuState,
    ResumePlan, SurfaceStatus,
};
use hello_apps::greeting::{greeting, State};
use hello_apps::text_window::{text_window_event, TextAction};
use vello_common::pixmap::Pixmap;

#[test]
fn gpu_resume_creates_then_reuses_window() {
    let vello_window = WindowAttrs {
        title: "vello",
        inner_size: Some(WindowSize::Logical { width: 600, height: 400 }),
        resizable: true,
        visible: true,
        active: true,
    };
    let mut s = GpuState::new();
    assert_eq!(s.resume(), ResumePlan::CreateWindow(vello_window));
    s.activate(7);
    assert_eq!(s, GpuState::Active { window: 7, valid_surface: true });
    assert_eq!(s.resume(), ResumePlan::AlreadyActive);
    s.suspend();
    assert_eq!(s, GpuState::Suspended { cached_window: Some(7) });
    assert_eq!(s.resume(), ResumePlan::ReuseWindow(7));
    assert_eq!(s.resume(), ResumePlan::CreateWindow(vello_window));
}

#[test]
fn gpu_events_for_other_window_ignored() {
    let mut s = GpuState::new();
    s.activate(1);
    assert_eq!(s.window_event(2, Event::CloseRequested), GpuAction::Nothing);
    assert_eq!(s.window_event(2, Event::Resized { width: 0, height: 0 }), GpuAction::Nothing);
    assert_eq!(s, GpuState::Active { window: 1, valid_surface: true });
    let mut suspended = GpuState::new();
    assert_eq!(suspended.window_event(1, Event::RedrawRequested), GpuAction::Nothing);
}

#[test]
fn gpu_zero_size_blocks_redraw_until_resized() {
    let mut s = GpuState::new();
    s.activate(3);
    assert_eq!(s.window_event(3, Event::RedrawRequested), GpuAction::Render);
    assert_eq!(s.window_event(3, Event::Resized { width: 0, height: 10 }), GpuAction::Nothing);
    assert_eq!(s.window_event(3, Event::RedrawRequested), GpuAction::Nothing);
    assert_eq!(
        s.window_event(3, Event::Resized { width: 20, height: 10 }),
        GpuAction::ResizeSurface { width: 20, height: 10 }
    );
    assert_eq!(s.window_event(3, Event::RedrawRequested), GpuAction::Render);
    assert_eq!(s.window_event(3, Event::CloseRequested), GpuAction::Exit);
    assert_eq!(s.window_event(3, Event::Other), GpuAction::Nothing);
}

#[test]
fn gpu_surface_outcomes() {
    assert_eq!(present_step(SurfaceStatus::Success), FrameStep::Present);
    assert_eq!(present_step(SurfaceStatus::Outdated), FrameStep::Reconfigure);
    assert_eq!(present_step(SurfaceStatus::Suboptimal), FrameStep::Reconfigure);
    assert_eq!(present_step(SurfaceStatus::Occluded), FrameStep::Retry);
    assert_eq!(present_step(SurfaceStatus::Timeout), FrameStep::Retry);
    assert_eq!(present_step(SurfaceStatus::Lost), FrameStep::Fail(FrameError::SurfaceLost));
    assert_eq!(present_step(SurfaceStatus::Validation), FrameStep::Fail(FrameError::Validation));
}

#[test]
fn renderer_slots_grow_and_shrink() {
    let mut slots: Vec<Option<u8>> = vec![];
    fit_renderer_slots(&mut slots, 2);
    assert_eq!(slots, vec![None, None]);
    slots[1] = Some(5);
    fit_renderer_slots(&mut slots, 3);
    assert_eq!(slots, vec![None, Some(5), None]);
    fit_renderer_slots(&mut slots, 1);
    assert_eq!(slots, vec![None]);
}

#[test]
fn renderer_prepared_once() {
    let mut slots: Vec<Option<u8>> = vec![Some(1)];
    let mut calls: u32 = 0;
    prepare_renderer(&mut slots, 3, 2, || {
        calls += 1;
        9
    });
    assert_eq!(slots, vec![Some(1), None, Some(9)]);
    assert_eq!(calls, 1);
    prepare_renderer(&mut slots, 3, 2, || {
        calls += 1;
        4
    });
    assert_eq!(slots, vec![Some(1), None, Some(9)]);
    assert_eq!(calls, 1);
    prepare_renderer(&mut slots, 1, 0, || 7);
    assert_eq!(slots, vec![Some(1)]);
}

#[test]
fn resume_leaves_a_renderer_for_the_surface() {
    let mut s = GpuState::new();
    let mut slots: Vec<Option<&str>> = vec![None, Some("old")];
    s.activate_with_renderer(4, &mut slots, 2, 0, || "new");
    assert_eq!(s, GpuState::Active { window: 4, valid_surface: true });
    assert_eq!(slots, vec![Some("new"), Some("old")]);
    assert_eq!(s.window_event(4, Event::RedrawRequested), GpuAction::Render);
}

#[test]
fn cpu_window_follows_canvas() {
    let mut canvas = Pixmap::new(600, 400);
    let mut s = CpuState::new();
    assert_eq!(
        s.resume_plan(&canvas),
        CpuResume::CreateWindow(WindowAttrs {
            title: "vello cpu",
            inner_size: Some(WindowSize::Physical { width: 600, height: 400 }),
            resizable: true,
            visible: true,
            active: true,
        })
    );
    s.activate(9);
    assert_eq!(s.resume_plan(&canvas), CpuResume::AlreadyActive);
    assert_eq!(s.window_event(8, Event::CloseRequested, &mut canvas), CpuAction::Nothing);
    let a = s.window_event(9, Event::Resized { width: 0, height: 50 }, &mut canvas);
    assert_eq!(
        a,
        CpuAction::Resized(hello_apps::canvas::SurfaceSize { width: 1, height: 50 })
    );
    assert_eq!((canvas.width(), canvas.height()), (1, 50));
    assert_eq!(s.window_event(9, Event::RedrawRequested, &mut canvas), CpuAction::Render);
    assert_eq!(s.window_event(9, Event::CloseRequested, &mut canvas), CpuAction::Exit);
    assert_eq!((canvas.width(), canvas.height()), (1, 50));
    s.suspend();
    assert_eq!(s, CpuState::Suspended);
    assert_eq!(s.window_event(9, Event::RedrawRequested, &mut canvas), CpuAction::Nothing);
}

#[test]
fn text_window_decisions() {
    assert_eq!(text_window_event(false, false, Event::CloseRequested, 0, 0), TextAction::Exit);
    assert_eq!(
        text_window_event(false, true, Event::Resized { width: 3, height: 4 }, 3, 4),
        TextAction::Nothing
    );
    assert_eq!(
        text_window_event(true, false, Event::Resized { width: 0, height: 4 }, 0, 4),
        TextAction::ResizeSurface { width: 0, height: 4 }
    );
    assert_eq!(text_window_event(false, true, Event::RedrawRequested, 8, 8), TextAction::Nothing);
    assert_eq!(text_window_event(true, false, Event::RedrawRequested, 8, 8), TextAction::Nothing);
    assert_eq!(text_window_event(true, true, Event::RedrawRequested, 0, 8), TextAction::Nothing);
    assert_eq!(
        text_window_event(true, true, Event::RedrawRequested, 800, 600),
        TextAction::Render { width: 800, height: 600 }
    );
    assert_eq!(text_window_event(true, true, Event::Other, 800, 600), TextAction::Nothing);
}

#[test]
fn button_action_replies() {
    assert_eq!(
        on_action(true, true),
        ActionReply { unknown_window: false, answer: Answer::SayHello }
    );
    assert_eq!(
        on_action(true, false),
        ActionReply { unknown_window: false, answer: Answer::ReportUnexpected }
    );
    assert_eq!(
        on_action(false, true),
        ActionReply { unknown_window: true, answer: Answer::SayHello }
    );
}

#[test]
fn greeting_text() {
    assert_eq!(greeting(&State::new("xilem")), "Hello xilem");
    assert_eq!(greeting(&State::new("")), "Hello ");
    assert_eq!(greeting(&State { text: "wörld".to_string() }), "Hello wörld");
}
