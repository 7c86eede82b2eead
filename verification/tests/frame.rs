use render_core::event::{dispatch, Event, Reaction, WindowEvent};
use render_core::frame::{
    Color, DrawRange, Frame, FrameAction, FrameEvent, FrameState, RenderCommand, SurfaceError,
};
use render_core::surface::PhysicalSize;

const STATES: [FrameState; 7] = [
    FrameState::Idle,
    FrameState::Acquiring,
    FrameState::Recording,
    FrameState::Submitted,
    FrameState::Presented,
    FrameState::Lost,
    FrameState::Fatal,
];

const EVENTS: [FrameEvent; 8] = [
    FrameEvent::Begin,
    FrameEvent::Acquired,
    FrameEvent::AcquireFailed(SurfaceError::Timeout),
    FrameEvent::AcquireFailed(SurfaceError::Outdated),
    FrameEvent::AcquireFailed(SurfaceError::Lost),
    FrameEvent::AcquireFailed(SurfaceError::OutOfMemory),
    FrameEvent::Recorded,
    FrameEvent::Submitted,
];

#[test]
fn frame_goes_from_idle_to_presented() {
    let mut state = FrameState::Idle;
    let mut actions = Vec::new();
    for event in
        [FrameEvent::Begin, FrameEvent::Acquired, FrameEvent::Recorded, FrameEvent::Submitted]
    {
        let (next, action) = state.step(event).expect("the event is due");
        state = next;
        actions.push(action);
    }
    assert_eq!(state, FrameState::Presented);
    assert_eq!(
        actions,
        vec![FrameAction::Acquire, FrameAction::Record, FrameAction::Submit, FrameAction::Present]
    );
}

#[test]
fn frame_passes_through_every_state_in_order() {
    assert_eq!(
        FrameState::Idle.step(FrameEvent::Begin),
        Some((FrameState::Acquiring, FrameAction::Acquire))
    );
    assert_eq!(
        FrameState::Acquiring.step(FrameEvent::Acquired),
        Some((FrameState::Recording, FrameAction::Record))
    );
    assert_eq!(
        FrameState::Recording.step(FrameEvent::Recorded),
        Some((FrameState::Submitted, FrameAction::Submit))
    );
    assert_eq!(
        FrameState::Submitted.step(FrameEvent::Submitted),
        Some((FrameState::Presented, FrameAction::Present))
    );
}

#[test]
fn lost_surface_is_configured_again() {
    assert_eq!(
        FrameState::Acquiring.step(FrameEvent::AcquireFailed(SurfaceError::Lost)),
        Some((FrameState::Lost, FrameAction::Reconfigure))
    );
}

#[test]
fn outdated_surface_is_configured_again() {
    assert_eq!(
        FrameState::Acquiring.step(FrameEvent::AcquireFailed(SurfaceError::Outdated)),
        Some((FrameState::Lost, FrameAction::Reconfigure))
    );
}

#[test]
fn out_of_memory_is_fatal() {
    assert_eq!(
        FrameState::Acquiring.step(FrameEvent::AcquireFailed(SurfaceError::OutOfMemory)),
        Some((FrameState::Fatal, FrameAction::Terminate))
    );
}

#[test]
fn timeout_skips_the_frame() {
    assert_eq!(
        FrameState::Acquiring.step(FrameEvent::AcquireFailed(SurfaceError::Timeout)),
        Some((FrameState::Idle, FrameAction::Skip(SurfaceError::Timeout)))
    );
    assert_eq!(
        FrameState::Idle.step(FrameEvent::Begin),
        Some((FrameState::Acquiring, FrameAction::Acquire))
    );
}

#[test]
fn ended_frame_takes_no_event() {
    for state in [FrameState::Presented, FrameState::Lost, FrameState::Fatal] {
        for event in EVENTS {
            assert_eq!(state.step(event), None);
        }
    }
}

#[test]
fn event_out_of_turn_is_refused() {
    let mut taken = 0;
    for state in STATES {
        for event in EVENTS {
            if state.step(event).is_some() {
                taken += 1;
            }
        }
    }
    assert_eq!(taken, 8);
    assert_eq!(FrameState::Idle.step(FrameEvent::Acquired), None);
    assert_eq!(FrameState::Acquiring.step(FrameEvent::Begin), None);
    assert_eq!(FrameState::Recording.step(FrameEvent::Submitted), None);
    assert_eq!(FrameState::Submitted.step(FrameEvent::Recorded), None);
    assert_eq!(
        FrameState::Recording.step(FrameEvent::AcquireFailed(SurfaceError::Lost)),
        None
    );
}

#[test]
fn failed_frame_draws_and_presents_nothing() {
    for error in [
        SurfaceError::Timeout,
        SurfaceError::Outdated,
        SurfaceError::Lost,
        SurfaceError::OutOfMemory,
    ] {
        let (state, action) =
            FrameState::Acquiring.step(FrameEvent::AcquireFailed(error)).unwrap();
        assert!(!matches!(
            action,
            FrameAction::Record | FrameAction::Submit | FrameAction::Present
        ));
        for event in [FrameEvent::Acquired, FrameEvent::Recorded, FrameEvent::Submitted] {
            assert_eq!(state.step(event), None);
        }
    }
}

#[test]
fn recorded_frame_with_no_object() {
    let clear = Color { r: 1, g: 2, b: 3, a: 4 };
    let frame = Frame::record(clear, 0, 0);
    assert_eq!(
        frame.pass.commands,
        vec![
            RenderCommand::SetPipeline,
            RenderCommand::Draw {
                vertices: DrawRange { start: 0, end: 0 },
                instances: DrawRange { start: 0, end: 1 },
            },
        ]
    );
}

#[test]
fn recorded_frame_binds_objects_in_order() {
    let frame = Frame::record(Color::default(), 3, 42);
    assert_eq!(
        frame.pass.commands,
        vec![
            RenderCommand::SetPipeline,
            RenderCommand::SetVertexBuffer { slot: 0, object: 0 },
            RenderCommand::SetVertexBuffer { slot: 0, object: 1 },
            RenderCommand::SetVertexBuffer { slot: 0, object: 2 },
            RenderCommand::Draw {
                vertices: DrawRange { start: 0, end: 42 },
                instances: DrawRange { start: 0, end: 1 },
            },
        ]
    );
    assert_eq!(frame.pass.color_attachments.len(), 1);
}

#[test]
fn default_color_is_all_zero() {
    let color = Color::default();
    assert_eq!(
        (f64::from_bits(color.r), f64::from_bits(color.g), f64::from_bits(color.b)),
        (0.0, 0.0, 0.0)
    );
    assert_eq!(f64::from_bits(color.a), 0.0);
}

#[test]
fn redraw_renders() {
    assert_eq!(dispatch(&Event::RedrawRequested), Reaction::Render);
}

#[test]
fn idle_loop_asks_for_a_redraw() {
    assert_eq!(dispatch(&Event::MainEventsCleared), Reaction::RequestRedraw);
}

#[test]
fn cursor_recolors() {
    assert_eq!(dispatch(&Event::Window(WindowEvent::CursorMoved)), Reaction::Recolor);
}

#[test]
fn window_size_is_followed() {
    let size = PhysicalSize { width: 3, height: 4 };
    assert_eq!(dispatch(&Event::Window(WindowEvent::Resized(size))), Reaction::Resize(size));
    assert_eq!(
        dispatch(&Event::Window(WindowEvent::ScaleFactorChanged { new_inner_size: size })),
        Reaction::Resize(size)
    );
    let nothing = PhysicalSize { width: 0, height: 0 };
    assert_eq!(dispatch(&Event::Window(WindowEvent::Resized(nothing))), Reaction::Resize(nothing));
}

#[test]
fn close_and_escape_leave_the_loop() {
    assert_eq!(dispatch(&Event::Window(WindowEvent::CloseRequested)), Reaction::Exit);
    assert_eq!(
        dispatch(&Event::Window(WindowEvent::KeyboardInput { pressed: true, escape: true })),
        Reaction::Exit
    );
}

#[test]
fn other_keys_and_events_are_ignored() {
    assert_eq!(
        dispatch(&Event::Window(WindowEvent::KeyboardInput { pressed: false, escape: true })),
        Reaction::Ignore
    );
    assert_eq!(
        dispatch(&Event::Window(WindowEvent::KeyboardInput { pressed: true, escape: false })),
        Reaction::Ignore
    );
    assert_eq!(dispatch(&Event::Window(WindowEvent::Other)), Reaction::Ignore);
    assert_eq!(dispatch(&Event::Other), Reaction::Ignore);
}
