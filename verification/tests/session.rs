use sphere_tracer::parity::Parity;
use sphere_tracer::renderer::FramePlan;
use sphere_tracer::resources::{configure, multisampled_framebuffer, Reconfiguration};
use sphere_tracer::scene::init_spheres;
use sphere_tracer::session::{
    Action, Event, FrameReport, Key, Phase, Session, REPORT_INTERVAL,
};
use sphere_tracer::wire::Sphere;

fn session(width: u32, height: u32, now: u64) -> Session {
    Session::new(width, height, &init_spheres(), now).unwrap().0
}

fn draw(session: &mut Session, now: u64) -> FramePlan {
    match session.advance(Event::FrameAcquired { now }) {
        Action::Draw(plan) => plan,
        other => panic!("no frame was planned: {:?}", other),
    }
}

fn present_frames(session: &mut Session, frames: u32, now: u64) -> Vec<Action> {
    let mut answers = Vec::new();
    for _ in 0..frames {
        assert_eq!(session.advance(Event::RedrawRequested), Action::Acquire);
        draw(session, now);
        answers.push(session.advance(Event::FramePresented { now }));
    }
    answers
}

#[test]
fn a_new_session_runs_with_nothing_presented() {
    let session = session(800, 600, 0);
    assert_eq!(session.phase(), Phase::Running);
    assert_eq!(session.frame_count(), 0);
    assert_eq!(session.parity(), Parity::Even);
    assert_eq!(session.renderer().camera_x(), 0);
    assert_eq!(session.renderer().spheres_count(), 3);
}

#[test]
fn a_new_session_refuses_more_than_a_hundred_spheres() {
    let sphere = Sphere { pos: [0, 0, 0], r: 0, vel: [0, 0, 0, 0] };
    assert!(Session::new(800, 600, &vec![sphere; 101], 0).is_none());
    assert!(Session::new(800, 600, &vec![sphere; 100], 0).is_some());
}

#[test]
fn first_frame_of_the_initial_scene() {
    let mut session = session(800, 600, 0);
    assert_eq!(session.advance(Event::RedrawRequested), Action::Acquire);
    let plan = draw(&mut session, 0);
    assert_eq!(plan.parameters.spheres_count, 3);
    assert_eq!(plan.parameters.elapsed, 0);
    assert_eq!(plan.parameters.camera_x, 0);
    let x = 0.1f32 * plan.parameters.camera_x as f32;
    let aspect = plan.parameters.width as f32 / plan.parameters.height as f32;
    let seconds = plan.parameters.elapsed as f32 / 1e9f32;
    let block = plan.parameters.to_wire(x.to_bits(), aspect.to_bits(), seconds.to_bits());
    assert_eq!(block.spheres_count, 3);
    assert_eq!(f32::from_bits(block.time_elapsed), 0.0);
    let camera: Vec<f32> = block.camera_pos.iter().map(|bits| f32::from_bits(*bits)).collect();
    assert_eq!(camera, vec![0.0f32, 0.0, -1.0, 0.0]);
    let bytes = block.to_bytes();
    assert_eq!(&bytes[20..24], &3u32.to_ne_bytes()[..]);
    assert_eq!(&bytes[24..28], &0.0f32.to_ne_bytes()[..]);
    assert_eq!(&bytes[8..12], &(-1.0f32).to_ne_bytes()[..]);
}

#[test]
fn a_report_after_exactly_a_thousand_frames() {
    let mut session = session(800, 600, 0);
    let answers = present_frames(&mut session, 999, 10);
    assert!(answers.iter().all(|answer| *answer == Action::Wait));
    assert_eq!(session.frame_count(), 999);
    assert_eq!(session.advance(Event::RedrawRequested), Action::Acquire);
    draw(&mut session, 2_000_000_000);
    assert_eq!(
        session.advance(Event::FramePresented { now: 2_000_000_000 }),
        Action::Report(FrameReport { frames: 1000, elapsed: 2_000_000_000 })
    );
    assert_eq!(session.frame_count(), 0);
    assert_eq!(session.parity(), Parity::Even);
}

#[test]
fn one_report_per_thousand_frames() {
    let mut session = session(800, 600, 0);
    let answers = present_frames(&mut session, 2500, 1);
    let reports: Vec<usize> = answers
        .iter()
        .enumerate()
        .filter(|(_, answer)| matches!(answer, Action::Report(_)))
        .map(|(i, _)| i)
        .collect();
    assert_eq!(reports, vec![999, 1999]);
    assert_eq!(session.frame_count(), 500);
    assert_eq!(REPORT_INTERVAL, 1000);
}

#[test]
fn a_report_measures_from_the_previous_report() {
    let mut session = session(800, 600, 100);
    present_frames(&mut session, 999, 150);
    assert_eq!(
        session.advance(Event::FramePresented { now: 1_100 }),
        Action::Report(FrameReport { frames: 1000, elapsed: 1_000 })
    );
    present_frames(&mut session, 999, 1_200);
    assert_eq!(
        session.advance(Event::FramePresented { now: 1_600 }),
        Action::Report(FrameReport { frames: 1000, elapsed: 500 })
    );
}

#[test]
fn parity_follows_the_number_of_presented_frames() {
    let mut session = session(800, 600, 0);
    for frame in 0..2050u32 {
        assert_eq!(session.advance(Event::RedrawRequested), Action::Acquire);
        let plan = draw(&mut session, 0);
        assert_eq!(session.parity().index(), (frame % 2) as usize);
        assert_eq!(plan.compute_bind_group.index(), (frame % 2) as usize);
        assert_eq!(plan.render_bind_group.index(), 1 - (frame % 2) as usize);
        session.advance(Event::FramePresented { now: 0 });
    }
}

#[test]
fn a_skipped_frame_does_not_flip_the_parity() {
    let mut session = session(800, 600, 0);
    assert_eq!(session.advance(Event::RedrawRequested), Action::Acquire);
    assert_eq!(session.advance(Event::AcquireFailed), Action::Wait);
    assert_eq!(session.frame_count(), 0);
    assert_eq!(session.parity(), Parity::Even);
    assert_eq!(session.phase(), Phase::Running);
    assert_eq!(session.advance(Event::RedrawRequested), Action::Acquire);
    assert_eq!(draw(&mut session, 0).compute_bind_group, Parity::Even);
}

#[test]
fn render_reads_the_buffer_that_compute_writes() {
    let mut session = session(800, 600, 0);
    let mut written_before = None;
    for _ in 0..6 {
        let plan = draw(&mut session, 0);
        let compute = sphere_tracer::resources::compute_bind_group(plan.compute_bind_group);
        let render = sphere_tracer::resources::render_bind_group(plan.render_bind_group);
        assert_eq!(render[1].buffer, compute[2].buffer);
        assert_ne!(compute[1].buffer, compute[2].buffer);
        if let Some(written) = written_before {
            assert_eq!(compute[1].buffer, written);
        }
        written_before = Some(compute[2].buffer);
        session.advance(Event::FramePresented { now: 0 });
    }
}

#[test]
fn left_and_right_move_the_camera_by_a_tenth() {
    let mut session = session(800, 600, 0);
    for _ in 0..7 {
        assert_eq!(session.advance(Event::KeyPressed(Key::Left)), Action::Acquire);
    }
    for _ in 0..3 {
        assert_eq!(session.advance(Event::KeyPressed(Key::Right)), Action::Acquire);
    }
    assert_eq!(session.renderer().camera_x(), 4);
    let plan = draw(&mut session, 0);
    assert_eq!(plan.parameters.camera_x, 4);
    assert_eq!(0.1f32 * plan.parameters.camera_x as f32, 0.1f32 * (7 - 3) as f32);
}

#[test]
fn presses_in_any_order_give_the_same_offset() {
    let mut session = session(800, 600, 0);
    let keys = [Key::Right, Key::Left, Key::Right, Key::Right, Key::Other, Key::Left, Key::Right];
    for key in keys {
        session.advance(Event::KeyPressed(key));
    }
    assert_eq!(session.renderer().camera_x(), 2 - 4);
}

#[test]
fn other_keys_do_nothing() {
    let mut session = session(800, 600, 0);
    assert_eq!(session.advance(Event::KeyPressed(Key::Other)), Action::Wait);
    assert_eq!(session.renderer().camera_x(), 0);
    assert_eq!(session.phase(), Phase::Running);
}

#[test]
fn a_resize_stops_frames_until_the_device_has_caught_up() {
    let mut session = session(800, 600, 0);
    assert_eq!(
        session.advance(Event::Resized { width: 1024, height: 768 }),
        Action::Configure(Reconfiguration {
            surface: configure(1024, 768),
            target: multisampled_framebuffer(1024, 768),
        })
    );
    assert_eq!(session.phase(), Phase::Resizing);
    assert_eq!(session.advance(Event::RedrawRequested), Action::Wait);
    assert_eq!(session.advance(Event::FrameAcquired { now: 1 }), Action::Wait);
    assert_eq!(session.advance(Event::KeyPressed(Key::Left)), Action::Wait);
    assert_eq!(session.renderer().camera_x(), 1);
    assert_eq!(session.advance(Event::RedrawEventsCleared), Action::RequestRedraw);
    assert_eq!(
        session.advance(Event::SurfaceConfigured { width: 1024, height: 768 }),
        Action::Wait
    );
    assert_eq!(session.phase(), Phase::Running);
    assert_eq!(session.advance(Event::RedrawRequested), Action::Acquire);
}

#[test]
fn no_stale_aspect_ratio_survives_a_resize() {
    let mut session = session(800, 600, 0);
    session.advance(Event::Resized { width: 1000, height: 250 });
    session.advance(Event::SurfaceConfigured { width: 1000, height: 250 });
    let plan = draw(&mut session, 0);
    assert_eq!(plan.parameters.width as f32 / plan.parameters.height as f32, 4.0);
    assert_eq!(plan.target, multisampled_framebuffer(1000, 250));
}

#[test]
fn resizing_twice_to_the_same_size_changes_nothing_more() {
    let mut once = session(800, 600, 0);
    let first = once.advance(Event::Resized { width: 640, height: 480 });
    let mut twice = session(800, 600, 0);
    twice.advance(Event::Resized { width: 640, height: 480 });
    let second = twice.advance(Event::Resized { width: 640, height: 480 });
    assert_eq!(first, second);
    assert_eq!(once.phase(), twice.phase());
    assert_eq!(once.renderer().width(), twice.renderer().width());
    assert_eq!(once.renderer().height(), twice.renderer().height());
    once.advance(Event::SurfaceConfigured { width: 640, height: 480 });
    twice.advance(Event::SurfaceConfigured { width: 640, height: 480 });
    assert_eq!(draw(&mut once, 3), draw(&mut twice, 3));
}

#[test]
fn a_device_at_the_wrong_size_is_asked_again() {
    let mut session = session(800, 600, 0);
    session.advance(Event::Resized { width: 100, height: 100 });
    session.advance(Event::Resized { width: 200, height: 200 });
    assert_eq!(
        session.advance(Event::SurfaceConfigured { width: 100, height: 100 }),
        Action::Configure(Reconfiguration {
            surface: configure(200, 200),
            target: multisampled_framebuffer(200, 200),
        })
    );
    assert_eq!(session.phase(), Phase::Resizing);
    assert_eq!(
        session.advance(Event::SurfaceConfigured { width: 200, height: 200 }),
        Action::Wait
    );
    assert_eq!(session.phase(), Phase::Running);
}

#[test]
fn a_running_session_told_of_another_size_stops_and_asks() {
    let mut session = session(800, 600, 0);
    assert_eq!(
        session.advance(Event::SurfaceConfigured { width: 1, height: 1 }),
        Action::Configure(Reconfiguration {
            surface: configure(800, 600),
            target: multisampled_framebuffer(800, 600),
        })
    );
    assert_eq!(session.phase(), Phase::Resizing);
    assert_eq!(session.advance(Event::RedrawRequested), Action::Wait);
}

#[test]
fn redraw_is_requested_when_events_are_cleared() {
    let mut session = session(800, 600, 0);
    assert_eq!(session.advance(Event::RedrawEventsCleared), Action::RequestRedraw);
}

#[test]
fn close_and_escape_end_the_session() {
    let mut closed = session(800, 600, 0);
    assert_eq!(closed.advance(Event::CloseRequested), Action::Exit);
    assert_eq!(closed.phase(), Phase::Exiting);
    let mut escaped = session(800, 600, 0);
    assert_eq!(escaped.advance(Event::KeyPressed(Key::Escape)), Action::Exit);
    assert_eq!(escaped.phase(), Phase::Exiting);
}

#[test]
fn an_ended_session_answers_exit_and_stays_as_it_is() {
    let mut session = session(800, 600, 0);
    session.advance(Event::KeyPressed(Key::Left));
    session.advance(Event::CloseRequested);
    let events = [
        Event::CloseRequested,
        Event::KeyPressed(Key::Left),
        Event::KeyPressed(Key::Escape),
        Event::Resized { width: 1, height: 2 },
        Event::SurfaceConfigured { width: 1, height: 2 },
        Event::RedrawRequested,
        Event::RedrawEventsCleared,
        Event::FrameAcquired { now: 5 },
        Event::AcquireFailed,
        Event::FramePresented { now: 6 },
    ];
    for event in events {
        assert_eq!(session.advance(event), Action::Exit);
    }
    assert_eq!(session.phase(), Phase::Exiting);
    assert_eq!(session.frame_count(), 0);
    assert_eq!(session.renderer().camera_x(), 1);
    assert_eq!(session.renderer().width(), 800);
}

#[test]
fn elapsed_time_is_measured_at_acquisition() {
    let mut session = session(800, 600, 1_000);
    assert_eq!(draw(&mut session, 4_000).parameters.elapsed, 3_000);
    session.advance(Event::FramePresented { now: 5_000 });
    assert_eq!(draw(&mut session, 21_000).parameters.elapsed, 16_000);
}
