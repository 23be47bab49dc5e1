//! What holds of a session over any run of events.
//!
//! A run is a sequence of events fed to the machine one after another. The
//! laws below count the presented frames and the key presses in a run and
//! tie the session's state, and its answers, to those counts.

use crate::resources::{reconfiguration_at, target_at};
use crate::session::{Action, Event, Key, Phase, SessionView, REPORT_INTERVAL};
use crate::wire::MAX_SPHERES_COUNT;
use vstd::prelude::*;

verus! {

/// The session after a run of events.
pub open spec fn run(start: SessionView, events: Seq<Event>) -> SessionView
    decreases events.len(),
{
    if events.len() == 0 {
        start
    } else {
        run(start, events.drop_last()).step(events.last()).0
    }
}

/// The event ends the session.
pub open spec fn closes(event: Event) -> bool {
    event == Event::CloseRequested || event == Event::KeyPressed(Key::Escape)
}

/// Number of events of a run that are `event` and reached the session before
/// it was over.
pub open spec fn taken(start: SessionView, events: Seq<Event>, event: spec_fn(Event) -> bool) -> nat
    decreases events.len(),
{
    if events.len() == 0 {
        0
    } else {
        taken(start, events.drop_last(), event) + if run(start, events.drop_last()).phase
            != Phase::Exiting && event(events.last()) {
            1nat
        } else {
            0nat
        }
    }
}

/// Number of frames presented in a run.
pub open spec fn frames(start: SessionView, events: Seq<Event>) -> nat {
    taken(start, events, |event: Event| event is FramePresented)
}

/// Number of times `key` went down in a run.
pub open spec fn presses(start: SessionView, events: Seq<Event>, key: Key) -> nat {
    taken(start, events, |event: Event| event == Event::KeyPressed(key))
}

/// Number of reports that the session asked for in a run.
pub open spec fn reports(start: SessionView, events: Seq<Event>) -> nat
    decreases events.len(),
{
    if events.len() == 0 {
        0
    } else {
        reports(start, events.drop_last()) + if run(start, events.drop_last()).step(
            events.last(),
        ).1 is Report {
            1nat
        } else {
            0nat
        }
    }
}

/// Every step keeps a well-formed session well-formed and leaves the number
/// of live spheres alone, and a session is over after a step exactly if it
/// was over before or the event closes it.
pub proof fn lemma_step_keeps(v: SessionView, event: Event)
    requires
        v.wf(),
    ensures
        v.step(event).0.wf(),
        v.step(event).0.renderer.spheres_count == v.renderer.spheres_count,
        v.step(event).0.phase == Phase::Exiting <==> v.phase == Phase::Exiting || closes(event),
{
}

/// A run keeps a well-formed session well-formed and the number of live
/// spheres fixed.
pub proof fn lemma_run_keeps(start: SessionView, events: Seq<Event>)
    requires
        start.wf(),
    ensures
        run(start, events).wf(),
        run(start, events).renderer.spheres_count == start.renderer.spheres_count,
    decreases events.len(),
{
    if events.len() > 0 {
        let before = events.drop_last();
        lemma_run_keeps(start, before);
        lemma_step_keeps(run(start, before), events.last());
    }
}

/// Frame parity. In a session that starts with nothing presented, after N
/// presented frames the counter stands at N modulo the report interval and
/// the parity of the next frame is N modulo 2. If a frame is planned then,
/// its compute pass uses member N mod 2 of the compute bind group pair and
/// its render pass member 1 - N mod 2 of the render pair.
pub proof fn law_frame_parity(start: SessionView, events: Seq<Event>, now: u64)
    requires
        start.wf(),
        start.frame_count == 0,
    ensures
        run(start, events).frame_count == frames(start, events) % (REPORT_INTERVAL as nat),
        run(start, events).parity().bit() == frames(start, events) % 2,
        run(start, events).step(Event::FrameAcquired { now }).1 matches Action::Draw(plan) ==> {
            &&& plan.compute_bind_group.bit() == frames(start, events) % 2
            &&& plan.render_bind_group.bit() == 1 - frames(start, events) % 2
        },
    decreases events.len(),
{
    if events.len() > 0 {
        let before = events.drop_last();
        law_frame_parity(start, before, now);
        lemma_run_keeps(start, before);
    }
}

/// Reports. In a session that starts with nothing presented, a report is
/// asked for when the presented frames fill the interval and at no other
/// time: after N presented frames there were N / 1000 reports, and the
/// counter starts over with each.
pub proof fn law_reports(start: SessionView, events: Seq<Event>)
    requires
        start.wf(),
        start.frame_count == 0,
    ensures
        reports(start, events) == frames(start, events) / (REPORT_INTERVAL as nat),
        events.len() > 0 && run(start, events.drop_last()).step(events.last()).1 is Report ==> {
            &&& events.last() is FramePresented
            &&& frames(start, events) > 0
            &&& frames(start, events) % (REPORT_INTERVAL as nat) == 0
            &&& run(start, events).frame_count == 0
        },
    decreases events.len(),
{
    if events.len() > 0 {
        let before = events.drop_last();
        law_reports(start, before);
        law_frame_parity(start, before, 0);
        law_frame_parity(start, events, 0);
        lemma_run_keeps(start, before);
    }
}

/// Sphere count. Whatever frame a well-formed session plans, the live count
/// in its parameters is within the ceiling, and the compute pass is dispatched
/// with exactly that many work groups.
pub proof fn law_sphere_count(v: SessionView, event: Event)
    requires
        v.wf(),
    ensures
        v.step(event).1 matches Action::Draw(plan) ==> {
            &&& plan.parameters.spheres_count == v.renderer.spheres_count
            &&& plan.parameters.spheres_count <= MAX_SPHERES_COUNT
            &&& plan.workgroups == plan.parameters.spheres_count
        },
{
}

/// A frame is planned only while the session runs, and then for the size at
/// which the device was last configured: the offscreen target that the plan
/// names is the one that exists.
pub proof fn law_draw_matches_device(v: SessionView, event: Event)
    requires
        v.wf(),
    ensures
        v.step(event).1 matches Action::Draw(plan) ==> {
            &&& v.phase == Phase::Running
            &&& event is FrameAcquired
            &&& plan.target == target_at(v.device_width, v.device_height)
            &&& plan.parameters.width == v.device_width
            &&& plan.parameters.height == v.device_height
        },
{
}

/// Resize, then render. A resize asks for the surface and the target at the
/// new size; once the device reports that size, the next frame is planned
/// with that width and height as its aspect ratio and with a target of that
/// size. Until then no frame is planned at all.
pub proof fn law_resize_then_render(v: SessionView, width: u32, height: u32, now: u64)
    requires
        v.wf(),
        v.phase != Phase::Exiting,
    ensures
        ({
            let (resized, asked) = v.step(Event::Resized { width, height });
            let (settled, _) = resized.step(Event::SurfaceConfigured { width, height });
            let answer = settled.step(Event::FrameAcquired { now }).1;
            &&& asked == Action::Configure(reconfiguration_at(width, height))
            &&& resized.phase == Phase::Resizing
            &&& forall|event: Event| !(#[trigger] resized.step(event).1 is Draw)
            &&& settled.phase == Phase::Running
            &&& answer matches Action::Draw(plan)
            &&& plan.parameters.width == width
            &&& plan.parameters.height == height
            &&& plan.target == target_at(width, height)
        }),
{
}

/// Resizing twice to the same size is resizing once: the session is the same
/// and so is what the device is asked to do. And a running session that is
/// resized to the size it already has is, once the device has answered, the
/// session it was before.
pub proof fn law_resize_idempotent(v: SessionView, width: u32, height: u32)
    requires
        v.wf(),
    ensures
        v.step(Event::Resized { width, height }).0.step(Event::Resized { width, height })
            == v.step(Event::Resized { width, height }),
        v.phase == Phase::Running && v.renderer.width == width && v.renderer.height == height
            ==> v.step(Event::Resized { width, height }).0.step(
            Event::SurfaceConfigured { width, height },
        ).0 == v,
{
}

/// Camera offset. In a session that starts with the camera at rest, after N
/// presses of Left and M of Right the offset is N - M tenths, as long as that
/// difference was within the range of the offset at every point of the run.
pub proof fn law_camera_offset(start: SessionView, events: Seq<Event>)
    requires
        start.renderer.camera_x == 0,
        forall|k: int|
            0 <= k <= events.len() ==> i64::MIN <= presses(
                start,
                #[trigger] events.take(k),
                Key::Left,
            ) - presses(start, events.take(k), Key::Right) <= i64::MAX,
    ensures
        run(start, events).renderer.camera_x == presses(start, events, Key::Left) - presses(
            start,
            events,
            Key::Right,
        ),
    decreases events.len(),
{
    if events.len() > 0 {
        let before = events.drop_last();
        assert forall|k: int| 0 <= k <= before.len() implies i64::MIN <= presses(
            start,
            #[trigger] before.take(k),
            Key::Left,
        ) - presses(start, before.take(k), Key::Right) <= i64::MAX by {
            assert(before.take(k) =~= events.take(k));
        }
        law_camera_offset(start, before);
        assert(events.take(events.len() as int) =~= events);
    }
}

} // verus!
