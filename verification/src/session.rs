//! The event loop as a state machine: one event in, one action out.
//!
//! The caller owns the window, the device and the clock. It reports what
//! happened as an [`Event`] and carries out the [`Action`] that comes back;
//! where carrying it out produces a fact of its own (a frame was acquired, a
//! frame was presented, the surface was configured), it reports that next.
//! The machine never waits and never fails.

use crate::parity::Parity;
use crate::renderer::{elapsed_between, FramePlan, Renderer, RendererView};
use crate::resources::{
    configure, is_plan_for, multisampled_framebuffer, reconfiguration_at, Reconfiguration,
    ResourcePlan,
};
use crate::wire::{Sphere, MAX_SPHERES_COUNT};
use vstd::prelude::*;

verus! {

/// Presented frames between two diagnostic reports.
pub const REPORT_INTERVAL: u32 = 1000;

/// Where the session stands.
#[derive(Clone, Copy, Debug, PartialEq, Eq, Structural)]
pub enum Phase {
    /// The device is configured for the current surface size; frames may be
    /// drawn.
    Running,
    /// The surface size changed and the device has not caught up; no frame is
    /// drawn until it has.
    Resizing,
    /// The session is over.
    Exiting,
}

/// The keys that matter.
#[derive(Clone, Copy, Debug, PartialEq, Eq, Structural)]
pub enum Key {
    Left,
    Right,
    Escape,
    Other,
}

/// What the caller reports. Times are nanoseconds on a clock of the caller's
/// choosing that does not run backwards.
#[derive(Clone, Copy, Debug, PartialEq, Eq, Structural)]
pub enum Event {
    /// The window was asked to close.
    CloseRequested,
    /// A key went down.
    KeyPressed(Key),
    /// The window has a new size, in pixels.
    Resized { width: u32, height: u32 },
    /// The surface was configured and the offscreen target created at this
    /// size.
    SurfaceConfigured { width: u32, height: u32 },
    /// The window wants to be drawn.
    RedrawRequested,
    /// All pending events were handled.
    RedrawEventsCleared,
    /// The surface handed out its next image, at the given time.
    FrameAcquired { now: u64 },
    /// The surface had no image to hand out.
    AcquireFailed,
    /// The recorded frame was submitted and its image presented, at the given
    /// time.
    FramePresented { now: u64 },
}

/// A report on the frames presented since the previous one.
#[derive(Clone, Copy, Debug, PartialEq, Eq, Structural)]
pub struct FrameReport {
    /// How many frames.
    pub frames: u32,
    /// Over how many nanoseconds.
    pub elapsed: u64,
}

/// What the caller is to do next.
#[derive(Clone, Copy, Debug, PartialEq, Eq, Structural)]
pub enum Action {
    /// Nothing.
    Wait,
    /// Leave the event loop.
    Exit,
    /// Ask the window for a redraw.
    RequestRedraw,
    /// Configure the surface and replace the offscreen target, then report
    /// `SurfaceConfigured`.
    Configure(Reconfiguration),
    /// Ask the surface for its next image, then report `FrameAcquired` or
    /// `AcquireFailed`.
    Acquire,
    /// Record, submit and present this frame, then report `FramePresented`.
    Draw(FramePlan),
    /// Print this report.
    Report(FrameReport),
}

/// A rendering session, from startup to exit.
pub struct Session {
    renderer: Renderer,
    phase: Phase,
    device_width: u32,
    device_height: u32,
    frame_count: u32,
    frames_start: u64,
}

/// What a [`Session`] holds.
pub struct SessionView {
    pub renderer: RendererView,
    pub phase: Phase,
    /// Width at which the surface was last configured and the target created.
    pub device_width: u32,
    /// Height at which the surface was last configured and the target created.
    pub device_height: u32,
    /// Frames presented since the last report.
    pub frame_count: u32,
    /// When the last report was made.
    pub frames_start: u64,
}

impl SessionView {
    /// The counter is below the report interval, and while the session runs
    /// the device is configured at the size the renderer plans for.
    pub open spec fn wf(self) -> bool {
        &&& self.renderer.wf()
        &&& self.frame_count < REPORT_INTERVAL
        &&& self.phase == Phase::Running ==> self.device_width == self.renderer.width
            && self.device_height == self.renderer.height
    }

    /// The session at startup: running, at rest, nothing presented.
    pub open spec fn initial(
        width: u32,
        height: u32,
        spheres_count: u32,
        now: u64,
    ) -> SessionView {
        SessionView {
            renderer: RendererView::initial(width, height, spheres_count, now),
            phase: Phase::Running,
            device_width: width,
            device_height: height,
            frame_count: 0,
            frames_start: now,
        }
    }

    /// The parity of the frame that comes next.
    pub open spec fn parity(self) -> Parity {
        Parity::of(self.frame_count as int)
    }

    /// A frame starts only while the session runs.
    pub open spec fn begin_frame(self) -> Action {
        if self.phase == Phase::Running {
            Action::Acquire
        } else {
            Action::Wait
        }
    }

    /// A key went down: Escape ends the session; Left and Right move the
    /// camera by a tenth and start a frame out of turn; other keys do nothing.
    pub open spec fn on_key(self, key: Key) -> (SessionView, Action) {
        match key {
            Key::Escape => (SessionView { phase: Phase::Exiting, ..self }, Action::Exit),
            Key::Left => (
                SessionView { renderer: self.renderer.moved(1), ..self },
                self.begin_frame(),
            ),
            Key::Right => (
                SessionView { renderer: self.renderer.moved(-1), ..self },
                self.begin_frame(),
            ),
            Key::Other => (self, Action::Wait),
        }
    }

    /// The window has a new size: frames stop until the device has it too.
    pub open spec fn on_resized(self, width: u32, height: u32) -> (SessionView, Action) {
        (
            SessionView {
                renderer: self.renderer.resized(width, height),
                phase: Phase::Resizing,
                ..self
            },
            Action::Configure(reconfiguration_at(width, height)),
        )
    }

    /// The device was configured at a size: if that is the size planned for,
    /// the session runs; if not, the device is asked again.
    pub open spec fn on_configured(self, width: u32, height: u32) -> (SessionView, Action) {
        if width == self.renderer.width && height == self.renderer.height {
            (
                SessionView {
                    phase: Phase::Running,
                    device_width: width,
                    device_height: height,
                    ..self
                },
                Action::Wait,
            )
        } else {
            (
                SessionView {
                    phase: Phase::Resizing,
                    device_width: width,
                    device_height: height,
                    ..self
                },
                Action::Configure(reconfiguration_at(self.renderer.width, self.renderer.height)),
            )
        }
    }

    /// An image is there to draw into: while the session runs, the frame is
    /// planned; otherwise the image goes unused.
    pub open spec fn on_acquired(self, now: u64) -> (SessionView, Action) {
        if self.phase == Phase::Running {
            (self, Action::Draw(self.renderer.plan(self.parity(), now)))
        } else {
            (self, Action::Wait)
        }
    }

    /// A frame was presented: the frame clock restarts and the counter goes
    /// up, which flips the parity; the frame that fills the interval is
    /// reported and the counter starts over.
    pub open spec fn on_presented(self, now: u64) -> (SessionView, Action) {
        if self.frame_count + 1 >= REPORT_INTERVAL {
            (
                SessionView {
                    renderer: self.renderer.presented(now),
                    frame_count: 0,
                    frames_start: now,
                    ..self
                },
                Action::Report(
                    FrameReport {
                        frames: (self.frame_count + 1) as u32,
                        elapsed: elapsed_between(self.frames_start, now),
                    },
                ),
            )
        } else {
            (
                SessionView {
                    renderer: self.renderer.presented(now),
                    frame_count: (self.frame_count + 1) as u32,
                    ..self
                },
                Action::Wait,
            )
        }
    }

    /// The session after `event`, and what the caller is to do. Once the
    /// session is over, nothing changes any more and every answer is `Exit`.
    pub open spec fn step(self, event: Event) -> (SessionView, Action) {
        if self.phase == Phase::Exiting {
            (self, Action::Exit)
        } else {
            match event {
                Event::CloseRequested => (
                    SessionView { phase: Phase::Exiting, ..self },
                    Action::Exit,
                ),
                Event::KeyPressed(key) => self.on_key(key),
                Event::Resized { width, height } => self.on_resized(width, height),
                Event::SurfaceConfigured { width, height } => self.on_configured(width, height),
                Event::RedrawRequested => (self, self.begin_frame()),
                Event::RedrawEventsCleared => (self, Action::RequestRedraw),
                Event::FrameAcquired { now } => self.on_acquired(now),
                Event::AcquireFailed => (self, Action::Wait),
                Event::FramePresented { now } => self.on_presented(now),
            }
        }
    }
}

impl View for Session {
    type V = SessionView;

    closed spec fn view(&self) -> SessionView {
        SessionView {
            renderer: self.renderer@,
            phase: self.phase,
            device_width: self.device_width,
            device_height: self.device_height,
            frame_count: self.frame_count,
            frames_start: self.frames_start,
        }
    }
}

impl Session {
    #[verifier::type_invariant]
    spec fn inv(&self) -> bool {
        self@.wf()
    }

    /// A session for a window of the given size and the given spheres, with
    /// what the device must create for it; nothing if there are more spheres
    /// than the ceiling allows. `now` starts both clocks.
    pub fn new(width: u32, height: u32, spheres: &Vec<Sphere>, now: u64) -> (made: Option<
        (Session, ResourcePlan),
    >)
        ensures
            made is Some <==> spheres@.len() <= MAX_SPHERES_COUNT,
            made matches Some((session, plan)) ==> {
                &&& session@ == SessionView::initial(width, height, spheres@.len() as u32, now)
                &&& session@.wf()
                &&& is_plan_for(plan, width, height, spheres@)
            },
    {
        match Renderer::new(width, height, spheres, now) {
            None => None,
            Some((renderer, plan)) => {
                let session = Session {
                    renderer,
                    phase: Phase::Running,
                    device_width: width,
                    device_height: height,
                    frame_count: 0,
                    frames_start: now,
                };
                Some((session, plan))
            },
        }
    }

    /// Takes in one event and says what to do next.
    pub fn advance(&mut self, event: Event) -> (action: Action)
        ensures
            (final(self)@, action) == old(self)@.step(event),
            final(self)@.wf(),
    {
        proof {
            use_type_invariant(&*self);
        }
        match self.phase {
            Phase::Exiting => Action::Exit,
            _ => match event {
                Event::CloseRequested => {
                    *self = self.with(self.renderer, Phase::Exiting);
                    Action::Exit
                },
                Event::KeyPressed(key) => self.on_key(key),
                Event::Resized { width, height } => self.on_resized(width, height),
                Event::SurfaceConfigured { width, height } => self.on_configured(width, height),
                Event::RedrawRequested => self.begin_frame(),
                Event::RedrawEventsCleared => Action::RequestRedraw,
                Event::FrameAcquired { now } => self.on_acquired(now),
                Event::AcquireFailed => Action::Wait,
                Event::FramePresented { now } => self.on_presented(now),
            },
        }
    }

    /// Where the session stands.
    pub fn phase(&self) -> (phase: Phase)
        ensures
            phase == self@.phase,
    {
        self.phase
    }

    /// Frames presented since the last report.
    pub fn frame_count(&self) -> (count: u32)
        ensures
            count == self@.frame_count,
            count < REPORT_INTERVAL,
    {
        proof {
            use_type_invariant(self);
        }
        self.frame_count
    }

    /// The parity of the frame that comes next.
    pub fn parity(&self) -> (parity: Parity)
        ensures
            parity == self@.parity(),
    {
        Parity::of_count(self.frame_count)
    }

    /// The renderer as it stands.
    pub fn renderer(&self) -> (renderer: Renderer)
        ensures
            renderer@ == self@.renderer,
    {
        self.renderer
    }

    /// The session with another renderer and phase, the rest as it is.
    fn with(&self, renderer: Renderer, phase: Phase) -> (next: Session)
        requires
            phase == Phase::Running ==> self@.device_width == renderer@.width
                && self@.device_height == renderer@.height,
        ensures
            next@ == (SessionView { renderer: renderer@, phase, ..self@ }),
    {
        proof {
            use_type_invariant(self);
            use_type_invariant(&renderer);
        }
        Session {
            renderer,
            phase,
            device_width: self.device_width,
            device_height: self.device_height,
            frame_count: self.frame_count,
            frames_start: self.frames_start,
        }
    }

    fn begin_frame(&self) -> (action: Action)
        ensures
            action == self@.begin_frame(),
    {
        match self.phase {
            Phase::Running => Action::Acquire,
            _ => Action::Wait,
        }
    }

    fn on_key(&mut self, key: Key) -> (action: Action)
        ensures
            (final(self)@, action) == old(self)@.on_key(key),
    {
        proof {
            use_type_invariant(&*self);
        }
        match key {
            Key::Escape => {
                *self = self.with(self.renderer, Phase::Exiting);
                Action::Exit
            },
            Key::Left => {
                let mut renderer = self.renderer;
                renderer.move_x(1);
                *self = self.with(renderer, self.phase);
                self.begin_frame()
            },
            Key::Right => {
                let mut renderer = self.renderer;
                renderer.move_x(-1);
                *self = self.with(renderer, self.phase);
                self.begin_frame()
            },
            Key::Other => Action::Wait,
        }
    }

    fn on_resized(&mut self, width: u32, height: u32) -> (action: Action)
        ensures
            (final(self)@, action) == old(self)@.on_resized(width, height),
    {
        let mut renderer = self.renderer;
        let todo = renderer.resize(width, height);
        *self = self.with(renderer, Phase::Resizing);
        Action::Configure(todo)
    }

    fn on_configured(&mut self, width: u32, height: u32) -> (action: Action)
        ensures
            (final(self)@, action) == old(self)@.on_configured(width, height),
    {
        proof {
            use_type_invariant(&*self);
        }
        let wanted_width = self.renderer.width();
        let wanted_height = self.renderer.height();
        let settled = width == wanted_width && height == wanted_height;
        *self = Session {
            renderer: self.renderer,
            phase: if settled {
                Phase::Running
            } else {
                Phase::Resizing
            },
            device_width: width,
            device_height: height,
            frame_count: self.frame_count,
            frames_start: self.frames_start,
        };
        if settled {
            Action::Wait
        } else {
            Action::Configure(
                Reconfiguration {
                    surface: configure(wanted_width, wanted_height),
                    target: multisampled_framebuffer(wanted_width, wanted_height),
                },
            )
        }
    }

    fn on_acquired(&self, now: u64) -> (action: Action)
        ensures
            (self@, action) == self@.on_acquired(now),
    {
        match self.phase {
            Phase::Running => Action::Draw(
                self.renderer.render(Parity::of_count(self.frame_count), now),
            ),
            _ => Action::Wait,
        }
    }

    fn on_presented(&mut self, now: u64) -> (action: Action)
        ensures
            (final(self)@, action) == old(self)@.on_presented(now),
    {
        proof {
            use_type_invariant(&*self);
        }
        let mut renderer = self.renderer;
        renderer.frame_presented(now);
        let count: u32 = self.frame_count + 1;
        let full = count >= REPORT_INTERVAL;
        let since: u64 = if now >= self.frames_start {
            now - self.frames_start
        } else {
            0
        };
        *self = Session {
            renderer,
            phase: self.phase,
            device_width: self.device_width,
            device_height: self.device_height,
            frame_count: if full {
                0
            } else {
                count
            },
            frames_start: if full {
                now
            } else {
                self.frames_start
            },
        };
        if full {
            Action::Report(FrameReport { frames: count, elapsed: since })
        } else {
            Action::Wait
        }
    }
}

} // verus!
