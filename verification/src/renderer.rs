//! The renderer's host-side state and the plan of one frame.
//!
//! Numbers that the shaders read in single precision are kept exact here: the
//! camera offset in tenths of a unit, the surface size in pixels, the elapsed
//! time in nanoseconds. Whoever talks to the device takes the quotients and
//! hands the bit patterns to [`FrameParameters::to_wire`].

use crate::parity::Parity;
use crate::resources::{
    compute_group, compute_layout, configure, is_plan_for, lemma_compute_roles,
    lemma_render_roles, multisampled_framebuffer, plan_resources, reads, reconfiguration_at,
    render_group, render_layout, target_at, writes, BufferId, Reconfiguration, ResourcePlan,
    TextureDescriptor, FULLSCREEN_VERTICES,
};
use crate::scene::{MINUS_ONE, ZERO};
use crate::wire::{RayTracingParams, Sphere, MAX_SPHERES_COUNT};
use vstd::prelude::*;

verus! {

/// What one frame tells the shaders, as exact values.
#[derive(Clone, Copy, Debug, PartialEq, Eq, Structural)]
pub struct FrameParameters {
    /// Camera offset along x, in tenths of a unit.
    pub camera_x: i64,
    /// Numerator of the aspect ratio: the surface width in pixels.
    pub width: u32,
    /// Denominator of the aspect ratio: the surface height in pixels.
    pub height: u32,
    /// Number of live spheres.
    pub spheres_count: u32,
    /// Nanoseconds since the previous frame was presented.
    pub elapsed: u64,
}

/// What to record for one frame, in this order: the parameter write, the
/// compute pass, the render pass.
#[derive(Clone, Copy, Debug, PartialEq, Eq, Structural)]
pub struct FramePlan {
    /// Written into the parameter buffer before either pass.
    pub parameters: FrameParameters,
    /// Member of the compute bind group pair to dispatch with.
    pub compute_bind_group: Parity,
    /// Work groups to dispatch: one per live sphere.
    pub workgroups: u32,
    /// Member of the render bind group pair to draw with.
    pub render_bind_group: Parity,
    /// Vertices to draw.
    pub vertices: u32,
    /// The offscreen target that the pass draws into and resolves from.
    pub target: TextureDescriptor,
}

/// One step of a frame.
#[derive(Clone, Copy, Debug, PartialEq, Eq, Structural)]
pub enum Command {
    /// Copy the parameters into the parameter buffer.
    WriteParameters(FrameParameters),
    /// Run the compute pipeline with this member of its bind group pair and
    /// this many work groups.
    Dispatch { bind_group: Parity, workgroups: u32 },
    /// Run the render pipeline with this member of its bind group pair: draw
    /// this many vertices into the offscreen target and resolve it into the
    /// acquired image.
    Draw { bind_group: Parity, vertices: u32, target: TextureDescriptor },
    /// Hand the recorded passes to the queue as one unit.
    Submit,
    /// Present the acquired image.
    Present,
}

/// The state that frames are planned from.
#[derive(Clone, Copy)]
pub struct Renderer {
    width: u32,
    height: u32,
    camera_x: i64,
    spheres_count: u32,
    frame_start: u64,
}

/// What a [`Renderer`] holds.
pub struct RendererView {
    /// Width of the surface, in pixels.
    pub width: u32,
    /// Height of the surface, in pixels.
    pub height: u32,
    /// Camera offset along x, in tenths of a unit.
    pub camera_x: i64,
    /// Number of live spheres.
    pub spheres_count: u32,
    /// When the previous frame was presented, in nanoseconds on the caller's
    /// clock.
    pub frame_start: u64,
}

/// Nanoseconds from `start` to `now`; zero if the clock went backwards.
pub open spec fn elapsed_between(start: u64, now: u64) -> u64 {
    if now >= start {
        (now - start) as u64
    } else {
        0
    }
}

/// `x + delta`, held at the ends of the range.
pub open spec fn saturating_offset(x: i64, delta: int) -> i64 {
    if x + delta > i64::MAX {
        i64::MAX
    } else if x + delta < i64::MIN {
        i64::MIN
    } else {
        (x + delta) as i64
    }
}

impl RendererView {
    /// The live count is within the ceiling.
    pub open spec fn wf(self) -> bool {
        self.spheres_count <= MAX_SPHERES_COUNT
    }

    /// The state at startup: camera at rest, clock started.
    pub open spec fn initial(
        width: u32,
        height: u32,
        spheres_count: u32,
        now: u64,
    ) -> RendererView {
        RendererView { width, height, camera_x: 0, spheres_count, frame_start: now }
    }

    /// The state after a resize.
    pub open spec fn resized(self, width: u32, height: u32) -> RendererView {
        RendererView { width, height, ..self }
    }

    /// The state after the camera moved by `delta` tenths.
    pub open spec fn moved(self, delta: int) -> RendererView {
        RendererView { camera_x: saturating_offset(self.camera_x, delta), ..self }
    }

    /// The state after a frame was presented at `now`.
    pub open spec fn presented(self, now: u64) -> RendererView {
        RendererView { frame_start: now, ..self }
    }

    /// The parameters of a frame planned at `now`.
    pub open spec fn parameters(self, now: u64) -> FrameParameters {
        FrameParameters {
            camera_x: self.camera_x,
            width: self.width,
            height: self.height,
            spheres_count: self.spheres_count,
            elapsed: elapsed_between(self.frame_start, now),
        }
    }

    /// The plan of a frame of the given parity, planned at `now`: the compute
    /// pass takes the member of its pair that the parity selects, the render
    /// pass the other member of its own.
    pub open spec fn plan(self, parity: Parity, now: u64) -> FramePlan {
        FramePlan {
            parameters: self.parameters(now),
            compute_bind_group: parity,
            workgroups: self.spheres_count,
            render_bind_group: parity.other(),
            vertices: FULLSCREEN_VERTICES,
            target: target_at(self.width, self.height),
        }
    }
}

impl View for Renderer {
    type V = RendererView;

    closed spec fn view(&self) -> RendererView {
        RendererView {
            width: self.width,
            height: self.height,
            camera_x: self.camera_x,
            spheres_count: self.spheres_count,
            frame_start: self.frame_start,
        }
    }
}

impl FramePlan {
    /// The steps of the frame in the order in which they take effect: the
    /// parameters are written before the passes that read them, the compute
    /// pass comes before the render pass, and both are submitted together
    /// before the image is presented.
    pub open spec fn command_seq(self) -> Seq<Command> {
        seq![
            Command::WriteParameters(self.parameters),
            Command::Dispatch { bind_group: self.compute_bind_group, workgroups: self.workgroups },
            Command::Draw {
                bind_group: self.render_bind_group,
                vertices: self.vertices,
                target: self.target,
            },
            Command::Submit,
            Command::Present,
        ]
    }

    /// The steps of the frame, in order.
    pub fn commands(&self) -> (list: [Command; 5])
        ensures
            list@ == self.command_seq(),
    {
        let list = [
            Command::WriteParameters(self.parameters),
            Command::Dispatch { bind_group: self.compute_bind_group, workgroups: self.workgroups },
            Command::Draw {
                bind_group: self.render_bind_group,
                vertices: self.vertices,
                target: self.target,
            },
            Command::Submit,
            Command::Present,
        ];
        list
    }
}

impl FrameParameters {
    /// The parameter block for these parameters, given the three numbers that
    /// need single precision as bit patterns: the camera's x (a tenth of
    /// `camera_x`), the aspect ratio (`width` over `height`) and the elapsed
    /// time in seconds. The camera sits at (x, 0, -1, 0).
    pub fn to_wire(&self, camera_x: u32, aspect_ratio: u32, time_elapsed: u32) -> (block:
        RayTracingParams)
        ensures
            block.camera_pos@ == seq![camera_x, ZERO, MINUS_ONE, ZERO],
            block.aspect_ratio == aspect_ratio,
            block.spheres_count == self.spheres_count,
            block.time_elapsed == time_elapsed,
            block.padding == ZERO,
    {
        let block = RayTracingParams {
            camera_pos: [camera_x, ZERO, MINUS_ONE, ZERO],
            aspect_ratio,
            spheres_count: self.spheres_count,
            time_elapsed,
            padding: ZERO,
        };
        block
    }
}

impl Renderer {
    /// Holds of every renderer.
    #[verifier::type_invariant]
    pub open spec fn inv(&self) -> bool {
        self@.wf()
    }

    /// A renderer for a surface of the given size and the given spheres, with
    /// what the device must create for it; nothing if there are more spheres
    /// than the ceiling allows. `now` starts the frame clock.
    pub fn new(width: u32, height: u32, spheres: &Vec<Sphere>, now: u64) -> (made: Option<
        (Renderer, ResourcePlan),
    >)
        ensures
            made is Some <==> spheres@.len() <= MAX_SPHERES_COUNT,
            made matches Some((renderer, plan)) ==> {
                &&& renderer@ == RendererView::initial(
                    width,
                    height,
                    spheres@.len() as u32,
                    now,
                )
                &&& is_plan_for(plan, width, height, spheres@)
            },
    {
        match plan_resources(width, height, spheres) {
            None => None,
            Some(plan) => {
                let renderer = Renderer {
                    width,
                    height,
                    camera_x: 0,
                    spheres_count: spheres.len() as u32,
                    frame_start: now,
                };
                Some((renderer, plan))
            },
        }
    }

    /// Width of the surface, in pixels.
    pub fn width(&self) -> (width: u32)
        ensures
            width == self@.width,
    {
        self.width
    }

    /// Height of the surface, in pixels.
    pub fn height(&self) -> (height: u32)
        ensures
            height == self@.height,
    {
        self.height
    }

    /// Camera offset along x, in tenths of a unit.
    pub fn camera_x(&self) -> (camera_x: i64)
        ensures
            camera_x == self@.camera_x,
    {
        self.camera_x
    }

    /// Number of live spheres.
    pub fn spheres_count(&self) -> (count: u32)
        ensures
            count == self@.spheres_count,
            count <= MAX_SPHERES_COUNT,
    {
        proof {
            use_type_invariant(self);
        }
        self.spheres_count
    }

    /// Takes note of a new surface size and says what the device must do
    /// before the next frame.
    pub fn resize(&mut self, width: u32, height: u32) -> (todo: Reconfiguration)
        ensures
            final(self)@ == old(self)@.resized(width, height),
            todo == reconfiguration_at(width, height),
    {
        proof {
            use_type_invariant(&*self);
        }
        self.width = width;
        self.height = height;
        Reconfiguration {
            surface: configure(width, height),
            target: multisampled_framebuffer(width, height),
        }
    }

    /// Plans a frame of the given parity at time `now`.
    pub fn render(&self, parity: Parity, now: u64) -> (plan: FramePlan)
        ensures
            plan == self@.plan(parity, now),
            plan.parameters.spheres_count <= MAX_SPHERES_COUNT,
            plan.workgroups == plan.parameters.spheres_count,
    {
        proof {
            use_type_invariant(self);
        }
        let elapsed: u64 = if now >= self.frame_start {
            now - self.frame_start
        } else {
            0
        };
        FramePlan {
            parameters: FrameParameters {
                camera_x: self.camera_x,
                width: self.width,
                height: self.height,
                spheres_count: self.spheres_count,
                elapsed,
            },
            compute_bind_group: parity,
            workgroups: self.spheres_count,
            render_bind_group: parity.flip(),
            vertices: FULLSCREEN_VERTICES,
            target: multisampled_framebuffer(self.width, self.height),
        }
    }

    /// Restarts the frame clock: a frame was presented at `now`.
    pub fn frame_presented(&mut self, now: u64)
        ensures
            final(self)@ == old(self)@.presented(now),
    {
        proof {
            use_type_invariant(&*self);
        }
        self.frame_start = now;
    }

    /// Moves the camera along x by `delta` tenths of a unit; it stops at the
    /// ends of the range.
    pub fn move_x(&mut self, delta: i64)
        ensures
            final(self)@ == old(self)@.moved(delta as int),
    {
        proof {
            use_type_invariant(&*self);
        }
        self.camera_x = match self.camera_x.checked_add(delta) {
            Some(x) => x,
            None => if delta > 0 {
                i64::MAX
            } else {
                i64::MIN
            },
        };
    }
}

/// Buffer roles in one frame. The compute pass of a frame of parity `p` reads
/// sphere buffer `p` and writes sphere buffer `1 - p`, and no other; the
/// render pass of the same frame writes nothing and reads the sphere buffer
/// that the compute pass writes; neither pass reads a buffer that it writes;
/// and the compute pass of the frame after reads the sphere buffer that this
/// one wrote.
pub proof fn law_frame_roles(v: RendererView, parity: Parity, now: u64, buffer: BufferId)
    ensures
        ({
            let plan = v.plan(parity, now);
            let after = v.plan(parity.other(), now);
            let compute = compute_group(plan.compute_bind_group);
            let render = render_group(plan.render_bind_group);
            let compute_after = compute_group(after.compute_bind_group);
            &&& writes(compute, compute_layout(), buffer) <==> buffer == BufferId::Spheres(
                parity.other(),
            )
            &&& reads(compute, compute_layout(), buffer) <==> (buffer == BufferId::Parameters
                || buffer == BufferId::Spheres(parity))
            &&& reads(render, render_layout(), buffer) <==> (buffer == BufferId::Parameters
                || buffer == BufferId::Spheres(parity.other()))
            &&& !writes(render, render_layout(), buffer)
            &&& !(reads(compute, compute_layout(), buffer) && writes(
                compute,
                compute_layout(),
                buffer,
            ))
            &&& buffer is Spheres ==> (reads(render, render_layout(), buffer) <==> writes(
                compute,
                compute_layout(),
                buffer,
            ))
            &&& buffer is Spheres ==> (reads(compute_after, compute_layout(), buffer) <==> writes(
                compute,
                compute_layout(),
                buffer,
            ))
        }),
{
    lemma_compute_roles(parity, buffer);
    lemma_compute_roles(parity.other(), buffer);
    lemma_render_roles(parity.other(), buffer);
}

} // verus!
