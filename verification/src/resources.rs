//! What the device is asked to create, as plain values: the buffers, the
//! binding layouts of the two pipelines, the two bind groups of each, the
//! surface configuration and the multisampled target.
//!
//! The two sphere buffers are bound in two role assignments. This module says
//! which buffer each bind group reads and which it writes, and proves that
//! every group fits its layout and that no pass reads a buffer it writes.

use crate::parity::Parity;
use crate::wire::{
    is_memory_image, spheres_to_bytes, spheres_words, Sphere, MAX_SPHERES_COUNT, PARAMS_SIZE,
    SPHERES_BUFFER_SIZE,
};
use vstd::prelude::*;

verus! {

/// Samples per pixel of the offscreen target and of the render pipeline.
pub const SAMPLE_COUNT: u32 = 4;

/// Vertices of the full-screen geometry: two triangles, no vertex buffer.
pub const FULLSCREEN_VERTICES: u32 = 6;

/// One of the three device buffers.
#[derive(Clone, Copy, Debug, PartialEq, Eq, Structural)]
pub enum BufferId {
    /// The uniform buffer that holds the parameter block.
    Parameters,
    /// A member of the simulation buffer pair.
    Spheres(Parity),
}

/// What a buffer may be used for.
#[derive(Clone, Copy, Debug, PartialEq, Eq, Structural)]
pub struct BufferUsages {
    pub uniform: bool,
    pub storage: bool,
    pub copy_dst: bool,
}

/// Size and uses of a buffer to create.
#[derive(Clone, Copy, Debug, PartialEq, Eq, Structural)]
pub struct BufferDescriptor {
    pub size: u64,
    pub usage: BufferUsages,
    pub mapped_at_creation: bool,
}

/// The shader stages that can see a binding.
#[derive(Clone, Copy, Debug, PartialEq, Eq, Structural)]
pub struct ShaderStages {
    pub vertex: bool,
    pub fragment: bool,
    pub compute: bool,
}

/// How a shader reaches a bound buffer.
#[derive(Clone, Copy, Debug, PartialEq, Eq, Structural)]
pub enum BufferBindingType {
    Uniform,
    Storage { read_only: bool },
}

/// One slot of a binding layout.
#[derive(Clone, Copy, Debug, PartialEq, Eq, Structural)]
pub struct BindGroupLayoutEntry {
    pub binding: u32,
    pub visibility: ShaderStages,
    pub ty: BufferBindingType,
    pub has_dynamic_offset: bool,
    pub min_binding_size: u64,
}

/// One entry of a bind group: a whole buffer bound to a slot.
#[derive(Clone, Copy, Debug, PartialEq, Eq, Structural)]
pub struct BindGroupEntry {
    pub binding: u32,
    pub buffer: BufferId,
}

/// How finished frames reach the display.
#[derive(Clone, Copy, Debug, PartialEq, Eq, Structural)]
pub enum PresentMode {
    /// Frames queue and are shown on vertical sync: no tearing, none dropped.
    Fifo,
    /// The newest frame replaces a waiting one.
    Mailbox,
    /// Frames are shown at once and may tear.
    Immediate,
}

/// Size and presentation mode of the surface.
#[derive(Clone, Copy, Debug, PartialEq, Eq, Structural)]
pub struct SurfaceConfiguration {
    pub width: u32,
    pub height: u32,
    pub present_mode: PresentMode,
}

/// Shape of the offscreen colour target.
#[derive(Clone, Copy, Debug, PartialEq, Eq, Structural)]
pub struct TextureDescriptor {
    pub width: u32,
    pub height: u32,
    pub depth_or_array_layers: u32,
    pub mip_level_count: u32,
    pub sample_count: u32,
}

/// What a resize asks of the device: the surface reconfigured and the
/// offscreen target created anew, both at the same size.
#[derive(Clone, Copy, Debug, PartialEq, Eq, Structural)]
pub struct Reconfiguration {
    pub surface: SurfaceConfiguration,
    pub target: TextureDescriptor,
}

/// What the device must support beyond the defaults.
#[derive(Clone, Copy, Debug, PartialEq, Eq, Structural)]
pub struct Features {
    pub storage_resource_binding_array: bool,
}

/// Everything to create once, at startup.
pub struct ResourcePlan {
    pub features: Features,
    pub uniform_buffer: BufferDescriptor,
    /// The simulation buffer pair, each member sized for the ceiling.
    pub spheres_buffers: [BufferDescriptor; 2],
    /// Written into both members of the pair at offset 0.
    pub spheres_contents: Vec<u8>,
    pub compute_bind_group_layout: [BindGroupLayoutEntry; 3],
    pub compute_bind_groups: [[BindGroupEntry; 3]; 2],
    pub render_bind_group_layout: [BindGroupLayoutEntry; 2],
    pub render_bind_groups: [[BindGroupEntry; 2]; 2],
    /// Samples per pixel of the render pipeline.
    pub sample_count: u32,
    pub surface: SurfaceConfiguration,
    pub multisampled_framebuffer: TextureDescriptor,
}

/// The descriptor of each buffer: the parameter buffer holds one block; a
/// sphere buffer holds `MAX_SPHERES_COUNT` spheres. All are filled by copies
/// from the host.
pub open spec fn buffer_descriptor(id: BufferId) -> BufferDescriptor {
    match id {
        BufferId::Parameters => BufferDescriptor {
            size: PARAMS_SIZE,
            usage: BufferUsages { uniform: true, storage: false, copy_dst: true },
            mapped_at_creation: false,
        },
        BufferId::Spheres(_) => BufferDescriptor {
            size: SPHERES_BUFFER_SIZE,
            usage: BufferUsages { uniform: false, storage: true, copy_dst: true },
            mapped_at_creation: false,
        },
    }
}

/// A slot for the parameter block.
pub open spec fn uniform_slot(binding: u32, visibility: ShaderStages) -> BindGroupLayoutEntry {
    BindGroupLayoutEntry {
        binding,
        visibility,
        ty: BufferBindingType::Uniform,
        has_dynamic_offset: false,
        min_binding_size: PARAMS_SIZE,
    }
}

/// A slot for a whole sphere buffer.
pub open spec fn spheres_slot(
    binding: u32,
    visibility: ShaderStages,
    read_only: bool,
) -> BindGroupLayoutEntry {
    BindGroupLayoutEntry {
        binding,
        visibility,
        ty: BufferBindingType::Storage { read_only },
        has_dynamic_offset: false,
        min_binding_size: SPHERES_BUFFER_SIZE,
    }
}

/// Visible to the compute stage alone.
pub open spec fn compute_stage() -> ShaderStages {
    ShaderStages { vertex: false, fragment: false, compute: true }
}

/// Visible to the fragment stage alone.
pub open spec fn fragment_stage() -> ShaderStages {
    ShaderStages { vertex: false, fragment: true, compute: false }
}

/// Visible to the vertex and fragment stages.
pub open spec fn render_stages() -> ShaderStages {
    ShaderStages { vertex: true, fragment: true, compute: false }
}

/// Layout of the compute pipeline: the parameters, the previous state
/// read-only, the next state read-write.
pub open spec fn compute_layout() -> Seq<BindGroupLayoutEntry> {
    seq![
        uniform_slot(0, compute_stage()),
        spheres_slot(1, compute_stage(), true),
        spheres_slot(2, compute_stage(), false),
    ]
}

/// Layout of the render pipeline: the parameters for both stages, the spheres
/// read-only for the fragment stage.
pub open spec fn render_layout() -> Seq<BindGroupLayoutEntry> {
    seq![uniform_slot(0, render_stages()), spheres_slot(1, fragment_stage(), true)]
}

/// Member `index` of the compute bind group pair: it reads sphere buffer
/// `index` and writes the other.
pub open spec fn compute_group(index: Parity) -> Seq<BindGroupEntry> {
    seq![
        BindGroupEntry { binding: 0, buffer: BufferId::Parameters },
        BindGroupEntry { binding: 1, buffer: BufferId::Spheres(index) },
        BindGroupEntry { binding: 2, buffer: BufferId::Spheres(index.other()) },
    ]
}

/// Member `index` of the render bind group pair: it reads sphere buffer
/// `index`.
pub open spec fn render_group(index: Parity) -> Seq<BindGroupEntry> {
    seq![
        BindGroupEntry { binding: 0, buffer: BufferId::Parameters },
        BindGroupEntry { binding: 1, buffer: BufferId::Spheres(index) },
    ]
}

/// The surface at a given size: always bound to vertical sync.
pub open spec fn surface_at(width: u32, height: u32) -> SurfaceConfiguration {
    SurfaceConfiguration { width, height, present_mode: PresentMode::Fifo }
}

/// The offscreen target at a given size: one layer, one mip level,
/// `SAMPLE_COUNT` samples.
pub open spec fn target_at(width: u32, height: u32) -> TextureDescriptor {
    TextureDescriptor {
        width,
        height,
        depth_or_array_layers: 1,
        mip_level_count: 1,
        sample_count: SAMPLE_COUNT,
    }
}

/// What a resize to the given size asks of the device.
pub open spec fn reconfiguration_at(width: u32, height: u32) -> Reconfiguration {
    Reconfiguration { surface: surface_at(width, height), target: target_at(width, height) }
}

/// The slot lets a shader write the buffer bound to it.
pub open spec fn writable(slot: BindGroupLayoutEntry) -> bool {
    slot.ty == (BufferBindingType::Storage { read_only: false })
}

/// `entry` can be bound to `slot`: the numbers agree, the buffer is large
/// enough, and it was created for that kind of use.
pub open spec fn fits(entry: BindGroupEntry, slot: BindGroupLayoutEntry) -> bool {
    let buffer = buffer_descriptor(entry.buffer);
    &&& entry.binding == slot.binding
    &&& buffer.size >= slot.min_binding_size
    &&& match slot.ty {
        BufferBindingType::Uniform => buffer.usage.uniform,
        BufferBindingType::Storage { .. } => buffer.usage.storage,
    }
}

/// `group` fills every slot of `layout`, in order.
pub open spec fn conforms(group: Seq<BindGroupEntry>, layout: Seq<BindGroupLayoutEntry>) -> bool {
    &&& group.len() == layout.len()
    &&& forall|i: int| 0 <= i < group.len() ==> fits(#[trigger] group[i], layout[i])
}

/// No two slots of `layout` have the same number.
pub open spec fn distinct_bindings(layout: Seq<BindGroupLayoutEntry>) -> bool {
    forall|i: int, j: int|
        0 <= i < j < layout.len() ==> (#[trigger] layout[i]).binding != (
        #[trigger] layout[j]).binding
}

/// A pass that uses `group` under `layout` may read `buffer`.
pub open spec fn reads(
    group: Seq<BindGroupEntry>,
    layout: Seq<BindGroupLayoutEntry>,
    buffer: BufferId,
) -> bool {
    exists|i: int|
        0 <= i < group.len() && i < layout.len() && (#[trigger] group[i]).buffer == buffer
            && !writable(layout[i])
}

/// A pass that uses `group` under `layout` may write `buffer`.
pub open spec fn writes(
    group: Seq<BindGroupEntry>,
    layout: Seq<BindGroupLayoutEntry>,
    buffer: BufferId,
) -> bool {
    exists|i: int|
        0 <= i < group.len() && i < layout.len() && (#[trigger] group[i]).buffer == buffer
            && writable(layout[i])
}

/// `plan` is what a renderer for this surface size and these spheres needs.
pub open spec fn is_plan_for(
    plan: ResourcePlan,
    width: u32,
    height: u32,
    spheres: Seq<Sphere>,
) -> bool {
    &&& plan.features == Features { storage_resource_binding_array: true }
    &&& plan.uniform_buffer == buffer_descriptor(BufferId::Parameters)
    &&& plan.spheres_buffers[0] == buffer_descriptor(BufferId::Spheres(Parity::Even))
    &&& plan.spheres_buffers[1] == buffer_descriptor(BufferId::Spheres(Parity::Odd))
    &&& is_memory_image(spheres_words(spheres), plan.spheres_contents@)
    &&& plan.spheres_contents@.len() <= SPHERES_BUFFER_SIZE
    &&& plan.compute_bind_group_layout@ == compute_layout()
    &&& plan.compute_bind_groups[0]@ == compute_group(Parity::Even)
    &&& plan.compute_bind_groups[1]@ == compute_group(Parity::Odd)
    &&& plan.render_bind_group_layout@ == render_layout()
    &&& plan.render_bind_groups[0]@ == render_group(Parity::Even)
    &&& plan.render_bind_groups[1]@ == render_group(Parity::Odd)
    &&& plan.sample_count == SAMPLE_COUNT
    &&& plan.surface == surface_at(width, height)
    &&& plan.multisampled_framebuffer == target_at(width, height)
}

/// The descriptor of a buffer.
pub fn describe_buffer(id: BufferId) -> (descriptor: BufferDescriptor)
    ensures
        descriptor == buffer_descriptor(id),
{
    match id {
        BufferId::Parameters => BufferDescriptor {
            size: PARAMS_SIZE,
            usage: BufferUsages { uniform: true, storage: false, copy_dst: true },
            mapped_at_creation: false,
        },
        BufferId::Spheres(_) => BufferDescriptor {
            size: SPHERES_BUFFER_SIZE,
            usage: BufferUsages { uniform: false, storage: true, copy_dst: true },
            mapped_at_creation: false,
        },
    }
}

fn make_uniform_slot(binding: u32, visibility: ShaderStages) -> (slot: BindGroupLayoutEntry)
    ensures
        slot == uniform_slot(binding, visibility),
{
    BindGroupLayoutEntry {
        binding,
        visibility,
        ty: BufferBindingType::Uniform,
        has_dynamic_offset: false,
        min_binding_size: PARAMS_SIZE,
    }
}

fn make_spheres_slot(binding: u32, visibility: ShaderStages, read_only: bool) -> (slot:
    BindGroupLayoutEntry)
    ensures
        slot == spheres_slot(binding, visibility, read_only),
{
    BindGroupLayoutEntry {
        binding,
        visibility,
        ty: BufferBindingType::Storage { read_only },
        has_dynamic_offset: false,
        min_binding_size: SPHERES_BUFFER_SIZE,
    }
}

/// The binding layout of the compute pipeline.
pub fn compute_bind_group_layout() -> (layout: [BindGroupLayoutEntry; 3])
    ensures
        layout@ == compute_layout(),
{
    let compute = ShaderStages { vertex: false, fragment: false, compute: true };
    let layout = [
        make_uniform_slot(0, compute),
        make_spheres_slot(1, compute, true),
        make_spheres_slot(2, compute, false),
    ];
    layout
}

/// The binding layout of the render pipeline.
pub fn render_bind_group_layout() -> (layout: [BindGroupLayoutEntry; 2])
    ensures
        layout@ == render_layout(),
{
    let both = ShaderStages { vertex: true, fragment: true, compute: false };
    let fragment = ShaderStages { vertex: false, fragment: true, compute: false };
    let layout = [make_uniform_slot(0, both), make_spheres_slot(1, fragment, true)];
    layout
}

/// Member `index` of the compute bind group pair.
pub fn compute_bind_group(index: Parity) -> (group: [BindGroupEntry; 3])
    ensures
        group@ == compute_group(index),
{
    let group = [
        BindGroupEntry { binding: 0, buffer: BufferId::Parameters },
        BindGroupEntry { binding: 1, buffer: BufferId::Spheres(index) },
        BindGroupEntry { binding: 2, buffer: BufferId::Spheres(index.flip()) },
    ];
    group
}

/// Member `index` of the render bind group pair.
pub fn render_bind_group(index: Parity) -> (group: [BindGroupEntry; 2])
    ensures
        group@ == render_group(index),
{
    let group = [
        BindGroupEntry { binding: 0, buffer: BufferId::Parameters },
        BindGroupEntry { binding: 1, buffer: BufferId::Spheres(index) },
    ];
    group
}

/// The surface configuration for a given size.
pub fn configure(width: u32, height: u32) -> (surface: SurfaceConfiguration)
    ensures
        surface == surface_at(width, height),
{
    SurfaceConfiguration { width, height, present_mode: PresentMode::Fifo }
}

/// The offscreen target for a given size.
pub fn multisampled_framebuffer(width: u32, height: u32) -> (target: TextureDescriptor)
    ensures
        target == target_at(width, height),
{
    TextureDescriptor {
        width,
        height,
        depth_or_array_layers: 1,
        mip_level_count: 1,
        sample_count: SAMPLE_COUNT,
    }
}

/// Everything to create at startup for a surface of the given size and the
/// given spheres; nothing if there are more spheres than the ceiling allows.
pub fn plan_resources(width: u32, height: u32, spheres: &Vec<Sphere>) -> (plan: Option<
    ResourcePlan,
>)
    ensures
        plan is Some <==> spheres@.len() <= MAX_SPHERES_COUNT,
        plan matches Some(p) ==> is_plan_for(p, width, height, spheres@),
{
    if spheres.len() > MAX_SPHERES_COUNT {
        return None;
    }
    let plan = ResourcePlan {
        features: Features { storage_resource_binding_array: true },
        uniform_buffer: describe_buffer(BufferId::Parameters),
        spheres_buffers: [
            describe_buffer(BufferId::Spheres(Parity::Even)),
            describe_buffer(BufferId::Spheres(Parity::Odd)),
        ],
        spheres_contents: spheres_to_bytes(spheres),
        compute_bind_group_layout: compute_bind_group_layout(),
        compute_bind_groups: [compute_bind_group(Parity::Even), compute_bind_group(Parity::Odd)],
        render_bind_group_layout: render_bind_group_layout(),
        render_bind_groups: [render_bind_group(Parity::Even), render_bind_group(Parity::Odd)],
        sample_count: SAMPLE_COUNT,
        surface: configure(width, height),
        multisampled_framebuffer: multisampled_framebuffer(width, height),
    };
    Some(plan)
}

/// Both layouts number their slots without repeats, and every bind group fills
/// its layout: each buffer is bound to a slot of its number, is at least as
/// large as the slot demands, and was created for the slot's kind of use.
pub proof fn law_groups_conform(index: Parity)
    ensures
        distinct_bindings(compute_layout()),
        distinct_bindings(render_layout()),
        conforms(compute_group(index), compute_layout()),
        conforms(render_group(index), render_layout()),
{
}

/// The roles of the buffers in a compute pass that uses member `index` of its
/// pair: it writes sphere buffer `1 - index` and nothing else, it reads the
/// parameters and sphere buffer `index` and nothing else, so it never reads a
/// buffer that it writes.
pub proof fn lemma_compute_roles(index: Parity, buffer: BufferId)
    ensures
        writes(compute_group(index), compute_layout(), buffer) <==> buffer == BufferId::Spheres(
            index.other(),
        ),
        reads(compute_group(index), compute_layout(), buffer) <==> (buffer == BufferId::Parameters
            || buffer == BufferId::Spheres(index)),
        !(reads(compute_group(index), compute_layout(), buffer) && writes(
            compute_group(index),
            compute_layout(),
            buffer,
        )),
{
    let group = compute_group(index);
    let layout = compute_layout();
    if buffer == BufferId::Spheres(index.other()) {
        assert(group[2].buffer == buffer && writable(layout[2]));
    }
    if buffer == BufferId::Parameters {
        assert(group[0].buffer == buffer && !writable(layout[0]));
    }
    if buffer == BufferId::Spheres(index) {
        assert(group[1].buffer == buffer && !writable(layout[1]));
    }
}

/// The roles of the buffers in a render pass that uses member `index` of its
/// pair: it writes no buffer, and reads the parameters and sphere buffer
/// `index` and nothing else.
pub proof fn lemma_render_roles(index: Parity, buffer: BufferId)
    ensures
        !writes(render_group(index), render_layout(), buffer),
        reads(render_group(index), render_layout(), buffer) <==> (buffer == BufferId::Parameters
            || buffer == BufferId::Spheres(index)),
{
    let group = render_group(index);
    let layout = render_layout();
    if buffer == BufferId::Parameters {
        assert(group[0].buffer == buffer && !writable(layout[0]));
    }
    if buffer == BufferId::Spheres(index) {
        assert(group[1].buffer == buffer && !writable(layout[1]));
    }
}

/// What the device checks when the startup plan is carried out, shown ahead
/// of time: every buffer accepts copies from the host, the two sphere buffers
/// have the same size and the initial contents fit them, and the offscreen
/// target has the size of the surface and the sample count of the pipeline.
pub proof fn law_plan_is_consistent(
    plan: ResourcePlan,
    width: u32,
    height: u32,
    spheres: Seq<Sphere>,
)
    requires
        is_plan_for(plan, width, height, spheres),
    ensures
        plan.uniform_buffer.usage.copy_dst,
        plan.spheres_buffers[0].usage.copy_dst,
        plan.spheres_buffers[1].usage.copy_dst,
        plan.spheres_buffers[0].size == plan.spheres_buffers[1].size,
        plan.spheres_contents@.len() <= plan.spheres_buffers[0].size,
        plan.multisampled_framebuffer.width == plan.surface.width,
        plan.multisampled_framebuffer.height == plan.surface.height,
        plan.multisampled_framebuffer.sample_count == plan.sample_count,
{
}

} // verus!
