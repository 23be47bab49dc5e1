use sphere_tracer::parity::Parity;
use sphere_tracer::renderer::{Command, FrameParameters, FramePlan, Renderer};
use sphere_tracer::resources::{configure, multisampled_framebuffer, Reconfiguration};
use sphere_tracer::scene::init_spheres;
use sphere_tracer::wire::Sphere;

fn renderer(width: u32, height: u32, now: u64) -> Renderer {
    Renderer::new(width, height, &init_spheres(), now).unwrap().0
}

#[test]
fn new_renderer_is_at_rest() {
    let renderer = renderer(800, 600, 50);
    assert_eq!(renderer.width(), 800);
    assert_eq!(renderer.height(), 600);
    assert_eq!(renderer.camera_x(), 0);
    assert_eq!(renderer.spheres_count(), 3);
    assert_eq!(renderer.render(Parity::Even, 50).parameters.elapsed, 0);
}

#[test]
fn new_renderer_comes_with_its_resources() {
    let (_, plan) = Renderer::new(800, 600, &init_spheres(), 0).unwrap();
    assert_eq!(plan.surface, configure(800, 600));
    assert_eq!(plan.multisampled_framebuffer, multisampled_framebuffer(800, 600));
    assert_eq!(plan.spheres_contents.len(), 96);
}

#[test]
fn new_renderer_refuses_more_than_a_hundred_spheres() {
    let sphere = Sphere { pos: [0, 0, 0], r: 0, vel: [0, 0, 0, 0] };
    assert!(Renderer::new(800, 600, &vec![sphere; 101], 0).is_none());
    let full = Renderer::new(800, 600, &vec![sphere; 100], 0).unwrap().0;
    assert_eq!(full.spheres_count(), 100);
    assert_eq!(full.render(Parity::Even, 0).workgroups, 100);
}

#[test]
fn frame_plan_of_an_even_frame() {
    let renderer = renderer(800, 600, 1_000);
    assert_eq!(
        renderer.render(Parity::Even, 17_000),
        FramePlan {
            parameters: FrameParameters {
                camera_x: 0,
                width: 800,
                height: 600,
                spheres_count: 3,
                elapsed: 16_000,
            },
            compute_bind_group: Parity::Even,
            workgroups: 3,
            render_bind_group: Parity::Odd,
            vertices: 6,
            target: multisampled_framebuffer(800, 600),
        }
    );
}

#[test]
fn frame_plan_of_an_odd_frame() {
    let renderer = renderer(800, 600, 0);
    let plan = renderer.render(Parity::Odd, 0);
    assert_eq!(plan.compute_bind_group, Parity::Odd);
    assert_eq!(plan.render_bind_group, Parity::Even);
    assert_eq!(plan.compute_bind_group.index(), 1);
    assert_eq!(plan.render_bind_group.index(), 0);
}

#[test]
fn dispatch_size_is_the_live_count_not_the_ceiling() {
    let plan = renderer(800, 600, 0).render(Parity::Even, 0);
    assert_eq!(plan.workgroups, 3);
    assert_eq!(plan.workgroups, plan.parameters.spheres_count);
}

#[test]
fn commands_come_in_recording_order() {
    let plan = renderer(640, 480, 0).render(Parity::Odd, 9);
    assert_eq!(
        plan.commands(),
        [
            Command::WriteParameters(plan.parameters),
            Command::Dispatch { bind_group: Parity::Odd, workgroups: 3 },
            Command::Draw {
                bind_group: Parity::Even,
                vertices: 6,
                target: multisampled_framebuffer(640, 480),
            },
            Command::Submit,
            Command::Present,
        ]
    );
}

#[test]
fn elapsed_time_runs_from_the_last_presented_frame() {
    let mut renderer = renderer(800, 600, 100);
    assert_eq!(renderer.render(Parity::Even, 350).parameters.elapsed, 250);
    renderer.frame_presented(400);
    assert_eq!(renderer.render(Parity::Odd, 400).parameters.elapsed, 0);
    assert_eq!(renderer.render(Parity::Odd, 1_000).parameters.elapsed, 600);
}

#[test]
fn elapsed_time_is_zero_if_the_clock_went_backwards() {
    let renderer = renderer(800, 600, 100);
    assert_eq!(renderer.render(Parity::Even, 99).parameters.elapsed, 0);
}

#[test]
fn resize_changes_the_size_and_nothing_else() {
    let mut renderer = renderer(800, 600, 7);
    renderer.move_x(3);
    let todo = renderer.resize(1024, 768);
    assert_eq!(
        todo,
        Reconfiguration {
            surface: configure(1024, 768),
            target: multisampled_framebuffer(1024, 768),
        }
    );
    assert_eq!(renderer.width(), 1024);
    assert_eq!(renderer.height(), 768);
    assert_eq!(renderer.camera_x(), 3);
    assert_eq!(renderer.spheres_count(), 3);
    assert_eq!(renderer.render(Parity::Even, 10).parameters.elapsed, 3);
}

#[test]
fn resize_then_render_has_the_new_aspect_ratio() {
    let mut renderer = renderer(800, 600, 0);
    renderer.resize(1920, 1080);
    let plan = renderer.render(Parity::Even, 0);
    assert_eq!((plan.parameters.width, plan.parameters.height), (1920, 1080));
    let aspect = plan.parameters.width as f32 / plan.parameters.height as f32;
    assert_eq!(aspect, 1920.0f32 / 1080.0f32);
    assert_eq!(plan.target, multisampled_framebuffer(1920, 1080));
}

#[test]
fn resize_twice_is_resize_once() {
    let mut once = renderer(800, 600, 0);
    let first = once.resize(300, 200);
    let mut twice = renderer(800, 600, 0);
    twice.resize(300, 200);
    let second = twice.resize(300, 200);
    assert_eq!(first, second);
    assert_eq!(once.render(Parity::Even, 5), twice.render(Parity::Even, 5));
}

#[test]
fn move_x_adds_the_delta() {
    let mut renderer = renderer(800, 600, 0);
    renderer.move_x(1);
    renderer.move_x(1);
    renderer.move_x(-1);
    renderer.move_x(1);
    assert_eq!(renderer.camera_x(), 2);
    assert_eq!(renderer.render(Parity::Even, 0).parameters.camera_x, 2);
    renderer.move_x(-5);
    assert_eq!(renderer.camera_x(), -3);
}

#[test]
fn move_x_stops_at_the_ends_of_the_range() {
    let mut renderer = renderer(800, 600, 0);
    renderer.move_x(i64::MAX);
    renderer.move_x(1);
    assert_eq!(renderer.camera_x(), i64::MAX);
    renderer.move_x(i64::MIN);
    renderer.move_x(i64::MIN);
    assert_eq!(renderer.camera_x(), i64::MIN);
}

#[test]
fn parameter_block_of_a_moved_camera() {
    let mut renderer = renderer(800, 600, 0);
    renderer.move_x(2);
    let parameters = renderer.render(Parity::Even, 500_000_000).parameters;
    let x = 0.1f32 * parameters.camera_x as f32;
    let aspect = parameters.width as f32 / parameters.height as f32;
    let seconds = parameters.elapsed as f32 / 1e9f32;
    let block = parameters.to_wire(x.to_bits(), aspect.to_bits(), seconds.to_bits());
    let camera: Vec<f32> = block.camera_pos.iter().map(|bits| f32::from_bits(*bits)).collect();
    assert_eq!(camera, vec![0.2f32, 0.0, -1.0, 0.0]);
    assert_eq!(f32::from_bits(block.aspect_ratio), 800.0f32 / 600.0f32);
    assert_eq!(block.spheres_count, 3);
    assert_eq!(f32::from_bits(block.time_elapsed), 0.5);
    assert_eq!(block.padding, 0);
}
