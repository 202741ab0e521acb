use particle_sim::layout::{
    instance_buffer_bytes, pipeline_settings, quad_vertices, AttributeDesc, Vertex,
};
use particle_sim::orchestrator::FrameCore;
use particle_sim::particle::ParticleInstance;
use particle_sim::sim::ParticleSimulation;
use particle_sim::surface::{acquire_error_action, pick_format, AcquireError, FrameAction, SurfaceConfig};

#[test]
fn degenerate_resize_is_ignored() {
    // Resizing 800 x 600 to 0 x 600 performs no reconfiguration and keeps
    // the prior configuration.
    let mut config = SurfaceConfig::new(800, 600);
    let changed = config.resize(0, 600);
    assert!(!changed);
    assert_eq!(config.width, 800);
    assert_eq!(config.height, 600);
}

#[test]
fn proper_resize_updates_the_configuration() {
    let mut config = SurfaceConfig::new(800, 600);
    let changed = config.resize(1024, 768);
    assert!(changed);
    assert_eq!(config.width, 1024);
    assert_eq!(config.height, 768);
}

#[test]
fn format_choice_prefers_srgb() {
    assert_eq!(pick_format(&vec![false, true, true]), Some(1));
    assert_eq!(pick_format(&vec![true, false]), Some(0));
}

#[test]
fn format_choice_falls_back_to_first() {
    assert_eq!(pick_format(&vec![false, false, false]), Some(0));
    assert_eq!(pick_format(&vec![]), None);
}

#[test]
fn acquire_errors_map_to_their_actions() {
    assert_eq!(acquire_error_action(AcquireError::Lost), FrameAction::Reconfigure);
    assert_eq!(acquire_error_action(AcquireError::OutOfMemory), FrameAction::Fatal);
    assert_eq!(acquire_error_action(AcquireError::Outdated), FrameAction::SkipFrame);
    assert_eq!(acquire_error_action(AcquireError::Timeout), FrameAction::SkipFrame);
}

#[test]
fn vertex_stream_layout_matches_the_mesh() {
    let desc = Vertex::desc();
    assert_eq!(desc.array_stride, 8);
    assert!(!desc.per_instance);
    assert_eq!(
        desc.attributes,
        vec![AttributeDesc { offset: 0, shader_location: 0, components: 2 }]
    );
}

#[test]
fn instance_stream_layout_matches_the_record() {
    let desc = ParticleInstance::desc();
    assert_eq!(desc.array_stride, 24);
    assert!(desc.per_instance);
    assert_eq!(
        desc.attributes,
        vec![
            AttributeDesc { offset: 0, shader_location: 1, components: 2 },
            AttributeDesc { offset: 8, shader_location: 2, components: 4 },
        ]
    );
}

#[test]
fn quad_mesh_is_two_triangles_over_the_unit_square() {
    let quad = quad_vertices();
    let xs: Vec<(i64, i64)> = quad.iter().map(|v| (v.position.x, v.position.y)).collect();
    assert_eq!(
        xs,
        vec![(-500, -500), (500, -500), (500, 500), (-500, 500), (-500, -500), (500, 500)]
    );
}

#[test]
fn fixed_function_state_is_plain_instanced_drawing() {
    let s = pipeline_settings();
    assert_eq!(s.sample_count, 1);
    assert!(s.cull_back_faces);
    assert!(s.blend_replace);
    assert!(!s.has_depth_stencil);
    assert_eq!(s.color_targets, 1);
}

#[test]
fn upload_size_is_count_times_stride() {
    assert_eq!(instance_buffer_bytes(5000), 120_000);
    assert_eq!(instance_buffer_bytes(0), 0);
}

#[test]
fn instance_count_survives_every_resize_sequence() {
    // The instance data always has one element per configured particle,
    // whatever resizes happen in between.
    let sim = ParticleSimulation::new(800, 600);
    let config = SurfaceConfig::new(800, 600);
    let mut core = FrameCore::new(sim, config);
    assert_eq!(core.particle_count(), 5000);

    let first = core.update(16).expect("tick must run");
    assert_eq!(first.len(), 5000);

    assert!(core.on_resize(1024, 768));
    assert!(!core.on_resize(0, 600));
    assert_eq!(core.particle_count(), 5000);

    let second = core.update(16).expect("tick must run");
    assert_eq!(second.len(), 5000);

    assert!(core.on_resize(320, 200));
    let third = core.update(0).expect("tick must run");
    assert_eq!(third.len(), 5000);
}

#[test]
fn out_of_envelope_tick_changes_nothing() {
    let sim = ParticleSimulation::with_count(4, 640, 480);
    let config = SurfaceConfig::new(640, 480);
    let mut core = FrameCore::new(sim, config);
    let before = core.sim.particles.clone();

    // A negative delta and an absurdly large one are both refused.
    assert!(core.update(-1).is_none());
    assert!(core.update(2_000_000).is_none());
    assert!(!core.can_update(-1));
    assert!(core.can_update(16));
    assert_eq!(core.sim.particles, before);
    assert_eq!(core.config, SurfaceConfig::new(640, 480));
}

#[test]
fn update_projects_the_advanced_state() {
    let sim = ParticleSimulation::with_count(2, 800, 600);
    let config = SurfaceConfig::new(800, 600);
    let mut core = FrameCore::new(sim, config);
    let instances = core.update(16).expect("tick must run");
    let reprojected = core.sim.get_instance_data();
    assert_eq!(instances, reprojected);
}
