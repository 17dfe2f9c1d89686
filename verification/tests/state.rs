use render_core::model::{validate_model, LoadError, MaterialSource, MeshSource};
use render_core::state::{DrawCall, FrameAction, FrameOutcome, Phase, RenderState};

fn simple_sources() -> (Vec<MeshSource>, Vec<MaterialSource>) {
    (
        vec![MeshSource { material_id: None, index_count: 36 }],
        vec![MaterialSource { texture_loaded: true }],
    )
}

fn ready_state(width: u32, height: u32) -> RenderState {
    let (meshes, materials) = simple_sources();
    RenderState::new(width, height, &meshes, &materials).unwrap()
}

#[test]
fn new_state_has_exact_aspect() {
    let s = ready_state(1280, 720);
    assert_eq!(s.camera.aspect_w, 1280);
    assert_eq!(s.camera.aspect_h, 720);
    let aspect = s.camera.aspect_w as f32 / s.camera.aspect_h as f32;
    assert!((aspect - 1.778).abs() < 1e-3);
    assert_eq!(s.phase, Phase::Idle);
    assert_eq!(s.presented, 0);
    assert_eq!(s.instances.len(), 1000);
    assert!(s.uniform.derived_from.is_none());
}

#[test]
fn resize_updates_aspect_and_config() {
    let mut s = ready_state(1280, 720);
    s.resize(640, 480);
    assert_eq!(s.width, 640);
    assert_eq!(s.height, 480);
    assert_eq!(s.config_width, 640);
    assert_eq!(s.config_height, 480);
    assert_eq!(s.camera.aspect_w, 640);
    assert_eq!(s.camera.aspect_h, 480);
    assert_eq!(s.depth_width, 640);
    assert_eq!(s.depth_height, 480);
    let aspect = s.camera.aspect_w as f32 / s.camera.aspect_h as f32;
    assert!((aspect - 1.333).abs() < 1e-3);
}

#[test]
fn resize_zero_is_noop() {
    let mut s = ready_state(1280, 720);
    let before = s.clone();
    s.resize(0, 480);
    assert_eq!(s, before);
    s.resize(640, 0);
    assert_eq!(s, before);
    s.resize(0, 0);
    assert_eq!(s, before);
}

#[test]
fn update_stages_fresh_uniform() {
    let mut s = ready_state(1280, 720);
    for n in 1..=3u64 {
        s.update();
        assert_eq!(s.camera.moves, n);
        assert_eq!(s.uniform.derived_from, Some(s.camera));
        let action = s.finish_frame(FrameOutcome::Presented);
        assert_eq!(action, FrameAction::Present);
        s.next_frame();
    }
    assert_eq!(s.presented, 3);
}

#[test]
fn uniform_is_never_stale_across_updates() {
    let mut s = ready_state(1280, 720);
    s.update();
    let first = s.camera;
    s.finish_frame(FrameOutcome::Presented);
    s.next_frame();
    s.update();
    // The staged uniform reflects the second update, not the first.
    assert_eq!(s.uniform.derived_from, Some(s.camera));
    assert_ne!(s.uniform.derived_from, Some(first));
}

#[test]
fn recoverable_surface_triggers_stored_size_resize() {
    let mut s = ready_state(1280, 720);
    s.update();
    let presented_before = s.presented;
    let action = s.handle_render_result(Err(wgpu::SurfaceError::Lost));
    assert_eq!(action, FrameAction::Recover(1280, 720));
    assert_eq!(s.presented, presented_before);
    assert_eq!(s.phase, Phase::Idle);
    assert_eq!(s.width, 1280);
    assert_eq!(s.height, 720);

    s.update();
    let action = s.handle_render_result(Err(wgpu::SurfaceError::Outdated));
    assert_eq!(action, FrameAction::Recover(1280, 720));
    assert_eq!(s.presented, presented_before);
}

#[test]
fn out_of_memory_terminates() {
    let mut s = ready_state(1280, 720);
    s.update();
    let action = s.handle_render_result(Err(wgpu::SurfaceError::OutOfMemory));
    assert_eq!(action, FrameAction::Exit);
    assert_eq!(s.phase, Phase::Terminated);
    assert_eq!(s.presented, 0);
}

#[test]
fn timeout_is_reported_and_loop_continues() {
    let mut s = ready_state(1280, 720);
    s.update();
    let action = s.handle_render_result(Err(wgpu::SurfaceError::Timeout));
    assert_eq!(action, FrameAction::Report);
    assert_eq!(s.phase, Phase::Idle);
    assert_eq!(s.presented, 0);
}

#[test]
fn presented_count_advances_on_success() {
    let mut s = ready_state(1280, 720);
    s.update();
    let action = s.handle_render_result(Ok(()));
    assert_eq!(action, FrameAction::Present);
    assert_eq!(s.presented, 1);
    assert_eq!(s.phase, Phase::Rendered);
}

#[test]
fn draw_plan_covers_every_mesh_and_all_instances() {
    let meshes = vec![
        MeshSource { material_id: Some(1), index_count: 36 },
        MeshSource { material_id: None, index_count: 12 },
    ];
    let materials = vec![
        MaterialSource { texture_loaded: true },
        MaterialSource { texture_loaded: true },
    ];
    let s = RenderState::new(1280, 720, &meshes, &materials).unwrap();
    let plan = s.draw_plan();
    assert_eq!(
        plan,
        vec![
            DrawCall { mesh: 0, material: 1, index_count: 36, instance_count: 1000 },
            DrawCall { mesh: 1, material: 0, index_count: 12, instance_count: 1000 },
        ]
    );
}

#[test]
fn missing_texture_fails_whole_load() {
    let meshes = vec![MeshSource { material_id: Some(0), index_count: 6 }];
    let materials = vec![
        MaterialSource { texture_loaded: true },
        MaterialSource { texture_loaded: false },
    ];
    let r = RenderState::new(1280, 720, &meshes, &materials);
    assert_eq!(r.unwrap_err(), LoadError::MissingTexture(1));
}

#[test]
fn invalid_material_index_fails_load() {
    let meshes = vec![MeshSource { material_id: Some(3), index_count: 6 }];
    let materials = vec![MaterialSource { texture_loaded: true }];
    let r = validate_model(&meshes, &materials);
    assert_eq!(r.unwrap_err(), LoadError::InvalidMaterial(0));
}

#[test]
fn unnamed_material_defaults_to_first() {
    let meshes = vec![
        MeshSource { material_id: None, index_count: 9 },
        MeshSource { material_id: Some(1), index_count: 12 },
    ];
    let materials = vec![
        MaterialSource { texture_loaded: true },
        MaterialSource { texture_loaded: true },
    ];
    let m = validate_model(&meshes, &materials).unwrap();
    assert_eq!(m.material_count, 2);
    assert_eq!(m.meshes.len(), 2);
    assert_eq!(m.meshes[0].material, 0);
    assert_eq!(m.meshes[0].index_count, 9);
    assert_eq!(m.meshes[1].material, 1);
    assert_eq!(m.meshes[1].index_count, 12);
}

#[test]
fn mesh_without_materials_fails_load() {
    let meshes = vec![MeshSource { material_id: None, index_count: 6 }];
    let materials: Vec<MaterialSource> = vec![];
    let r = validate_model(&meshes, &materials);
    assert_eq!(r.unwrap_err(), LoadError::InvalidMaterial(0));
}
