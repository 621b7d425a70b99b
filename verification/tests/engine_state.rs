use herbolution::backends::{Avx2, Neon, Sse2, Sse41, Wasm};
use herbolution::render_type::{Face, PipelineFlags, RenderType2d, RenderType3d};
use herbolution::gpu_sync::{
    array_submit_action, consecutive_slots, first_free_slot, next_binding, BufferAction, DirtyFlag, InitialContents,
    InstanceCount,
};
use herbolution::input::{Input, InputFrame};
use herbolution::pbr::{albedo_file_name, suffixed_file_name, PbrTexturePaths};
use herbolution::text::filter;
use herbolution::tile_mesh::{tile_highlight_indices, tile_quad_indices};

const KEY_W: u32 = 17;
const KEY_A: u32 = 30;
const LEFT: u32 = 0;
const RIGHT: u32 = 1;

#[test]
fn key_press_and_release_records_event() {
    let mut input = Input::new();
    assert!(!input.is_key_active(KEY_W));
    input.set_key_activity(KEY_W, true);
    assert!(input.is_key_active(KEY_W));
    input.set_key_activity(KEY_W, false);
    assert!(!input.is_key_active(KEY_W));
    let frame = input.take_frame();
    assert_eq!(frame.keys(), vec![KEY_W]);
    assert!(frame.clicks().is_empty());
}

#[test]
fn release_of_unheld_key_records_nothing() {
    let mut input = Input::new();
    input.set_key_activity(KEY_A, false);
    input.set_key_activity(KEY_W, true);
    input.set_key_activity(KEY_W, false);
    input.set_key_activity(KEY_W, false);
    assert_eq!(input.take_frame().keys(), vec![KEY_W]);
}

#[test]
fn key_events_keep_release_order() {
    let mut input = Input::new();
    input.set_key_activity(KEY_W, true);
    input.set_key_activity(KEY_A, true);
    input.set_key_activity(KEY_A, false);
    input.set_key_activity(KEY_W, false);
    assert_eq!(input.take_frame().keys(), vec![KEY_A, KEY_W]);
}

#[test]
fn many_key_events_spill_past_inline_storage() {
    let mut input = Input::new();
    for k in 0..40u32 {
        input.set_key_activity(k, true);
        input.set_key_activity(k, false);
    }
    let keys = input.take_frame().keys();
    assert_eq!(keys, (0..40u32).collect::<Vec<_>>());
}

#[test]
fn click_needs_held_button() {
    let mut input = Input::new();
    assert!(!input.set_mouse_button_activity(LEFT, false));
    assert!(!input.set_mouse_button_activity(LEFT, true));
    assert!(input.is_mouse_button_active(LEFT));
    assert!(input.set_mouse_button_activity(LEFT, false));
    assert!(!input.is_mouse_button_active(LEFT));
    input.set_mouse_button_activity(RIGHT, true);
    input.set_mouse_button_activity(RIGHT, false);
    let frame = input.take_frame();
    assert_eq!(frame.clicks(), vec![LEFT, RIGHT]);
    assert!(frame.keys().is_empty());
}

#[test]
fn take_frame_starts_empty_frame_and_keeps_held_keys() {
    let mut input = Input::new();
    input.set_key_activity(KEY_W, true);
    input.set_key_activity(KEY_A, true);
    input.set_key_activity(KEY_A, false);
    let first = input.take_frame();
    assert_eq!(first.keys(), vec![KEY_A]);
    let second = input.take_frame();
    assert!(second.keys().is_empty());
    assert!(input.is_key_active(KEY_W));
    input.set_key_activity(KEY_W, false);
    assert_eq!(input.take_frame().keys(), vec![KEY_W]);
}

#[test]
fn focus_flag() {
    let mut input = Input::default();
    assert!(!input.is_focused());
    input.set_focused(true);
    assert!(input.is_focused());
    input.set_focused(false);
    assert!(!input.is_focused());
}

#[test]
fn default_frame_is_empty() {
    let frame = InputFrame::default();
    assert!(frame.keys().is_empty());
    assert!(frame.clicks().is_empty());
}

#[test]
fn texture_file_names() {
    assert_eq!(albedo_file_name("stone"), "stone.png");
    assert_eq!(suffixed_file_name("stone", "n"), "stone_n.png");
    assert_eq!(albedo_file_name(""), ".png");
}

#[test]
fn pbr_paths_keep_present_maps_only() {
    let present = vec!["stone_n.png".to_string(), "dirt_s.png".to_string(), "grass.png".to_string()];
    let paths = PbrTexturePaths::new_suffixed("assets/texture", &["stone", "dirt", "grass"], "n", "s", &present);
    assert_eq!(paths.base, "assets/texture");
    assert_eq!(paths.vec.len(), 3);
    assert_eq!(paths.vec[0].albedo, "stone.png");
    assert_eq!(paths.vec[0].normal.as_deref(), Some("stone_n.png"));
    assert_eq!(paths.vec[0].specular, None);
    assert_eq!(paths.vec[1].normal, None);
    assert_eq!(paths.vec[1].specular.as_deref(), Some("dirt_s.png"));
    assert_eq!(paths.vec[2].albedo, "grass.png");
    assert_eq!(paths.vec[2].normal, None);
    assert_eq!(paths.vec[2].specular, None);
}

#[test]
fn pbr_paths_of_no_materials() {
    let paths = PbrTexturePaths::new_suffixed("x", &[], "n", "s", &[]);
    assert!(paths.vec.is_empty());
}

#[test]
fn glyph_filter() {
    for c in ['a', 'z', 'A', 'Z', '0', '9', ' ', '.', ',', '?', '!', '-', '_', ':', ';', '\'', '"', '(', ')', '[', ']', '{', '}', '/', '\\'] {
        assert!(filter(c), "{c:?}");
    }
    for c in ['@', '#', '~', '\n', 'é', '`', '+', '=', '<', '>', '*'] {
        assert!(!filter(c), "{c:?}");
    }
}

#[test]
fn dirty_flag_sends_once() {
    let mut flag = DirtyFlag::new();
    assert!(!flag.submit());
    flag.mark_modified();
    assert!(flag.is_dirty());
    assert!(flag.submit());
    assert!(!flag.submit());
    assert!(!flag.is_dirty());
}

#[test]
fn array_buffer_grows_only_when_needed() {
    assert_eq!(array_submit_action(4, 16, 64), BufferAction::Write);
    assert_eq!(array_submit_action(5, 16, 64), BufferAction::Recreate);
    assert_eq!(array_submit_action(0, 16, 0), BufferAction::Write);
}

#[test]
fn instance_group_counts() {
    let (count, contents) = InstanceCount::create(0);
    assert_eq!(count.count(), 0);
    assert_eq!(contents, InitialContents::ZeroedInstance);
    let (mut count, contents) = InstanceCount::create(6);
    assert_eq!(count.count(), 6);
    assert_eq!(contents, InitialContents::Instances);
    assert_eq!(count.write(0), BufferAction::Write);
    assert_eq!(count.count(), 6);
    assert_eq!(count.write(6), BufferAction::Write);
    assert_eq!(count.write(7), BufferAction::Recreate);
    assert_eq!(count.count(), 7);
}

#[test]
fn bind_slots() {
    assert_eq!(consecutive_slots(3, 0), vec![0, 1, 2]);
    assert_eq!(consecutive_slots(2, 4), vec![4, 5]);
    assert!(consecutive_slots(0, u32::MAX).is_empty());
    assert_eq!(next_binding(3), 3);
}

#[test]
fn light_slots() {
    assert_eq!(first_free_slot(&[false, true, true]), Some(1));
    assert_eq!(first_free_slot(&[false, false]), None);
    assert_eq!(first_free_slot(&[]), None);
}

#[test]
fn tile_mesh_triangles() {
    assert_eq!(tile_quad_indices(), vec![0, 2, 1, 3, 1, 2]);
    let frame = tile_highlight_indices();
    assert_eq!(frame.len(), 24);
    assert!(frame.iter().all(|&i| i < 8));
    assert!(tile_quad_indices().iter().all(|&i| i < 4));
}

#[test]
fn pipeline_settings() {
    assert_eq!(RenderType3d::entries(), vec![RenderType3d::Terrain, RenderType3d::Sky]);
    assert_eq!(
        RenderType3d::Terrain.pipeline_flags(),
        PipelineFlags { cull_mode: Some(Face::Front), depth_write_enabled: true }
    );
    assert_eq!(
        RenderType3d::Sky.pipeline_flags(),
        PipelineFlags { cull_mode: Some(Face::Back), depth_write_enabled: false }
    );
    assert_eq!(RenderType3d::Sky.bind_groups(), [true, true, true]);
    assert_eq!(RenderType2d::entries(), vec![RenderType2d]);
    assert_eq!(RenderType2d.pipeline_flags().depth_write_enabled, false);
    assert_eq!(RenderType2d.bind_groups(), [true, true]);
}

#[test]
fn backend_lanes() {
    assert_eq!(Sse2::lanes().float32, 4);
    assert_eq!(Sse41::lanes().int64, 2);
    assert_eq!(Avx2::lanes().float32, 8);
    assert_eq!(Avx2::lanes().int8, 32);
    assert_eq!(Neon::lanes().float64, 2);
    assert_eq!(Wasm::lanes().int16, 8);
}

#[test]
fn binding_numbers_truncate_to_32_bits() {
    assert_eq!(next_binding(0), 0);
    assert_eq!(next_binding(u32::MAX as usize), u32::MAX);
    assert_eq!(next_binding(u32::MAX as usize + 3), 2);
    assert_eq!(consecutive_slots(1, u32::MAX), vec![u32::MAX]);
}

#[test]
fn take_frame_returns_releases_since_previous_take() {
    let mut input = Input::new();
    input.set_key_activity(KEY_W, true);
    input.set_key_activity(KEY_W, false);
    let first = input.take_frame();
    assert_eq!(first.keys(), vec![KEY_W]);
    input.set_key_activity(KEY_A, true);
    input.set_mouse_button_activity(LEFT, true);
    input.set_key_activity(KEY_W, false);
    input.set_key_activity(KEY_A, false);
    input.set_mouse_button_activity(RIGHT, false);
    input.set_mouse_button_activity(LEFT, false);
    input.set_key_activity(KEY_A, false);
    let second = input.take_frame();
    assert_eq!(second.keys(), vec![KEY_A]);
    assert_eq!(second.clicks(), vec![LEFT]);
    let third = input.take_frame();
    assert!(third.keys().is_empty() && third.clicks().is_empty());
}
