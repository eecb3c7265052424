use cubensis::binding::{
    next_offset, BindEntry, BindingKind, BoundResource, LayoutEntry, ShaderStages,
    TextureViewDimension,
};
use cubensis::events::{CursorPosition, InputEvent, MouseButton, WindowInput};
use cubensis::resources::audio::AudioResource;
use cubensis::resources::camera::{CameraMotion, CameraResource};
use cubensis::resources::collection::ResourceCollection;
use cubensis::resources::textures::TextureResource;
use cubensis::resources::time::TimeResource;
use cubensis::resources::CubensisResource;
use cubensis::scene::assets::SceneTextures;
use cubensis::stream::AudioStreamInfo;

fn info() -> AudioStreamInfo {
    AudioStreamInfo::new("Microphone".to_string())
}

fn window(event: WindowInput) -> InputEvent {
    InputEvent::Window { window_id: 7, event }
}

fn at(x: f64, y: f64) -> CursorPosition {
    CursorPosition { x_bits: x.to_bits(), y_bits: y.to_bits() }
}

fn both_stages() -> ShaderStages {
    ShaderStages { vertex: true, fragment: true, compute: false }
}

#[test]
fn offsets_follow_construction_order() {
    let time = TimeResource::new(0, 0);
    assert_eq!(TimeResource::binding_size(), 1);
    let camera = CameraResource::new(0, time.next_binding_offset_in_group(), 800, 800);
    assert_eq!(camera.binding_offset(), 1);
    assert_eq!(CameraResource::binding_size(), 1);
    let audio = AudioResource::new(0, camera.next_binding_offset_in_group(), 4096, 4096, info());
    assert_eq!(audio.binding_offset(), 2);
    assert_eq!(AudioResource::binding_size(), 3);
    assert_eq!(audio.next_binding_offset_in_group(), 5);
    let total = time.get_bind_group_layout_entries().len()
        + camera.get_bind_group_layout_entries().len()
        + audio.get_bind_group_layout_entries().len();
    assert_eq!(total, 5);
}

#[test]
fn collection_binds_five_entries_at_indices_zero_to_four() {
    let collection = ResourceCollection::new(800, 600, 4096, 4096, info());
    assert_eq!(collection.get_camera().binding_offset(), 1);
    assert_eq!(collection.get_audio().binding_offset(), 2);
    let layouts = collection.get_bind_group_layouts();
    assert_eq!(layouts.len(), 1);
    let bindings: Vec<u32> = layouts[0].iter().map(|entry| entry.binding).collect();
    assert_eq!(bindings, vec![0, 1, 2, 3, 4]);
    assert_eq!(layouts[0][0].kind, BindingKind::UniformBuffer);
    assert_eq!(layouts[0][1].kind, BindingKind::UniformBuffer);
    assert_eq!(
        layouts[0][2],
        LayoutEntry {
            binding: 2,
            visibility: both_stages(),
            kind: BindingKind::Texture {
                view_dimension: TextureViewDimension::D1,
                filterable: false
            },
        }
    );
    assert_eq!(
        layouts[0][4].kind,
        BindingKind::Sampler { comparison: false, filtering: false }
    );
    let groups = collection.get_bind_groups();
    assert_eq!(groups.len(), 1);
    assert_eq!(
        groups[0],
        vec![
            BindEntry { binding: 0, resource: BoundResource::TimeBuffer },
            BindEntry { binding: 1, resource: BoundResource::CameraBuffer },
            BindEntry { binding: 2, resource: BoundResource::WaveTexture { width: 4096 } },
            BindEntry { binding: 3, resource: BoundResource::SpectrumTexture { width: 4096 } },
            BindEntry { binding: 4, resource: BoundResource::AudioSampler },
        ]
    );
    assert_eq!(collection.bind_group_count(), 1);
}

#[test]
fn update_without_change_keeps_the_bind_group() {
    let mut collection = ResourceCollection::new(800, 600, 4096, 1024, info());
    let before = collection.get_bind_groups();
    let uploads = collection.update(16_000_000);
    assert!(uploads.time_buffer);
    assert!(!uploads.camera_buffer);
    assert!(!uploads.wave_texture);
    assert!(!uploads.spectrum_texture);
    assert!(!uploads.bind_group);
    assert_eq!(collection.get_bind_groups(), before);
    assert_eq!(collection.get_time().get_frame_count(), 1);
    assert_eq!(collection.get_time().get_elapsed_time(), 16_000_000);
    assert_eq!(collection.get_time().get_frame_time(), 16_000_000);
}

#[test]
fn update_after_layout_change_rebuilds_the_bind_group() {
    let mut collection = ResourceCollection::new(800, 600, 4096, 1024, info());
    collection.observe_audio(2048, 1024);
    let uploads = collection.update(1);
    assert!(uploads.bind_group);
    assert!(uploads.wave_texture);
    assert!(!uploads.spectrum_texture);
    let layouts = collection.get_bind_group_layouts();
    assert_eq!(layouts[0].len(), 5);
    let mut bindings: Vec<u32> = layouts[0].iter().map(|entry| entry.binding).collect();
    bindings.dedup();
    assert_eq!(bindings, vec![0, 1, 2, 3, 4]);
    let groups = collection.get_bind_groups();
    assert_eq!(
        groups[0][2],
        BindEntry { binding: 2, resource: BoundResource::WaveTexture { width: 2048 } }
    );
    assert_eq!(
        groups[0][3],
        BindEntry { binding: 3, resource: BoundResource::SpectrumTexture { width: 1024 } }
    );
    assert_eq!(collection.get_audio().get_wave_texture_width(), 2048);
    let again = collection.update(1);
    assert!(!again.bind_group);
    assert!(!again.wave_texture);
}

#[test]
fn update_with_zero_delta_changes_counter_only() {
    let mut time = TimeResource::new(0, 0);
    assert!(!time.update(0));
    assert_eq!(time.get_frame_count(), 1);
    assert_eq!(time.get_elapsed_time(), 0);
    assert_eq!(time.get_frame_time(), 0);
    assert!(!time.update(u128::MAX));
    assert!(!time.update(5));
    assert_eq!(time.get_elapsed_time(), u128::MAX);
    assert_eq!(time.get_frame_count(), 3);
}

#[test]
fn audio_update_reports_change_once() {
    let mut audio = AudioResource::new(0, 2, 8, 4, info());
    assert!(!audio.update(0));
    audio.observe(8, 16);
    assert!(!audio.wave_out_of_date());
    assert!(audio.spectrum_out_of_date());
    assert!(audio.update(0));
    assert_eq!(audio.get_spectrum_texture_width(), 16);
    assert!(!audio.update(0));
    assert_eq!(audio.get_stream_info().device_name, "Microphone");
}

#[test]
fn camera_waits_for_a_first_position() {
    let mut camera = CameraResource::new(0, 1, 800, 600);
    assert!(!camera.handle_or_capture_event(&window(WindowInput::MouseInput {
        button: MouseButton::Left,
        pressed: true,
    })));
    assert!(!camera.handle_or_capture_event(&window(WindowInput::CursorMoved {
        position: at(10.0, 20.0),
    })));
    assert!(!camera.requires_update());
    assert!(camera.take_motions().is_empty());
    assert!(camera.handle_or_capture_event(&window(WindowInput::CursorMoved {
        position: at(30.0, 40.0),
    })));
    assert!(camera.requires_update());
    assert_eq!(
        camera.take_motions(),
        vec![CameraMotion::Rotate { previous: at(10.0, 20.0), current: at(30.0, 40.0) }]
    );
    assert!(camera.take_motions().is_empty());
}

#[test]
fn camera_pans_with_right_button_and_zooms_with_wheel() {
    let mut camera = CameraResource::new(0, 1, 800, 600);
    let moved = |x: f64, y: f64| window(WindowInput::CursorMoved { position: at(x, y) });
    let right = |pressed: bool| {
        window(WindowInput::MouseInput { button: MouseButton::Right, pressed })
    };
    assert!(!camera.handle_or_capture_event(&moved(1.0, 2.0)));
    assert!(!camera.handle_or_capture_event(&moved(3.0, 4.0)));
    assert!(!camera.handle_or_capture_event(&right(true)));
    assert!(camera.handle_or_capture_event(&moved(5.0, 6.0)));
    assert!(camera.handle_or_capture_event(&window(WindowInput::MouseWheel {
        amount_bits: 1.5f32.to_bits(),
    })));
    assert!(!camera.handle_or_capture_event(&right(false)));
    assert!(!camera.handle_or_capture_event(&moved(9.0, 9.0)));
    assert!(!camera.handle_or_capture_event(&InputEvent::RedrawRequested));
    assert_eq!(
        camera.take_motions(),
        vec![
            CameraMotion::Pan { previous: at(1.0, 2.0), current: at(5.0, 6.0) },
            CameraMotion::Zoom { amount_bits: 1.5f32.to_bits() },
        ]
    );
    assert!(camera.requires_update());
    assert!(!camera.update(0));
    assert!(!camera.requires_update());
}

#[test]
fn drag_with_a_button_held_is_consumed() {
    let mut collection = ResourceCollection::new(800, 600, 16, 16, info());
    let left = window(WindowInput::MouseInput { button: MouseButton::Left, pressed: true });
    assert!(!collection.handle_event(&left));
    assert!(!collection
        .handle_event(&window(WindowInput::CursorMoved { position: at(10.0, 10.0) })));
    assert!(collection
        .handle_event(&window(WindowInput::CursorMoved { position: at(20.0, 15.0) })));
    assert!(collection.get_camera().requires_update());
    assert_eq!(
        collection.take_camera_motions(),
        vec![CameraMotion::Rotate { previous: at(10.0, 10.0), current: at(20.0, 15.0) }]
    );
    assert!(collection.update(1).camera_buffer);
}

#[test]
fn camera_upload_is_due_only_after_motion() {
    let mut collection = ResourceCollection::new(800, 600, 16, 16, info());
    assert!(!collection.update(1).camera_buffer);
    assert!(collection.handle_event(&window(WindowInput::MouseWheel { amount_bits: 0 })));
    assert!(!collection.handle_event(&window(WindowInput::CloseRequested)));
    assert!(collection.update(1).camera_buffer);
    assert!(!collection.update(1).camera_buffer);
    assert_eq!(
        collection.take_camera_motions(),
        vec![CameraMotion::Zoom { amount_bits: 0 }]
    );
}

#[test]
fn collection_resize_reaches_the_camera() {
    let mut collection = ResourceCollection::new(800, 600, 16, 16, info());
    let before = collection.get_bind_groups();
    collection.resize(1024, 768);
    assert_eq!(collection.get_camera().screen_size(), (1024, 768));
    assert_eq!(collection.get_bind_groups(), before);
}

#[test]
fn texture_resource_binds_five_textures_and_a_sampler() {
    let textures = TextureResource::new(0, 5, SceneTextures::default());
    assert_eq!(TextureResource::binding_size(), 6);
    assert_eq!(textures.binding_group(), 0);
    let layout = textures.get_bind_group_layout_entries();
    let bindings: Vec<u32> = layout.iter().map(|entry| entry.binding).collect();
    assert_eq!(bindings, vec![5, 6, 7, 8, 9, 10]);
    assert_eq!(
        layout[0].kind,
        BindingKind::Texture { view_dimension: TextureViewDimension::D2, filterable: false }
    );
    assert_eq!(layout[5].kind, BindingKind::Sampler { comparison: false, filtering: true });
    let entries = textures.get_bind_group_entries();
    assert_eq!(entries[4], BindEntry { binding: 9, resource: BoundResource::AssetTexture { slot: 4 } });
    assert_eq!(entries[5], BindEntry { binding: 10, resource: BoundResource::AssetSampler });
    assert_eq!(textures.next_binding_offset_in_group(), 11);
    assert!(textures.get_textures().texture_1.is_none());
}

#[test]
fn next_offset_stops_at_the_largest_index() {
    assert_eq!(next_offset(2, 3), Some(5));
    assert_eq!(next_offset(u32::MAX, 0), Some(u32::MAX));
    assert_eq!(next_offset(u32::MAX, 1), None);
}
