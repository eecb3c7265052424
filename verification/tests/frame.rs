use cubensis::configuration::graphics::GraphicsConfiguration;
use cubensis::device::GraphicsDevice;
use cubensis::events::{InputEvent, WindowInput};
use cubensis::gpu::{
    AddressMode, Extent3d, FilterMode, TextureDimension, TextureFormat, TextureUsages,
};
use cubensis::mesh::draw::{BindSource, DrawCommand};
use cubensis::mesh::Mesh;
use cubensis::presentation::PresentationPass;
use cubensis::renderer::{EventStep, Renderer};
use cubensis::resources::audio::AudioResource;
use cubensis::resources::collection::ResourceCollection;
use cubensis::resources::textures::{AssetFile, TextureResource};
use cubensis::resources::upload::{DecodedImage, TextureError};
use cubensis::scene::assets::{SceneTextures, TextureAsset};
use cubensis::scene::Scene;
use cubensis::stream::AudioStreamInfo;

fn renderer() -> Renderer<u8, u8, 2> {
    Renderer::new(
        1,
        GraphicsDevice::new(&GraphicsConfiguration::default(), 100, 100),
        ResourceCollection::new(100, 100, 8, 8, AudioStreamInfo::new("mic".to_string())),
        PresentationPass::new(vec![0, 1, 2], 100, 100).unwrap(),
        Vec::<Mesh<u8>>::new(),
        Scene::default(),
    )
}

#[test]
fn targets_are_stale_between_resize_and_new_textures() {
    let mut renderer = renderer();
    assert!(!renderer.needs_new_targets());
    let resized = InputEvent::Window {
        window_id: 1,
        event: WindowInput::Resized { width: 50, height: 60 },
    };
    assert_eq!(
        renderer.handle_event(false, &resized, &Vec::new()),
        EventStep::Resized { width: 50, height: 60 }
    );
    assert!(renderer.needs_new_targets());
    assert!(!renderer.resize_presentation(vec![7]));
    assert!(renderer.needs_new_targets());
    assert!(renderer.resize_presentation(vec![7, 8, 9]));
    assert!(!renderer.needs_new_targets());
    assert_eq!(
        renderer.get_presentation_pass().get_depth_texture_size(),
        Extent3d { width: 50, height: 60, depth_or_array_layers: 1 }
    );
    renderer.render();
    assert_eq!(*renderer.get_presentation_pass().create_presentation_view(), 9);
    assert_eq!(*renderer.get_presentation_pass().get_current_bind_group(), 7);
}

#[test]
fn three_frames_bring_a_ring_of_three_back() {
    let mut renderer = renderer();
    let mut targets = Vec::new();
    for _ in 0..6 {
        renderer.render();
        targets.push(*renderer.get_presentation_pass().create_presentation_view());
    }
    assert_eq!(targets, vec![2, 1, 0, 2, 1, 0]);
}

#[test]
fn widgets_are_toggled_through_the_renderer() {
    let mut renderer = renderer();
    renderer.toggle_audio_widget();
    assert!(renderer.get_gui().menu.audio_widget_enabled);
    assert!(!renderer.get_gui().menu.camera_widget_enabled);
    renderer.toggle_camera_widget();
    renderer.toggle_audio_widget();
    assert!(!renderer.get_gui().menu.audio_widget_enabled);
    assert!(renderer.get_gui().menu.camera_widget_enabled);
}

#[test]
fn composite_draws_the_target_as_one_quad() {
    let pass: PresentationPass<u8, 1> = PresentationPass::new(vec![1, 2], 4, 4).unwrap();
    assert_eq!(
        pass.present(),
        vec![
            DrawCommand::SetPipeline { pass: 0 },
            DrawCommand::SetBindGroup { index: 0, source: BindSource::Target },
            DrawCommand::SetVertexBuffer { slot: 0 },
            DrawCommand::SetIndexBuffer,
            DrawCommand::DrawIndexed { index_count: 6 },
        ]
    );
    assert_eq!(pass.get_bind_group_layout().len(), 2);
}

#[test]
fn audio_textures_are_rows_of_float_texels() {
    let audio = AudioResource::new(0, 2, 4096, 512, AudioStreamInfo::new("mic".to_string()));
    let wave = audio.wave_texture();
    assert_eq!(wave.label, "Wave Data Texture");
    assert_eq!(wave.size, Extent3d { width: 4096, height: 1, depth_or_array_layers: 1 });
    assert_eq!(wave.dimension, TextureDimension::D1);
    assert_eq!(wave.format, TextureFormat::R32Float);
    assert_eq!(
        wave.usage,
        TextureUsages {
            render_attachment: false,
            texture_binding: true,
            copy_src: false,
            copy_dst: true
        }
    );
    let spectrum = audio.spectrum_texture();
    assert_eq!(spectrum.label, "Spectrum Data Texture");
    assert_eq!(spectrum.size.width, 512);
    let sampler = AudioResource::sampler();
    assert_eq!(sampler.address_mode_w, AddressMode::Repeat);
    assert_eq!(sampler.mag_filter, FilterMode::Nearest);
    assert_eq!(TextureResource::sampler().mag_filter, FilterMode::Linear);
    assert_eq!(AudioResource::create_1d_texture(3, "x").mip_level_count, 1);
}

#[test]
fn slots_without_file_bytes_have_no_upload() {
    let asset = Some(TextureAsset { path: "missing.png".to_string() });
    assert_eq!(
        TextureResource::create_texture(&asset, AssetFile::Unreadable).err(),
        Some(TextureError::Unreadable)
    );
    assert_eq!(
        TextureResource::create_texture(&asset, AssetFile::Undecodable).err(),
        Some(TextureError::UnsupportedImage)
    );
    let empty = TextureResource::create_texture(&None, AssetFile::Undecodable).unwrap();
    assert_eq!(empty.data, vec![0, 0, 0, 0]);
}

#[test]
fn every_slot_gets_an_upload_or_an_error() {
    let mut textures = SceneTextures::default();
    textures.texture_2 = Some(TextureAsset { path: "a.png".to_string() });
    textures.texture_5 = Some(TextureAsset { path: "b.png".to_string() });
    let resource = TextureResource::new(0, 0, textures);
    let image = DecodedImage { width: 1, height: 1, rgb: vec![9, 8, 7] };
    let uploads = resource
        .create_textures(vec![
            AssetFile::Unreadable,
            AssetFile::Image(image),
            AssetFile::Unreadable,
            AssetFile::Undecodable,
            AssetFile::Unreadable,
        ])
        .unwrap();
    assert_eq!(uploads.len(), 5);
    assert_eq!(uploads[0].as_ref().unwrap().data, vec![0, 0, 0, 0]);
    let second = uploads[1].as_ref().unwrap();
    assert_eq!(second.descriptor.size, Extent3d { width: 1, height: 1, depth_or_array_layers: 1 });
    assert_eq!(&second.data[..4], &[9, 8, 7, 0]);
    assert_eq!(second.bytes_per_row, Some(4));
    assert!(uploads[2].is_ok() && uploads[3].is_ok());
    assert_eq!(uploads[4].as_ref().err(), Some(&TextureError::Unreadable));
    assert!(resource.create_textures(vec![AssetFile::Unreadable]).is_none());
}
