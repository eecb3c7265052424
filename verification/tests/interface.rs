use cubensis::configuration::library::Library;
use cubensis::events::{CubensisEvent, InputEvent, Key, WindowInput};
use cubensis::gpu::{Extent3d, TextureDimension, TextureFormat};
use cubensis::gui::{is_key_press, GuiApp, LibraryPanel, MainMenuAndWidgets, StatusBar, TopMenu};
use cubensis::resources::upload::{
    create_texture, empty_upload, plan_upload, DecodedImage, TextureError, UPLOAD_SIZE,
};
use cubensis::rpc::{
    handle_command, handle_message, is_disconnect, ConnectionError, ConnectionStep, MessageKind,
    RpcRequest, RpcResponse, RpcSeverity,
};
use cubensis::scene::Scene;
use cubensis::shader_file::{
    find_occurrence, FragmentStage, MeshShaderFile, MeshShaderMetadata, Occurrence,
    ShaderFileError, VertexStage,
};
use cubensis::stream::{
    eq_ignore_ascii_case, select_config, AudioStreamInfo, AudioStreamSource, SampleFormat,
    WaveStream, RETRY_INTERVAL_NANOS,
};

fn press(key: Key) -> InputEvent {
    InputEvent::Window { window_id: 1, event: WindowInput::KeyboardInput { key, pressed: true } }
}

fn header() -> MeshShaderMetadata {
    MeshShaderMetadata {
        name: "shader".to_string(),
        path: "shader.wgsl".to_string(),
        imports: vec!["common.wgsl".to_string()],
        textures: Vec::new(),
        vertex_stage: VertexStage { entry_point: "main".to_string() },
        fragment_stages: Vec::<FragmentStage>::new(),
    }
}

fn decode(bytes: &[u8]) -> Option<DecodedImage> {
    let image = image::load_from_memory(bytes).ok()?;
    let rgb = image.as_rgb8()?;
    let (width, height) = rgb.dimensions();
    Some(DecodedImage { width, height, rgb: rgb.as_raw().clone() })
}

fn png(image: image::DynamicImage) -> Vec<u8> {
    let mut bytes = Vec::new();
    image.write_to(&mut bytes, image::ImageOutputFormat::Png).unwrap();
    bytes
}

#[test]
fn responses_default_their_severity() {
    let plain = RpcResponse::success(None, None);
    assert!(!plain.is_error);
    assert_eq!(plain.severity, RpcSeverity::Unset);
    assert_eq!(plain.message, "");
    let told = RpcResponse::success(Some("done".to_string()), Some(RpcSeverity::Warning));
    assert_eq!(told.severity, RpcSeverity::Warning);
    assert_eq!(told.message, "done");
    let failed = RpcResponse::error("no".to_string(), None);
    assert!(failed.is_error);
    assert_eq!(failed.severity, RpcSeverity::Error);
    assert_eq!(failed.message, "no");
    assert_eq!(RpcResponse::error("no".to_string(), Some(RpcSeverity::Info)).severity, RpcSeverity::Info);
    assert_eq!(RpcSeverity::Unset.code(), 0);
    assert_eq!(RpcSeverity::Info.code(), 1);
    assert_eq!(RpcSeverity::Warning.code(), 2);
    assert_eq!(RpcSeverity::Error.code(), 3);
}

#[test]
fn set_project_posts_a_scene_change() {
    let step = handle_command(RpcRequest::SetProject { project_name: "night".to_string() });
    match step {
        ConnectionStep::Reply { event, response } => {
            assert!(matches!(event, CubensisEvent::SceneChange(name) if name == "night"));
            assert!(!response.is_error);
            assert_eq!(response.severity, RpcSeverity::Info);
            assert_eq!(response.message, "Successfully loaded scene");
        }
        other => panic!("expected a reply, got {:?}", other),
    }
}

#[test]
fn messages_without_request_are_passed_over() {
    assert!(matches!(handle_message(MessageKind::Text, None), ConnectionStep::Continue));
    assert!(matches!(handle_message(MessageKind::Binary, None), ConnectionStep::Continue));
    assert!(matches!(handle_message(MessageKind::Close, None), ConnectionStep::Close));
    let request = || Some(RpcRequest::SetProject { project_name: "x".to_string() });
    assert!(matches!(handle_message(MessageKind::Other, request()), ConnectionStep::Continue));
    assert!(matches!(handle_message(MessageKind::Close, request()), ConnectionStep::Close));
    assert!(matches!(handle_message(MessageKind::Text, request()), ConnectionStep::Reply { .. }));
    assert!(matches!(handle_message(MessageKind::Binary, request()), ConnectionStep::Reply { .. }));
    assert!(is_disconnect(ConnectionError::ConnectionClosed));
    assert!(is_disconnect(ConnectionError::Io));
    assert!(!is_disconnect(ConnectionError::Other));
}

#[test]
fn stream_sources_know_their_device() {
    let input = AudioStreamSource::InputStream("Mic".to_string());
    let loopback = AudioStreamSource::WasapiLoopback("Speakers".to_string());
    assert_eq!(input.name(), "Mic");
    assert!(!input.is_wasapi());
    assert_eq!(loopback.name(), "Speakers");
    assert!(loopback.is_wasapi());
    assert_eq!(loopback.clone().name(), "Speakers");
    assert_eq!(AudioStreamInfo::new("Mic".to_string()).device_name, "Mic");
    assert!(AudioStreamSource::default_stream(true, "Out".to_string()).is_wasapi());
    assert_eq!(AudioStreamSource::default_stream(false, "In".to_string()).name(), "In");
    let all = AudioStreamSource::all_streams(
        vec!["a".to_string(), "b".to_string()],
        Some("out".to_string()),
    );
    assert_eq!(all.len(), 3);
    assert_eq!(all[1].name(), "b");
    assert!(!all[1].is_wasapi());
    assert!(all[2].is_wasapi());
    assert_eq!(AudioStreamSource::all_streams(vec!["a".to_string()], None).len(), 1);
}

#[test]
fn devices_are_found_by_name_or_first() {
    let names = vec!["Line In".to_string(), "usb MIC".to_string(), "USB Mic".to_string()];
    let source = AudioStreamSource::InputStream("USB mic".to_string());
    assert_eq!(source.select_device(&names), Some(1));
    let other = AudioStreamSource::InputStream("Webcam".to_string());
    assert_eq!(other.select_device(&names), Some(0));
    assert_eq!(other.select_device(&Vec::new()), None);
    assert!(eq_ignore_ascii_case("AbC", "aBc"));
    assert!(!eq_ignore_ascii_case("abc", "abcd"));
    assert!(!eq_ignore_ascii_case("[", "{"));
    assert!(!eq_ignore_ascii_case("Ä", "ä"));
}

#[test]
fn float_configurations_are_preferred() {
    assert_eq!(select_config(&vec![SampleFormat::I16, SampleFormat::F32, SampleFormat::F32]), Some(1));
    assert_eq!(select_config(&vec![SampleFormat::I16, SampleFormat::U16]), Some(0));
    assert_eq!(select_config(&vec![SampleFormat::F32]), Some(0));
    assert_eq!(select_config(&Vec::new()), None);
}

#[test]
fn lost_stream_is_reopened_after_five_seconds() {
    assert_eq!(RETRY_INTERVAL_NANOS, 5_000_000_000);
    let mut stream = WaveStream::new(false, 1_000, 4096);
    assert!(!stream.get_wave_and_spectrum_data(1_000 + 5_000_000_000));
    assert_eq!(stream.opened_at, 1_000);
    assert!(stream.get_wave_and_spectrum_data(1_001 + 5_000_000_000));
    assert_eq!(stream.opened_at, 1_001 + 5_000_000_000);
    assert!(!stream.get_wave_and_spectrum_data(1_002 + 5_000_000_000));
    assert!(!stream.get_wave_and_spectrum_data(0));
    stream.try_recreate_stream(true);
    assert!(stream.playing);
    assert!(!stream.get_wave_and_spectrum_data(u128::MAX));
    assert_eq!(stream.buffer_size, 4096);
}

#[test]
fn gui_is_toggled_by_grave_and_panel_by_f1() {
    let mut gui = GuiApp::new();
    assert!(!gui.draw());
    gui.handle_event(&press(Key::F1));
    assert!(gui.library_panel.is_enabled);
    assert!(!gui.is_enabled);
    gui.handle_event(&press(Key::Grave));
    assert!(gui.draw());
    assert!(gui.library_panel.is_enabled);
    gui.handle_event(&InputEvent::Window {
        window_id: 1,
        event: WindowInput::KeyboardInput { key: Key::Grave, pressed: false },
    });
    assert!(gui.is_enabled);
    gui.handle_event(&press(Key::Grave));
    assert!(!gui.is_enabled);
    gui.update(2_500);
    assert_eq!(gui.status_bar.last_frame_time, 2_500);
    assert_eq!(gui.status_bar.last_frame_micros(), 2);
    assert!(is_key_press(&press(Key::Escape), Key::Escape));
    assert!(!is_key_press(&InputEvent::RedrawRequested, Key::Escape));
    assert_eq!(StatusBar::new().last_frame_time, 0);
    let _ = TopMenu::new();
}

#[test]
fn menu_toggles_its_widgets() {
    let mut menu = MainMenuAndWidgets::new();
    assert!(!menu.audio_widget_enabled && !menu.camera_widget_enabled);
    assert_eq!(menu.audio_menu_title(), "Audio Info");
    assert_eq!(menu.camera_menu_title(), "Camera Info");
    menu.toggle_audio_widget();
    assert!(menu.audio_widget_enabled && !menu.camera_widget_enabled);
    menu.toggle_camera_widget();
    menu.toggle_audio_widget();
    assert!(!menu.audio_widget_enabled && menu.camera_widget_enabled);
}

#[test]
fn library_panel_disables_the_current_scene() {
    let mut first = Scene::default();
    first.name = "a".to_string();
    let mut second = Scene::default();
    second.name = "b".to_string();
    let library = Library::new("b".to_string(), vec![first, second]).unwrap();
    let mut panel = LibraryPanel::new();
    assert!(panel.draw(&library).is_empty());
    panel.handle_event(&press(Key::F1));
    let buttons = panel.draw(&library);
    assert_eq!(buttons.len(), 2);
    assert_eq!(buttons[0].label, "a");
    assert!(buttons[0].enabled);
    assert_eq!(buttons[1].label, "b");
    assert!(!buttons[1].enabled);
    panel.handle_event(&press(Key::Escape));
    assert!(panel.is_enabled);
    panel.handle_event(&press(Key::F1));
    assert!(!panel.is_enabled);
}

#[test]
fn shader_file_is_parsed_with_its_header() {
    let source = "{}#END CUBENSISfn main() {}";
    let file = MeshShaderFile::parse(source, Ok(header())).unwrap();
    assert_eq!(file.source_text, "fn main() {}");
    assert_eq!(file.header.name, "shader");
    assert!(matches!(
        MeshShaderFile::parse(source, Err("bad header".to_string())),
        Err(ShaderFileError::Header(message)) if message == "bad header"
    ));
    assert!(matches!(
        MeshShaderFile::parse("no separator", Ok(header())),
        Err(ShaderFileError::MissingSeparator)
    ));
    assert!(matches!(
        MeshShaderFile::parse("#END CUBENSIS#END CUBENSIS", Err("bad".to_string())),
        Err(ShaderFileError::MultipleSeparators)
    ));
    let edge = MeshShaderFile::split("#END CUBENSIS").unwrap();
    assert_eq!(edge.header_source, "");
    assert_eq!(edge.source_text, "");
    let unicode = MeshShaderFile::split("héader#END CUBENSISbödy").unwrap();
    assert_eq!(unicode.header_source, "héader");
    assert_eq!(unicode.source_text, "bödy");
}

#[test]
fn imports_come_before_the_shader_text() {
    let file = MeshShaderFile { header: header(), source_text: "fn main() {}".to_string() };
    assert_eq!(file.compile(&Vec::new(), "\n"), "fn main() {}");
    assert_eq!(
        file.compile(&vec!["let a = 1;".to_string(), "let b = 2;".to_string()], "\n"),
        "let a = 1;\nlet b = 2;\nfn main() {}"
    );
    assert_eq!(file.compile(&vec!["x".to_string()], "\r\n"), "x\r\nfn main() {}");
}

#[test]
fn occurrences_are_counted_up_to_two() {
    let text: Vec<char> = "abcabc".chars().collect();
    let find = |pattern: &str| find_occurrence(&text, &pattern.chars().collect());
    assert!(matches!(find("abcabc"), Occurrence::Once(0)));
    assert!(matches!(find("ca"), Occurrence::Once(2)));
    assert!(matches!(find("abc"), Occurrence::Repeatedly));
    assert!(matches!(find("abd"), Occurrence::Nowhere));
    assert!(matches!(find("abcabca"), Occurrence::Nowhere));
    assert!(matches!(find(""), Occurrence::Repeatedly));
    assert!(matches!(find_occurrence(&Vec::new(), &Vec::new()), Occurrence::Once(0)));
}

#[test]
fn empty_slot_uploads_one_transparent_texel() {
    let upload = empty_upload();
    assert_eq!(upload.data, vec![0, 0, 0, 0]);
    assert_eq!(upload.bytes_per_row, Some(4));
    assert_eq!(upload.rows_per_image, Some(1));
    assert_eq!(upload.descriptor.label, "Asset Texture");
    assert_eq!(upload.descriptor.size, Extent3d { width: 1, height: 1, depth_or_array_layers: 1 });
    assert_eq!(upload.descriptor.format, TextureFormat::Rgba8UnormSrgb);
    assert_eq!(upload.descriptor.dimension, TextureDimension::D2);
    assert!(upload.descriptor.usage.texture_binding && upload.descriptor.usage.copy_dst);
    assert!(!upload.descriptor.usage.render_attachment && !upload.descriptor.usage.copy_src);
}

#[test]
fn decoded_image_is_padded_to_the_upload_size() {
    let upload = plan_upload(DecodedImage { width: 2, height: 1, rgb: vec![1, 2, 3, 4, 5, 6] })
        .unwrap();
    assert_eq!(UPLOAD_SIZE, 256 * 256 * 256 * 4);
    assert_eq!(upload.data.len(), UPLOAD_SIZE);
    assert_eq!(&upload.data[..8], &[1, 2, 3, 4, 5, 6, 0, 0]);
    assert!(upload.data[6..].iter().all(|byte| *byte == 0));
    assert_eq!(upload.bytes_per_row, Some(8));
    assert_eq!(upload.rows_per_image, Some(1));
    assert_eq!(upload.descriptor.size, Extent3d { width: 2, height: 1, depth_or_array_layers: 1 });
    let empty = plan_upload(DecodedImage { width: 0, height: 0, rgb: Vec::new() }).unwrap();
    assert_eq!(empty.bytes_per_row, None);
    assert_eq!(empty.rows_per_image, None);
    assert!(matches!(
        plan_upload(DecodedImage { width: 1 << 30, height: 1, rgb: Vec::new() }),
        Err(TextureError::TooWide)
    ));
    assert!(plan_upload(DecodedImage { width: (1 << 30) - 1, height: 1, rgb: Vec::new() }).is_ok());
}

#[test]
fn image_files_are_decoded_to_rgb() {
    let pixels = vec![255, 0, 0, 0, 255, 0, 0, 0, 255, 9, 8, 7, 6, 5, 4, 3, 2, 1];
    let image = image::RgbImage::from_raw(3, 2, pixels.clone()).unwrap();
    let bytes = png(image::DynamicImage::ImageRgb8(image));
    let upload = create_texture(decode(&bytes)).unwrap();
    assert_eq!(upload.descriptor.size, Extent3d { width: 3, height: 2, depth_or_array_layers: 1 });
    assert_eq!(&upload.data[..18], &pixels[..]);
    assert_eq!(upload.data.len(), UPLOAD_SIZE);
    assert_eq!(upload.bytes_per_row, Some(12));
    assert_eq!(upload.rows_per_image, Some(2));
}

#[test]
fn other_files_are_no_textures() {
    assert_eq!(
        create_texture(decode(b"not an image")).err(),
        Some(TextureError::UnsupportedImage)
    );
    assert_eq!(create_texture(decode(&[])).err(), Some(TextureError::UnsupportedImage));
    assert_eq!(create_texture(None).err(), Some(TextureError::UnsupportedImage));
    let with_alpha = image::RgbaImage::from_raw(1, 1, vec![1, 2, 3, 4]).unwrap();
    let bytes = png(image::DynamicImage::ImageRgba8(with_alpha));
    assert_eq!(create_texture(decode(&bytes)).err(), Some(TextureError::UnsupportedImage));
}
