use cubensis::device::GraphicsDevice;
use cubensis::configuration::graphics::GraphicsConfiguration;
use cubensis::events::{CubensisEvent, InputEvent, Key, WindowInput};
use cubensis::mesh::draw::DrawCommand;
use cubensis::mesh::{Mesh, MeshError};
use cubensis::presentation::PresentationPass;
use cubensis::renderer::{
    handle_redraw, handle_window_event, EventStep, RedrawAction, Renderer, SurfaceError,
    WindowAction,
};
use cubensis::resources::collection::ResourceCollection;
use cubensis::scene::geometry::{GeometrySource, MeshDescriptor};
use cubensis::scene::primitives::PrimitiveType;
use cubensis::scene::shaders::{RenderShader, RenderShaderBlending};
use cubensis::scene::Scene;
use cubensis::spawner::{apply_hot_reload, create_meshes, try_hot_reload, ReloadTarget};
use cubensis::stream::AudioStreamInfo;
use cubensis::validation::ShaderError;

fn pass(path: &str) -> RenderShader {
    RenderShader {
        path: path.to_string(),
        name: path.to_string(),
        blending: RenderShaderBlending::Replace,
    }
}

fn mesh(name: &str, paths: &[&str], first_pipeline: u32) -> Mesh<u32> {
    let descriptor = MeshDescriptor {
        name: name.to_string(),
        geometry_source: GeometrySource::Primitive(PrimitiveType::Quad),
        render_shaders: paths.iter().map(|p| pass(p)).collect(),
    };
    let compiled = (0..paths.len() as u32).map(|i| Ok(first_pipeline + i)).collect();
    Mesh::new(descriptor, compiled).unwrap()
}

fn two_meshes() -> Vec<Mesh<u32>> {
    vec![mesh("one", &["a.wgsl", "b.wgsl"], 10), mesh("two", &["b.wgsl", "/abs/c.wgsl"], 20)]
}

fn canonical() -> Vec<Vec<Option<String>>> {
    vec![
        vec![Some("/lib/a.wgsl".to_string()), Some("/lib/b.wgsl".to_string())],
        vec![Some("/lib/b.wgsl".to_string()), None],
    ]
}

fn renderer() -> Renderer<u32, char, 1> {
    Renderer::new(
        7,
        GraphicsDevice::new(&GraphicsConfiguration::default(), 800, 600),
        ResourceCollection::new(800, 600, 16, 16, AudioStreamInfo::new("mic".to_string())),
        PresentationPass::new(vec!['A', 'B'], 800, 600).unwrap(),
        two_meshes(),
        Scene::default(),
    )
}

fn pipelines(meshes: &Vec<Mesh<u32>>) -> Vec<Vec<u32>> {
    meshes.iter().map(|m| m.get_render_pipelines().clone()).collect()
}

#[test]
fn changed_file_of_no_mesh_has_no_target() {
    let meshes = two_meshes();
    assert_eq!(try_hot_reload(&meshes, &canonical(), "/lib/z.wgsl"), None);
    assert_eq!(try_hot_reload(&meshes, &canonical(), "a.wgsl"), None);
    assert_eq!(try_hot_reload(&Vec::<Mesh<u32>>::new(), &canonical(), "/lib/a.wgsl"), None);
}

#[test]
fn file_edit_for_unknown_path_rebuilds_nothing() {
    let mut renderer = renderer();
    let before = pipelines(renderer.get_meshes());
    let step = renderer.handle_event(
        false,
        &InputEvent::User(CubensisEvent::FileEdit("/lib/unknown.wgsl".to_string())),
        &canonical(),
    );
    assert_eq!(step, EventStep::Nothing);
    assert_eq!(pipelines(renderer.get_meshes()), before);
}

#[test]
fn changed_file_targets_the_first_mesh_that_reads_it() {
    let meshes = two_meshes();
    assert_eq!(
        try_hot_reload(&meshes, &canonical(), "/lib/b.wgsl"),
        Some(ReloadTarget { mesh: 0, shader: 1 })
    );
    assert_eq!(
        try_hot_reload(&meshes, &canonical(), "/lib/a.wgsl"),
        Some(ReloadTarget { mesh: 0, shader: 0 })
    );
}

#[test]
fn absolute_paths_are_matched_as_written() {
    let meshes = two_meshes();
    assert_eq!(
        try_hot_reload(&meshes, &canonical(), "/abs/c.wgsl"),
        Some(ReloadTarget { mesh: 1, shader: 1 })
    );
    assert_eq!(
        try_hot_reload(&meshes, &Vec::new(), "b.wgsl"),
        Some(ReloadTarget { mesh: 0, shader: 1 })
    );
}

#[test]
fn hot_reload_swaps_one_pipeline_of_one_mesh() {
    let mut meshes = two_meshes();
    let target = try_hot_reload(&meshes, &canonical(), "/lib/b.wgsl").unwrap();
    assert!(target.is_valid_for(&meshes));
    assert!(apply_hot_reload(&mut meshes, target, Ok(99)).is_ok());
    assert_eq!(pipelines(&meshes), vec![vec![10, 99], vec![20, 21]]);
    assert_eq!(meshes[0].get_mesh_descriptor().render_shaders[1].path, "b.wgsl");
}

#[test]
fn failed_hot_reload_keeps_every_pipeline() {
    let mut meshes = two_meshes();
    let target = ReloadTarget { mesh: 1, shader: 0 };
    let outcome =
        apply_hot_reload(&mut meshes, target, Err(ShaderError::Parse("bad".to_string())));
    assert!(matches!(
        outcome,
        Err(MeshError::Compile(ShaderError::Parse(message))) if message == "bad"
    ));
    assert_eq!(pipelines(&meshes), vec![vec![10, 11], vec![20, 21]]);
    assert!(!ReloadTarget { mesh: 2, shader: 0 }.is_valid_for(&meshes));
    assert!(!ReloadTarget { mesh: 1, shader: 2 }.is_valid_for(&meshes));
}

#[test]
fn renderer_routes_file_edits_to_reload() {
    let mut renderer = renderer();
    let step = renderer.handle_event(
        false,
        &InputEvent::User(CubensisEvent::FileEdit("/lib/b.wgsl".to_string())),
        &canonical(),
    );
    assert_eq!(step, EventStep::Reload(ReloadTarget { mesh: 0, shader: 1 }));
    assert_eq!(pipelines(renderer.get_meshes()), vec![vec![10, 11], vec![20, 21]]);
    assert!(renderer.apply_hot_reload(ReloadTarget { mesh: 0, shader: 1 }, Ok(5)).is_ok());
    assert_eq!(pipelines(renderer.get_meshes()), vec![vec![10, 5], vec![20, 21]]);
    let other = renderer.handle_event(
        false,
        &InputEvent::User(CubensisEvent::SceneChange("x".to_string())),
        &canonical(),
    );
    assert_eq!(other, EventStep::Nothing);
    let redraw_request = renderer.handle_event(
        false,
        &InputEvent::User(CubensisEvent::GuiRedrawRequest {}),
        &canonical(),
    );
    assert_eq!(redraw_request, EventStep::Nothing);
}

#[test]
fn captured_events_reach_nothing() {
    let mut renderer = renderer();
    let grave = InputEvent::Window {
        window_id: 7,
        event: WindowInput::KeyboardInput { key: Key::Grave, pressed: true },
    };
    assert_eq!(renderer.handle_event(true, &grave, &canonical()), EventStep::Captured);
    assert!(!renderer.get_gui().is_enabled);
    assert_eq!(renderer.handle_event(false, &grave, &canonical()), EventStep::Nothing);
    assert!(renderer.get_gui().is_enabled);
}

#[test]
fn consumed_events_go_no_further() {
    let mut renderer = renderer();
    let none = canonical();
    let wheel = InputEvent::Window {
        window_id: 7,
        event: WindowInput::MouseWheel { amount_bits: 2.0f32.to_bits() },
    };
    assert_eq!(renderer.handle_event(false, &wheel, &none), EventStep::Consumed);
    assert_eq!(renderer.take_camera_motions().len(), 1);
    assert_eq!(renderer.handle_event(true, &wheel, &none), EventStep::Captured);
    assert!(renderer.take_camera_motions().is_empty());
    let moved = InputEvent::Window {
        window_id: 7,
        event: WindowInput::CursorMoved {
            position: cubensis::events::CursorPosition { x_bits: 0, y_bits: 0 },
        },
    };
    assert_eq!(renderer.handle_event(false, &moved, &none), EventStep::Nothing);
}

#[test]
fn renderer_steps_follow_the_loop() {
    let mut renderer = renderer();
    let none = canonical();
    assert_eq!(
        renderer.handle_event(false, &InputEvent::MainEventsCleared, &none),
        EventStep::RequestRedraw
    );
    assert_eq!(
        renderer.handle_event(false, &InputEvent::RedrawRequested, &none),
        EventStep::Redraw
    );
    assert_eq!(renderer.handle_event(false, &InputEvent::Other, &none), EventStep::Nothing);
    let close = InputEvent::Window { window_id: 7, event: WindowInput::CloseRequested };
    assert_eq!(renderer.handle_event(false, &close, &none), EventStep::Exit);
    let foreign = InputEvent::Window { window_id: 8, event: WindowInput::CloseRequested };
    assert_eq!(renderer.handle_event(false, &foreign, &none), EventStep::Nothing);
}

#[test]
fn resize_without_area_is_turned_down() {
    let mut renderer = renderer();
    let none = canonical();
    let flat = InputEvent::Window {
        window_id: 7,
        event: WindowInput::Resized { width: 0, height: 600 },
    };
    assert_eq!(renderer.handle_event(false, &flat, &none), EventStep::Nothing);
    assert_eq!(renderer.get_graphics().get_size(), (800, 600));
    let grown = InputEvent::Window {
        window_id: 7,
        event: WindowInput::ScaleFactorChanged { width: 1024, height: 768 },
    };
    assert_eq!(
        renderer.handle_event(false, &grown, &none),
        EventStep::Resized { width: 1024, height: 768 }
    );
    assert_eq!(renderer.get_graphics().get_size(), (1024, 768));
    assert_eq!(renderer.get_graphics().surface_configuration.width, 1024);
    assert_eq!(renderer.get_resource_collection().get_camera().screen_size(), (1024, 768));
    assert!(!renderer.resize(5, 0));
    assert!(!renderer.resize_presentation(vec!['x']));
    assert!(renderer.resize_presentation(vec!['x', 'y']));
    assert_eq!(*renderer.get_presentation_pass().create_presentation_view(), 'x');
    assert_eq!(renderer.get_presentation_pass().get_depth_texture_size().width, 1024);
}

#[test]
fn frame_turns_the_ring_and_draws_every_mesh() {
    let mut renderer = renderer();
    renderer.observe_audio(32, 16);
    let uploads = renderer.update(1_000);
    assert!(uploads.bind_group && uploads.wave_texture && !uploads.spectrum_texture);
    assert_eq!(renderer.get_gui().status_bar.last_frame_time, 1_000);
    let passes = renderer.render();
    assert_eq!(*renderer.get_presentation_pass().create_presentation_view(), 'B');
    assert_eq!(*renderer.get_presentation_pass().get_current_bind_group(), 'A');
    assert_eq!(passes.len(), 2);
    assert_eq!(passes[0].label, "Render Pass 0");
    assert_eq!(passes[1].label, "Render Pass 1");
    assert_eq!(passes[1].mesh, 1);
    assert_eq!(passes[0].commands.len(), 12);
    assert_eq!(passes[0].commands[0], DrawCommand::SetPipeline { pass: 0 });
    assert_eq!(passes[0].commands[11], DrawCommand::DrawIndexed { index_count: 6 });
    assert!(renderer.take_camera_motions().is_empty());
}

#[test]
fn surface_errors_map_to_actions() {
    assert_eq!(handle_redraw(Ok(())), RedrawAction::Presented);
    assert_eq!(handle_redraw(Err(SurfaceError::Lost)), RedrawAction::Resize);
    assert_eq!(handle_redraw(Err(SurfaceError::OutOfMemory)), RedrawAction::Exit);
    assert_eq!(handle_redraw(Err(SurfaceError::Timeout)), RedrawAction::Skip);
    assert_eq!(handle_redraw(Err(SurfaceError::Outdated)), RedrawAction::Skip);
}

#[test]
fn window_events_map_to_actions() {
    let escape = WindowInput::KeyboardInput { key: Key::Escape, pressed: true };
    assert_eq!(handle_window_event(1, 1, &escape), WindowAction::Exit);
    assert_eq!(handle_window_event(1, 2, &escape), WindowAction::Ignore);
    let released = WindowInput::KeyboardInput { key: Key::Escape, pressed: false };
    assert_eq!(handle_window_event(1, 1, &released), WindowAction::Ignore);
    assert_eq!(
        handle_window_event(1, 1, &WindowInput::Resized { width: 3, height: 0 }),
        WindowAction::Resize { width: 3, height: 0 }
    );
    assert_eq!(handle_window_event(1, 1, &WindowInput::Other), WindowAction::Ignore);
}

#[test]
fn scene_meshes_are_built_in_order() {
    let scene = Scene::default();
    let meshes: Vec<Mesh<u8>> = create_meshes(&scene, vec![vec![Ok(1), Ok(2)]]).unwrap();
    assert_eq!(meshes.len(), 1);
    assert_eq!(meshes[0].get_render_pipelines(), &vec![1, 2]);
    assert_eq!(meshes[0].get_mesh_descriptor().name, "Default Mesh");
    let failed: Result<Vec<Mesh<u8>>, MeshError> =
        create_meshes(&scene, vec![vec![Ok(1), Err(ShaderError::Parse("x".to_string()))]]);
    assert!(matches!(failed, Err(MeshError::Compile(ShaderError::Parse(_)))));
    let missing: Result<Vec<Mesh<u8>>, MeshError> = create_meshes(&scene, Vec::new());
    assert!(matches!(missing, Err(MeshError::PassCountMismatch)));
    let mut renderer = renderer();
    renderer.recreate_scene(scene, Vec::new());
    assert!(renderer.get_meshes().is_empty());
    assert_eq!(renderer.get_scene().name, "Default Scene");
    assert!(renderer.render().is_empty());
}
