use cubensis::binding::LayoutEntry;
use cubensis::gpu::{
    BlendComponent, BlendFactor, BlendOperation, BlendState, CompareFunction, DepthStencil,
    ShaderSource, TextureFormat,
};
use cubensis::mesh::buffers::{
    get_indices, get_vertices, DrawIndirect, MeshBuffers, Vertex, VertexAttribute, VertexFormat,
};
use cubensis::mesh::draw::{BindSource, DrawCommand};
use cubensis::mesh::pipeline::{create_render_pipeline, create_render_pipelines, pipeline_for};
use cubensis::mesh::{collect_pipelines, Mesh, MeshError};
use cubensis::presentation::textures::PresentTexture;
use cubensis::resources::collection::ResourceCollection;
use cubensis::scene::geometry::{GeometrySource, MeshDescriptor};
use cubensis::scene::primitives::PrimitiveType;
use cubensis::scene::shaders::{RenderShader, RenderShaderBlending};
use cubensis::stream::AudioStreamInfo;
use cubensis::validation::{CubensisValidatedShader, ShaderError};

const VALID: &str = "fn double(x: f32) -> f32 { return x * 2.0; }";
const UNPARSABLE: &str = "fn broken( {";
const ILL_TYPED: &str = "fn wrong() -> i32 { return 1.0; }";

fn check(source: &str) -> Result<(), ShaderError> {
    let module = naga::front::wgsl::parse_str(source)
        .map_err(|error| ShaderError::Parse(error.to_string()))?;
    naga::valid::Validator::new(
        naga::valid::ValidationFlags::all(),
        naga::valid::Capabilities::FLOAT64,
    )
    .validate(&module)
    .map(|_| ())
    .map_err(|error| ShaderError::Validate(error.to_string()))
}

fn validated(source: &str) -> Result<String, ShaderError> {
    source.to_string().validated(check(source))
}

fn compile(
    pass: &RenderShader,
    source: &str,
    layouts: &(Vec<Vec<LayoutEntry>>, Vec<LayoutEntry>),
) -> Result<cubensis::gpu::PipelineDescriptor, ShaderError> {
    create_render_pipeline(pass, source.to_string(), check(source), &layouts.0, &layouts.1)
}

fn shader(path: &str, name: &str, blending: RenderShaderBlending) -> RenderShader {
    RenderShader { path: path.to_string(), name: name.to_string(), blending }
}

fn layouts() -> (Vec<Vec<LayoutEntry>>, Vec<LayoutEntry>) {
    let collection =
        ResourceCollection::new(8, 8, 4, 4, AudioStreamInfo::new("none".to_string()));
    (collection.get_bind_group_layouts(), PresentTexture::bind_group_layout())
}

fn default_mesh() -> Mesh<&'static str> {
    Mesh::new(MeshDescriptor::default(), vec![Ok("first"), Ok("second")]).unwrap()
}

fn paths(mesh: &Mesh<&'static str>) -> Vec<(String, String, RenderShaderBlending)> {
    mesh.get_mesh_descriptor()
        .render_shaders
        .iter()
        .map(|s| (s.path.clone(), s.name.clone(), s.blending))
        .collect()
}

#[test]
fn blend_modes_map_to_three_outcomes() {
    assert_eq!(RenderShaderBlending::NoBlending.into_blend_state_option(), None);
    let replace = BlendComponent {
        src_factor: BlendFactor::One,
        dst_factor: BlendFactor::Zero,
        operation: BlendOperation::Add,
    };
    assert_eq!(
        RenderShaderBlending::Replace.into_blend_state_option(),
        Some(BlendState { color: replace, alpha: replace })
    );
    assert_eq!(
        RenderShaderBlending::AlphaBlending.into_blend_state_option(),
        Some(BlendState {
            color: BlendComponent {
                src_factor: BlendFactor::SrcAlpha,
                dst_factor: BlendFactor::OneMinusSrcAlpha,
                operation: BlendOperation::Add,
            },
            alpha: BlendComponent {
                src_factor: BlendFactor::One,
                dst_factor: BlendFactor::OneMinusSrcAlpha,
                operation: BlendOperation::Add,
            },
        })
    );
}

#[test]
fn valid_source_passes_validation_unchanged() {
    assert_eq!(validated(VALID).unwrap(), VALID);
    assert_eq!(validated("").unwrap(), "");
    assert_eq!(VALID.to_string().validated(Ok(())).unwrap(), VALID);
}

#[test]
fn unparsable_source_is_a_parse_error() {
    match validated(UNPARSABLE) {
        Err(ShaderError::Parse(message)) => assert!(!message.is_empty()),
        other => panic!("expected a parse error, got {:?}", other),
    }
}

#[test]
fn ill_typed_source_is_a_validation_error() {
    match validated(ILL_TYPED) {
        Err(ShaderError::Validate(message)) => {
            assert!(message.contains("wrong"), "{}", message);
            let error = ShaderError::Validate(message.clone());
            assert_eq!(error.message(), message);
        }
        other => panic!("expected a validation error, got {:?}", other),
    }
}

#[test]
fn validation_gives_the_same_answer_twice() {
    let first = format!("{:?}", validated(ILL_TYPED));
    let second = format!("{:?}", validated(ILL_TYPED));
    assert_eq!(first, second);
    let told = VALID.to_string().validated(Err(ShaderError::Validate("no".to_string())));
    assert!(matches!(told, Err(ShaderError::Validate(message)) if message == "no"));
}

#[test]
fn mesh_pipeline_binds_resources_then_history() {
    let (resource_layouts, history) = layouts();
    let pass = shader("a.wgsl", "a", RenderShaderBlending::AlphaBlending);
    let pipeline = compile(&pass, VALID, &layouts()).unwrap();
    assert_eq!(pipeline.label, "Render Pipeline");
    assert_eq!(pipeline.bind_group_layouts.len(), 2);
    assert_eq!(pipeline.bind_group_layouts[0], resource_layouts[0]);
    assert_eq!(pipeline.bind_group_layouts[1], history);
    assert!(matches!(&pipeline.source, ShaderSource::Wgsl(text) if text == VALID));
    assert_eq!(pipeline.format, TextureFormat::Surface);
    assert_eq!(pipeline.blend, RenderShaderBlending::AlphaBlending.into_blend_state_option());
    assert_eq!(
        pipeline.depth_stencil,
        Some(DepthStencil {
            format: TextureFormat::Depth32Float,
            depth_write_enabled: true,
            depth_compare: CompareFunction::Less,
        })
    );
    let unchecked = pipeline_for(&pass, UNPARSABLE.to_string(), &resource_layouts, &history);
    assert!(matches!(&unchecked.source, ShaderSource::Wgsl(text) if text == UNPARSABLE));
}

#[test]
fn invalid_source_never_becomes_a_pipeline() {
    let pass = shader("a.wgsl", "a", RenderShaderBlending::NoBlending);
    assert!(matches!(compile(&pass, UNPARSABLE, &layouts()), Err(ShaderError::Parse(_))));
    assert!(matches!(compile(&pass, ILL_TYPED, &layouts()), Err(ShaderError::Validate(_))));
}

#[test]
fn every_pass_is_compiled_in_order() {
    let (resource_layouts, history) = layouts();
    let descriptor = MeshDescriptor::default();
    let sources = vec![VALID.to_string(), UNPARSABLE.to_string()];
    let checks = vec![check(VALID), check(UNPARSABLE)];
    let outcomes =
        create_render_pipelines(&descriptor, &sources, &checks, &resource_layouts, &history)
            .unwrap();
    assert_eq!(outcomes.len(), 2);
    assert_eq!(
        outcomes[0].as_ref().unwrap().blend,
        RenderShaderBlending::Replace.into_blend_state_option()
    );
    assert!(matches!(outcomes[1], Err(ShaderError::Parse(_))));
    assert!(create_render_pipelines(
        &descriptor,
        &vec![VALID.to_string()],
        &vec![Ok(())],
        &resource_layouts,
        &history
    )
    .is_none());
    assert!(create_render_pipelines(
        &descriptor,
        &sources,
        &vec![Ok(())],
        &resource_layouts,
        &history
    )
    .is_none());
}

#[test]
fn mesh_has_one_pipeline_for_each_pass() {
    let mesh = default_mesh();
    assert_eq!(mesh.get_render_pipelines(), &vec!["first", "second"]);
    assert_eq!(mesh.get_mesh_descriptor().render_shaders.len(), 2);
    assert_eq!(mesh.get_mesh_descriptor().name, "Default Mesh");
    assert_eq!(mesh.get_buffers().index_count, 6);
}

#[test]
fn one_failed_pass_fails_the_mesh() {
    let failed: Result<Mesh<u8>, MeshError> = Mesh::new(
        MeshDescriptor::default(),
        vec![
            Err(ShaderError::Parse("first".to_string())),
            Err(ShaderError::Validate("second".to_string())),
        ],
    );
    assert!(matches!(
        failed,
        Err(MeshError::Compile(ShaderError::Parse(message))) if message == "first"
    ));
    let later: Result<Mesh<u8>, MeshError> = Mesh::new(
        MeshDescriptor::default(),
        vec![Ok(1), Err(ShaderError::Validate("second".to_string()))],
    );
    assert!(matches!(
        later,
        Err(MeshError::Compile(ShaderError::Validate(message))) if message == "second"
    ));
    let short: Result<Mesh<u8>, MeshError> = Mesh::new(MeshDescriptor::default(), vec![Ok(1)]);
    assert!(matches!(short, Err(MeshError::PassCountMismatch)));
}

#[test]
fn collect_pipelines_keeps_order() {
    let all: Vec<Result<u8, ShaderError>> = vec![Ok(3), Ok(1), Ok(2)];
    assert_eq!(collect_pipelines(all).unwrap(), vec![3, 1, 2]);
    let none: Vec<Result<u8, ShaderError>> = Vec::new();
    assert_eq!(collect_pipelines(none).unwrap(), Vec::<u8>::new());
}

#[test]
fn rebuild_with_unknown_path_changes_nothing() {
    let mut mesh = default_mesh();
    let before = paths(&mesh);
    let outcome = mesh.rebuild(
        shader("../shaders/other.wgsl", "Other", RenderShaderBlending::NoBlending),
        Ok("new"),
    );
    assert!(matches!(outcome, Err(MeshError::NotFound(path)) if path == "../shaders/other.wgsl"));
    assert_eq!(mesh.get_render_pipelines(), &vec!["first", "second"]);
    assert_eq!(paths(&mesh), before);
}

#[test]
fn rebuild_with_invalid_source_keeps_the_old_pipeline() {
    let mut mesh = default_mesh();
    let before = paths(&mesh);
    let updated = shader(
        "../shaders/default_shader_second_pass.wgsl",
        "Second, edited",
        RenderShaderBlending::Replace,
    );
    let compiled = compile(&updated, UNPARSABLE, &layouts()).map(|_| "rebuilt");
    let outcome = mesh.rebuild(updated.clone(), compiled);
    assert!(matches!(outcome, Err(MeshError::Compile(ShaderError::Parse(_)))));
    assert_eq!(mesh.get_render_pipelines(), &vec!["first", "second"]);
    assert_eq!(paths(&mesh), before);

    let compiled = compile(&updated, VALID, &layouts()).map(|_| "rebuilt");
    assert!(mesh.rebuild(updated, compiled).is_ok());
    assert_eq!(mesh.get_render_pipelines(), &vec!["first", "rebuilt"]);
    let after = paths(&mesh);
    assert_eq!(after[0], before[0]);
    assert_eq!(
        after[1],
        (
            "../shaders/default_shader_second_pass.wgsl".to_string(),
            "Second, edited".to_string(),
            RenderShaderBlending::Replace
        )
    );
}

#[test]
fn rebuild_replaces_the_first_pass_of_a_shared_path() {
    let descriptor = MeshDescriptor {
        name: "twice".to_string(),
        geometry_source: GeometrySource::Primitive(PrimitiveType::Quad),
        render_shaders: vec![
            shader("b.wgsl", "b", RenderShaderBlending::Replace),
            shader("a.wgsl", "one", RenderShaderBlending::Replace),
            shader("a.wgsl", "two", RenderShaderBlending::Replace),
        ],
    };
    let mut mesh = Mesh::new(descriptor, vec![Ok(0u8), Ok(1), Ok(2)]).unwrap();
    assert_eq!(mesh.find_shader("a.wgsl"), Some(1));
    assert_eq!(mesh.find_shader("b.wgsl"), Some(0));
    assert_eq!(mesh.find_shader("c.wgsl"), None);
    mesh.rebuild(shader("a.wgsl", "new", RenderShaderBlending::NoBlending), Ok(9)).unwrap();
    assert_eq!(mesh.get_render_pipelines(), &vec![0, 9, 2]);
    assert_eq!(mesh.get_mesh_descriptor().render_shaders[1].name, "new");
    assert_eq!(mesh.get_mesh_descriptor().render_shaders[2].name, "two");
}

#[test]
fn resize_replaces_every_pipeline_or_none() {
    let mut mesh = default_mesh();
    assert!(matches!(
        mesh.resize(vec![Ok("a"), Err(ShaderError::Parse("bad".to_string()))]),
        Err(MeshError::Compile(_))
    ));
    assert_eq!(mesh.get_render_pipelines(), &vec!["first", "second"]);
    assert!(matches!(mesh.resize(vec![Ok("a")]), Err(MeshError::PassCountMismatch)));
    assert!(mesh.resize(vec![Ok("a"), Ok("b")]).is_ok());
    assert_eq!(mesh.get_render_pipelines(), &vec!["a", "b"]);
}

#[test]
fn indexed_draw_binds_groups_before_history() {
    let mesh = default_mesh();
    let pass = |pass: usize| {
        vec![
            DrawCommand::SetPipeline { pass },
            DrawCommand::SetBindGroup { index: 0, source: BindSource::Resources { group: 0 } },
            DrawCommand::SetBindGroup { index: 1, source: BindSource::History },
            DrawCommand::SetVertexBuffer { slot: 0 },
            DrawCommand::SetIndexBuffer,
            DrawCommand::DrawIndexed { index_count: 6 },
        ]
    };
    let mut expected = pass(0);
    expected.extend(pass(1));
    assert_eq!(mesh.draw_mesh_indexed(1), expected);
    let indirect = mesh.draw_mesh_indirect(0);
    assert_eq!(
        indirect,
        vec![
            DrawCommand::SetPipeline { pass: 0 },
            DrawCommand::SetBindGroup { index: 0, source: BindSource::History },
            DrawCommand::SetVertexBuffer { slot: 0 },
            DrawCommand::SetIndexBuffer,
            DrawCommand::DrawIndexedIndirect { offset: 0 },
            DrawCommand::SetPipeline { pass: 1 },
            DrawCommand::SetBindGroup { index: 0, source: BindSource::History },
            DrawCommand::SetVertexBuffer { slot: 0 },
            DrawCommand::SetIndexBuffer,
            DrawCommand::DrawIndexedIndirect { offset: 0 },
        ]
    );
    assert_eq!(mesh.draw_mesh_indexed(3).len(), 2 * (3 + 5));
}

#[test]
fn quad_is_two_clockwise_triangles() {
    let quad = GeometrySource::Primitive(PrimitiveType::Quad);
    assert_eq!(get_indices(&quad), vec![0, 1, 2, 0, 3, 1]);
    assert_eq!(
        get_vertices(&quad),
        vec![
            Vertex { x: -1, y: 1, z: 0, u: 0, v: 1 },
            Vertex { x: 1, y: -1, z: 0, u: 1, v: 0 },
            Vertex { x: -1, y: -1, z: 0, u: 0, v: 0 },
            Vertex { x: 1, y: 1, z: 0, u: 1, v: 1 },
        ]
    );
    let buffers = MeshBuffers::new(&quad);
    assert_eq!(buffers.index_count, 6);
    assert_eq!(
        buffers.indirect,
        DrawIndirect { vertex_count: 6, instance_count: 1, base_vertex: 0, base_instance: 0 }
    );
    let layout = Vertex::desc();
    assert_eq!(layout.array_stride, 20);
    assert_eq!(
        layout.attributes,
        vec![
            VertexAttribute { offset: 0, shader_location: 0, format: VertexFormat::Float32x3 },
            VertexAttribute { offset: 12, shader_location: 1, format: VertexFormat::Float32x2 },
        ]
    );
}
