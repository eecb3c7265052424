use cubensis::binding::{BindingKind, TextureViewDimension};
use cubensis::gpu::{
    AddressMode, BlendComponent, BlendFactor, BlendOperation, BlendState, CompareFunction,
    Extent3d, FilterMode, LodClamp, ShaderSource, TextureDimension, TextureFormat, TextureUsages,
};
use cubensis::presentation::depth_texture::DepthTexture;
use cubensis::presentation::textures::PresentTexture;
use cubensis::presentation::PresentationPass;

#[test]
fn ring_of_two_swaps_each_frame() {
    let mut pass: PresentationPass<char, 1> =
        PresentationPass::new(vec!['A', 'B'], 800, 600).unwrap();
    assert_eq!(*pass.create_presentation_view(), 'A');
    assert_eq!(*pass.get_current_bind_group(), 'B');
    pass.start_frame();
    assert_eq!(*pass.create_presentation_view(), 'B');
    assert_eq!(*pass.get_current_bind_group(), 'A');
    pass.start_frame();
    assert_eq!(*pass.create_presentation_view(), 'A');
    assert_eq!(*pass.get_current_bind_group(), 'B');
}

#[test]
fn rotation_moves_slot_zero_to_slot_k_mod_n() {
    let mut pass: PresentationPass<u32, 3> =
        PresentationPass::new(vec![10, 11, 12, 13], 4, 4).unwrap();
    let mut expected = vec![10, 11, 12, 13];
    for k in 1..=9usize {
        pass.start_frame();
        expected.rotate_right(1);
        assert_eq!(*pass.create_presentation_view(), expected[0]);
        assert_eq!(*pass.get_current_bind_group(), expected[1]);
        assert_eq!(expected[k % 4], 10);
    }
}

#[test]
fn ring_of_one_keeps_its_target() {
    let mut pass: PresentationPass<u8, 0> = PresentationPass::new(vec![9], 1, 1).unwrap();
    pass.start_frame();
    assert_eq!(*pass.create_presentation_view(), 9);
}

#[test]
fn pass_needs_depth_plus_one_textures() {
    assert!(PresentationPass::<u8, 1>::new(vec![1], 8, 8).is_none());
    assert!(PresentationPass::<u8, 1>::new(vec![1, 2, 3], 8, 8).is_none());
    assert!(PresentationPass::<u8, 1>::new(vec![1, 2], 8, 8).is_some());
}

#[test]
fn resize_replaces_the_ring() {
    let mut pass: PresentationPass<u8, 1> = PresentationPass::new(vec![1, 2], 8, 8).unwrap();
    assert!(!pass.resize(vec![3], 16, 16));
    assert_eq!(*pass.create_presentation_view(), 1);
    assert_eq!(
        pass.get_depth_texture_size(),
        Extent3d { width: 8, height: 8, depth_or_array_layers: 1 }
    );
    assert!(pass.resize(vec![3, 4], 16, 12));
    assert_eq!(*pass.create_presentation_view(), 3);
    assert_eq!(*pass.get_current_bind_group(), 4);
    assert_eq!(
        pass.get_depth_texture_size(),
        Extent3d { width: 16, height: 12, depth_or_array_layers: 1 }
    );
}

#[test]
fn history_textures_are_labelled_by_slot() {
    let plans = PresentationPass::<u8, 11>::create_textures(640, 480, TextureFormat::Surface)
        .unwrap();
    assert_eq!(plans.len(), 12);
    assert_eq!(plans[0].texture.label, "Render History Texture 0");
    assert_eq!(plans[9].texture.label, "Render History Texture 9");
    assert_eq!(plans[10].texture.label, "Render History Texture 10");
    assert_eq!(plans[11].texture.label, "Render History Texture 11");
    for plan in &plans {
        assert_eq!(plan.size, Extent3d { width: 640, height: 480, depth_or_array_layers: 1 });
        assert_eq!(plan.texture.size, plan.size);
        assert_eq!(plan.texture.format, TextureFormat::Surface);
        assert_eq!(plan.texture.dimension, TextureDimension::D2);
        assert_eq!(plan.texture.mip_level_count, 1);
        assert_eq!(plan.texture.sample_count, 1);
        assert_eq!(
            plan.texture.usage,
            TextureUsages {
                render_attachment: true,
                texture_binding: true,
                copy_src: true,
                copy_dst: true
            }
        );
        assert_eq!(plan.bind_group_layout.len(), 2);
        assert_eq!(plan.bind_group.len(), 2);
    }
}

#[test]
fn present_texture_samples_linearly_up_close() {
    let plan = PresentTexture::new(
        Extent3d { width: 2, height: 3, depth_or_array_layers: 1 },
        TextureFormat::Rgba8UnormSrgb,
        TextureDimension::D2,
        "history",
    );
    assert_eq!(plan.texture.label, "history");
    assert_eq!(plan.sampler.address_mode_u, AddressMode::ClampToEdge);
    assert_eq!(plan.sampler.address_mode_w, AddressMode::Repeat);
    assert_eq!(plan.sampler.mag_filter, FilterMode::Linear);
    assert_eq!(plan.sampler.min_filter, FilterMode::Nearest);
    assert_eq!(plan.sampler.compare, None);
    assert_eq!(plan.sampler.lod_clamp, None);
    let layout = PresentTexture::bind_group_layout();
    assert_eq!(layout[0].binding, 0);
    assert_eq!(
        layout[0].kind,
        BindingKind::Texture { view_dimension: TextureViewDimension::D2, filterable: false }
    );
    assert_eq!(layout[1].binding, 1);
    assert_eq!(layout[1].kind, BindingKind::Sampler { comparison: false, filtering: true });
}

#[test]
fn depth_texture_compares_less_equal() {
    let plan = DepthTexture::new(Extent3d { width: 5, height: 6, depth_or_array_layers: 1 });
    assert_eq!(plan.texture.label, "Depth Buffer");
    assert_eq!(plan.texture.format, TextureFormat::Depth32Float);
    assert_eq!(
        plan.texture.usage,
        TextureUsages {
            render_attachment: true,
            texture_binding: true,
            copy_src: false,
            copy_dst: false
        }
    );
    assert_eq!(plan.sampler.compare, Some(CompareFunction::LessEqual));
    assert_eq!(plan.sampler.lod_clamp, Some(LodClamp { min: -100, max: 100 }));
    assert_eq!(plan.sampler.min_filter, FilterMode::Linear);
    let layout = DepthTexture::bind_group_layout();
    assert!(!layout[0].visibility.vertex && layout[0].visibility.fragment);
    assert_eq!(layout[1].kind, BindingKind::Sampler { comparison: true, filtering: true });
}

#[test]
fn composite_pipeline_overwrites_the_surface() {
    let pipeline = PresentationPass::<u8, 1>::create_pipeline(TextureFormat::Surface);
    assert_eq!(pipeline.label, "Presentation Pipeline");
    assert!(matches!(pipeline.source, ShaderSource::Present));
    assert_eq!(pipeline.depth_stencil, None);
    let replace = BlendComponent {
        src_factor: BlendFactor::One,
        dst_factor: BlendFactor::Zero,
        operation: BlendOperation::Add,
    };
    assert_eq!(pipeline.blend, Some(BlendState { color: replace, alpha: replace }));
    assert_eq!(pipeline.bind_group_layouts.len(), 1);
    assert_eq!(
        pipeline.bind_group_layouts[0][1].kind,
        BindingKind::Sampler { comparison: false, filtering: false }
    );
}
