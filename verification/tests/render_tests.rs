use dopamine::color::{Color, ColorMode};
use dopamine::render::{
    BuilderError, ClearBuffers, ClearBuffersBuilder, Material, MaterialFlag, ModelRender, OverrideDepth,
    OverrideDepthBuilder, RenderCommand, RenderContext, RenderQueue, ScreenSpaceRectBuilder, StencilCmpFn,
    StencilOp, StencilState, Texture,
};

#[test]
fn texture_dimensions_are_its_actual_size() {
    let t = Texture { handle: 7, actual_width: 640, actual_height: 480 };
    assert_eq!(t.dimensions(), (640, 480));
}

#[test]
fn engine_numbers_of_flags_and_stencil_settings() {
    assert_eq!(MaterialFlag::IgnoreZ.bits(), 1 << 15);
    assert_eq!(MaterialFlag::Wireframe.bits(), 0x1000_0000);
    assert_eq!(StencilOp::Keep.code(), 1);
    assert_eq!(StencilOp::Replace.code(), 3);
    assert_eq!(StencilCmpFn::Equal.code(), 3);
    assert_eq!(StencilCmpFn::Always.code(), 8);
    assert_eq!(StencilOp::default(), StencilOp::Keep);
    assert_eq!(StencilCmpFn::default(), StencilCmpFn::Always);
}

#[test]
fn model_render_forces_and_resets_material() {
    let m = Material { handle: 3 };
    let mut q = RenderQueue::new();
    ModelRender.override_material(&m, &mut q);
    ModelRender.reset_material(&mut q);
    assert_eq!(
        q.commands,
        vec![RenderCommand::ForcedMaterialOverride(Some(m)), RenderCommand::ForcedMaterialOverride(None)]
    );
}

#[test]
fn push_rt_sets_viewport_at_origin() {
    let t = Texture { handle: 1, actual_width: 8, actual_height: 8 };
    let mut q = RenderQueue::new();
    RenderContext.push_rt_and_set_viewport(&t, (1920, 1080), &mut q);
    assert_eq!(
        q.commands,
        vec![
            RenderCommand::PushRtAndViewport(t),
            RenderCommand::SetViewport { x: 0, y: 0, width: 1920, height: 1080 },
        ]
    );
}

#[test]
fn clear_color_scales_one_based_colours_to_bytes() {
    let mut q = RenderQueue::new();
    RenderContext.clear_color_3u8(Color::white(), &mut q);
    RenderContext.clear_color_3u8(Color { r: 10, g: 20, b: 30, a: 40, mode: ColorMode::FullByte }, &mut q);
    assert_eq!(
        q.commands,
        vec![
            RenderCommand::ClearColor3ub { r: 255, g: 255, b: 255 },
            RenderCommand::ClearColor3ub { r: 10, g: 20, b: 30 },
        ]
    );
}

#[test]
fn clear_buffers_builder_requires_colour_and_depth() {
    let b = ClearBuffersBuilder::default().clear_color(true).clear_depth(false).build();
    assert!(matches!(b, Ok(ClearBuffers { clear_color: true, clear_depth: false, clear_stencil: false })));
    let missing = ClearBuffersBuilder::default().clear_depth(true).build();
    assert!(matches!(missing, Err(BuilderError::UninitializedField("clear_color"))));
    let missing_depth = ClearBuffersBuilder::default().clear_color(true).build();
    assert!(matches!(missing_depth, Err(BuilderError::UninitializedField("clear_depth"))));
    let mut q = RenderQueue::new();
    ClearBuffersBuilder::default().clear_color(true).clear_depth(true).clear_stencil(true).build_and_clear(
        &RenderContext,
        &mut q,
    );
    assert_eq!(
        q.commands,
        vec![RenderCommand::ClearBuffers { clear_color: true, clear_depth: true, clear_stencil: true }]
    );
}

#[test]
fn override_depth_builder_requires_enable() {
    assert!(matches!(
        OverrideDepthBuilder::default().enable(true).build(),
        Ok(OverrideDepth { enable: true, depth_enable: false })
    ));
    assert!(matches!(
        OverrideDepthBuilder::default().depth_enable(true).build(),
        Err(BuilderError::UninitializedField("enable"))
    ));
    let mut q = RenderQueue::new();
    OverrideDepthBuilder::default().enable(false).build_and_override(&RenderContext, &mut q);
    assert_eq!(q.commands, vec![RenderCommand::OverrideDepthEnable { enable: false, depth_enable: false }]);
}

#[test]
fn screen_space_rect_builder_draws_complete_rects_only() {
    let m = Material { handle: 9 };
    let partial = ScreenSpaceRectBuilder::default().material(m).pos((0, 0));
    assert!(matches!(partial.build(), Err(BuilderError::UninitializedField("dimensions"))));
    assert!(matches!(ScreenSpaceRectBuilder::default().build(), Err(BuilderError::UninitializedField("material"))));
    let full = partial
        .dimensions((100, 50))
        .texture_x0_y0((0, 0))
        .texture_x1_y1((1.0f32.to_bits(), 2.0f32.to_bits()))
        .texture_dimensions((25, 12));
    let mut q = RenderQueue::new();
    full.build_and_draw(&RenderContext, &mut q);
    assert_eq!(
        q.commands,
        vec![RenderCommand::DrawScreenSpaceRect {
            material: m,
            x: 0,
            y: 0,
            width: 100,
            height: 50,
            texture_x0_bits: 0,
            texture_y0_bits: 0,
            texture_x1_bits: 1.0f32.to_bits(),
            texture_y1_bits: 2.0f32.to_bits(),
            texture_width: 25,
            texture_height: 12,
        }]
    );
}

#[test]
fn default_stencil_state_and_its_commands() {
    let s = StencilState::default();
    assert!(!s.enable);
    assert_eq!(s.test_mask, u32::MAX);
    assert_eq!(s.write_mask, u32::MAX);
    let mut q = RenderQueue::new();
    s.set(&RenderContext, &mut q);
    assert_eq!(
        q.commands,
        vec![
            RenderCommand::SetStencilEnable(false),
            RenderCommand::SetStencilFailOp(StencilOp::Keep),
            RenderCommand::SetStencilZFailOp(StencilOp::Keep),
            RenderCommand::SetStencilPassOp(StencilOp::Keep),
            RenderCommand::SetStencilCmpFn(StencilCmpFn::Always),
            RenderCommand::SetStencilRefValue(0),
            RenderCommand::SetStencilTestMask(u32::MAX),
            RenderCommand::SetStencilWriteMask(u32::MAX),
        ]
    );
}

#[test]
fn colour_scaling_settles_after_once() {
    let c = Color::rgba(1, 0, 1, 1).mul_255_if_supports();
    assert_eq!((c.r, c.g, c.b, c.a, c.mode), (255, 0, 255, 255, ColorMode::FullByte));
    let again = c.mul_255_if_supports();
    assert_eq!(again, c);
    let m = Color::rgb(2, 3, 4).mul(10);
    assert_eq!((m.r, m.g, m.b, m.a, m.mode), (20, 30, 40, 10, ColorMode::Undefined));
    assert_eq!(Color::black().a, 1);
}
