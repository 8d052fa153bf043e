use vstd::prelude::*;
use crate::entity::{attachment_chain, Entity, EntityList, STUDIO_RENDER};
use crate::features::renderable_object::{attachment_draws, draw_attachment_chain};
use crate::color::{spec_mul_255_if_supports, Color};
use crate::key_values::KeyValues;
use crate::render::{
    screen_space_rect_command, stencil_commands, default_stencil_state, ClearBuffersBuilder, ColorBits,
    Material, ModelRender, OverrideDepthBuilder, RenderCommand, RenderContext, RenderQueue, ScreenSpaceRect,
    ScreenSpaceRectBuilder, StencilCmpFn, StencilOp, StencilState, Texture,
};

verus! {

/// Which entities a glow configuration is for.
#[derive(Clone, Copy, Debug, PartialEq, Eq, Structural)]
pub enum GlowConfigKind {
    Enemies,
    Allies,
    Weapons,
}

/// Glow settings of one kind; the colour and fade rate are kept by the caller.
#[derive(Clone, Copy, Debug, PartialEq, Eq, Structural)]
pub struct GlowItemConfig {
    pub enabled: bool,
    pub fade_out_when_spotted: bool,
}

/// Glow settings for enemies, allies and weapons lying around.
#[derive(Clone, Copy, Debug, PartialEq, Eq, Structural)]
pub struct GlowConfig {
    pub current_config_index: usize,
    pub enemies: GlowItemConfig,
    pub allies: GlowItemConfig,
    pub weapons: GlowItemConfig,
}

impl GlowConfig {
    pub open spec fn spec_get(&self, kind: GlowConfigKind) -> GlowItemConfig {
        match kind {
            GlowConfigKind::Enemies => self.enemies,
            GlowConfigKind::Allies => self.allies,
            GlowConfigKind::Weapons => self.weapons,
        }
    }

    pub fn get(&self, kind: GlowConfigKind) -> (c: &GlowItemConfig)
        ensures
            *c == self.spec_get(kind),
    {
        match kind {
            GlowConfigKind::Enemies => &self.enemies,
            GlowConfigKind::Allies => &self.allies,
            GlowConfigKind::Weapons => &self.weapons,
        }
    }

    /// Whether any kind of glow is switched on.
    pub fn should_glow(&self) -> (b: bool)
        ensures
            b == (self.enemies.enabled || self.allies.enabled || self.weapons.enabled),
    {
        self.enemies.enabled || self.allies.enabled || self.weapons.enabled
    }
}

/// The configuration an entity glows with: players are enemies when a local player exists
/// on another team and allies otherwise, weapons without an owner are weapons, and
/// nothing else glows.
pub open spec fn spec_determine_config(entity: Entity, local_player: Option<Entity>) -> Option<GlowConfigKind> {
    if entity.player {
        Some(
            match local_player {
                Some(lp) => if lp.team != entity.team {
                    GlowConfigKind::Enemies
                } else {
                    GlowConfigKind::Allies
                },
                None => GlowConfigKind::Allies,
            },
        )
    } else if entity.weapon && entity.owner_handle == crate::entity::INVALID_HANDLE {
        Some(GlowConfigKind::Weapons)
    } else {
        None
    }
}

/// Which configuration an entity glows with, if any.
pub fn determine_config(entity: &Entity, local_player: Option<&Entity>) -> (k: Option<GlowConfigKind>)
    ensures
        k == spec_determine_config(*entity, match local_player { Some(e) => Some(*e), None => None }),
{
    if entity.is_player() {
        match local_player {
            Some(lp) => if lp.team() != entity.team() {
                Some(GlowConfigKind::Enemies)
            } else {
                Some(GlowConfigKind::Allies)
            },
            None => Some(GlowConfigKind::Allies),
        }
    } else if entity.is_weapon() && entity.has_no_owner() {
        Some(GlowConfigKind::Weapons)
    } else {
        None
    }
}

/// Whether the engine would draw the entity and it is not dormant.
pub fn should_draw_model(entity: &Entity) -> (b: bool)
    ensures
        b == (entity.renderable.should_draw && !entity.networkable.dormant),
{
    entity.renderable().should_draw() && !entity.networkable().is_dormant()
}

/// The commands that draw an entity together with its attachments.
pub open spec fn model_draws(list: &EntityList, e: Entity) -> Seq<RenderCommand> {
    seq![RenderCommand::DrawModel { entity_index: e.renderable.entity_index, flags: STUDIO_RENDER }]
        + attachment_draws(attachment_chain(list, &e)->0)
}

/// Draws an entity's model and every attached model that the engine would draw.
pub fn draw_model(entity: &Entity, list: &EntityList, queue: &mut RenderQueue)
    requires
        attachment_chain(list, entity) is Some,
    ensures
        final(queue)@ == old(queue)@ + model_draws(list, *entity),
{
    entity.renderable().draw_model(queue);
    draw_attachment_chain(entity, list, queue);
    assert(queue@ =~= old(queue)@ + model_draws(list, *entity));
}

/// Whether an entity takes part in the glow effect.
pub open spec fn glows(config: GlowConfig, e: Entity, local_player: Option<Entity>) -> bool {
    &&& e.renderable.should_draw
    &&& !e.networkable.dormant
    &&& spec_determine_config(e, local_player) matches Some(k)
    &&& config.spec_get(k).enabled
}

/// The draws of the entities of `es` that glow.
pub open spec fn glow_model_draws(list: &EntityList, config: GlowConfig, es: Seq<Entity>, local_player: Option<Entity>) -> Seq<RenderCommand>
    decreases es.len(),
{
    if es.len() == 0 {
        Seq::empty()
    } else {
        glow_model_draws(list, config, es.drop_last(), local_player) + if glows(
            config,
            es.last(),
            local_player,
        ) {
            model_draws(list, es.last())
        } else {
            Seq::empty()
        }
    }
}

/// The stencil state of the pass that marks glowing models: every drawn pixel gets 1.
pub open spec fn marking_stencil_state() -> StencilState {
    StencilState {
        enable: true,
        z_fail_op: StencilOp::Replace,
        pass_op: StencilOp::Replace,
        ref_value: 1,
        ..default_stencil_state()
    }
}

/// The stencil state of the pass that draws the halo: only where nothing was marked.
pub open spec fn halo_stencil_state() -> StencilState {
    StencilState {
        enable: true,
        cmp_fn: StencilCmpFn::Equal,
        test_mask: 0xFF,
        write_mask: 0x0,
        ..default_stencil_state()
    }
}

/// The stencil state of the halo pass.
pub fn halo_stencil() -> (s: StencilState)
    ensures
        s == halo_stencil_state(),
{
    StencilState {
        enable: true,
        cmp_fn: StencilCmpFn::Equal,
        test_mask: 0xFF,
        write_mask: 0x0,
        ..StencilState::default()
    }
}

/// The commands of the marking pass for the entities `es`.
pub open spec fn marking_pass(list: &EntityList, config: GlowConfig, es: Seq<Entity>, local_player: Option<Entity>) -> Seq<RenderCommand> {
    seq![
        RenderCommand::OverrideDepthEnable { enable: true, depth_enable: false },
        RenderCommand::SaveBlendAndClear,
    ] + stencil_commands(marking_stencil_state()) + glow_model_draws(list, config, es, local_player)
        + seq![RenderCommand::OverrideDepthEnable { enable: false, depth_enable: false }]
        + stencil_commands(default_stencil_state()) + seq![RenderCommand::RestoreBlend]
}

/// Whether some entity of `es` glows.
pub open spec fn any_glows(config: GlowConfig, es: Seq<Entity>, local_player: Option<Entity>) -> bool {
    exists|i: int| 0 <= i < es.len() && glows(config, #[trigger] es[i], local_player)
}

/// The first part of the glow effect: with depth testing overridden and the blend at zero,
/// draws every glowing entity (and its attachments) into the stencil buffer, marking it
/// with 1, then restores the state. Says whether anything was drawn; when nothing was,
/// the effect ends here.
pub fn mark_glowing_models(
    config: &GlowConfig,
    entities: &Vec<&Entity>,
    local_player: Option<&Entity>,
    list: &EntityList,
    render_ctx: &RenderContext,
    queue: &mut RenderQueue,
) -> (drew_anything: bool)
    requires
        forall|i: int| 0 <= i < entities.len() ==> attachment_chain(list, #[trigger] entities@[i]) is Some,
    ensures
        ({
            let es = entities@.map_values(|e: &Entity| *e);
            let lp = match local_player { Some(e) => Some(*e), None => None };
            &&& final(queue)@ == old(queue)@ + marking_pass(list, *config, es, lp)
            &&& drew_anything == any_glows(*config, es, lp)
        }),
{
    let ghost es = entities@.map_values(|e: &Entity| *e);
    let ghost lp = match local_player { Some(e) => Some(*e), None => None };
    OverrideDepthBuilder::default().enable(true).build_and_override(render_ctx, queue);
    queue.push(RenderCommand::SaveBlendAndClear);
    let marking = StencilState {
        enable: true,
        z_fail_op: StencilOp::Replace,
        pass_op: StencilOp::Replace,
        ref_value: 1,
        ..StencilState::default()
    };
    marking.set(render_ctx, queue);
    let ghost start = queue@;
    let mut drew_anything = false;
    let mut i: usize = 0;
    while i < entities.len()
        invariant
            i <= entities.len(),
            es == entities@.map_values(|e: &Entity| *e),
            lp == match local_player { Some(e) => Some(*e), None => None },
            forall|j: int| 0 <= j < entities.len() ==> attachment_chain(list, #[trigger] entities@[j]) is Some,
            queue@ == start + glow_model_draws(list, *config, es.take(i as int), lp),
            drew_anything == any_glows(*config, es.take(i as int), lp),
        decreases entities.len() - i,
    {
        let e = entities[i];
        assert(es.take(i + 1).drop_last() =~= es.take(i as int));
        assert(es.take(i + 1).last() == *e);
        if should_draw_model(e) {
            if let Some(k) = determine_config(e, local_player) {
                if config.get(k).enabled {
                    draw_model(e, list, queue);
                    drew_anything = true;
                }
            }
        }
        proof {
            let t = es.take(i + 1);
            if glows(*config, *e, lp) {
                assert(t[i as int] == *e);
            } else if any_glows(*config, t, lp) {
                let w = choose|w: int| 0 <= w < t.len() && glows(*config, #[trigger] t[w], lp);
                assert(w < i);
                assert(es.take(i as int)[w] == t[w]);
            }
            if any_glows(*config, es.take(i as int), lp) {
                let w = choose|w: int| 0 <= w < i && glows(*config, #[trigger] es.take(i as int)[w], lp);
                assert(t[w] == es.take(i as int)[w]);
            }
        }
        i = i + 1;
    }
    assert(es.take(entities.len() as int) =~= es);
    OverrideDepthBuilder::default().enable(false).build_and_override(render_ctx, queue);
    StencilState::default().set(render_ctx, queue);
    queue.push(RenderCommand::RestoreBlend);
    assert(queue@ =~= old(queue)@ + marking_pass(list, *config, es, lp));
    drew_anything
}


/// `-0.5f32` as bits: where the halo texture starts vertically.
pub const MINUS_HALF_F32_BITS: u32 = 0xBF00_0000u32;

/// The glow effect: the render targets and materials it draws with.
#[derive(Clone, Copy, Debug, PartialEq, Eq, Structural)]
pub struct Glow {
    pub rt_quarter_size_1: Texture,
    pub rt_glow_buf_1: Texture,
    pub rt_glow_buf_2: Texture,
    pub glow_material: Material,
    pub halo_material: Material,
    pub glow_blur_x_material: Material,
    pub glow_blur_y_material: Material,
}

/// What one frame of the glow effect needs besides the entities. The values that the
/// engine takes as `f32` are computed by the caller and held as bit patterns: `colors[i]`
/// is the colour that entity `i` glows with, `None` when its alpha has faded to zero;
/// `blur_texture_extent` is the view size and `halo_texture_extent` the quarter view size
/// less one, both as `f32`.
pub struct GlowFrame {
    pub view_dimensions: (i32, i32),
    pub colors: Vec<Option<ColorBits>>,
    pub blur_texture_extent: (u32, u32),
    pub halo_texture_extent: (u32, u32),
}

/// The stencil state while the glowing models are drawn into the glow buffer.
pub open spec fn glow_buffer_stencil_state() -> StencilState {
    StencilState { test_mask: 0xFF, ..default_stencil_state() }
}

/// The coloured draws of the entities of `es` that glow and have a colour.
pub open spec fn glowing_draws(
    list: &EntityList,
    config: GlowConfig,
    es: Seq<Entity>,
    lp: Option<Entity>,
    colors: Seq<Option<ColorBits>>,
) -> Seq<RenderCommand>
    decreases es.len(),
{
    if es.len() == 0 {
        Seq::empty()
    } else {
        glowing_draws(list, config, es.drop_last(), lp, colors.drop_last()) + if glows(config, es.last(), lp)
            && colors.last() is Some {
            seq![RenderCommand::SetColorWithBlend(colors.last()->0)] + model_draws(list, es.last())
        } else {
            Seq::empty()
        }
    }
}

impl Glow {
    /// The pass that draws the glowing models, coloured, into the first glow buffer.
    pub open spec fn glowing_pass(
        self,
        list: &EntityList,
        config: GlowConfig,
        es: Seq<Entity>,
        lp: Option<Entity>,
        dims: (i32, i32),
        colors: Seq<Option<ColorBits>>,
    ) -> Seq<RenderCommand> {
        let black = spec_mul_255_if_supports(Color { r: 0u8, g: 0u8, b: 0u8, a: 1u8, mode: crate::color::ColorMode::OneBased });
        seq![
            RenderCommand::PushRtAndViewport(self.rt_glow_buf_1),
            RenderCommand::SetViewport { x: 0, y: 0, width: dims.0, height: dims.1 },
            RenderCommand::SaveColorWithBlend,
            RenderCommand::ClearColor3ub { r: black.r, g: black.g, b: black.b },
            RenderCommand::ClearBuffers { clear_color: true, clear_depth: false, clear_stencil: false },
            RenderCommand::ForcedMaterialOverride(Some(self.glow_material)),
        ] + stencil_commands(glow_buffer_stencil_state()) + glowing_draws(list, config, es, lp, colors)
            + seq![RenderCommand::RestoreColorWithBlend, RenderCommand::ForcedMaterialOverride(None)]
            + stencil_commands(default_stencil_state()) + seq![RenderCommand::PopRtAndViewport]
    }

    /// The blur rectangle drawn with `material`.
    pub open spec fn blur_rect(self, material: Material, dims: (i32, i32), extent: (u32, u32)) -> ScreenSpaceRect {
        ScreenSpaceRect {
            material,
            pos: (0, 0),
            dimensions: dims,
            texture_x0_y0: (0, 0),
            texture_x1_y1: extent,
            texture_dimensions: dims,
        }
    }

    /// The pass that blurs the first glow buffer horizontally into the second and back
    /// vertically.
    pub open spec fn blur_pass(self, dims: (i32, i32), extent: (u32, u32)) -> Seq<RenderCommand> {
        seq![
            RenderCommand::PushRtAndViewport(self.rt_glow_buf_2),
            RenderCommand::SetViewport { x: 0, y: 0, width: dims.0, height: dims.1 },
            screen_space_rect_command(self.blur_rect(self.glow_blur_x_material, dims, extent)),
            RenderCommand::SetRenderTarget(self.rt_glow_buf_1),
            screen_space_rect_command(self.blur_rect(self.glow_blur_y_material, dims, extent)),
            RenderCommand::PopRtAndViewport,
        ]
    }

    /// The halo rectangle, drawn over the whole view from the quarter-size buffer.
    pub open spec fn halo_rect(self, dims: (i32, i32), extent: (u32, u32)) -> ScreenSpaceRect {
        ScreenSpaceRect {
            material: self.halo_material,
            pos: (0, 0),
            dimensions: dims,
            texture_x0_y0: (0, MINUS_HALF_F32_BITS),
            texture_x1_y1: extent,
            texture_dimensions: (self.rt_quarter_size_1.actual_width, self.rt_quarter_size_1.actual_height),
        }
    }

    /// Every engine call of one frame of the glow effect: the marking pass, and, when it
    /// drew anything, the glowing pass, the blur and the halo outside the marked pixels.
    pub open spec fn spec_apply_glow_effects(
        self,
        list: &EntityList,
        config: GlowConfig,
        es: Seq<Entity>,
        lp: Option<Entity>,
        dims: (i32, i32),
        colors: Seq<Option<ColorBits>>,
        blur_extent: (u32, u32),
        halo_extent: (u32, u32),
    ) -> Seq<RenderCommand> {
        marking_pass(list, config, es, lp) + if any_glows(config, es, lp) {
            self.glowing_pass(list, config, es, lp, dims, colors) + self.blur_pass(dims, blur_extent)
                + stencil_commands(halo_stencil_state()) + seq![screen_space_rect_command(self.halo_rect(dims, halo_extent))]
                + stencil_commands(default_stencil_state())
        } else {
            Seq::empty()
        }
    }

    /// Whether the entity glows: the caller works out its colour for exactly these.
    pub fn entity_glows(config: &GlowConfig, entity: &Entity, local_player: Option<&Entity>) -> (b: bool)
        ensures
            b == glows(*config, *entity, match local_player { Some(e) => Some(*e), None => None }),
    {
        if !should_draw_model(entity) {
            return false;
        }
        match determine_config(entity, local_player) {
            Some(k) => config.get(k).enabled,
            None => false,
        }
    }

    /// Draws the glowing models in their colours into the first glow buffer, with the glow
    /// material and the colour modulation restored afterwards.
    pub fn draw_glowing_models(
        &self,
        config: &GlowConfig,
        entities: &Vec<&Entity>,
        local_player: Option<&Entity>,
        list: &EntityList,
        frame: &GlowFrame,
        render_ctx: &RenderContext,
        queue: &mut RenderQueue,
    )
        requires
            frame.colors.len() == entities.len(),
            forall|i: int| 0 <= i < entities.len() ==> attachment_chain(list, #[trigger] entities@[i]) is Some,
        ensures
            final(queue)@ == old(queue)@ + self.glowing_pass(
                list,
                *config,
                entities@.map_values(|e: &Entity| *e),
                match local_player { Some(e) => Some(*e), None => None },
                frame.view_dimensions,
                frame.colors@,
            ),
    {
        let ghost es = entities@.map_values(|e: &Entity| *e);
        let ghost lp = match local_player { Some(e) => Some(*e), None => None };
        render_ctx.push_rt_and_set_viewport(&self.rt_glow_buf_1, frame.view_dimensions, queue);
        queue.push(RenderCommand::SaveColorWithBlend);
        render_ctx.clear_color_3u8(Color::black(), queue);
        ClearBuffersBuilder::default().clear_color(true).clear_depth(false).build_and_clear(render_ctx, queue);
        ModelRender.override_material(&self.glow_material, queue);
        StencilState { test_mask: 0xFF, ..StencilState::default() }.set(render_ctx, queue);
        let ghost start = queue@;
        let mut i: usize = 0;
        while i < entities.len()
            invariant
                i <= entities.len(),
                frame.colors.len() == entities.len(),
                es == entities@.map_values(|e: &Entity| *e),
                lp == match local_player { Some(e) => Some(*e), None => None },
                forall|j: int| 0 <= j < entities.len() ==> attachment_chain(list, #[trigger] entities@[j]) is Some,
                queue@ == start + glowing_draws(list, *config, es.take(i as int), lp, frame.colors@.take(i as int)),
            decreases entities.len() - i,
        {
            let e = entities[i];
            assert(es.take(i + 1).drop_last() =~= es.take(i as int));
            assert(frame.colors@.take(i + 1).drop_last() =~= frame.colors@.take(i as int));
            assert(es.take(i + 1).last() == *e);
            if Self::entity_glows(config, e, local_player) {
                match frame.colors[i] {
                    Some(c) => {
                        queue.push(RenderCommand::SetColorWithBlend(c));
                        draw_model(e, list, queue);
                    },
                    None => {},
                }
            }
            i = i + 1;
        }
        assert(es.take(entities.len() as int) =~= es);
        assert(frame.colors@.take(entities.len() as int) =~= frame.colors@);
        queue.push(RenderCommand::RestoreColorWithBlend);
        ModelRender.reset_material(queue);
        StencilState::default().set(render_ctx, queue);
        queue.push(RenderCommand::PopRtAndViewport);
        assert(queue@ =~= old(queue)@ + self.glowing_pass(list, *config, es, lp, frame.view_dimensions, frame.colors@));
    }

    /// Blurs the first glow buffer horizontally into the second, then vertically back.
    pub fn blur_glow_effects(&self, dims: (i32, i32), extent: (u32, u32), render_ctx: &RenderContext, queue: &mut RenderQueue)
        ensures
            final(queue)@ == old(queue)@ + self.blur_pass(dims, extent),
    {
        render_ctx.push_rt_and_set_viewport(&self.rt_glow_buf_2, dims, queue);
        let blur = ScreenSpaceRectBuilder::default()
            .material(self.glow_blur_x_material)
            .pos((0, 0))
            .dimensions(dims)
            .texture_x0_y0((0, 0))
            .texture_x1_y1(extent)
            .texture_dimensions(dims);
        blur.build_and_draw(render_ctx, queue);
        queue.push(RenderCommand::SetRenderTarget(self.rt_glow_buf_1));
        blur.material(self.glow_blur_y_material).build_and_draw(render_ctx, queue);
        queue.push(RenderCommand::PopRtAndViewport);
        assert(queue@ =~= old(queue)@ + self.blur_pass(dims, extent));
    }

    /// One frame of the glow effect: marks the glowing models in the stencil buffer; if
    /// any was drawn, draws them coloured into a buffer, blurs it and lays the halo over
    /// the view wherever no glowing model was marked.
    pub fn apply_glow_effects(
        &self,
        config: &GlowConfig,
        entities: &Vec<&Entity>,
        local_player: Option<&Entity>,
        list: &EntityList,
        frame: &GlowFrame,
        render_ctx: &RenderContext,
        queue: &mut RenderQueue,
    )
        requires
            frame.colors.len() == entities.len(),
            forall|i: int| 0 <= i < entities.len() ==> attachment_chain(list, #[trigger] entities@[i]) is Some,
        ensures
            final(queue)@ == old(queue)@ + self.spec_apply_glow_effects(
                list,
                *config,
                entities@.map_values(|e: &Entity| *e),
                match local_player { Some(e) => Some(*e), None => None },
                frame.view_dimensions,
                frame.colors@,
                frame.blur_texture_extent,
                frame.halo_texture_extent,
            ),
    {
        let ghost es = entities@.map_values(|e: &Entity| *e);
        let ghost lp = match local_player { Some(e) => Some(*e), None => None };
        let drew_anything = mark_glowing_models(config, entities, local_player, list, render_ctx, queue);
        if !drew_anything {
            assert(queue@ =~= old(queue)@ + self.spec_apply_glow_effects(
                list, *config, es, lp, frame.view_dimensions, frame.colors@, frame.blur_texture_extent,
                frame.halo_texture_extent,
            ));
            return;
        }
        let ghost after_marking = queue@;
        self.draw_glowing_models(config, entities, local_player, list, frame, render_ctx, queue);
        self.blur_glow_effects(frame.view_dimensions, frame.blur_texture_extent, render_ctx, queue);
        halo_stencil().set(render_ctx, queue);
        ScreenSpaceRectBuilder::default()
            .material(self.halo_material)
            .pos((0, 0))
            .dimensions(frame.view_dimensions)
            .texture_x0_y0((0, MINUS_HALF_F32_BITS))
            .texture_x1_y1(frame.halo_texture_extent)
            .texture_dimensions(self.rt_quarter_size_1.dimensions())
            .build_and_draw(render_ctx, queue);
        StencilState::default().set(render_ctx, queue);
        assert(queue@ =~= old(queue)@ + self.spec_apply_glow_effects(
            list, *config, es, lp, frame.view_dimensions, frame.colors@, frame.blur_texture_extent,
            frame.halo_texture_extent,
        ));
    }

    /// Draws the glow effect when any kind of glow is switched on.
    pub fn draw(
        &self,
        config: &GlowConfig,
        entities: &Vec<&Entity>,
        local_player: Option<&Entity>,
        list: &EntityList,
        frame: &GlowFrame,
        render_ctx: &RenderContext,
        queue: &mut RenderQueue,
    )
        requires
            frame.colors.len() == entities.len(),
            forall|i: int| 0 <= i < entities.len() ==> attachment_chain(list, #[trigger] entities@[i]) is Some,
        ensures
            final(queue)@ == if config.enemies.enabled || config.allies.enabled || config.weapons.enabled {
                old(queue)@ + self.spec_apply_glow_effects(
                    list,
                    *config,
                    entities@.map_values(|e: &Entity| *e),
                    match local_player { Some(e) => Some(*e), None => None },
                    frame.view_dimensions,
                    frame.colors@,
                    frame.blur_texture_extent,
                    frame.halo_texture_extent,
                )
            } else {
                old(queue)@
            },
    {
        if config.should_glow() {
            self.apply_glow_effects(config, entities, local_player, list, frame, render_ctx, queue);
        }
    }
}


/// A material to create: its name and the settings it is made from.
pub struct MaterialDefinition {
    pub name: &'static str,
    pub key_values: KeyValues,
}

/// A material definition as plain values: name, shader and settings in order.
pub open spec fn definition_view(d: MaterialDefinition) -> (Seq<char>, (Seq<char>, Seq<(Seq<char>, Seq<char>)>)) {
    (d.name@, d.key_values@)
}

/// Name, shader and settings of the `_GlowMaterial` material.
pub open spec fn glow_material_settings() -> (Seq<char>, (Seq<char>, Seq<(Seq<char>, Seq<char>)>)) {
    ("_GlowMaterial"@, ("UnlitGeneric"@, seq![("$BaseTexture"@, "white"@), ("$IgnoreZ"@, "1"@), ("$Model"@, "1"@), ("$LinearWrite"@, "1"@)]))
}

/// Name, shader and settings of the `_HaloMaterial` material.
pub open spec fn halo_material_settings() -> (Seq<char>, (Seq<char>, Seq<(Seq<char>, Seq<char>)>)) {
    ("_HaloMaterial"@, ("screenspace_general"@, seq![("$PixShader"@, "haloaddoutline_ps20"@), ("$Alpha_Blend_Color_Overlay"@, "1"@), ("$BaseTexture"@, "_rt_GlowBuf1"@), ("$C0_X"@, "1"@), ("$IgnoreZ"@, "1"@), ("$LinearRead_BaseTexture"@, "1"@), ("$LinearWrite"@, "1"@)]))
}

/// Name, shader and settings of the `_GlowBlurX` material.
pub open spec fn glow_blur_x_settings() -> (Seq<char>, (Seq<char>, Seq<(Seq<char>, Seq<char>)>)) {
    ("_GlowBlurX"@, ("BlurFilterX"@, seq![("$BaseTexture"@, "_rt_GlowBuf1"@), ("$IgnoreZ"@, "1"@), ("$Translucent"@, "1"@), ("$AlphaTest"@, "1"@)]))
}

/// Name, shader and settings of the `_GlowBlurY` material.
pub open spec fn glow_blur_y_settings() -> (Seq<char>, (Seq<char>, Seq<(Seq<char>, Seq<char>)>)) {
    ("_GlowBlurY"@, ("BlurFilterY"@, seq![("$BaseTexture"@, "_rt_GlowBuf2"@), ("$IgnoreZ"@, "1"@), ("$Translucent"@, "1"@), ("$AlphaTest"@, "1"@)]))
}

impl Glow {
    /// The four materials the glow effect creates, in order: the flat glow material, the
    /// halo, and the horizontal and vertical blur.
    pub fn material_definitions() -> (defs: Vec<MaterialDefinition>)
        ensures
            defs@.len() == 4,
            definition_view(defs@[0]) == glow_material_settings(),
            definition_view(defs@[1]) == halo_material_settings(),
            definition_view(defs@[2]) == glow_blur_x_settings(),
            definition_view(defs@[3]) == glow_blur_y_settings(),
    {
        let mut glow = KeyValues::new_leaked("UnlitGeneric");
        glow.set("$BaseTexture", "white");
        glow.set("$IgnoreZ", "1");
        glow.set("$Model", "1");
        glow.set("$LinearWrite", "1");
        let mut halo = KeyValues::new_leaked("screenspace_general");
        halo.set("$PixShader", "haloaddoutline_ps20");
        halo.set("$Alpha_Blend_Color_Overlay", "1");
        halo.set("$BaseTexture", "_rt_GlowBuf1");
        halo.set("$C0_X", "1");
        halo.set("$IgnoreZ", "1");
        halo.set("$LinearRead_BaseTexture", "1");
        halo.set("$LinearWrite", "1");
        let mut blur_x = KeyValues::new_leaked("BlurFilterX");
        blur_x.set("$BaseTexture", "_rt_GlowBuf1");
        blur_x.set("$IgnoreZ", "1");
        blur_x.set("$Translucent", "1");
        blur_x.set("$AlphaTest", "1");
        let mut blur_y = KeyValues::new_leaked("BlurFilterY");
        blur_y.set("$BaseTexture", "_rt_GlowBuf2");
        blur_y.set("$IgnoreZ", "1");
        blur_y.set("$Translucent", "1");
        blur_y.set("$AlphaTest", "1");
        let mut defs: Vec<MaterialDefinition> = Vec::new();
        defs.push(MaterialDefinition { name: "_GlowMaterial", key_values: glow });
        defs.push(MaterialDefinition { name: "_HaloMaterial", key_values: halo });
        defs.push(MaterialDefinition { name: "_GlowBlurX", key_values: blur_x });
        defs.push(MaterialDefinition { name: "_GlowBlurY", key_values: blur_y });
        assert(defs@[0].key_values@.1 =~= glow_material_settings().1.1);
        assert(defs@[1].key_values@.1 =~= halo_material_settings().1.1);
        assert(defs@[2].key_values@.1 =~= glow_blur_x_settings().1.1);
        assert(defs@[3].key_values@.1 =~= glow_blur_y_settings().1.1);
        defs
    }

    /// The references the glow effect takes when it starts: on the quarter-size buffer and
    /// on the full-frame buffer whose size the glow buffers get.
    pub fn acquire_render_targets(rt_quarter_size_1: &Texture, rt_full_frame: &Texture, queue: &mut RenderQueue)
        ensures
            final(queue)@ == old(queue)@ + seq![
                RenderCommand::IncRefTexture(*rt_quarter_size_1),
                RenderCommand::IncRefTexture(*rt_full_frame),
            ],
    {
        queue.push(RenderCommand::IncRefTexture(*rt_quarter_size_1));
        queue.push(RenderCommand::IncRefTexture(*rt_full_frame));
        assert(queue@ =~= old(queue)@ + seq![
            RenderCommand::IncRefTexture(*rt_quarter_size_1),
            RenderCommand::IncRefTexture(*rt_full_frame),
        ]);
    }

    /// Gives back the references on the effect's three render targets and four materials,
    /// in that order. (The full-frame buffer taken at the start is not among them.)
    pub fn dec_ref_counters(&self, queue: &mut RenderQueue)
        ensures
            final(queue)@ == old(queue)@ + seq![
                RenderCommand::DecRefTexture(self.rt_quarter_size_1),
                RenderCommand::DecRefTexture(self.rt_glow_buf_1),
                RenderCommand::DecRefTexture(self.rt_glow_buf_2),
                RenderCommand::DecRefMaterial(self.glow_material),
                RenderCommand::DecRefMaterial(self.halo_material),
                RenderCommand::DecRefMaterial(self.glow_blur_x_material),
                RenderCommand::DecRefMaterial(self.glow_blur_y_material),
            ],
    {
        queue.push(RenderCommand::DecRefTexture(self.rt_quarter_size_1));
        queue.push(RenderCommand::DecRefTexture(self.rt_glow_buf_1));
        queue.push(RenderCommand::DecRefTexture(self.rt_glow_buf_2));
        queue.push(RenderCommand::DecRefMaterial(self.glow_material));
        queue.push(RenderCommand::DecRefMaterial(self.halo_material));
        queue.push(RenderCommand::DecRefMaterial(self.glow_blur_x_material));
        queue.push(RenderCommand::DecRefMaterial(self.glow_blur_y_material));
        assert(queue@ =~= old(queue)@ + seq![
            RenderCommand::DecRefTexture(self.rt_quarter_size_1),
            RenderCommand::DecRefTexture(self.rt_glow_buf_1),
            RenderCommand::DecRefTexture(self.rt_glow_buf_2),
            RenderCommand::DecRefMaterial(self.glow_material),
            RenderCommand::DecRefMaterial(self.halo_material),
            RenderCommand::DecRefMaterial(self.glow_blur_x_material),
            RenderCommand::DecRefMaterial(self.glow_blur_y_material),
        ]);
    }

    /// The glow effect drawing with these render targets and materials.
    pub fn new(
        rt_quarter_size_1: Texture,
        rt_glow_buf_1: Texture,
        rt_glow_buf_2: Texture,
        glow_material: Material,
        halo_material: Material,
        glow_blur_x_material: Material,
        glow_blur_y_material: Material,
    ) -> (g: Self)
        ensures
            g == (Glow {
                rt_quarter_size_1,
                rt_glow_buf_1,
                rt_glow_buf_2,
                glow_material,
                halo_material,
                glow_blur_x_material,
                glow_blur_y_material,
            }),
    {
        Glow {
            rt_quarter_size_1,
            rt_glow_buf_1,
            rt_glow_buf_2,
            glow_material,
            halo_material,
            glow_blur_x_material,
            glow_blur_y_material,
        }
    }
}

/// The blur goes in two directions: into the second glow buffer with the horizontal-blur
/// material, then, back on the first buffer, with the vertical-blur material; both
/// rectangles cover the whole view and read the given extent of the buffer.
pub proof fn law_blur_horizontal_then_vertical(g: Glow, dims: (i32, i32), extent: (u32, u32))
    ensures
        g.blur_pass(dims, extent).len() == 6,
        g.blur_pass(dims, extent)[0] == RenderCommand::PushRtAndViewport(g.rt_glow_buf_2),
        g.blur_pass(dims, extent)[2] matches RenderCommand::DrawScreenSpaceRect {
            material, x, y, width, height, texture_x1_bits, texture_y1_bits, ..
        } && material == g.glow_blur_x_material && x == 0 && y == 0 && width == dims.0 && height == dims.1
            && texture_x1_bits == extent.0 && texture_y1_bits == extent.1,
        g.blur_pass(dims, extent)[3] == RenderCommand::SetRenderTarget(g.rt_glow_buf_1),
        g.blur_pass(dims, extent)[4] matches RenderCommand::DrawScreenSpaceRect {
            material, x, y, width, height, texture_x1_bits, texture_y1_bits, ..
        } && material == g.glow_blur_y_material && x == 0 && y == 0 && width == dims.0 && height == dims.1
            && texture_x1_bits == extent.0 && texture_y1_bits == extent.1,
        g.blur_pass(dims, extent)[5] == RenderCommand::PopRtAndViewport,
{
}

/// Which settings decide whether an entity glows: never one that is not drawn or is
/// dormant; a player with the enemies' settings when there is a local player on another
/// team, else with the allies'; a weapon nobody holds with the weapons'; nothing else.
pub proof fn law_glow_settings_by_team(config: GlowConfig, e: Entity, lp: Option<Entity>)
    ensures
        !e.renderable.should_draw || e.networkable.dormant ==> !glows(config, e, lp),
        e.renderable.should_draw && !e.networkable.dormant && e.player && lp is Some && lp->0.team != e.team
            ==> (glows(config, e, lp) <==> config.enemies.enabled),
        e.renderable.should_draw && !e.networkable.dormant && e.player && (lp is None || lp->0.team == e.team)
            ==> (glows(config, e, lp) <==> config.allies.enabled),
        e.renderable.should_draw && !e.networkable.dormant && !e.player && e.weapon && e.owner_handle
            == crate::entity::INVALID_HANDLE ==> (glows(config, e, lp) <==> config.weapons.enabled),
        !e.player && !(e.weapon && e.owner_handle == crate::entity::INVALID_HANDLE) ==> !glows(config, e, lp),
{
}

/// The halo lies only outside the glowing models: the marking pass writes 1 into the
/// stencil buffer wherever a glowing model is drawn, hidden or not, and the halo is drawn
/// only where the stencil still holds 0 (in its low byte), writing nothing there.
pub proof fn law_halo_outside_marked_pixels()
    ensures
        marking_stencil_state().enable && marking_stencil_state().cmp_fn == StencilCmpFn::Always,
        marking_stencil_state().pass_op == StencilOp::Replace && marking_stencil_state().z_fail_op == StencilOp::Replace,
        marking_stencil_state().ref_value == 1 && marking_stencil_state().write_mask == 0xFFFF_FFFF,
        halo_stencil_state().enable && halo_stencil_state().cmp_fn == StencilCmpFn::Equal,
        halo_stencil_state().ref_value == 0 && halo_stencil_state().test_mask == 0xFF,
        halo_stencil_state().write_mask == 0,
{
}

/// The blur reads where the passes wrote: the horizontal blur (shader "BlurFilterX") reads
/// the first glow buffer, the vertical blur ("BlurFilterY") the second, and the halo
/// ("screenspace_general" with the outline shader) the first again.
pub proof fn law_glow_materials_read_buffers()
    ensures
        glow_blur_x_settings().0 == "_GlowBlurX"@ && glow_blur_x_settings().1.0 == "BlurFilterX"@,
        glow_blur_x_settings().1.1[0] == ("$BaseTexture"@, "_rt_GlowBuf1"@),
        glow_blur_y_settings().0 == "_GlowBlurY"@ && glow_blur_y_settings().1.0 == "BlurFilterY"@,
        glow_blur_y_settings().1.1[0] == ("$BaseTexture"@, "_rt_GlowBuf2"@),
        halo_material_settings().1.0 == "screenspace_general"@,
        halo_material_settings().1.1[0] == ("$PixShader"@, "haloaddoutline_ps20"@),
        halo_material_settings().1.1[2] == ("$BaseTexture"@, "_rt_GlowBuf1"@),
{
}

proof fn lemma_no_glow_no_model_draws(list: &EntityList, config: GlowConfig, es: Seq<Entity>, lp: Option<Entity>)
    requires
        !any_glows(config, es, lp),
    ensures
        glow_model_draws(list, config, es, lp) == Seq::<RenderCommand>::empty(),
    decreases es.len(),
{
    if es.len() > 0 {
        let d = es.drop_last();
        assert(!any_glows(config, d, lp)) by {
            if any_glows(config, d, lp) {
                let i = choose|i: int| 0 <= i < d.len() && glows(config, #[trigger] d[i], lp);
                assert(es[i] == d[i]);
            }
        }
        lemma_no_glow_no_model_draws(list, config, d, lp);
        assert(!glows(config, es[es.len() - 1], lp));
    }
}

/// A frame with nothing glowing draws nothing: no model and no screen-space rectangle,
/// only the stencil and blend setup of the marking pass. When something glows, the frame
/// blurs with both blur rectangles and lays the halo over the view.
pub proof fn law_glow_frame_draws_iff_something_glows(
    g: Glow,
    list: &EntityList,
    config: GlowConfig,
    es: Seq<Entity>,
    lp: Option<Entity>,
    dims: (i32, i32),
    colors: Seq<Option<ColorBits>>,
    blur_extent: (u32, u32),
    halo_extent: (u32, u32),
)
    ensures
        !any_glows(config, es, lp) ==> forall|k: int|
            0 <= k < g.spec_apply_glow_effects(list, config, es, lp, dims, colors, blur_extent, halo_extent).len()
                ==> !(#[trigger] g.spec_apply_glow_effects(list, config, es, lp, dims, colors, blur_extent, halo_extent)[k] is DrawModel)
                && !(g.spec_apply_glow_effects(list, config, es, lp, dims, colors, blur_extent, halo_extent)[k] is DrawScreenSpaceRect),
        any_glows(config, es, lp) ==> g.spec_apply_glow_effects(list, config, es, lp, dims, colors, blur_extent, halo_extent).contains(
            screen_space_rect_command(g.halo_rect(dims, halo_extent)),
        ),
        any_glows(config, es, lp) ==> g.spec_apply_glow_effects(list, config, es, lp, dims, colors, blur_extent, halo_extent).contains(
            screen_space_rect_command(g.blur_rect(g.glow_blur_x_material, dims, blur_extent)),
        ),
        any_glows(config, es, lp) ==> g.spec_apply_glow_effects(list, config, es, lp, dims, colors, blur_extent, halo_extent).contains(
            screen_space_rect_command(g.blur_rect(g.glow_blur_y_material, dims, blur_extent)),
        ),
{
    let r = g.spec_apply_glow_effects(list, config, es, lp, dims, colors, blur_extent, halo_extent);
    let mp = marking_pass(list, config, es, lp);
    if !any_glows(config, es, lp) {
        lemma_no_glow_no_model_draws(list, config, es, lp);
        assert(r =~= seq![
            RenderCommand::OverrideDepthEnable { enable: true, depth_enable: false },
            RenderCommand::SaveBlendAndClear,
        ] + stencil_commands(marking_stencil_state())
            + seq![RenderCommand::OverrideDepthEnable { enable: false, depth_enable: false }]
            + stencil_commands(default_stencil_state()) + seq![RenderCommand::RestoreBlend]);
    } else {
        let gp = g.glowing_pass(list, config, es, lp, dims, colors);
        let bp = g.blur_pass(dims, blur_extent);
        let rest = gp + bp + stencil_commands(halo_stencil_state()) + seq![screen_space_rect_command(g.halo_rect(dims, halo_extent))]
            + stencil_commands(default_stencil_state());
        assert(r == mp + rest);
        let h: int = (mp.len() + gp.len() + bp.len() + 8) as int;
        assert(r[h] == screen_space_rect_command(g.halo_rect(dims, halo_extent)));
        let b0: int = (mp.len() + gp.len()) as int;
        assert(r[b0 + 2] == bp[2]);
        assert(r[b0 + 4] == bp[4]);
    }
}

} // verus!
