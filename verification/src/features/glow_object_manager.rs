use vstd::prelude::*;
use crate::engine::Engine;
use crate::entity::{Entity, EntityList, STUDIO_RENDER};
use crate::key_values::KeyValues;
use crate::features::glow::{
    definition_view, glow_blur_x_settings, glow_material_settings, halo_material_settings, MaterialDefinition,
    halo_stencil, halo_stencil_state, marking_stencil_state, MINUS_HALF_F32_BITS};
use crate::render::{
    screen_space_rect_command, stencil_commands, default_stencil_state, ClearBuffersBuilder, ColorBits,
    Material, OverrideDepthBuilder, RenderCommand, RenderContext, RenderQueue, ScreenSpaceRect,
    ScreenSpaceRectBuilder, StencilOp, StencilState, Texture,
};

verus! {

/// Glow settings of one group of players: whether it glows and its colour.
#[derive(Clone, Copy, Debug, PartialEq, Eq, Structural)]
pub struct GlowGroupItem {
    pub enabled: bool,
    pub color: ColorBits,
}

/// Glow settings for enemy and allied players.
#[derive(Clone, Copy, Debug, PartialEq, Eq, Structural)]
pub struct GlowGroupConfig {
    pub enemies: GlowGroupItem,
    pub allies: GlowGroupItem,
}

/// An entity registered for the glow effect, with its colour.
#[derive(Clone, Copy, Debug, PartialEq, Eq, Structural)]
pub struct Object {
    pub entity: Option<Entity>,
    pub color: ColorBits,
}

/// Whether the object's entity is there, drawn by the engine and not dormant.
pub open spec fn object_should_draw(o: Object) -> bool {
    &&& o.entity matches Some(e)
    &&& e.renderable.should_draw
    &&& !e.networkable.dormant
}

/// Whether an object's model can be drawn: it has an entity, and that entity does not have
/// both a first attachment and a peer (the attachment walk repeats the entity's own peer,
/// so with both it would never end).
pub open spec fn object_drawable(list: &EntityList, o: Object) -> bool {
    &&& o.entity matches Some(e)
    &&& (list.spec_from_handle(e.move_child) is None || list.spec_from_handle(e.move_peer) is None)
}

/// The draws of an object's model: the entity, then its first attachment if the engine
/// would draw that.
pub open spec fn object_draws(list: &EntityList, o: Object) -> Seq<RenderCommand> {
    let e = o.entity->0;
    seq![RenderCommand::DrawModel { entity_index: e.renderable.entity_index, flags: STUDIO_RENDER }]
        + match list.spec_from_handle(e.move_child) {
        Some(c) => if c.renderable.should_draw {
            seq![RenderCommand::DrawModel { entity_index: c.renderable.entity_index, flags: STUDIO_RENDER }]
        } else {
            Seq::empty()
        },
        None => Seq::empty(),
    }
}

impl Object {
    /// An object for `entity` in the colour of its group.
    pub fn new(entity: &Entity, config: &GlowGroupItem) -> (o: Self)
        ensures
            o == (Object { entity: Some(*entity), color: config.color }),
    {
        Object { entity: Some(*entity), color: config.color }
    }

    /// Whether the object's model is drawn.
    pub fn should_draw(&self) -> (b: bool)
        ensures
            b == object_should_draw(*self),
    {
        match &self.entity {
            Some(e) => e.renderable.should_draw() && !e.networkable.is_dormant(),
            None => false,
        }
    }

    /// Draws the object's model and then walks its attachments: the first attachment, then
    /// the peer of the entity itself, for as long as there is one.
    pub fn draw_model(&self, list: &EntityList, queue: &mut RenderQueue)
        requires
            object_drawable(list, *self),
        ensures
            final(queue)@ == old(queue)@ + object_draws(list, *self),
    {
        let ent = match &self.entity {
            Some(e) => e,
            None => return,
        };
        ent.renderable.draw_model(queue);
        let mut attachment = ent.move_child(list);
        let mut steps: usize = 0;
        while attachment.is_some()
            invariant
                steps <= 1,
                object_drawable(list, *self),
                *ent == self.entity->0,
                steps == 0 ==> attachment == list.spec_from_handle(ent.move_child),
                steps == 0 ==> queue@ == old(queue)@ + seq![
                    RenderCommand::DrawModel { entity_index: ent.renderable.entity_index, flags: STUDIO_RENDER },
                ],
                steps == 1 ==> attachment == list.spec_from_handle(ent.move_peer),
                steps == 1 ==> attachment is None,
                steps == 1 ==> queue@ == old(queue)@ + object_draws(list, *self),
            decreases 1 - steps,
        {
            let att = attachment.unwrap();
            if att.renderable.should_draw() {
                att.renderable.draw_model(queue);
            }
            attachment = ent.move_peer(list);
            steps = steps + 1;
            assert(queue@ =~= old(queue)@ + object_draws(list, *self));
        }
        proof {
            if steps == 0 {
                assert(queue@ =~= old(queue)@ + object_draws(list, *self));
            }
        }
    }
}

/// Whether some object of `objs` is for the same entity as `e` (the same entity-list index).
pub open spec fn objects_have(objs: Seq<Object>, e: Entity) -> bool {
    exists|i: int| 0 <= i < objs.len() && object_is_for(#[trigger] objs[i], e)
}

/// Whether the object is for the entity with the same entity-list index as `e`.
pub open spec fn object_is_for(o: Object, e: Entity) -> bool {
    o.entity matches Some(x) && x.networkable.index == e.networkable.index
}

/// The glow effect over a list of registered objects: the render targets and materials it
/// draws with, and the objects.
pub struct GlowObjectManager {
    pub rt_quarter_size_1: Texture,
    pub rt_glow_buf_1: Texture,
    pub rt_glow_buf_2: Texture,
    pub glow_material: Option<Material>,
    pub halo_material: Option<Material>,
    pub glow_blur_x_material: Option<Material>,
    pub glow_blur_y_material: Option<Material>,
    pub objects: Vec<Object>,
}

/// The objects after `manage_players` has looked at the entity-list indices `i..hi`,
/// starting from `objs`: every player that is not the local player and has no object yet
/// gets one in the colour of its group, if that group glows.
pub open spec fn managed_objects(
    list: &EntityList,
    config: GlowGroupConfig,
    objs: Seq<Object>,
    lp: Entity,
    i: int,
    hi: int,
) -> Seq<Object>
    decreases hi - i,
{
    if i >= hi {
        objs
    } else {
        let next = match list.spec_by_index(i as i32) {
            Some(e) => if e.local_player || objects_have(objs, *e) {
                objs
            } else if config.enemies.enabled && e.team != lp.team {
                objs.push(Object { entity: Some(*e), color: config.enemies.color })
            } else if config.allies.enabled && e.team == lp.team {
                objs.push(Object { entity: Some(*e), color: config.allies.color })
            } else {
                objs
            },
            None => objs,
        };
        managed_objects(list, config, next, lp, i + 1, hi)
    }
}

/// Registers every player from entity-list index 1 up to `max_clients - 1` that is not the
/// local player and has no object yet, in the colour of its group (enemies are on another
/// team than the local player), if that group glows. Without a local player nothing is
/// registered.
pub fn manage_players(
    config: &GlowGroupConfig,
    list: &EntityList,
    engine: &Engine,
    object_manager: &mut GlowObjectManager,
    local_player: Option<&Entity>,
)
    ensures
        final(object_manager).rt_quarter_size_1 == old(object_manager).rt_quarter_size_1,
        final(object_manager).rt_glow_buf_1 == old(object_manager).rt_glow_buf_1,
        final(object_manager).rt_glow_buf_2 == old(object_manager).rt_glow_buf_2,
        final(object_manager).glow_material == old(object_manager).glow_material,
        final(object_manager).halo_material == old(object_manager).halo_material,
        final(object_manager).glow_blur_x_material == old(object_manager).glow_blur_x_material,
        final(object_manager).glow_blur_y_material == old(object_manager).glow_blur_y_material,
        final(object_manager).objects@ == match local_player {
            Some(lp) => managed_objects(list, *config, old(object_manager).objects@, *lp, 1, engine.max_clients as int),
            None => old(object_manager).objects@,
        },
{
    let local_player = match local_player {
        Some(lp) => lp,
        None => return,
    };
    let max_clients = engine.max_clients();
    let ghost target = managed_objects(list, *config, object_manager.objects@, *local_player, 1, max_clients as int);
    let mut i: i32 = 1;
    while i < max_clients
        invariant
            1 <= i,
            managed_objects(list, *config, object_manager.objects@, *local_player, i as int, max_clients as int) == target,
            object_manager.rt_quarter_size_1 == old(object_manager).rt_quarter_size_1,
            object_manager.rt_glow_buf_1 == old(object_manager).rt_glow_buf_1,
            object_manager.rt_glow_buf_2 == old(object_manager).rt_glow_buf_2,
            object_manager.glow_material == old(object_manager).glow_material,
            object_manager.halo_material == old(object_manager).halo_material,
            object_manager.glow_blur_x_material == old(object_manager).glow_blur_x_material,
            object_manager.glow_blur_y_material == old(object_manager).glow_blur_y_material,
        decreases max_clients - i,
    {
        match list.get_entity_by_index(i) {
            Some(entity) => {
                if !entity.is_local_player() && !object_manager.has_glow_effect(entity) {
                    let is_enemy = entity.team() != local_player.team();
                    if config.enemies.enabled && is_enemy {
                        object_manager.register_object(Object::new(entity, &config.enemies));
                    } else if config.allies.enabled && !is_enemy {
                        object_manager.register_object(Object::new(entity, &config.allies));
                    }
                }
            },
            None => {},
        }
        i = i + 1;
    }
}

impl GlowObjectManager {
    /// A manager drawing into the given render targets, with no materials and no objects.
    pub fn new(rt_quarter_size_1: Texture, rt_glow_buf_1: Texture, rt_glow_buf_2: Texture) -> (m: Self)
        ensures
            m.rt_quarter_size_1 == rt_quarter_size_1,
            m.rt_glow_buf_1 == rt_glow_buf_1,
            m.rt_glow_buf_2 == rt_glow_buf_2,
            m.glow_material is None,
            m.halo_material is None,
            m.glow_blur_x_material is None,
            m.glow_blur_y_material is None,
            m.objects@ == Seq::<Object>::empty(),
    {
        GlowObjectManager {
            rt_quarter_size_1,
            rt_glow_buf_1,
            rt_glow_buf_2,
            glow_material: None,
            halo_material: None,
            glow_blur_x_material: None,
            glow_blur_y_material: None,
            objects: Vec::new(),
        }
    }

    /// The reference the manager takes when it starts: on the quarter-size buffer.
    pub fn acquire_render_target(rt_quarter_size_1: &Texture, queue: &mut RenderQueue)
        ensures
            final(queue)@ == old(queue)@.push(RenderCommand::IncRefTexture(*rt_quarter_size_1)),
    {
        queue.push(RenderCommand::IncRefTexture(*rt_quarter_size_1));
    }

    /// Adds an object at the end.
    pub fn register_object(&mut self, obj: Object)
        ensures
            final(self).objects@ == old(self).objects@.push(obj),
            final(self).rt_quarter_size_1 == old(self).rt_quarter_size_1,
            final(self).rt_glow_buf_1 == old(self).rt_glow_buf_1,
            final(self).rt_glow_buf_2 == old(self).rt_glow_buf_2,
            final(self).glow_material == old(self).glow_material,
            final(self).halo_material == old(self).halo_material,
            final(self).glow_blur_x_material == old(self).glow_blur_x_material,
            final(self).glow_blur_y_material == old(self).glow_blur_y_material,
    {
        self.objects.push(obj);
    }

    /// Removes every object.
    pub fn clear_objects(&mut self)
        ensures
            final(self).objects@ == Seq::<Object>::empty(),
            final(self).rt_quarter_size_1 == old(self).rt_quarter_size_1,
            final(self).rt_glow_buf_1 == old(self).rt_glow_buf_1,
            final(self).rt_glow_buf_2 == old(self).rt_glow_buf_2,
            final(self).glow_material == old(self).glow_material,
            final(self).halo_material == old(self).halo_material,
            final(self).glow_blur_x_material == old(self).glow_blur_x_material,
            final(self).glow_blur_y_material == old(self).glow_blur_y_material,
    {
        self.objects.clear();
    }

    /// Whether the entity already has an object.
    pub fn has_glow_effect(&self, entity: &Entity) -> (b: bool)
        ensures
            b == objects_have(self.objects@, *entity),
    {
        let mut i: usize = 0;
        while i < self.objects.len()
            invariant
                i <= self.objects.len(),
                forall|j: int| 0 <= j < i ==> !object_is_for(#[trigger] self.objects@[j], *entity),
            decreases self.objects.len() - i,
        {
            match &self.objects[i].entity {
                Some(o) => {
                    if o.networkable.index == entity.networkable.index {
                        assert(object_is_for(self.objects@[i as int], *entity));
                        return true;
                    }
                },
                None => {},
            }
            i = i + 1;
        }
        false
    }
}



/// Whether no two objects are for the same entity.
pub open spec fn objects_unique(objs: Seq<Object>) -> bool {
    forall|i: int, j: int|
        0 <= i < j < objs.len() && (#[trigger] objs[i]).entity is Some ==> !object_is_for(#[trigger] objs[j], objs[i].entity->0)
}

/// Registering players never gives an entity a second object: if no two objects were for
/// the same entity before, none are after.
pub proof fn law_manage_players_keeps_objects_unique(
    list: &EntityList,
    config: GlowGroupConfig,
    objs: Seq<Object>,
    lp: Entity,
    i: int,
    hi: int,
)
    requires
        objects_unique(objs),
    ensures
        objects_unique(managed_objects(list, config, objs, lp, i, hi)),
    decreases hi - i,
{
    if i < hi {
        let next = match list.spec_by_index(i as i32) {
            Some(e) => if e.local_player || objects_have(objs, *e) {
                objs
            } else if config.enemies.enabled && e.team != lp.team {
                objs.push(Object { entity: Some(*e), color: config.enemies.color })
            } else if config.allies.enabled && e.team == lp.team {
                objs.push(Object { entity: Some(*e), color: config.allies.color })
            } else {
                objs
            },
            None => objs,
        };
        if next != objs {
            let e = list.spec_by_index(i as i32)->0;
            assert(!objects_have(objs, *e));
            assert forall|a: int, b: int|
                0 <= a < b < next.len() && (#[trigger] next[a]).entity is Some implies !object_is_for(#[trigger] next[b], next[a].entity->0) by {
                if b == next.len() - 1 {
                    assert(next[a] == objs[a]);
                    if object_is_for(next[b], next[a].entity->0) {
                        assert(object_is_for(objs[a], *e));
                    }
                } else {
                    assert(next[a] == objs[a]);
                    assert(next[b] == objs[b]);
                }
            }
        }
        law_manage_players_keeps_objects_unique(list, config, next, lp, i + 1, hi);
    }
}

/// The marking draws of the objects that are drawn: each with the marking stencil state.
pub open spec fn object_marking_draws(list: &EntityList, objs: Seq<Object>) -> Seq<RenderCommand>
    decreases objs.len(),
{
    if objs.len() == 0 {
        Seq::empty()
    } else {
        object_marking_draws(list, objs.drop_last()) + if object_should_draw(objs.last()) {
            stencil_commands(marking_stencil_state()) + object_draws(list, objs.last())
        } else {
            Seq::empty()
        }
    }
}

/// The coloured draws of the objects that are drawn.
pub open spec fn object_glow_draws(list: &EntityList, objs: Seq<Object>) -> Seq<RenderCommand>
    decreases objs.len(),
{
    if objs.len() == 0 {
        Seq::empty()
    } else {
        object_glow_draws(list, objs.drop_last()) + if object_should_draw(objs.last()) {
            seq![RenderCommand::SetColorWithBlend(objs.last().color)] + object_draws(list, objs.last())
        } else {
            Seq::empty()
        }
    }
}

/// Whether some object is drawn.
pub open spec fn any_object_draws(objs: Seq<Object>) -> bool {
    exists|i: int| 0 <= i < objs.len() && object_should_draw(#[trigger] objs[i])
}

/// Whether every object that is drawn can be drawn.
pub open spec fn objects_drawable(list: &EntityList, objs: Seq<Object>) -> bool {
    forall|i: int| 0 <= i < objs.len() && object_should_draw(#[trigger] objs[i]) ==> object_drawable(list, objs[i])
}

impl GlowObjectManager {
    /// The pass that draws the objects, coloured, into the first glow buffer.
    pub open spec fn glow_models_pass(&self, list: &EntityList, dims: (i32, i32)) -> Seq<RenderCommand> {
        seq![
            RenderCommand::PushRtAndViewport(self.rt_glow_buf_1),
            RenderCommand::SetViewport { x: 0, y: 0, width: dims.0, height: dims.1 },
            RenderCommand::SaveColorWithBlend,
            RenderCommand::ClearColor3ub { r: 0, g: 0, b: 0 },
            RenderCommand::ClearBuffers { clear_color: true, clear_depth: false, clear_stencil: false },
            RenderCommand::ForcedMaterialOverride(self.glow_material),
        ] + stencil_commands(StencilState { test_mask: 0xFF, ..default_stencil_state() })
            + object_glow_draws(list, self.objects@)
            + seq![RenderCommand::ForcedMaterialOverride(None), RenderCommand::RestoreColorWithBlend]
            + stencil_commands(default_stencil_state()) + seq![RenderCommand::PopRtAndViewport]
    }

    /// The rectangle of one blur direction.
    pub open spec fn blur_rect(&self, material: Material, dims: (i32, i32), extent: (u32, u32)) -> ScreenSpaceRect {
        ScreenSpaceRect {
            material,
            pos: (0, 0),
            dimensions: dims,
            texture_x0_y0: (0, 0),
            texture_x1_y1: extent,
            texture_dimensions: dims,
        }
    }

    /// The blur: horizontally from the first buffer into the second, vertically back.
    pub open spec fn blur_pass(&self, dims: (i32, i32), extent: (u32, u32)) -> Seq<RenderCommand> {
        seq![
            RenderCommand::PushRtAndViewport(self.rt_glow_buf_2),
            RenderCommand::SetViewport { x: 0, y: 0, width: dims.0, height: dims.1 },
            screen_space_rect_command(self.blur_rect(self.glow_blur_x_material->0, dims, extent)),
            RenderCommand::SetRenderTarget(self.rt_glow_buf_1),
            screen_space_rect_command(self.blur_rect(self.glow_blur_y_material->0, dims, extent)),
            RenderCommand::PopRtAndViewport,
        ]
    }

    /// The halo rectangle over the whole view.
    pub open spec fn halo_rect(&self, dims: (i32, i32), extent: (u32, u32)) -> ScreenSpaceRect {
        ScreenSpaceRect {
            material: self.halo_material->0,
            pos: (0, 0),
            dimensions: dims,
            texture_x0_y0: (0, MINUS_HALF_F32_BITS),
            texture_x1_y1: extent,
            texture_dimensions: (self.rt_quarter_size_1.actual_width, self.rt_quarter_size_1.actual_height),
        }
    }

    /// Every engine call of one frame of the effect: the marking pass over the objects, and
    /// when it drew anything, the coloured pass, the blur and the halo.
    pub open spec fn spec_apply_entity_glow_effects(
        &self,
        list: &EntityList,
        dims: (i32, i32),
        blur_extent: (u32, u32),
        halo_extent: (u32, u32),
    ) -> Seq<RenderCommand> {
        seq![
            RenderCommand::ForcedMaterialOverride(None),
            RenderCommand::OverrideDepthEnable { enable: true, depth_enable: false },
        ] + stencil_commands(default_stencil_state()) + seq![RenderCommand::SaveBlendAndClear]
            + object_marking_draws(list, self.objects@)
            + seq![RenderCommand::OverrideDepthEnable { enable: false, depth_enable: false }]
            + stencil_commands(default_stencil_state())
            + seq![RenderCommand::RestoreBlend, RenderCommand::ForcedMaterialOverride(None)]
            + if any_object_draws(self.objects@) {
            self.glow_models_pass(list, dims) + self.blur_pass(dims, blur_extent) + stencil_commands(
                halo_stencil_state(),
            ) + seq![screen_space_rect_command(self.halo_rect(dims, halo_extent))] + stencil_commands(
                default_stencil_state(),
            )
        } else {
            Seq::empty()
        }
    }

    /// Draws the objects, coloured, into the first glow buffer.
    pub fn draw_glow_models(&self, list: &EntityList, dims: (i32, i32), render_ctx: &RenderContext, queue: &mut RenderQueue)
        requires
            objects_drawable(list, self.objects@),
        ensures
            final(queue)@ == old(queue)@ + self.glow_models_pass(list, dims),
    {
        render_ctx.push_rt_and_set_viewport(&self.rt_glow_buf_1, dims, queue);
        queue.push(RenderCommand::SaveColorWithBlend);
        queue.push(RenderCommand::ClearColor3ub { r: 0, g: 0, b: 0 });
        ClearBuffersBuilder::default().clear_color(true).clear_depth(false).build_and_clear(render_ctx, queue);
        queue.push(RenderCommand::ForcedMaterialOverride(self.glow_material));
        StencilState { test_mask: 0xFF, ..StencilState::default() }.set(render_ctx, queue);
        let ghost start = queue@;
        let mut i: usize = 0;
        while i < self.objects.len()
            invariant
                i <= self.objects.len(),
                objects_drawable(list, self.objects@),
                queue@ == start + object_glow_draws(list, self.objects@.take(i as int)),
            decreases self.objects.len() - i,
        {
            let obj = &self.objects[i];
            assert(self.objects@.take(i + 1).drop_last() =~= self.objects@.take(i as int));
            assert(self.objects@.take(i + 1).last() == *obj);
            if obj.should_draw() {
                queue.push(RenderCommand::SetColorWithBlend(obj.color));
                obj.draw_model(list, queue);
            }
            i = i + 1;
        }
        assert(self.objects@.take(self.objects.len() as int) =~= self.objects@);
        queue.push(RenderCommand::ForcedMaterialOverride(None));
        queue.push(RenderCommand::RestoreColorWithBlend);
        StencilState::default().set(render_ctx, queue);
        queue.push(RenderCommand::PopRtAndViewport);
        assert(queue@ =~= old(queue)@ + self.glow_models_pass(list, dims));
    }

    /// Blurs the first glow buffer into the second and back.
    pub fn blur_glow_effects(&self, dims: (i32, i32), extent: (u32, u32), render_ctx: &RenderContext, queue: &mut RenderQueue)
        requires
            self.glow_blur_x_material is Some,
            self.glow_blur_y_material is Some,
        ensures
            final(queue)@ == old(queue)@ + self.blur_pass(dims, extent),
    {
        render_ctx.push_rt_and_set_viewport(&self.rt_glow_buf_2, dims, queue);
        let blur_x = match self.glow_blur_x_material {
            Some(m) => m,
            None => return,
        };
        let blur_y = match self.glow_blur_y_material {
            Some(m) => m,
            None => return,
        };
        let rect = ScreenSpaceRectBuilder::default()
            .material(blur_x)
            .pos((0, 0))
            .dimensions(dims)
            .texture_x0_y0((0, 0))
            .texture_x1_y1(extent)
            .texture_dimensions(dims);
        rect.build_and_draw(render_ctx, queue);
        queue.push(RenderCommand::SetRenderTarget(self.rt_glow_buf_1));
        rect.material(blur_y).build_and_draw(render_ctx, queue);
        queue.push(RenderCommand::PopRtAndViewport);
        assert(queue@ =~= old(queue)@ + self.blur_pass(dims, extent));
    }

    /// One frame of the effect: with depth testing overridden and the blend at zero, marks
    /// every drawn object in the stencil buffer; if anything was drawn, draws the objects
    /// coloured into a buffer, blurs it and lays the halo wherever nothing was marked.
    pub fn apply_entity_glow_effects(
        &self,
        list: &EntityList,
        dims: (i32, i32),
        blur_extent: (u32, u32),
        halo_extent: (u32, u32),
        render_ctx: &RenderContext,
        queue: &mut RenderQueue,
    )
        requires
            objects_drawable(list, self.objects@),
            any_object_draws(self.objects@) ==> self.halo_material is Some && self.glow_blur_x_material is Some
                && self.glow_blur_y_material is Some,
        ensures
            final(queue)@ == old(queue)@ + self.spec_apply_entity_glow_effects(list, dims, blur_extent, halo_extent),
    {
        queue.push(RenderCommand::ForcedMaterialOverride(None));
        OverrideDepthBuilder::default().enable(true).build_and_override(render_ctx, queue);
        StencilState::default().set(render_ctx, queue);
        queue.push(RenderCommand::SaveBlendAndClear);
        let ghost start = queue@;
        let mut drew_anything = false;
        let mut i: usize = 0;
        while i < self.objects.len()
            invariant
                i <= self.objects.len(),
                objects_drawable(list, self.objects@),
                queue@ == start + object_marking_draws(list, self.objects@.take(i as int)),
                drew_anything == any_object_draws(self.objects@.take(i as int)),
            decreases self.objects.len() - i,
        {
            let obj = &self.objects[i];
            let ghost t = self.objects@.take(i + 1);
            assert(t.drop_last() =~= self.objects@.take(i as int));
            assert(t.last() == *obj);
            if obj.should_draw() {
                StencilState {
                    enable: true,
                    z_fail_op: StencilOp::Replace,
                    pass_op: StencilOp::Replace,
                    ref_value: 1,
                    ..StencilState::default()
                }.set(render_ctx, queue);
                obj.draw_model(list, queue);
                drew_anything = true;
            }
            proof {
                if object_should_draw(*obj) {
                    assert(t[i as int] == *obj);
                } else if any_object_draws(t) {
                    let w = choose|w: int| 0 <= w < t.len() && object_should_draw(#[trigger] t[w]);
                    assert(self.objects@.take(i as int)[w] == t[w]);
                }
                if any_object_draws(self.objects@.take(i as int)) {
                    let w = choose|w: int| 0 <= w < i && object_should_draw(#[trigger] self.objects@.take(i as int)[w]);
                    assert(t[w] == self.objects@.take(i as int)[w]);
                }
            }
            i = i + 1;
        }
        assert(self.objects@.take(self.objects.len() as int) =~= self.objects@);
        OverrideDepthBuilder::default().enable(false).build_and_override(render_ctx, queue);
        StencilState::default().set(render_ctx, queue);
        queue.push(RenderCommand::RestoreBlend);
        queue.push(RenderCommand::ForcedMaterialOverride(None));
        if !drew_anything {
            assert(queue@ =~= old(queue)@ + self.spec_apply_entity_glow_effects(list, dims, blur_extent, halo_extent));
            return;
        }
        self.draw_glow_models(list, dims, render_ctx, queue);
        self.blur_glow_effects(dims, blur_extent, render_ctx, queue);
        halo_stencil().set(render_ctx, queue);
        let halo = match self.halo_material {
            Some(m) => m,
            None => return,
        };
        ScreenSpaceRectBuilder::default()
            .material(halo)
            .pos((0, 0))
            .dimensions(dims)
            .texture_x0_y0((0, MINUS_HALF_F32_BITS))
            .texture_x1_y1(halo_extent)
            .texture_dimensions(self.rt_quarter_size_1.dimensions())
            .build_and_draw(render_ctx, queue);
        StencilState::default().set(render_ctx, queue);
        assert(queue@ =~= old(queue)@ + self.spec_apply_entity_glow_effects(list, dims, blur_extent, halo_extent));
    }

    /// Draws the glow effect of the registered objects.
    pub fn draw_glow_effects(
        &self,
        list: &EntityList,
        dims: (i32, i32),
        blur_extent: (u32, u32),
        halo_extent: (u32, u32),
        render_ctx: &RenderContext,
        queue: &mut RenderQueue,
    )
        requires
            objects_drawable(list, self.objects@),
            any_object_draws(self.objects@) ==> self.halo_material is Some && self.glow_blur_x_material is Some
                && self.glow_blur_y_material is Some,
        ensures
            final(queue)@ == old(queue)@ + self.spec_apply_entity_glow_effects(list, dims, blur_extent, halo_extent),
    {
        self.apply_entity_glow_effects(list, dims, blur_extent, halo_extent, render_ctx, queue);
    }
}


/// Name, shader and settings of the vertical blur material of the object-based glow, which
/// also sets the bloom amount.
pub open spec fn glow_blur_y_bloom_settings() -> (Seq<char>, (Seq<char>, Seq<(Seq<char>, Seq<char>)>)) {
    ("_GlowBlurY"@, ("BlurFilterY"@, seq![
        ("$BaseTexture"@, "_rt_GlowBuf2"@),
        ("$BloomAmount"@, "1"@),
        ("$IgnoreZ"@, "1"@),
        ("$Translucent"@, "1"@),
        ("$AlphaTest"@, "1"@),
    ]))
}

impl GlowObjectManager {
    /// The four materials the object-based glow creates, in order: glow, halo, horizontal
    /// and vertical blur.
    pub fn material_definitions() -> (defs: Vec<MaterialDefinition>)
        ensures
            defs@.len() == 4,
            definition_view(defs@[0]) == glow_material_settings(),
            definition_view(defs@[1]) == halo_material_settings(),
            definition_view(defs@[2]) == glow_blur_x_settings(),
            definition_view(defs@[3]) == glow_blur_y_bloom_settings(),
    {
        let mut glow = KeyValues::new_leaked("UnlitGeneric");
        glow.set("$BaseTexture", "white");
        glow.set("$IgnoreZ", "1");
        glow.set("$Model", "1");
        glow.set("$LinearWrite", "1");
        let mut halo = KeyValues::new_leaked("screenspace_general");
        halo.set("$PixShader", "haloaddoutline_ps20");
        halo.set("$Alpha_Blend_Color_Overlay", "1");
        halo.set("$BaseTexture", "_rt_GlowBuf1");
        halo.set("$C0_X", "1");
        halo.set("$IgnoreZ", "1");
        halo.set("$LinearRead_BaseTexture", "1");
        halo.set("$LinearWrite", "1");
        let mut blur_x = KeyValues::new_leaked("BlurFilterX");
        blur_x.set("$BaseTexture", "_rt_GlowBuf1");
        blur_x.set("$IgnoreZ", "1");
        blur_x.set("$Translucent", "1");
        blur_x.set("$AlphaTest", "1");
        let mut blur_y = KeyValues::new_leaked("BlurFilterY");
        blur_y.set("$BaseTexture", "_rt_GlowBuf2");
        blur_y.set("$BloomAmount", "1");
        blur_y.set("$IgnoreZ", "1");
        blur_y.set("$Translucent", "1");
        blur_y.set("$AlphaTest", "1");
        let mut defs: Vec<MaterialDefinition> = Vec::new();
        defs.push(MaterialDefinition { name: "_GlowMaterial", key_values: glow });
        defs.push(MaterialDefinition { name: "_HaloMaterial", key_values: halo });
        defs.push(MaterialDefinition { name: "_GlowBlurX", key_values: blur_x });
        defs.push(MaterialDefinition { name: "_GlowBlurY", key_values: blur_y });
        assert(defs@[0].key_values@.1 =~= glow_material_settings().1.1);
        assert(defs@[1].key_values@.1 =~= halo_material_settings().1.1);
        assert(defs@[2].key_values@.1 =~= glow_blur_x_settings().1.1);
        assert(defs@[3].key_values@.1 =~= glow_blur_y_bloom_settings().1.1);
        defs
    }

    /// Takes the materials created from `material_definitions`, `None` for one the engine
    /// did not create.
    pub fn setup_materials(
        &mut self,
        glow_material: Option<Material>,
        halo_material: Option<Material>,
        glow_blur_x_material: Option<Material>,
        glow_blur_y_material: Option<Material>,
    )
        ensures
            final(self).glow_material == glow_material,
            final(self).halo_material == halo_material,
            final(self).glow_blur_x_material == glow_blur_x_material,
            final(self).glow_blur_y_material == glow_blur_y_material,
            final(self).objects@ == old(self).objects@,
            final(self).rt_quarter_size_1 == old(self).rt_quarter_size_1,
            final(self).rt_glow_buf_1 == old(self).rt_glow_buf_1,
            final(self).rt_glow_buf_2 == old(self).rt_glow_buf_2,
    {
        self.glow_material = glow_material;
        self.halo_material = halo_material;
        self.glow_blur_x_material = glow_blur_x_material;
        self.glow_blur_y_material = glow_blur_y_material;
    }
}

/// The blur goes in two directions: into the second glow buffer with the horizontal-blur
/// material, then, back on the first buffer, with the vertical-blur material; both
/// rectangles cover the whole view and read the given extent of the buffer.
pub proof fn law_blur_horizontal_then_vertical(g: GlowObjectManager, dims: (i32, i32), extent: (u32, u32))
    ensures
        g.blur_pass(dims, extent).len() == 6,
        g.blur_pass(dims, extent)[0] == RenderCommand::PushRtAndViewport(g.rt_glow_buf_2),
        g.blur_pass(dims, extent)[2] matches RenderCommand::DrawScreenSpaceRect {
            material, x, y, width, height, texture_x1_bits, texture_y1_bits, ..
        } && material == g.glow_blur_x_material->0 && x == 0 && y == 0 && width == dims.0 && height == dims.1
            && texture_x1_bits == extent.0 && texture_y1_bits == extent.1,
        g.blur_pass(dims, extent)[3] == RenderCommand::SetRenderTarget(g.rt_glow_buf_1),
        g.blur_pass(dims, extent)[4] matches RenderCommand::DrawScreenSpaceRect {
            material, x, y, width, height, texture_x1_bits, texture_y1_bits, ..
        } && material == g.glow_blur_y_material->0 && x == 0 && y == 0 && width == dims.0 && height == dims.1
            && texture_x1_bits == extent.0 && texture_y1_bits == extent.1,
        g.blur_pass(dims, extent)[5] == RenderCommand::PopRtAndViewport,
{
}

proof fn lemma_no_object_no_marking_draws(list: &EntityList, objs: Seq<Object>)
    requires
        !any_object_draws(objs),
    ensures
        object_marking_draws(list, objs) == Seq::<RenderCommand>::empty(),
    decreases objs.len(),
{
    if objs.len() > 0 {
        let d = objs.drop_last();
        assert(!any_object_draws(d)) by {
            if any_object_draws(d) {
                let i = choose|i: int| 0 <= i < d.len() && object_should_draw(#[trigger] d[i]);
                assert(objs[i] == d[i]);
            }
        }
        lemma_no_object_no_marking_draws(list, d);
        assert(!object_should_draw(objs[objs.len() - 1]));
    }
}

/// A frame with no object to draw draws nothing: no model and no screen-space rectangle.
/// When some object is drawn, the frame blurs with both blur rectangles and lays the halo
/// over the view.
pub proof fn law_object_frame_draws_iff_some_object(
    m: GlowObjectManager,
    list: &EntityList,
    dims: (i32, i32),
    blur_extent: (u32, u32),
    halo_extent: (u32, u32),
)
    ensures
        !any_object_draws(m.objects@) ==> forall|k: int|
            0 <= k < m.spec_apply_entity_glow_effects(list, dims, blur_extent, halo_extent).len()
                ==> !(#[trigger] m.spec_apply_entity_glow_effects(list, dims, blur_extent, halo_extent)[k] is DrawModel)
                && !(m.spec_apply_entity_glow_effects(list, dims, blur_extent, halo_extent)[k] is DrawScreenSpaceRect),
        any_object_draws(m.objects@) ==> m.spec_apply_entity_glow_effects(list, dims, blur_extent, halo_extent).contains(
            screen_space_rect_command(m.halo_rect(dims, halo_extent)),
        ),
        any_object_draws(m.objects@) ==> m.spec_apply_entity_glow_effects(list, dims, blur_extent, halo_extent).contains(
            screen_space_rect_command(m.blur_rect(m.glow_blur_x_material->0, dims, blur_extent)),
        ),
        any_object_draws(m.objects@) ==> m.spec_apply_entity_glow_effects(list, dims, blur_extent, halo_extent).contains(
            screen_space_rect_command(m.blur_rect(m.glow_blur_y_material->0, dims, blur_extent)),
        ),
{
    let r = m.spec_apply_entity_glow_effects(list, dims, blur_extent, halo_extent);
    let head = seq![
        RenderCommand::ForcedMaterialOverride(None),
        RenderCommand::OverrideDepthEnable { enable: true, depth_enable: false },
    ] + stencil_commands(default_stencil_state()) + seq![RenderCommand::SaveBlendAndClear]
        + object_marking_draws(list, m.objects@)
        + seq![RenderCommand::OverrideDepthEnable { enable: false, depth_enable: false }]
        + stencil_commands(default_stencil_state())
        + seq![RenderCommand::RestoreBlend, RenderCommand::ForcedMaterialOverride(None)];
    if !any_object_draws(m.objects@) {
        lemma_no_object_no_marking_draws(list, m.objects@);
        assert(r =~= seq![
            RenderCommand::ForcedMaterialOverride(None),
            RenderCommand::OverrideDepthEnable { enable: true, depth_enable: false },
        ] + stencil_commands(default_stencil_state()) + seq![RenderCommand::SaveBlendAndClear]
            + seq![RenderCommand::OverrideDepthEnable { enable: false, depth_enable: false }]
            + stencil_commands(default_stencil_state())
            + seq![RenderCommand::RestoreBlend, RenderCommand::ForcedMaterialOverride(None)]);
    } else {
        let gp = m.glow_models_pass(list, dims);
        let bp = m.blur_pass(dims, blur_extent);
        let rest = gp + bp + stencil_commands(halo_stencil_state()) + seq![screen_space_rect_command(m.halo_rect(dims, halo_extent))]
            + stencil_commands(default_stencil_state());
        assert(r == head + rest);
        let h: int = (head.len() + gp.len() + bp.len() + 8) as int;
        assert(r[h] == screen_space_rect_command(m.halo_rect(dims, halo_extent)));
        let b0: int = (head.len() + gp.len()) as int;
        assert(r[b0 + 2] == bp[2]);
        assert(r[b0 + 4] == bp[4]);
    }
}

} // verus!
