use dopamine::engine::Engine;
use dopamine::entity::{
    Entity, EntityList, NetworkableEntity, RenderableEntity, UserCommand, WeaponId, INVALID_HANDLE, ON_GROUND,
    STUDIO_RENDER,
};
use dopamine::features::chams::{
    Chams, ChamsConfig, ChamsConfigKind, ChamsLayerConfig, ChamsLayersConfig, ChamsMaterialKind, ChamsStep,
};
use dopamine::features::glow::{
    determine_config, mark_glowing_models, Glow, GlowConfig, GlowConfigKind, GlowFrame, GlowItemConfig,
    MINUS_HALF_F32_BITS,
};
use dopamine::features::glow_object_manager::{
    manage_players, GlowGroupConfig, GlowGroupItem, GlowObjectManager, Object,
};
use dopamine::features::misc::{activity_for, apply_bunnyhop, bunnyhop, BunnyhopConfig, GameState, MiscConfig};
use dopamine::features::model_changer::{
    precache_or_set_model, replacement_path_by_weapon_id, sound_script_file, wearables_paths, weapon_from_name,
    weapon_name_from_path, GloveConfigKind, ModelAction, ModelChanger, ModelChangerConfig, PlayerClass,
    SleeveConfigKind, StudioStart, INVALID_MODEL_HANDLE, SCRIPTS_PATH, V_MODELS_PATH,
};
use dopamine::features::visuals::should_draw_better_crosshair;
use dopamine::render::{ColorBits, Material, MaterialFlag, RenderCommand, RenderContext, RenderQueue, Texture};

fn entity(index: i32, handle: i32) -> Entity {
    Entity {
        handle,
        team: 2,
        flags: 0,
        weapon_mode: 0,
        weapon_id: 0,
        local_player: false,
        player: false,
        weapon: false,
        viewmodel: false,
        owner_handle: INVALID_HANDLE,
        move_child: INVALID_HANDLE,
        move_peer: INVALID_HANDLE,
        networkable: NetworkableEntity { index, dormant: false, class_id: 0 },
        renderable: RenderableEntity { entity_index: index, should_draw: true },
    }
}

fn player(index: i32, team: i32) -> Entity {
    let mut e = entity(index, index * 10);
    e.player = true;
    e.team = team;
    e
}

fn layer(enabled: bool, ignore_z: bool, cover: bool, material_index: usize) -> ChamsLayerConfig {
    ChamsLayerConfig { enabled, ignore_z, wireframe: false, cover, material_index }
}

fn off() -> ChamsLayerConfig {
    layer(false, false, false, 0)
}

fn chams_config(enemies: [ChamsLayerConfig; 4]) -> ChamsConfig {
    let none = ChamsLayersConfig { current_layer_index: 0, layers: [off(), off(), off(), off()] };
    ChamsConfig {
        current_config_index: 0,
        enemies: ChamsLayersConfig { current_layer_index: 0, layers: enemies },
        allies: none,
        viewmodel: none,
    }
}

#[test]
fn weapon_names_from_model_paths() {
    assert_eq!(weapon_name_from_path("models/weapons/v_rif_ak47.mdl"), Some(("ak47", true)));
    assert_eq!(weapon_name_from_path("models/weapons/v_knife_t.mdl"), Some(("knife", true)));
    assert_eq!(weapon_name_from_path("models/weapons/v_snip_awp.mdl"), Some(("awp", true)));
    assert_eq!(weapon_name_from_path("models/player/ct_gign.mdl"), Some(("gign", false)));
    assert_eq!(weapon_name_from_path("models/weapons/w_rif_ak47.mdl"), None);
    assert_eq!(weapon_name_from_path("scripts/v_rif_ak47.txt"), None);
    assert_eq!(weapon_name_from_path("models/weapons/nounderscore.mdl"), None);
}

#[test]
fn weapon_ids_from_names() {
    assert_eq!(weapon_from_name("ak47"), Some(WeaponId::AK47));
    assert_eq!(weapon_from_name("knife"), Some(WeaponId::Knife));
    assert_eq!(weapon_from_name("sg552"), Some(WeaponId::SG552));
    assert_eq!(weapon_from_name("deagle"), None);
}

#[test]
fn replacement_paths() {
    let p = replacement_path_by_weapon_id(WeaponId::AK47).unwrap();
    assert_eq!(p.components, vec![V_MODELS_PATH, "rif_ak47.mdl"]);
    let k = replacement_path_by_weapon_id(WeaponId::Knife).unwrap();
    assert_eq!(k.components, vec![V_MODELS_PATH, "knife_css.mdl"]);
    assert!(replacement_path_by_weapon_id(WeaponId::Awp).is_none());
}

#[test]
fn wearables_by_faction_and_config() {
    let mut config = ModelChangerConfig::default();
    let (g, s) = wearables_paths(&config, PlayerClass::LeetKrew);
    assert_eq!(g.components, vec![V_MODELS_PATH, "arms", "glove_fingerless/glove_fingerless.mdl"]);
    assert!(s.is_none());
    let (g, s) = wearables_paths(&config, PlayerClass::Gign);
    assert_eq!(g.components, vec![V_MODELS_PATH, "arms", "glove_hardknuckle/glove_hardknuckle_black.mdl"]);
    assert_eq!(s.unwrap().components, vec![V_MODELS_PATH, "arms", "gign/sleeve_gign.mdl"]);
    config.glove_kind = GloveConfigKind::Motorcycle;
    config.sleeve_kind = SleeveConfigKind::SwatMedic;
    let (g, s) = wearables_paths(&config, PlayerClass::SealTeam6);
    assert_eq!(g.components, vec![V_MODELS_PATH, "arms", "glove_motorcycle/glove_motorcycle.mdl"]);
    assert_eq!(s.unwrap().components, vec![V_MODELS_PATH, "arms", "swat/sleeve_swat_medic.mdl"]);
    let (_, s) = wearables_paths(&config, PlayerClass::PhoenixConnection);
    assert!(s.is_none());
}

#[test]
fn sleeves_are_removed_when_configured_or_not_worn() {
    let mut config = ModelChangerConfig::default();
    assert!(!config.should_remove_sleeves(true, Some("models/arms/gloves.mdl"), Some(PlayerClass::Gign)));
    assert!(!config.should_remove_sleeves(true, Some("sas/sleeve_sas.mdl"), Some(PlayerClass::Gign)));
    assert!(config.should_remove_sleeves(true, Some("sas/sleeve_sas.mdl"), Some(PlayerClass::LeetKrew)));
    assert!(!config.should_remove_sleeves(false, Some("sas/sleeve_sas.mdl"), Some(PlayerClass::LeetKrew)));
    assert!(!config.should_remove_sleeves(true, Some("sas/sleeve_sas.mdl"), None));
    config.remove_sleeves = true;
    assert!(config.should_remove_sleeves(true, Some("sas/sleeve_sas.mdl"), Some(PlayerClass::Gign)));
}

#[test]
fn precache_or_set_by_model_index() {
    assert_eq!(precache_or_set_model(-1), (ModelAction::Precache, false));
    assert_eq!(precache_or_set_model(42), (ModelAction::SetModelIndex(42), true));
}

#[test]
fn model_changer_get_model_replacement() {
    let mc = ModelChanger::new();
    let mut config = ModelChangerConfig::default();
    assert!(mc.on_get_model_call(&config, Some("models/weapons/v_rif_ak47.mdl")).is_none());
    config.enabled = true;
    let p = mc.on_get_model_call(&config, Some("models/weapons/v_rif_ak47.mdl")).unwrap();
    assert_eq!(p.components, vec![V_MODELS_PATH, "rif_ak47.mdl"]);
    assert!(mc.on_get_model_call(&config, Some("models/weapons/v_snip_awp.mdl")).is_none());
    assert!(mc.on_get_model_call(&config, None).is_none());
}

#[test]
fn model_changer_studio_calls_remember_handles() {
    let mut mc = ModelChanger::new();
    let mut config = ModelChangerConfig::default();
    assert_eq!(mc.on_studio_call(&config, true, "models/weapons/v_rif_ak47.mdl"), StudioStart::NotHandled);
    config.enabled = true;
    assert_eq!(mc.on_studio_call(&config, false, "models/weapons/v_rif_ak47.mdl"), StudioStart::NotHandled);
    assert_eq!(
        mc.on_studio_call(&config, true, "models/weapons/v_rif_ak47.mdl"),
        StudioStart::Replace { weapon: WeaponId::AK47, cached: INVALID_MODEL_HANDLE }
    );
    mc.set_model_handle(WeaponId::AK47, 12);
    assert_eq!(
        mc.on_studio_call(&config, true, "models/weapons/v_rif_ak47.mdl"),
        StudioStart::Replace { weapon: WeaponId::AK47, cached: 12 }
    );
    assert_eq!(mc.models.len(), 1);
    assert_eq!(mc.on_studio_call(&config, true, "models/weapons/v_snip_awp.mdl"), StudioStart::SoundOnly);
    assert_eq!(mc.on_studio_call(&config, true, "models/weapons/v_pist_deagle.mdl"), StudioStart::SoundOnly);
    assert_eq!(mc.on_studio_call(&config, true, "models/weapons/w_rif_ak47.mdl"), StudioStart::NotHandled);
    assert_eq!(sound_script_file("ak47"), "ak47.txt");
    assert_eq!(SCRIPTS_PATH, "scripts/dopamine/weapons");
}

#[test]
fn model_changer_wearables_plan_and_release() {
    let mut mc = ModelChanger::new();
    let mut config = ModelChangerConfig::default();
    assert!(mc.on_fsn_call(&config, true, true, Some(PlayerClass::Sas)).is_none());
    config.enabled = true;
    assert!(mc.on_fsn_call(&config, false, true, Some(PlayerClass::Sas)).is_none());
    assert!(mc.on_fsn_call(&config, true, true, None).is_none());
    let plan = mc.on_fsn_call(&config, true, true, Some(PlayerClass::Sas)).unwrap();
    assert_eq!(plan.gloves_entity, None);
    assert_eq!(plan.sleeves_path.unwrap().components, vec![V_MODELS_PATH, "arms", "sas/sleeve_sas.mdl"]);
    mc.set_wearable_entities(100, 101);
    let plan = mc.on_fsn_call(&config, true, true, Some(PlayerClass::Sas)).unwrap();
    assert_eq!((plan.gloves_entity, plan.sleeves_entity), (Some(100), Some(101)));
    assert_eq!(mc.destroy_entities(), vec![100, 101]);
    assert!(mc.destroy_entities().is_empty());
}

#[test]
fn bunnyhop_releases_jump_in_the_air() {
    let config = BunnyhopConfig { enabled: true, chance: 100 };
    let mut lp = player(1, 2);
    let mut cmd = UserCommand { buttons: UserCommand::IN_JUMP | 1 };
    apply_bunnyhop(&config, Some(&lp), 50, &mut cmd);
    assert_eq!(cmd.buttons, 1);
    lp.flags = ON_GROUND;
    let mut cmd = UserCommand { buttons: UserCommand::IN_JUMP };
    apply_bunnyhop(&config, Some(&lp), 50, &mut cmd);
    assert_eq!(cmd.buttons, UserCommand::IN_JUMP);
    let rare = BunnyhopConfig { enabled: true, chance: 10 };
    let mut cmd = UserCommand { buttons: UserCommand::IN_JUMP };
    apply_bunnyhop(&rare, Some(&lp), 50, &mut cmd);
    assert_eq!(cmd.buttons, 0);
    let mut cmd = UserCommand { buttons: UserCommand::IN_JUMP };
    apply_bunnyhop(&rare, None, 50, &mut cmd);
    assert_eq!(cmd.buttons, UserCommand::IN_JUMP);
}

#[test]
fn bunnyhop_off_or_certain_keeps_jump_on_ground() {
    let mut lp = player(1, 2);
    lp.flags = ON_GROUND;
    let mut cmd = UserCommand { buttons: UserCommand::IN_JUMP };
    bunnyhop(&BunnyhopConfig::default(), Some(&lp), &mut cmd);
    assert_eq!(cmd.buttons, UserCommand::IN_JUMP);
    bunnyhop(&BunnyhopConfig { enabled: true, chance: 100 }, Some(&lp), &mut cmd);
    assert_eq!(cmd.buttons, UserCommand::IN_JUMP);
    lp.flags = 0;
    bunnyhop(&BunnyhopConfig { enabled: true, chance: 100 }, Some(&lp), &mut cmd);
    assert_eq!(cmd.buttons, 0);
    let d = MiscConfig::default();
    assert_eq!(d.bunnyhop.chance, 100);
    assert!(!d.bunnyhop.enabled && !d.enable_discord_rich_presence);
}

#[test]
fn rich_presence_activities() {
    let a = activity_for(&GameState::InMenu);
    assert_eq!(a.state, "In main menu");
    assert!(a.details.is_none());
    let local = activity_for(&GameState::OnServer { host_name: "Home", map_name: "de_dust2", address: "loopback" });
    assert_eq!(local.state, "Playing on a local server");
    assert_eq!(local.details.as_deref(), Some("Home"));
    let remote = activity_for(&GameState::OnServer { host_name: "Pub", map_name: "cs_office", address: "1.2.3.4:27015" });
    assert_eq!(remote.state, "Playing on a server: cs_office");
    assert_eq!(remote.details.as_deref(), Some("Pub"));
}

#[test]
fn chams_draw_through_wall_layers_first() {
    let mats = (Material { handle: 1 }, Material { handle: 2 });
    let mut chams = Chams::new(mats.0, mats.1);
    let config = chams_config([layer(true, false, true, 1), layer(true, true, false, 0), off(), off()]);
    let lp = player(1, 2);
    let enemy = player(2, 3);
    let steps = chams.draw(&config, Some(&enemy), Some(&lp));
    assert_eq!(
        steps,
        vec![
            ChamsStep::ApplyLayer { kind: ChamsConfigKind::Enemies, layer: 1, material: mats.0, ignore_z: true, wireframe: false },
            ChamsStep::ResetMaterial,
            ChamsStep::DrawOriginal,
            ChamsStep::ApplyLayer { kind: ChamsConfigKind::Enemies, layer: 0, material: mats.1, ignore_z: false, wireframe: false },
        ]
    );
    assert!(chams.applied());
    let ally = player(3, 2);
    assert!(chams.draw(&config, Some(&ally), Some(&lp)).is_empty());
    assert!(!chams.applied());
    assert!(chams.draw(&config, None, Some(&lp)).is_empty());
    assert_eq!(ChamsMaterialKind::from_usize(1), ChamsMaterialKind::Flat);
    assert_eq!(layer(true, false, false, 0).material_kind(), ChamsMaterialKind::Regular);
}

#[test]
fn glow_config_kinds() {
    let lp = player(1, 2);
    assert_eq!(determine_config(&player(2, 3), Some(&lp)), Some(GlowConfigKind::Enemies));
    assert_eq!(determine_config(&player(3, 2), Some(&lp)), Some(GlowConfigKind::Allies));
    assert_eq!(determine_config(&player(3, 3), None), Some(GlowConfigKind::Allies));
    let mut gun = entity(4, 40);
    gun.weapon = true;
    assert_eq!(determine_config(&gun, Some(&lp)), Some(GlowConfigKind::Weapons));
    gun.owner_handle = 10;
    assert_eq!(determine_config(&gun, Some(&lp)), None);
    assert_eq!(determine_config(&entity(5, 50), Some(&lp)), None);
}

fn glow_config(enemies: bool) -> GlowConfig {
    let item = |enabled| GlowItemConfig { enabled, fade_out_when_spotted: false };
    GlowConfig { current_config_index: 0, enemies: item(enemies), allies: item(false), weapons: item(false) }
}

fn glow() -> Glow {
    let t = |h| Texture { handle: h, actual_width: 480, actual_height: 270 };
    Glow::new(t(1), t(2), t(3), Material { handle: 10 }, Material { handle: 11 }, Material { handle: 12 }, Material { handle: 13 })
}

#[test]
fn glow_marks_only_glowing_models() {
    let lp = player(1, 2);
    let enemy = player(2, 3);
    let ally = player(3, 2);
    let list = EntityList { entities: vec![lp, enemy, ally] };
    let es = vec![&list.entities[1], &list.entities[2]];
    let mut q = RenderQueue::new();
    let drew = mark_glowing_models(&glow_config(true), &es, Some(&list.entities[0]), &list, &RenderContext, &mut q);
    assert!(drew);
    let draws: Vec<&RenderCommand> = q.commands.iter().filter(|c| matches!(c, RenderCommand::DrawModel { .. })).collect();
    assert_eq!(draws, vec![&RenderCommand::DrawModel { entity_index: 2, flags: STUDIO_RENDER }]);
    let mut q2 = RenderQueue::new();
    assert!(!mark_glowing_models(&glow_config(false), &es, Some(&list.entities[0]), &list, &RenderContext, &mut q2));
}

#[test]
fn glow_effect_ends_after_marking_when_nothing_glows() {
    let lp = player(1, 2);
    let ally = player(3, 2);
    let list = EntityList { entities: vec![lp, ally] };
    let es = vec![&list.entities[1]];
    let frame = GlowFrame { view_dimensions: (1920, 1080), colors: vec![None], blur_texture_extent: (0, 0), halo_texture_extent: (0, 0) };
    let g = glow();
    let mut marking = RenderQueue::new();
    mark_glowing_models(&glow_config(true), &es, Some(&list.entities[0]), &list, &RenderContext, &mut marking);
    let mut q = RenderQueue::new();
    g.apply_glow_effects(&glow_config(true), &es, Some(&list.entities[0]), &list, &frame, &RenderContext, &mut q);
    assert_eq!(q.commands, marking.commands);
    let mut none = RenderQueue::new();
    g.draw(&glow_config(false), &es, Some(&list.entities[0]), &list, &frame, &RenderContext, &mut none);
    assert!(none.commands.is_empty());
}

#[test]
fn glow_effect_draws_halo_with_quarter_buffer() {
    let lp = player(1, 2);
    let enemy = player(2, 3);
    let list = EntityList { entities: vec![lp, enemy] };
    let es = vec![&list.entities[1]];
    let red = ColorBits { r: 1.0f32.to_bits(), g: 0, b: 0, a: 1.0f32.to_bits() };
    let frame = GlowFrame {
        view_dimensions: (1920, 1080),
        colors: vec![Some(red)],
        blur_texture_extent: (1920.0f32.to_bits(), 1080.0f32.to_bits()),
        halo_texture_extent: (479.0f32.to_bits(), 269.0f32.to_bits()),
    };
    let g = glow();
    let mut q = RenderQueue::new();
    g.apply_glow_effects(&glow_config(true), &es, Some(&list.entities[0]), &list, &frame, &RenderContext, &mut q);
    assert!(q.commands.contains(&RenderCommand::SetColorWithBlend(red)));
    assert_eq!(
        q.commands.iter().filter(|c| matches!(c, RenderCommand::DrawModel { .. })).count(),
        2
    );
    let rects: Vec<&RenderCommand> = q.commands.iter().filter(|c| matches!(c, RenderCommand::DrawScreenSpaceRect { .. })).collect();
    assert_eq!(rects.len(), 3);
    assert_eq!(
        rects[2],
        &RenderCommand::DrawScreenSpaceRect {
            material: Material { handle: 11 },
            x: 0,
            y: 0,
            width: 1920,
            height: 1080,
            texture_x0_bits: 0,
            texture_y0_bits: MINUS_HALF_F32_BITS,
            texture_x1_bits: 479.0f32.to_bits(),
            texture_y1_bits: 269.0f32.to_bits(),
            texture_width: 480,
            texture_height: 270,
        }
    );
    assert_eq!(MINUS_HALF_F32_BITS, (-0.5f32).to_bits());
    assert!(Glow::entity_glows(&glow_config(true), &list.entities[1], Some(&list.entities[0])));
}

#[test]
fn glow_material_definitions() {
    let defs = Glow::material_definitions();
    assert_eq!(defs.len(), 4);
    assert_eq!(defs[0].name, "_GlowMaterial");
    assert_eq!(defs[0].key_values.shader, "UnlitGeneric");
    assert_eq!(defs[1].key_values.get("$PixShader").map(|s| s.as_str()), Some("haloaddoutline_ps20"));
    assert_eq!(defs[3].key_values.get("$BaseTexture").map(|s| s.as_str()), Some("_rt_GlowBuf2"));
    assert!(defs[3].key_values.get("$BloomAmount").is_none());
    let old = GlowObjectManager::material_definitions();
    assert_eq!(old[3].key_values.get("$BloomAmount").map(|s| s.as_str()), Some("1"));
}

#[test]
fn glow_objects_register_players_once() {
    let t = |h| Texture { handle: h, actual_width: 4, actual_height: 4 };
    let mut m = GlowObjectManager::new(t(1), t(2), t(3));
    let mut lp = player(1, 2);
    lp.local_player = true;
    let list = EntityList { entities: vec![lp, player(2, 3), player(3, 2)] };
    let red = ColorBits { r: 1, g: 0, b: 0, a: 1 };
    let blue = ColorBits { r: 0, g: 0, b: 1, a: 1 };
    let config = GlowGroupConfig { enemies: GlowGroupItem { enabled: true, color: red }, allies: GlowGroupItem { enabled: true, color: blue } };
    manage_players(&config, &list, &Engine { local_player_index: 1, max_clients: 4, in_game: true }, &mut m, Some(&list.entities[0]));
    assert_eq!(m.objects.len(), 2);
    assert_eq!(m.objects[0], Object { entity: Some(list.entities[1]), color: red });
    assert_eq!(m.objects[1].color, blue);
    manage_players(&config, &list, &Engine { local_player_index: 1, max_clients: 4, in_game: true }, &mut m, Some(&list.entities[0]));
    assert_eq!(m.objects.len(), 2);
    assert!(m.has_glow_effect(&list.entities[1]));
    assert!(!m.has_glow_effect(&list.entities[0]));
    m.clear_objects();
    manage_players(&config, &list, &Engine { local_player_index: 1, max_clients: 4, in_game: true }, &mut m, None);
    assert!(m.objects.is_empty());
}

#[test]
fn glow_objects_effect_needs_a_drawn_object() {
    let t = |h| Texture { handle: h, actual_width: 4, actual_height: 4 };
    let mut m = GlowObjectManager::new(t(1), t(2), t(3));
    let list = EntityList { entities: vec![player(2, 3)] };
    let mut q = RenderQueue::new();
    m.draw_glow_effects(&list, (64, 64), (0, 0), (0, 0), &RenderContext, &mut q);
    assert!(!q.commands.iter().any(|c| matches!(c, RenderCommand::DrawModel { .. })));
    m.setup_materials(Some(Material { handle: 1 }), Some(Material { handle: 2 }), Some(Material { handle: 3 }), Some(Material { handle: 4 }));
    m.register_object(Object::new(&list.entities[0], &GlowGroupItem { enabled: true, color: ColorBits { r: 0, g: 0, b: 0, a: 0 } }));
    let mut q2 = RenderQueue::new();
    m.draw_glow_effects(&list, (64, 64), (0, 0), (0, 0), &RenderContext, &mut q2);
    assert_eq!(q2.commands.iter().filter(|c| matches!(c, RenderCommand::DrawModel { .. })).count(), 2);
    assert_eq!(q2.commands.iter().filter(|c| matches!(c, RenderCommand::DrawScreenSpaceRect { .. })).count(), 3);
}

#[test]
fn better_crosshair_shows_unless_scoped_sniper() {
    let mut wp = entity(9, 90);
    wp.weapon_id = WeaponId::AK47.code();
    assert!(should_draw_better_crosshair(true, false, Some(&wp)));
    assert!(!should_draw_better_crosshair(false, false, Some(&wp)));
    assert!(!should_draw_better_crosshair(true, false, None));
    wp.weapon_id = WeaponId::Awp.code();
    assert!(!should_draw_better_crosshair(true, false, Some(&wp)));
    assert!(should_draw_better_crosshair(true, true, Some(&wp)));
    wp.weapon_mode = 1;
    assert!(!should_draw_better_crosshair(true, true, Some(&wp)));
}

#[test]
fn chams_layer_engine_calls() {
    let m = Material { handle: 5 };
    let color = ColorBits { r: 1, g: 2, b: 3, a: 4 };
    let step = ChamsStep::ApplyLayer { kind: ChamsConfigKind::Allies, layer: 2, material: m, ignore_z: true, wireframe: false };
    let (before, after) = Chams::apply_material(&step, color);
    assert_eq!(
        before,
        vec![
            RenderCommand::SetMaterialFlag { material: m, flag: MaterialFlag::IgnoreZ, state: true },
            RenderCommand::SetMaterialFlag { material: m, flag: MaterialFlag::Wireframe, state: false },
            RenderCommand::SaveColorWithBlend,
            RenderCommand::SetColorWithBlend(color),
            RenderCommand::ForcedMaterialOverride(Some(m)),
        ]
    );
    assert_eq!(after, vec![RenderCommand::RestoreColorWithBlend]);
}

#[test]
fn wearable_entities_are_kept_across_frames() {
    let mut mc = ModelChanger::new();
    assert_eq!(mc.keep_wearable_entities(Some(100), Some(101)), (100, 101));
    assert_eq!(mc.keep_wearable_entities(Some(200), Some(201)), (100, 101));
    assert_eq!(mc.keep_wearable_entities(None, None), (100, 101));
    let mut config = ModelChangerConfig::default();
    config.enabled = true;
    let plan = mc.on_fsn_call(&config, true, true, Some(PlayerClass::Gign)).unwrap();
    assert_eq!((plan.gloves_entity, plan.sleeves_entity), (Some(100), Some(101)));
}

#[test]
fn references_taken_and_given_back() {
    let mut q = RenderQueue::new();
    let t = |h| Texture { handle: h, actual_width: 1, actual_height: 1 };
    Glow::acquire_render_targets(&t(1), &t(9), &mut q);
    assert_eq!(q.commands, vec![RenderCommand::IncRefTexture(t(1)), RenderCommand::IncRefTexture(t(9))]);
    let g = glow();
    let mut q = RenderQueue::new();
    g.dec_ref_counters(&mut q);
    assert_eq!(q.commands.len(), 7);
    assert_eq!(q.commands[0], RenderCommand::DecRefTexture(g.rt_quarter_size_1));
    assert_eq!(q.commands[6], RenderCommand::DecRefMaterial(g.glow_blur_y_material));
    let chams = Chams::new(Material { handle: 1 }, Material { handle: 2 });
    let mut q = RenderQueue::new();
    chams.dec_ref_counters(&mut q);
    assert_eq!(
        q.commands,
        vec![RenderCommand::DecRefMaterial(Material { handle: 1 }), RenderCommand::DecRefMaterial(Material { handle: 2 })]
    );
    let mut q = RenderQueue::new();
    GlowObjectManager::acquire_render_target(&t(4), &mut q);
    assert_eq!(q.commands, vec![RenderCommand::IncRefTexture(t(4))]);
}
