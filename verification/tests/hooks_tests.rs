use dopamine::engine::{Model, ModelRenderInfo};
use dopamine::entity::{Entity, EntityList, NetworkableEntity, RenderableEntity, INVALID_HANDLE};
use dopamine::features::chams::{Chams, ChamsConfig, ChamsConfigKind, ChamsLayerConfig, ChamsLayersConfig, ChamsStep};
use dopamine::features::misc::GameState;
use dopamine::hooks::{
    frame_overlays, Overlays, draw_model_execute, find_by_class, game_state_for_event, key_down, key_pressed_since_last_query,
    on_sequence_change, presence_step, sequence_with_f_key, wnd_proc_step, ConnectOutcome, PresenceAction,
    PresenceEvent, PresenceStage, SequenceDecision, WndProcAction, WndProcEvent, WndProcStage,
};
use dopamine::render::Material;
use dopamine::win32::{VK_HOME, VK_INSERT};

fn player(index: i32, team: i32) -> Entity {
    Entity {
        handle: index * 10,
        team,
        flags: 0,
        weapon_mode: 0,
        weapon_id: 0,
        local_player: false,
        player: true,
        weapon: false,
        viewmodel: false,
        owner_handle: INVALID_HANDLE,
        move_child: INVALID_HANDLE,
        move_peer: INVALID_HANDLE,
        networkable: NetworkableEntity { index, dormant: false, class_id: index },
        renderable: RenderableEntity { entity_index: index, should_draw: true },
    }
}

fn config(enemy_layer: ChamsLayerConfig) -> ChamsConfig {
    let off = ChamsLayerConfig { enabled: false, ignore_z: false, wireframe: false, cover: false, material_index: 0 };
    let none = ChamsLayersConfig { current_layer_index: 0, layers: [off; 4] };
    ChamsConfig {
        current_config_index: 0,
        enemies: ChamsLayersConfig { current_layer_index: 0, layers: [enemy_layer, off, off, off] },
        allies: none,
        viewmodel: none,
    }
}

#[test]
fn model_render_hook_draws_original_when_busy() {
    let mut chams = Chams::new(Material { handle: 1 }, Material { handle: 2 });
    let list = EntityList { entities: vec![player(1, 2), player(2, 3)] };
    let layer = ChamsLayerConfig { enabled: true, ignore_z: false, wireframe: true, cover: false, material_index: 0 };
    let steps = draw_model_execute(true, false, &mut chams, &config(layer), &list, &ModelRenderInfo { model: Model { handle: 0 }, entity_index: 2 }, Some(&list.entities[0]));
    assert_eq!(steps, vec![ChamsStep::DrawOriginal]);
    let steps = draw_model_execute(false, true, &mut chams, &config(layer), &list, &ModelRenderInfo { model: Model { handle: 0 }, entity_index: 2 }, Some(&list.entities[0]));
    assert_eq!(steps, vec![ChamsStep::DrawOriginal]);
}

#[test]
fn model_render_hook_applies_chams_then_resets() {
    let mut chams = Chams::new(Material { handle: 1 }, Material { handle: 2 });
    let list = EntityList { entities: vec![player(1, 2), player(2, 3)] };
    let layer = ChamsLayerConfig { enabled: true, ignore_z: false, wireframe: true, cover: false, material_index: 0 };
    let steps = draw_model_execute(false, false, &mut chams, &config(layer), &list, &ModelRenderInfo { model: Model { handle: 0 }, entity_index: 2 }, Some(&list.entities[0]));
    assert_eq!(
        steps,
        vec![
            ChamsStep::ApplyLayer { kind: ChamsConfigKind::Enemies, layer: 0, material: Material { handle: 1 }, ignore_z: false, wireframe: true },
            ChamsStep::ResetMaterial,
        ]
    );
    assert!(chams.applied());
    let steps = draw_model_execute(false, false, &mut chams, &config(layer), &list, &ModelRenderInfo { model: Model { handle: 0 }, entity_index: 7 }, Some(&list.entities[0]));
    assert_eq!(steps, vec![ChamsStep::DrawOriginal, ChamsStep::ResetMaterial]);
    assert!(!chams.applied());
}

#[test]
fn async_key_state_bits() {
    assert!(key_down(1));
    assert!(key_down(0x4000));
    assert!(!key_down(0));
    assert!(!key_down(i16::MIN));
    assert!(key_pressed_since_last_query(-32767));
    assert!(!key_pressed_since_last_query(2));
}

#[test]
fn window_hook_returns_ui_codes_and_handles_hotkeys() {
    let (s, a) = wnd_proc_step(WndProcStage::Idle, WndProcEvent::Message { has_ui_context: false });
    assert_eq!((s, a), (WndProcStage::Done, WndProcAction::PassOn));
    let (s, a) = wnd_proc_step(WndProcStage::Idle, WndProcEvent::Message { has_ui_context: true });
    assert_eq!(a, WndProcAction::RunUiHandler);
    assert_eq!(wnd_proc_step(s, WndProcEvent::UiHandled(Some(1))), (WndProcStage::Done, WndProcAction::Return(1)));
    let (s, a) = wnd_proc_step(s, WndProcEvent::UiHandled(Some(0)));
    assert_eq!(a, WndProcAction::ReadKey(VK_HOME));
    let (s2, a2) = wnd_proc_step(s, WndProcEvent::KeyState(1));
    assert_eq!(a2, WndProcAction::Unload);
    assert_eq!(wnd_proc_step(s2, WndProcEvent::Unloaded(false)), (WndProcStage::Done, WndProcAction::PassOn));
    let (s3, a3) = wnd_proc_step(s2, WndProcEvent::Unloaded(true));
    assert_eq!(a3, WndProcAction::ReadKey(VK_INSERT));
    assert_eq!(wnd_proc_step(s3, WndProcEvent::KeyState(1)), (WndProcStage::Done, WndProcAction::ToggleMenuAndPassOn));
    let (s4, a4) = wnd_proc_step(s, WndProcEvent::KeyState(0));
    assert_eq!(a4, WndProcAction::ReadKey(VK_INSERT));
    assert_eq!(wnd_proc_step(s4, WndProcEvent::KeyState(0)), (WndProcStage::Done, WndProcAction::PassOn));
    let (_, a5) = wnd_proc_step(WndProcStage::AwaitUi, WndProcEvent::UiHandled(None));
    assert_eq!(a5, WndProcAction::ReadKey(VK_HOME));
}

#[test]
fn view_model_sequence_changes() {
    assert_eq!(on_sequence_change(5, -1), SequenceDecision::SetSequence(5));
    assert_eq!(on_sequence_change(7, 7), SequenceDecision::LeaveAlone);
    assert_eq!(on_sequence_change(5, 7), SequenceDecision::AskFKey);
    assert_eq!(sequence_with_f_key(5, 7, 1), 7);
    assert_eq!(sequence_with_f_key(5, 7, i16::MIN), 5);
}

#[test]
fn player_resource_is_the_first_of_its_class() {
    let list = EntityList { entities: vec![player(1, 2), player(40, 2), player(3, 2)] };
    let es: Vec<&Entity> = list.entities.iter().collect();
    assert_eq!(find_by_class(&es, 40).map(|e| e.handle), Some(400));
    assert_eq!(find_by_class(&es, 3).map(|e| e.handle), Some(30));
    assert!(find_by_class(&es, 99).is_none());
}

#[test]
fn game_events_announce_states() {
    assert!(matches!(game_state_for_event("client_disconnect", None, None, None), Some(GameState::InMenu)));
    match game_state_for_event("server_spawn", Some("host"), Some("de_nuke"), Some("loopback")) {
        Some(GameState::OnServer { host_name, map_name, address }) => {
            assert_eq!((host_name, map_name, address), ("host", "de_nuke", "loopback"));
        },
        _ => panic!("server_spawn announces a server"),
    }
    assert!(game_state_for_event("player_death", None, None, None).is_none());
}

#[test]
fn rich_presence_update_steps() {
    let idle = PresenceStage::Idle;
    assert_eq!(presence_step(idle, PresenceEvent::Start { enabled: false, connected: false }), (PresenceStage::Done, PresenceAction::Finish(true)));
    let (s, a) = presence_step(idle, PresenceEvent::Start { enabled: false, connected: true });
    assert_eq!(a, PresenceAction::ClearActivity);
    assert_eq!(presence_step(s, PresenceEvent::Done(false)), (PresenceStage::Done, PresenceAction::Finish(false)));
    let (s, a) = presence_step(idle, PresenceEvent::Start { enabled: true, connected: false });
    assert_eq!(a, PresenceAction::Connect);
    let (r, a) = presence_step(s, PresenceEvent::Connect(ConnectOutcome::ConnectionFailed));
    assert_eq!(a, PresenceAction::Reconnect);
    assert_eq!(presence_step(r, PresenceEvent::Done(false)), (PresenceStage::Done, PresenceAction::Finish(false)));
    let (set, a) = presence_step(r, PresenceEvent::Done(true));
    assert_eq!(a, PresenceAction::SetActivity);
    assert_eq!(presence_step(set, PresenceEvent::Done(true)), (PresenceStage::Done, PresenceAction::Finish(true)));
    assert_eq!(presence_step(s, PresenceEvent::Connect(ConnectOutcome::OtherError)).1, PresenceAction::SetActivity);
    assert_eq!(presence_step(idle, PresenceEvent::Start { enabled: true, connected: true }).1, PresenceAction::SetActivity);
}

#[test]
fn overlays_of_a_frame() {
    assert_eq!(frame_overlays(true, false, true, false, true), Overlays { blur: true, visuals: true, menu: true });
    assert_eq!(frame_overlays(true, true, true, true, false), Overlays { blur: false, visuals: false, menu: false });
    assert_eq!(frame_overlays(false, false, false, false, false), Overlays { blur: false, visuals: false, menu: false });
}
