use dopamine::engine::{
    Engine, MaterialSystem, MaterialSystemCall, CREATE_RENDER_TARGET_FLAGS_HDR, GLOW_BUFFER_TEXTURE_FLAGS,
    IMAGE_FORMAT_RGBA8888, MATERIAL_RT_DEPTH_SEPARATE, RT_SIZE_DEFAULT,
};
use dopamine::key_values::KeyValues;
use dopamine::logger::log_file_path;

#[test]
fn engine_snapshot_getters() {
    let e = Engine { local_player_index: 3, max_clients: 32, in_game: true };
    assert_eq!(e.local_player_index(), 3);
    assert_eq!(e.max_clients(), 32);
    assert!(e.is_in_game());
}

#[test]
fn material_system_calls_carry_every_argument() {
    match MaterialSystem.find_texture("_rt_SmallFB1", "RenderTargets") {
        MaterialSystemCall::FindTexture { name, group, complain, additional_creation_flags } => {
            assert_eq!((name.as_str(), group.as_str(), complain, additional_creation_flags), ("_rt_SmallFB1", "RenderTargets", true, 0));
        },
        _ => panic!("a texture lookup"),
    }
    match MaterialSystem.create_named_rt("_rt_GlowBuf1", (1920, 1080)) {
        MaterialSystemCall::CreateNamedRt { name, width, height, size_mode, format, depth, texture_flags, render_target_flags } => {
            assert_eq!(name, "_rt_GlowBuf1");
            assert_eq!((width, height), (1920, 1080));
            assert_eq!((size_mode, format, depth), (RT_SIZE_DEFAULT, IMAGE_FORMAT_RGBA8888, MATERIAL_RT_DEPTH_SEPARATE));
            assert_eq!((texture_flags, render_target_flags), (GLOW_BUFFER_TEXTURE_FLAGS, CREATE_RENDER_TARGET_FLAGS_HDR));
            assert_eq!((size_mode, format, depth, texture_flags, render_target_flags), (1, 0, 1, 0x200C, 1));
        },
        _ => panic!("a render target"),
    }
    let mut kv = KeyValues::new_leaked("UnlitGeneric");
    kv.set("$basetexture", "white");
    match MaterialSystem.create_material("_FlatMaterial", kv) {
        MaterialSystemCall::CreateMaterial { name, key_values } => {
            assert_eq!(name, "_FlatMaterial");
            assert_eq!(key_values.shader, "UnlitGeneric");
            assert_eq!(key_values.entries.len(), 1);
        },
        _ => panic!("a material"),
    }
}

#[test]
fn log_file_paths_have_no_colons() {
    assert_eq!(
        log_file_path("dopamine/logs", "2024-05-01 12:30:45.123 +02:00"),
        "dopamine/logs/2024-05-01 12_30_45.123 +02_00-dopamine.txt"
    );
    assert_eq!(log_file_path("", ""), "/-dopamine.txt");
}
