use vstd::prelude::*;
use crate::key_values::KeyValues;

verus! {

/// What the toolkit reads of the engine client in one frame.
#[derive(Clone, Copy, Debug, PartialEq, Eq, Structural)]
pub struct Engine {
    pub local_player_index: i32,
    pub max_clients: i32,
    pub in_game: bool,
}

impl Engine {
    /// The entity-list index of the local player.
    pub fn local_player_index(&self) -> (i: i32)
        ensures
            i == self.local_player_index,
    {
        self.local_player_index
    }

    /// The number of player slots of the server.
    pub fn max_clients(&self) -> (n: i32)
        ensures
            n == self.max_clients,
    {
        self.max_clients
    }

    /// Whether a map is running.
    pub fn is_in_game(&self) -> (b: bool)
        ensures
            b == self.in_game,
    {
        self.in_game
    }
}

/// A model of the engine, known by its handle.
#[derive(Clone, Copy, Debug, PartialEq, Eq, Structural)]
pub struct Model {
    pub handle: u64,
}

/// What the model renderer says of the model it is about to draw.
#[derive(Clone, Copy, Debug, PartialEq, Eq, Structural)]
pub struct ModelRenderInfo {
    pub model: Model,
    /// The entity-list index of the entity the model belongs to.
    pub entity_index: i32,
}

/// `RenderTargetSizeMode_t` `RT_SIZE_DEFAULT`.
pub const RT_SIZE_DEFAULT: i32 = 1;
/// `ImageFormat` `IMAGE_FORMAT_RGBA8888`.
pub const IMAGE_FORMAT_RGBA8888: i32 = 0;
/// `MaterialRenderTargetDepth_t` `MATERIAL_RT_DEPTH_SEPARATE`.
pub const MATERIAL_RT_DEPTH_SEPARATE: i32 = 1;
/// Texture flags of a glow buffer: clamped in S and T, with an eight-bit alpha.
pub const GLOW_BUFFER_TEXTURE_FLAGS: u32 = 0x200C;
/// `CREATERENDERTARGETFLAGS_HDR`.
pub const CREATE_RENDER_TARGET_FLAGS_HDR: u32 = 1;

/// A call to the engine's material system, with every argument the toolkit passes.
pub enum MaterialSystemCall {
    /// Creates a material from key-value settings.
    CreateMaterial { name: String, key_values: KeyValues },
    /// Looks a texture up in a texture group.
    FindTexture { name: String, group: String, complain: bool, additional_creation_flags: i32 },
    /// Creates a named render target.
    CreateNamedRt {
        name: String,
        width: i32,
        height: i32,
        size_mode: i32,
        format: i32,
        depth: i32,
        texture_flags: u32,
        render_target_flags: u32,
    },
}

/// The engine's material system.
pub struct MaterialSystem;

impl MaterialSystem {
    /// The call that creates a material named `name` from the settings.
    pub fn create_material(&self, name: &str, kv: KeyValues) -> (c: MaterialSystemCall)
        ensures
            c matches MaterialSystemCall::CreateMaterial { name: n, key_values } && n@ == name@ && key_values@ == kv@,
    {
        MaterialSystemCall::CreateMaterial { name: String::from_str(name), key_values: kv }
    }

    /// The call that looks a texture up in a group, complaining when it is missing.
    pub fn find_texture(&self, name: &str, group: &str) -> (c: MaterialSystemCall)
        ensures
            c matches MaterialSystemCall::FindTexture { name: n, group: g, complain, additional_creation_flags }
                && n@ == name@ && g@ == group@ && complain && additional_creation_flags == 0,
    {
        MaterialSystemCall::FindTexture {
            name: String::from_str(name),
            group: String::from_str(group),
            complain: true,
            additional_creation_flags: 0,
        }
    }

    /// The call that creates a render target of the given size: default size mode, RGBA
    /// format, a depth buffer of its own, the glow buffer's texture flags, HDR.
    pub fn create_named_rt(&self, name: &str, dims: (i32, i32)) -> (c: MaterialSystemCall)
        ensures
            c matches MaterialSystemCall::CreateNamedRt {
                name: n,
                width,
                height,
                size_mode,
                format,
                depth,
                texture_flags,
                render_target_flags,
            } && n@ == name@ && width == dims.0 && height == dims.1 && size_mode == RT_SIZE_DEFAULT && format
                == IMAGE_FORMAT_RGBA8888 && depth == MATERIAL_RT_DEPTH_SEPARATE && texture_flags == GLOW_BUFFER_TEXTURE_FLAGS
                && render_target_flags == CREATE_RENDER_TARGET_FLAGS_HDR,
    {
        MaterialSystemCall::CreateNamedRt {
            name: String::from_str(name),
            width: dims.0,
            height: dims.1,
            size_mode: RT_SIZE_DEFAULT,
            format: IMAGE_FORMAT_RGBA8888,
            depth: MATERIAL_RT_DEPTH_SEPARATE,
            texture_flags: GLOW_BUFFER_TEXTURE_FLAGS,
            render_target_flags: CREATE_RENDER_TARGET_FLAGS_HDR,
        }
    }
}

} // verus!
