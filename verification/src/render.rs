use vstd::prelude::*;
use crate::color::{spec_mul_255_if_supports, Color, ColorMode};

verus! {

/// A material of the engine's material system, known by its handle.
#[derive(Clone, Copy, Debug, PartialEq, Eq, Structural)]
pub struct Material {
    pub handle: u64,
}

/// A texture of the engine's material system with the size it was allocated with.
#[derive(Clone, Copy, Debug, PartialEq, Eq, Structural)]
pub struct Texture {
    pub handle: u64,
    pub actual_width: i32,
    pub actual_height: i32,
}

impl Texture {
    /// Width and height of the texture.
    pub fn dimensions(&self) -> (d: (i32, i32))
        ensures
            d == (self.actual_width, self.actual_height),
    {
        (self.actual_width, self.actual_height)
    }
}

/// Material flags that the toolkit switches.
#[derive(Clone, Copy, Debug, PartialEq, Eq, Structural)]
pub enum MaterialFlag {
    IgnoreZ,
    Wireframe,
}

/// The engine's number for a material flag.
pub open spec fn material_flag_bits(flag: MaterialFlag) -> u32 {
    match flag {
        MaterialFlag::IgnoreZ => 0x8000,
        MaterialFlag::Wireframe => 0x10000000,
    }
}

impl MaterialFlag {
    /// The engine's number for this flag.
    pub fn bits(&self) -> (b: u32)
        ensures
            b == material_flag_bits(*self),
    {
        match self {
            MaterialFlag::IgnoreZ => 0x8000,
            MaterialFlag::Wireframe => 0x10000000,
        }
    }
}

/// Stencil operation of the render context.
#[derive(Clone, Copy, Debug, PartialEq, Eq, Structural)]
pub enum StencilOp {
    Keep,
    Replace,
}

/// Stencil comparison function of the render context.
#[derive(Clone, Copy, Debug, PartialEq, Eq, Structural)]
pub enum StencilCmpFn {
    Equal,
    Always,
}

/// The engine's number for a stencil operation.
pub open spec fn stencil_op_code(op: StencilOp) -> i32 {
    match op {
        StencilOp::Keep => 1,
        StencilOp::Replace => 3,
    }
}

/// The engine's number for a stencil comparison function.
pub open spec fn stencil_cmp_fn_code(f: StencilCmpFn) -> i32 {
    match f {
        StencilCmpFn::Equal => 3,
        StencilCmpFn::Always => 8,
    }
}

/// The engine's numbers: ignoring depth is the flag bit 15 (0x8000) and wireframe the flag
/// bit 28 (0x10000000), two different bits; keeping a stencil value is operation 1 and
/// replacing it 3; the stencil test "equal" is 3 and "always" 8.
pub proof fn law_engine_codes()
    ensures
        material_flag_bits(MaterialFlag::IgnoreZ) == 0x8000,
        material_flag_bits(MaterialFlag::Wireframe) == 0x10000000,
        stencil_op_code(StencilOp::Keep) == 1 && stencil_op_code(StencilOp::Replace) == 3,
        stencil_cmp_fn_code(StencilCmpFn::Equal) == 3 && stencil_cmp_fn_code(StencilCmpFn::Always) == 8,
{
}

impl StencilOp {
    pub fn code(&self) -> (c: i32)
        ensures
            c == stencil_op_code(*self),
    {
        match self {
            StencilOp::Keep => 1,
            StencilOp::Replace => 3,
        }
    }
}

impl StencilCmpFn {
    pub fn code(&self) -> (c: i32)
        ensures
            c == stencil_cmp_fn_code(*self),
    {
        match self {
            StencilCmpFn::Equal => 3,
            StencilCmpFn::Always => 8,
        }
    }
}

impl Default for StencilOp {
    fn default() -> (op: Self)
        ensures
            op == StencilOp::Keep,
    {
        StencilOp::Keep
    }
}

impl Default for StencilCmpFn {
    fn default() -> (f: Self)
        ensures
            f == StencilCmpFn::Always,
    {
        StencilCmpFn::Always
    }
}

/// A colour with `f32` components (the render view's colour modulation and blend), kept as
/// the bit patterns of the four values: the toolkit only passes it on to the engine.
#[derive(Clone, Copy, Debug, PartialEq, Eq, Structural)]
pub struct ColorBits {
    pub r: u32,
    pub g: u32,
    pub b: u32,
    pub a: u32,
}

/// One call into the engine's rendering interfaces, in the order the toolkit makes them.
#[derive(Clone, Copy, Debug, PartialEq, Eq, Structural)]
pub enum RenderCommand {
    /// `ModelRender::ForcedMaterialOverride`; `None` restores the model's own materials.
    ForcedMaterialOverride(Option<Material>),
    /// `IClientRenderable::DrawModel` of the entity with this index, with these flags.
    DrawModel { entity_index: i32, flags: i32 },
    /// Pushes a render target together with its viewport.
    PushRtAndViewport(Texture),
    /// Restores the render target and viewport pushed last.
    PopRtAndViewport,
    /// Sets the viewport rectangle.
    SetViewport { x: i32, y: i32, width: i32, height: i32 },
    /// Makes a texture the current render target.
    SetRenderTarget(Texture),
    /// Clears the selected buffers of the current render target.
    ClearBuffers { clear_color: bool, clear_depth: bool, clear_stencil: bool },
    /// Sets the colour used by the next clear.
    ClearColor3ub { r: u8, g: u8, b: u8 },
    /// Overrides depth testing.
    OverrideDepthEnable { enable: bool, depth_enable: bool },
    SetStencilEnable(bool),
    SetStencilFailOp(StencilOp),
    SetStencilZFailOp(StencilOp),
    SetStencilPassOp(StencilOp),
    SetStencilCmpFn(StencilCmpFn),
    SetStencilRefValue(i32),
    SetStencilTestMask(u32),
    SetStencilWriteMask(u32),
    /// Switches a flag of a material.
    SetMaterialFlag { material: Material, flag: MaterialFlag, state: bool },
    /// Remembers the render view's blend and sets it to zero.
    SaveBlendAndClear,
    /// Sets the render view's blend back to the one remembered last.
    RestoreBlend,
    /// Takes a reference on a texture, so that the engine keeps it.
    IncRefTexture(Texture),
    /// Gives a reference on a texture back.
    DecRefTexture(Texture),
    /// Gives a reference on a material back.
    DecRefMaterial(Material),
    /// Remembers the render view's colour modulation and blend.
    SaveColorWithBlend,
    /// Sets the render view's colour modulation and blend.
    SetColorWithBlend(ColorBits),
    /// Sets the colour modulation and blend back to the ones remembered last.
    RestoreColorWithBlend,
    /// Draws a screen-space rectangle with a material. The texture coordinates are the
    /// bit patterns of the `f32` values handed to the engine.
    DrawScreenSpaceRect {
        material: Material,
        x: i32,
        y: i32,
        width: i32,
        height: i32,
        texture_x0_bits: u32,
        texture_y0_bits: u32,
        texture_x1_bits: u32,
        texture_y1_bits: u32,
        texture_width: i32,
        texture_height: i32,
    },
}

/// The ordered list of engine calls that one piece of drawing logic makes.
pub struct RenderQueue {
    pub commands: Vec<RenderCommand>,
}

impl View for RenderQueue {
    type V = Seq<RenderCommand>;

    open spec fn view(&self) -> Seq<RenderCommand> {
        self.commands@
    }
}

impl RenderQueue {
    /// An empty queue.
    pub fn new() -> (q: Self)
        ensures
            q@ == Seq::<RenderCommand>::empty(),
    {
        RenderQueue { commands: Vec::new() }
    }

    /// Appends one command.
    pub fn push(&mut self, cmd: RenderCommand)
        ensures
            final(self)@ == old(self)@.push(cmd),
    {
        self.commands.push(cmd);
    }
}

/// The engine's model renderer.
pub struct ModelRender;

impl ModelRender {
    /// Makes every model drawn from now on use `new_material`.
    pub fn override_material(&self, new_material: &Material, queue: &mut RenderQueue)
        ensures
            final(queue)@ == old(queue)@.push(RenderCommand::ForcedMaterialOverride(Some(*new_material))),
    {
        queue.push(RenderCommand::ForcedMaterialOverride(Some(*new_material)));
    }

    /// Lets models use their own materials again.
    pub fn reset_material(&self, queue: &mut RenderQueue)
        ensures
            final(queue)@ == old(queue)@.push(RenderCommand::ForcedMaterialOverride(None)),
    {
        queue.push(RenderCommand::ForcedMaterialOverride(None));
    }
}

/// The engine's render context.
pub struct RenderContext;

impl RenderContext {
    /// Pushes `rt` as render target and sets a viewport of `width` by `height` at the origin.
    pub fn push_rt_and_set_viewport(&self, rt: &Texture, dims: (i32, i32), queue: &mut RenderQueue)
        ensures
            final(queue)@ == old(queue)@.push(RenderCommand::PushRtAndViewport(*rt)).push(
                RenderCommand::SetViewport { x: 0, y: 0, width: dims.0, height: dims.1 },
            ),
    {
        queue.push(RenderCommand::PushRtAndViewport(*rt));
        queue.push(RenderCommand::SetViewport { x: 0, y: 0, width: dims.0, height: dims.1 });
    }

    /// Sets the clear colour from a byte colour, scaling it to bytes first.
    pub fn clear_color_3u8(&self, color: Color<u8>, queue: &mut RenderQueue)
        requires
            color.mode == ColorMode::OneBased ==> color.r <= 1 && color.g <= 1 && color.b <= 1 && color.a <= 1,
        ensures
            ({
                let c = spec_mul_255_if_supports(color);
                final(queue)@ == old(queue)@.push(RenderCommand::ClearColor3ub { r: c.r, g: c.g, b: c.b })
            }),
    {
        let c = color.mul_255_if_supports();
        queue.push(RenderCommand::ClearColor3ub { r: c.r, g: c.g, b: c.b });
    }
}


/// Why a builder could not build its value: the named field was never set.
#[derive(Clone, Copy, Debug)]
pub enum BuilderError {
    UninitializedField(&'static str),
}

/// Which buffers to clear.
#[derive(Clone, Copy, Debug, PartialEq, Eq, Structural)]
pub struct ClearBuffers {
    pub clear_color: bool,
    pub clear_depth: bool,
    pub clear_stencil: bool,
}

/// Collects the settings of a `ClearBuffers`; colour and depth must be set, stencil
/// defaults to `false`.
#[derive(Clone, Copy, Debug, PartialEq, Eq, Structural)]
pub struct ClearBuffersBuilder {
    pub clear_color: Option<bool>,
    pub clear_depth: Option<bool>,
    pub clear_stencil: Option<bool>,
}

impl Default for ClearBuffersBuilder {
    fn default() -> (b: Self)
        ensures
            b == (ClearBuffersBuilder { clear_color: None, clear_depth: None, clear_stencil: None }),
    {
        ClearBuffersBuilder { clear_color: None, clear_depth: None, clear_stencil: None }
    }
}

impl ClearBuffersBuilder {
    pub fn clear_color(self, value: bool) -> (b: Self)
        ensures
            b == (ClearBuffersBuilder { clear_color: Some(value), ..self }),
    {
        ClearBuffersBuilder { clear_color: Some(value), ..self }
    }

    pub fn clear_depth(self, value: bool) -> (b: Self)
        ensures
            b == (ClearBuffersBuilder { clear_depth: Some(value), ..self }),
    {
        ClearBuffersBuilder { clear_depth: Some(value), ..self }
    }

    pub fn clear_stencil(self, value: bool) -> (b: Self)
        ensures
            b == (ClearBuffersBuilder { clear_stencil: Some(value), ..self }),
    {
        ClearBuffersBuilder { clear_stencil: Some(value), ..self }
    }

    /// The settings, or the first required field (in declaration order) that is missing.
    pub fn build(self) -> (r: Result<ClearBuffers, BuilderError>)
        ensures
            match (self.clear_color, self.clear_depth) {
                (Some(c), Some(d)) => r == Ok::<ClearBuffers, BuilderError>(
                    ClearBuffers {
                        clear_color: c,
                        clear_depth: d,
                        clear_stencil: match self.clear_stencil {
                            Some(s) => s,
                            None => false,
                        },
                    },
                ),
                (None, _) => r == Err::<ClearBuffers, BuilderError>(BuilderError::UninitializedField("clear_color")),
                (Some(_), None) => r == Err::<ClearBuffers, BuilderError>(BuilderError::UninitializedField("clear_depth")),
            },
    {
        let clear_color = match self.clear_color {
            Some(c) => c,
            None => return Err(BuilderError::UninitializedField("clear_color")),
        };
        let clear_depth = match self.clear_depth {
            Some(d) => d,
            None => return Err(BuilderError::UninitializedField("clear_depth")),
        };
        let clear_stencil = match self.clear_stencil {
            Some(s) => s,
            None => false,
        };
        Ok(ClearBuffers { clear_color, clear_depth, clear_stencil })
    }

    /// Builds the settings and clears those buffers.
    pub fn build_and_clear(self, render_ctx: &RenderContext, queue: &mut RenderQueue)
        requires
            self.clear_color is Some,
            self.clear_depth is Some,
        ensures
            final(queue)@ == old(queue)@.push(
                RenderCommand::ClearBuffers {
                    clear_color: self.clear_color->0,
                    clear_depth: self.clear_depth->0,
                    clear_stencil: match self.clear_stencil {
                        Some(s) => s,
                        None => false,
                    },
                },
            ),
    {
        match self.build() {
            Ok(b) => queue.push(
                RenderCommand::ClearBuffers {
                    clear_color: b.clear_color,
                    clear_depth: b.clear_depth,
                    clear_stencil: b.clear_stencil,
                },
            ),
            Err(_) => {},
        }
    }
}

/// A screen-space rectangle to draw with a material. Texture coordinates are kept as the
/// bit patterns of their `f32` values: the toolkit only passes them on to the engine.
#[derive(Clone, Copy, Debug)]
pub struct ScreenSpaceRect {
    pub material: Material,
    pub pos: (i32, i32),
    pub dimensions: (i32, i32),
    pub texture_x0_y0: (u32, u32),
    pub texture_x1_y1: (u32, u32),
    pub texture_dimensions: (i32, i32),
}

/// Collects the fields of a `ScreenSpaceRect`; every field must be set.
#[derive(Clone, Copy, Debug)]
pub struct ScreenSpaceRectBuilder {
    pub material: Option<Material>,
    pub pos: Option<(i32, i32)>,
    pub dimensions: Option<(i32, i32)>,
    pub texture_x0_y0: Option<(u32, u32)>,
    pub texture_x1_y1: Option<(u32, u32)>,
    pub texture_dimensions: Option<(i32, i32)>,
}

impl Default for ScreenSpaceRectBuilder {
    fn default() -> (b: Self)
        ensures
            b == (ScreenSpaceRectBuilder {
                material: None,
                pos: None,
                dimensions: None,
                texture_x0_y0: None,
                texture_x1_y1: None,
                texture_dimensions: None,
            }),
    {
        ScreenSpaceRectBuilder {
            material: None,
            pos: None,
            dimensions: None,
            texture_x0_y0: None,
            texture_x1_y1: None,
            texture_dimensions: None,
        }
    }
}

/// The command that draws `r`.
pub open spec fn screen_space_rect_command(r: ScreenSpaceRect) -> RenderCommand {
    RenderCommand::DrawScreenSpaceRect {
        material: r.material,
        x: r.pos.0,
        y: r.pos.1,
        width: r.dimensions.0,
        height: r.dimensions.1,
        texture_x0_bits: r.texture_x0_y0.0,
        texture_y0_bits: r.texture_x0_y0.1,
        texture_x1_bits: r.texture_x1_y1.0,
        texture_y1_bits: r.texture_x1_y1.1,
        texture_width: r.texture_dimensions.0,
        texture_height: r.texture_dimensions.1,
    }
}

impl ScreenSpaceRectBuilder {
    pub fn material(self, value: Material) -> (b: Self)
        ensures
            b == (ScreenSpaceRectBuilder { material: Some(value), ..self }),
    {
        ScreenSpaceRectBuilder { material: Some(value), ..self }
    }

    pub fn pos(self, value: (i32, i32)) -> (b: Self)
        ensures
            b == (ScreenSpaceRectBuilder { pos: Some(value), ..self }),
    {
        ScreenSpaceRectBuilder { pos: Some(value), ..self }
    }

    pub fn dimensions(self, value: (i32, i32)) -> (b: Self)
        ensures
            b == (ScreenSpaceRectBuilder { dimensions: Some(value), ..self }),
    {
        ScreenSpaceRectBuilder { dimensions: Some(value), ..self }
    }

    pub fn texture_x0_y0(self, value: (u32, u32)) -> (b: Self)
        ensures
            b == (ScreenSpaceRectBuilder { texture_x0_y0: Some(value), ..self }),
    {
        ScreenSpaceRectBuilder { texture_x0_y0: Some(value), ..self }
    }

    pub fn texture_x1_y1(self, value: (u32, u32)) -> (b: Self)
        ensures
            b == (ScreenSpaceRectBuilder { texture_x1_y1: Some(value), ..self }),
    {
        ScreenSpaceRectBuilder { texture_x1_y1: Some(value), ..self }
    }

    pub fn texture_dimensions(self, value: (i32, i32)) -> (b: Self)
        ensures
            b == (ScreenSpaceRectBuilder { texture_dimensions: Some(value), ..self }),
    {
        ScreenSpaceRectBuilder { texture_dimensions: Some(value), ..self }
    }

    /// Whether every field has been set.
    pub open spec fn complete(self) -> bool {
        &&& self.material is Some
        &&& self.pos is Some
        &&& self.dimensions is Some
        &&& self.texture_x0_y0 is Some
        &&& self.texture_x1_y1 is Some
        &&& self.texture_dimensions is Some
    }

    /// The rectangle that a complete builder holds.
    pub open spec fn spec_rect(self) -> ScreenSpaceRect {
        ScreenSpaceRect {
            material: self.material->0,
            pos: self.pos->0,
            dimensions: self.dimensions->0,
            texture_x0_y0: self.texture_x0_y0->0,
            texture_x1_y1: self.texture_x1_y1->0,
            texture_dimensions: self.texture_dimensions->0,
        }
    }

    /// The rectangle, or the first field (in declaration order) that is missing.
    pub fn build(self) -> (r: Result<ScreenSpaceRect, BuilderError>)
        ensures
            self.complete() ==> r == Ok::<ScreenSpaceRect, BuilderError>(self.spec_rect()),
            self.material is None ==> r == Err::<ScreenSpaceRect, BuilderError>(BuilderError::UninitializedField("material")),
            self.material is Some && self.pos is None ==> r == Err::<ScreenSpaceRect, BuilderError>(
                BuilderError::UninitializedField("pos"),
            ),
            self.material is Some && self.pos is Some && self.dimensions is None ==> r == Err::<ScreenSpaceRect, BuilderError>(
                BuilderError::UninitializedField("dimensions"),
            ),
            self.material is Some && self.pos is Some && self.dimensions is Some && self.texture_x0_y0 is None ==> r
                == Err::<ScreenSpaceRect, BuilderError>(BuilderError::UninitializedField("texture_x0_y0")),
            self.material is Some && self.pos is Some && self.dimensions is Some && self.texture_x0_y0 is Some
                && self.texture_x1_y1 is None ==> r == Err::<ScreenSpaceRect, BuilderError>(
                BuilderError::UninitializedField("texture_x1_y1"),
            ),
            self.material is Some && self.pos is Some && self.dimensions is Some && self.texture_x0_y0 is Some
                && self.texture_x1_y1 is Some && self.texture_dimensions is None ==> r == Err::<ScreenSpaceRect, BuilderError>(
                BuilderError::UninitializedField("texture_dimensions"),
            ),
    {
        let material = match self.material {
            Some(v) => v,
            None => return Err(BuilderError::UninitializedField("material")),
        };
        let pos = match self.pos {
            Some(v) => v,
            None => return Err(BuilderError::UninitializedField("pos")),
        };
        let dimensions = match self.dimensions {
            Some(v) => v,
            None => return Err(BuilderError::UninitializedField("dimensions")),
        };
        let texture_x0_y0 = match self.texture_x0_y0 {
            Some(v) => v,
            None => return Err(BuilderError::UninitializedField("texture_x0_y0")),
        };
        let texture_x1_y1 = match self.texture_x1_y1 {
            Some(v) => v,
            None => return Err(BuilderError::UninitializedField("texture_x1_y1")),
        };
        let texture_dimensions = match self.texture_dimensions {
            Some(v) => v,
            None => return Err(BuilderError::UninitializedField("texture_dimensions")),
        };
        Ok(ScreenSpaceRect { material, pos, dimensions, texture_x0_y0, texture_x1_y1, texture_dimensions })
    }

    /// Builds the rectangle and draws it.
    pub fn build_and_draw(self, render_ctx: &RenderContext, queue: &mut RenderQueue)
        requires
            self.complete(),
        ensures
            final(queue)@ == old(queue)@.push(screen_space_rect_command(self.spec_rect())),
    {
        match self.build() {
            Ok(r) => queue.push(
                RenderCommand::DrawScreenSpaceRect {
                    material: r.material,
                    x: r.pos.0,
                    y: r.pos.1,
                    width: r.dimensions.0,
                    height: r.dimensions.1,
                    texture_x0_bits: r.texture_x0_y0.0,
                    texture_y0_bits: r.texture_x0_y0.1,
                    texture_x1_bits: r.texture_x1_y1.0,
                    texture_y1_bits: r.texture_x1_y1.1,
                    texture_width: r.texture_dimensions.0,
                    texture_height: r.texture_dimensions.1,
                },
            ),
            Err(_) => {},
        }
    }
}

/// Depth override settings.
#[derive(Clone, Copy, Debug, PartialEq, Eq, Structural)]
pub struct OverrideDepth {
    pub enable: bool,
    pub depth_enable: bool,
}

/// Collects the settings of an `OverrideDepth`; `enable` must be set, `depth_enable`
/// defaults to `false`.
#[derive(Clone, Copy, Debug, PartialEq, Eq, Structural)]
pub struct OverrideDepthBuilder {
    pub enable: Option<bool>,
    pub depth_enable: Option<bool>,
}

impl Default for OverrideDepthBuilder {
    fn default() -> (b: Self)
        ensures
            b == (OverrideDepthBuilder { enable: None, depth_enable: None }),
    {
        OverrideDepthBuilder { enable: None, depth_enable: None }
    }
}

impl OverrideDepthBuilder {
    pub fn enable(self, value: bool) -> (b: Self)
        ensures
            b == (OverrideDepthBuilder { enable: Some(value), ..self }),
    {
        OverrideDepthBuilder { enable: Some(value), ..self }
    }

    pub fn depth_enable(self, value: bool) -> (b: Self)
        ensures
            b == (OverrideDepthBuilder { depth_enable: Some(value), ..self }),
    {
        OverrideDepthBuilder { depth_enable: Some(value), ..self }
    }

    /// The settings, or the missing required field.
    pub fn build(self) -> (r: Result<OverrideDepth, BuilderError>)
        ensures
            match self.enable {
                Some(e) => r == Ok::<OverrideDepth, BuilderError>(
                    OverrideDepth {
                        enable: e,
                        depth_enable: match self.depth_enable {
                            Some(d) => d,
                            None => false,
                        },
                    },
                ),
                None => r == Err::<OverrideDepth, BuilderError>(BuilderError::UninitializedField("enable")),
            },
    {
        let enable = match self.enable {
            Some(e) => e,
            None => return Err(BuilderError::UninitializedField("enable")),
        };
        let depth_enable = match self.depth_enable {
            Some(d) => d,
            None => false,
        };
        Ok(OverrideDepth { enable, depth_enable })
    }

    /// Builds the settings and applies the depth override.
    pub fn build_and_override(self, render_ctx: &RenderContext, queue: &mut RenderQueue)
        requires
            self.enable is Some,
        ensures
            final(queue)@ == old(queue)@.push(
                RenderCommand::OverrideDepthEnable {
                    enable: self.enable->0,
                    depth_enable: match self.depth_enable {
                        Some(d) => d,
                        None => false,
                    },
                },
            ),
    {
        match self.build() {
            Ok(o) => queue.push(RenderCommand::OverrideDepthEnable { enable: o.enable, depth_enable: o.depth_enable }),
            Err(_) => {},
        }
    }
}

/// The stencil settings of the render context.
#[derive(Clone, Copy, Debug, PartialEq, Eq, Structural)]
pub struct StencilState {
    pub enable: bool,
    pub fail_op: StencilOp,
    pub z_fail_op: StencilOp,
    pub pass_op: StencilOp,
    pub cmp_fn: StencilCmpFn,
    pub ref_value: i32,
    pub test_mask: u32,
    pub write_mask: u32,
}

/// The engine calls that install a stencil state, in the order they are made.
pub open spec fn stencil_commands(s: StencilState) -> Seq<RenderCommand> {
    seq![
        RenderCommand::SetStencilEnable(s.enable),
        RenderCommand::SetStencilFailOp(s.fail_op),
        RenderCommand::SetStencilZFailOp(s.z_fail_op),
        RenderCommand::SetStencilPassOp(s.pass_op),
        RenderCommand::SetStencilCmpFn(s.cmp_fn),
        RenderCommand::SetStencilRefValue(s.ref_value),
        RenderCommand::SetStencilTestMask(s.test_mask),
        RenderCommand::SetStencilWriteMask(s.write_mask),
    ]
}

/// Stenciling off, every operation keeping, always passing, reference 0, all mask bits.
pub open spec fn default_stencil_state() -> StencilState {
    StencilState {
        enable: false,
        fail_op: StencilOp::Keep,
        z_fail_op: StencilOp::Keep,
        pass_op: StencilOp::Keep,
        cmp_fn: StencilCmpFn::Always,
        ref_value: 0,
        test_mask: 0xFFFF_FFFF,
        write_mask: 0xFFFF_FFFF,
    }
}

impl Default for StencilState {
    fn default() -> (s: Self)
        ensures
            s == default_stencil_state(),
    {
        StencilState {
            enable: false,
            fail_op: StencilOp::default(),
            z_fail_op: StencilOp::default(),
            pass_op: StencilOp::default(),
            cmp_fn: StencilCmpFn::default(),
            ref_value: 0,
            test_mask: 0xFFFF_FFFF,
            write_mask: 0xFFFF_FFFF,
        }
    }
}

impl StencilState {
    /// Installs every setting of the state on the render context.
    pub fn set(&self, render_ctx: &RenderContext, queue: &mut RenderQueue)
        ensures
            final(queue)@ == old(queue)@ + stencil_commands(*self),
    {
        queue.push(RenderCommand::SetStencilEnable(self.enable));
        queue.push(RenderCommand::SetStencilFailOp(self.fail_op));
        queue.push(RenderCommand::SetStencilZFailOp(self.z_fail_op));
        queue.push(RenderCommand::SetStencilPassOp(self.pass_op));
        queue.push(RenderCommand::SetStencilCmpFn(self.cmp_fn));
        queue.push(RenderCommand::SetStencilRefValue(self.ref_value));
        queue.push(RenderCommand::SetStencilTestMask(self.test_mask));
        queue.push(RenderCommand::SetStencilWriteMask(self.write_mask));
        assert(queue@ =~= old(queue)@ + stencil_commands(*self));
    }
}

} // verus!
