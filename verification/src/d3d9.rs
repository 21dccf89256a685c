//! Direct3D 9 rendering state.
//!
//! The guest hands single-precision numbers over as their 32-bit patterns; the
//! state keeps them in that form, and the rasterizer reads them as numbers.
use std::collections::HashMap;

use vstd::prelude::*;

use crate::handles::Hwnd;

verus! {

/// A single-precision number by its bit pattern.
pub type FloatBits = u32;

/// Bit pattern of `0.0`.
pub const FLOAT_ZERO: u32 = 0x0000_0000;

/// Bit pattern of `1.0`.
pub const FLOAT_ONE: u32 = 0x3F80_0000;

/// `D3DCMP_LESSEQUAL`.
pub const D3DCMP_LESSEQUAL: u32 = 4;

/// `D3DBLEND_ZERO`.
pub const D3DBLEND_ZERO: u32 = 1;

/// `D3DBLEND_ONE`.
pub const D3DBLEND_ONE: u32 = 2;

/// `D3DBLENDOP_ADD`.
pub const D3DBLENDOP_ADD: u32 = 1;

/// `D3DTOP_SELECTARG1`.
pub const D3DTOP_SELECTARG1: u32 = 2;

/// `D3DTOP_MODULATE`.
pub const D3DTOP_MODULATE: u32 = 4;

/// `D3DTA_CURRENT`.
pub const D3DTA_CURRENT: u32 = 1;

/// `D3DTA_TEXTURE`.
pub const D3DTA_TEXTURE: u32 = 2;

/// `D3DTEXF_POINT`.
pub const D3DTEXF_POINT: u32 = 1;

/// `D3DTADDRESS_WRAP`.
pub const D3DTADDRESS_WRAP: u32 = 1;

/// A rectangle in pixels, right and bottom edges excluded.
#[derive(Debug, Clone, Copy, PartialEq, Eq, Structural)]
pub struct IRect {
    pub left: i32,
    pub top: i32,
    pub right: i32,
    pub bottom: i32,
}

/// Typed device render state (`D3DRS_*`).
#[derive(Debug, Clone, Copy, PartialEq, Eq, Structural)]
pub struct RenderState {
    pub alpha_blend_enable: bool,
    pub z_write_enable: bool,
    pub z_enable: u32,
    pub z_func: u32,
    pub src_blend: u32,
    pub dest_blend: u32,
    pub blend_op: u32,
}

impl RenderState {
    /// The fixed-function defaults.
    pub open spec fn initial() -> RenderState {
        RenderState {
            alpha_blend_enable: false,
            z_write_enable: true,
            z_enable: 0,
            z_func: D3DCMP_LESSEQUAL,
            src_blend: D3DBLEND_ONE,
            dest_blend: D3DBLEND_ZERO,
            blend_op: D3DBLENDOP_ADD,
        }
    }
}

impl Default for RenderState {
    fn default() -> (state: Self)
        ensures
            state == RenderState::initial(),
    {
        RenderState {
            alpha_blend_enable: false,
            z_write_enable: true,
            z_enable: 0,
            z_func: D3DCMP_LESSEQUAL,
            src_blend: D3DBLEND_ONE,
            dest_blend: D3DBLEND_ZERO,
            blend_op: D3DBLENDOP_ADD,
        }
    }
}

/// Texture and sampler state of one stage.
#[derive(Debug, Clone, Copy, PartialEq, Eq, Structural)]
pub struct TextureStageState {
    pub color_op: u32,
    pub color_arg1: u32,
    pub color_arg2: u32,
    pub alpha_op: u32,
    pub alpha_arg1: u32,
    pub alpha_arg2: u32,
    pub tex_coord_index: u32,
    pub mag_filter: u32,
    pub address_u: u32,
    pub address_v: u32,
}

impl TextureStageState {
    /// The fixed-function defaults.
    pub open spec fn initial() -> TextureStageState {
        TextureStageState {
            color_op: D3DTOP_MODULATE,
            color_arg1: D3DTA_TEXTURE,
            color_arg2: D3DTA_CURRENT,
            alpha_op: D3DTOP_SELECTARG1,
            alpha_arg1: D3DTA_TEXTURE,
            alpha_arg2: D3DTA_CURRENT,
            tex_coord_index: 0,
            mag_filter: D3DTEXF_POINT,
            address_u: D3DTADDRESS_WRAP,
            address_v: D3DTADDRESS_WRAP,
        }
    }
}

impl Default for TextureStageState {
    fn default() -> (state: Self)
        ensures
            state == TextureStageState::initial(),
    {
        TextureStageState {
            color_op: D3DTOP_MODULATE,
            color_arg1: D3DTA_TEXTURE,
            color_arg2: D3DTA_CURRENT,
            alpha_op: D3DTOP_SELECTARG1,
            alpha_arg1: D3DTA_TEXTURE,
            alpha_arg2: D3DTA_CURRENT,
            tex_coord_index: 0,
            mag_filter: D3DTEXF_POINT,
            address_u: D3DTADDRESS_WRAP,
            address_v: D3DTADDRESS_WRAP,
        }
    }
}

/// One texture.
#[derive(Debug, Clone)]
pub struct TextureRecord {
    pub width: u32,
    pub height: u32,
    /// Texels, row by row.
    pub pixels: Vec<u32>,
    /// Guest VA of the locked copy (0 = not locked).
    pub locked_va: u64,
}

/// One depth-stencil surface.
#[derive(Debug, Clone)]
pub struct DepthStencilRecord {
    pub width: u32,
    pub height: u32,
    pub format: u32,
    /// Depth values, row by row.
    pub depth: Vec<FloatBits>,
}

/// One vertex or pixel shader.
#[derive(Debug, Clone)]
pub struct ShaderRecord {
    /// The token stream handed to the create call.
    pub tokens: Vec<u32>,
}

/// Viewport (`D3DVIEWPORT9`).
#[derive(Debug, Clone, Copy, PartialEq, Eq, Structural)]
pub struct Viewport {
    pub x: u32,
    pub y: u32,
    pub width: u32,
    pub height: u32,
    pub min_z: FloatBits,
    pub max_z: FloatBits,
}

/// Direct3D 9 rendering state.
#[derive(Debug, Clone)]
pub struct D3D9State {
    pub d3d9_current_vertex_shader: u64,
    pub d3d9_current_fvf: u32,
    /// Typed device render state (`D3DRS_*`).
    pub d3d9_render_state: RenderState,
    /// Per-stage texture state (texture stage + sampler), indexed by stage.
    pub d3d9_stage_states: [TextureStageState; 8],
    pub d3d9_device_object_address: u64,
    pub d3d9_device_ref_count: u32,
    pub d3d9_object_address: u64,
    pub d3d9_ref_count: u32,
    /// Backbuffer width (from the CreateDevice presentation parameters).
    pub d3d9_backbuffer_width: u32,
    /// Backbuffer height (from the CreateDevice presentation parameters).
    pub d3d9_backbuffer_height: u32,
    /// Host-owned 0RGB backbuffer (top-down), the frame the guest renders into.
    pub d3d9_backbuffer: Vec<u32>,
    /// Window handle that receives Present frames (hDeviceWindow).
    pub d3d9_present_hwnd: Hwnd,
    /// Whether BeginScene has been called (and EndScene has not).
    pub d3d9_scene_active: bool,
    /// Fixed-function world matrix (`D3DTS_WORLD`), row by row.
    pub d3d9_world_matrix: [u32; 16],
    /// Fixed-function view matrix (`D3DTS_VIEW`), row by row.
    pub d3d9_view_matrix: [u32; 16],
    /// Fixed-function projection matrix (`D3DTS_PROJECTION`), row by row.
    pub d3d9_projection_matrix: [u32; 16],
    /// Viewport.
    pub d3d9_viewport: Viewport,
    /// Accumulated dirty region since the last Present (backbuffer coords);
    /// `None` = the whole backbuffer changed (Clear always sets this).
    pub d3d9_dirty: Option<IRect>,
    /// `SetStreamSource` stream-0 vertex pointer.
    pub d3d9_stream_source_va: u64,
    /// `SetStreamSource` stream-0 stride.
    pub d3d9_stream_stride: u32,
    /// `SetIndices` index pointer.
    pub d3d9_index_buffer_va: u64,
    /// Texture records keyed by the texture object's guest VA.
    pub d3d9_textures: HashMap<u64, TextureRecord>,
    /// Surface object VA to texture object VA (`GetSurfaceLevel` views).
    pub d3d9_surface_textures: HashMap<u64, u64>,
    /// Per-stage texture binding (0 = none).
    pub d3d9_texture_bindings: [u64; 8],
    /// Depth-stencil surfaces keyed by the surface object's guest VA.
    pub d3d9_depth_surfaces: HashMap<u64, DepthStencilRecord>,
    /// Bound depth-stencil surface VA (0 = none).
    pub d3d9_depth_stencil: u64,
    /// Pixel/vertex shader records keyed by the shader object's guest VA.
    pub d3d9_shaders: HashMap<u64, ShaderRecord>,
    /// Bound pixel shader VA (0 = none: the fixed-function path runs).
    pub d3d9_pixel_shader: u64,
    /// Pixel-shader constant registers.
    pub d3d9_ps_constants: [[u32; 4]; 32],
    /// Vertex-shader constant registers.
    pub d3d9_vs_constants: [[u32; 4]; 256],
}

/// Whether `matrix` is the 4 by 4 identity, row by row.
pub open spec fn is_identity(matrix: Seq<u32>) -> bool {
    matrix =~= Seq::new(
        16,
        |i: int|
            if i / 4 == i % 4 {
                FLOAT_ONE
            } else {
                FLOAT_ZERO
            },
    )
}

/// Whether every register of `bank` holds four zeros.
pub open spec fn all_registers_zero(bank: Seq<[u32; 4]>) -> bool {
    forall|r: int, c: int|
        0 <= r < bank.len() && 0 <= c < 4 ==> (#[trigger] bank[r]@[c]) == FLOAT_ZERO
}

impl D3D9State {
    /// The state of a device before the first call: identity transforms (a zero
    /// matrix would map every vertex to w = 0 and reject all draws), a zero
    /// viewport with the depth range 0 to 1, nothing bound, created or drawn.
    pub open spec fn is_initial(&self) -> bool {
        &&& self.d3d9_current_vertex_shader == 0
        &&& self.d3d9_current_fvf == 0
        &&& self.d3d9_render_state == RenderState::initial()
        &&& self.d3d9_stage_states@ == Seq::new(8, |i: int| TextureStageState::initial())
        &&& self.d3d9_device_object_address == 0
        &&& self.d3d9_device_ref_count == 0
        &&& self.d3d9_object_address == 0
        &&& self.d3d9_ref_count == 0
        &&& self.d3d9_backbuffer_width == 0
        &&& self.d3d9_backbuffer_height == 0
        &&& self.d3d9_backbuffer@ == Seq::<u32>::empty()
        &&& self.d3d9_present_hwnd == Hwnd(0)
        &&& !self.d3d9_scene_active
        &&& is_identity(self.d3d9_world_matrix@)
        &&& is_identity(self.d3d9_view_matrix@)
        &&& is_identity(self.d3d9_projection_matrix@)
        &&& self.d3d9_viewport == (Viewport {
            x: 0,
            y: 0,
            width: 0,
            height: 0,
            min_z: FLOAT_ZERO,
            max_z: FLOAT_ONE,
        })
        &&& self.d3d9_dirty == None::<IRect>
        &&& self.d3d9_stream_source_va == 0
        &&& self.d3d9_stream_stride == 0
        &&& self.d3d9_index_buffer_va == 0
        &&& self.d3d9_textures@ == Map::<u64, TextureRecord>::empty()
        &&& self.d3d9_surface_textures@ == Map::<u64, u64>::empty()
        &&& self.d3d9_texture_bindings@ == Seq::new(8, |i: int| 0u64)
        &&& self.d3d9_depth_surfaces@ == Map::<u64, DepthStencilRecord>::empty()
        &&& self.d3d9_depth_stencil == 0
        &&& self.d3d9_shaders@ == Map::<u64, ShaderRecord>::empty()
        &&& self.d3d9_pixel_shader == 0
        &&& all_registers_zero(self.d3d9_ps_constants@)
        &&& all_registers_zero(self.d3d9_vs_constants@)
    }
}

fn identity() -> (matrix: [u32; 16])
    ensures
        is_identity(matrix@),
{
    let matrix: [u32; 16] = [
        FLOAT_ONE, FLOAT_ZERO, FLOAT_ZERO, FLOAT_ZERO,
        FLOAT_ZERO, FLOAT_ONE, FLOAT_ZERO, FLOAT_ZERO,
        FLOAT_ZERO, FLOAT_ZERO, FLOAT_ONE, FLOAT_ZERO,
        FLOAT_ZERO, FLOAT_ZERO, FLOAT_ZERO, FLOAT_ONE,
    ];
    matrix
}

impl Default for D3D9State {
    fn default() -> (state: Self)
        ensures
            state.is_initial(),
    {
        let stage = TextureStageState::default();
        let state = D3D9State {
            d3d9_current_vertex_shader: 0,
            d3d9_current_fvf: 0,
            d3d9_render_state: RenderState::default(),
            d3d9_stage_states: [stage; 8],
            d3d9_device_object_address: 0,
            d3d9_device_ref_count: 0,
            d3d9_object_address: 0,
            d3d9_ref_count: 0,
            d3d9_backbuffer_width: 0,
            d3d9_backbuffer_height: 0,
            d3d9_backbuffer: Vec::new(),
            d3d9_present_hwnd: Hwnd::null(),
            d3d9_scene_active: false,
            d3d9_world_matrix: identity(),
            d3d9_view_matrix: identity(),
            d3d9_projection_matrix: identity(),
            d3d9_viewport: Viewport {
                x: 0,
                y: 0,
                width: 0,
                height: 0,
                min_z: FLOAT_ZERO,
                max_z: FLOAT_ONE,
            },
            d3d9_dirty: None,
            d3d9_stream_source_va: 0,
            d3d9_stream_stride: 0,
            d3d9_index_buffer_va: 0,
            d3d9_textures: HashMap::new(),
            d3d9_surface_textures: HashMap::new(),
            d3d9_texture_bindings: [0u64; 8],
            d3d9_depth_surfaces: HashMap::new(),
            d3d9_depth_stencil: 0,
            d3d9_shaders: HashMap::new(),
            d3d9_pixel_shader: 0,
            d3d9_ps_constants: [[FLOAT_ZERO; 4]; 32],
            d3d9_vs_constants: [[FLOAT_ZERO; 4]; 256],
        };
        assert(state.d3d9_stage_states@ =~= Seq::new(8, |i: int| TextureStageState::initial()));
        assert(state.d3d9_texture_bindings@ =~= Seq::new(8, |i: int| 0u64));
        state
    }
}

} // verus!
