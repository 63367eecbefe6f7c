//! Device state cache: a mirror of the graphics device's fixed-function
//! state. Every state-affecting request is compared against the recorded
//! state and the underlying device call is returned only when it would
//! actually change that state; the caller (the unverified device layer)
//! performs the returned call. Redundant transitions are thereby elided.
//!
//! Floating-point knobs (polygon offset factor and units) are recorded as
//! IEEE-754 bit patterns; two requests differ exactly when their bit
//! patterns differ.

use vstd::prelude::*;

verus! {

/// Number of texture units whose bindings the cache tracks.
pub const TEXTURE_UNITS: usize = 12;

/// A device capability that can be enabled or disabled.
#[derive(Debug, Clone, Copy, PartialEq, Eq, Structural)]
pub enum Capability {
    ScissorTest,
    DepthTest,
    Blend,
    CullFace,
    PolygonOffsetFill,
    PolygonOffsetLine,
    ColorLogicOp,
}

/// Comparison function for the depth and stencil tests.
#[derive(Debug, Clone, Copy, PartialEq, Eq, Structural)]
pub enum ComparisonFunc {
    Never,
    Less,
    Equal,
    LessOrEqual,
    Greater,
    NotEqual,
    GreaterOrEqual,
    Always,
}

/// Blending factor for source or destination, RGB or alpha.
#[derive(Debug, Clone, Copy, PartialEq, Eq, Structural)]
pub enum BlendFactor {
    Zero,
    One,
    SrcColor,
    OneMinusSrcColor,
    DstColor,
    OneMinusDstColor,
    SrcAlpha,
    OneMinusSrcAlpha,
    DstAlpha,
    OneMinusDstAlpha,
    ConstantColor,
    OneMinusConstantColor,
    ConstantAlpha,
    OneMinusConstantAlpha,
    SrcAlphaSaturate,
}

/// Which faces are culled when face culling is enabled.
#[derive(Debug, Clone, Copy, PartialEq, Eq, Structural)]
pub enum CullMode {
    Front,
    Back,
    FrontAndBack,
}

/// Color logic operation.
#[derive(Debug, Clone, Copy, PartialEq, Eq, Structural)]
pub enum LogicOpKind {
    Clear,
    And,
    AndReverse,
    Copy,
    AndInverted,
    Noop,
    Xor,
    Or,
    Nor,
    Equiv,
    Invert,
    OrReverse,
    CopyInverted,
    OrInverted,
    Nand,
    SetAll,
}

/// Action taken on a stencil buffer entry.
#[derive(Debug, Clone, Copy, PartialEq, Eq, Structural)]
pub enum StencilOpKind {
    Keep,
    Zero,
    Replace,
    Increment,
    IncrementWrap,
    Decrement,
    DecrementWrap,
    Invert,
}

/// One call into the device, produced by the cache only when the requested
/// state differs from the recorded one.
#[derive(Debug, Clone, Copy, PartialEq, Eq, Structural)]
pub enum DeviceCall {
    Enable(Capability),
    Disable(Capability),
    DepthFunc(ComparisonFunc),
    DepthMask(bool),
    BlendFunc(BlendFactor, BlendFactor),
    BlendFuncSeparate(BlendFactor, BlendFactor, BlendFactor, BlendFactor),
    PolygonOffset(u32, u32),
    LogicOp(LogicOpKind),
    Viewport(i32, i32, i32, i32),
    ColorMask(u8, u8, u8, u8),
    StencilFunc(ComparisonFunc, i32, u32),
    StencilMask(u32),
    StencilOp(StencilOpKind, StencilOpKind, StencilOpKind),
    ActiveTexture(usize),
    BindTexture(u32),
}

/// One state-affecting request a caller can issue against the cache. Every
/// setter of the cache is a request of this shape; the cache decides
/// uniformly whether the device must be called.
#[derive(Debug, Clone, Copy, PartialEq, Eq, Structural)]
pub enum StateRequest {
    Toggle(Capability, bool),
    DepthFunc(ComparisonFunc),
    DepthMask(bool),
    BlendFunc(BlendFactor, BlendFactor),
    BlendFuncSeparate(BlendFactor, BlendFactor, BlendFactor, BlendFactor),
    PolygonOffset(u32, u32),
    LogicOp(LogicOpKind),
    Viewport(i32, i32, i32, i32),
    ColorMask(u8, u8, u8, u8),
    StencilFunc(ComparisonFunc, i32, u32),
    StencilMask(u32),
    StencilOp(StencilOpKind, StencilOpKind, StencilOpKind),
    ActiveTexture(usize),
    BindTexture(u32),
    UnbindTexture,
    TextureCap(bool),
}

/// Binding state of one texture unit.
#[derive(Debug, Clone, Copy, PartialEq, Eq, Structural)]
pub struct TextureSlot {
    pub enabled: bool,
    pub bound: Option<u32>,
}

/// Abstract state of the cache: one record per fixed-function knob.
#[verifier::ext_equal]
pub struct CacheView {
    pub scissor: bool,
    pub depth_test: bool,
    pub depth_mask: bool,
    pub depth_func: ComparisonFunc,
    pub blend: bool,
    pub src_rgb: BlendFactor,
    pub dst_rgb: BlendFactor,
    pub src_alpha: BlendFactor,
    pub dst_alpha: BlendFactor,
    pub cull: bool,
    pub cull_mode: CullMode,
    pub polygon_offset_fill: bool,
    pub polygon_offset_line: bool,
    pub po_factor: u32,
    pub po_units: u32,
    pub logic_op_enabled: bool,
    pub logic_op: LogicOpKind,
    pub stencil_func: ComparisonFunc,
    pub stencil_ref: i32,
    pub stencil_func_mask: u32,
    pub stencil_mask: u32,
    pub stencil_sfail: StencilOpKind,
    pub stencil_dpfail: StencilOpKind,
    pub stencil_dppass: StencilOpKind,
    pub viewport_x: i32,
    pub viewport_y: i32,
    pub viewport_w: i32,
    pub viewport_h: i32,
    pub color_mask_r: u8,
    pub color_mask_g: u8,
    pub color_mask_b: u8,
    pub color_mask_a: u8,
    pub active_texture: usize,
    pub textures: Seq<TextureSlot>,
    pub max_texture_size: Option<i32>,
}

impl CacheView {
    /// The texture table always has one slot per supported unit and the
    /// active unit always indexes into it.
    pub open spec fn wf(self) -> bool {
        &&& self.textures.len() == TEXTURE_UNITS
        &&& self.active_texture < TEXTURE_UNITS
    }

    /// The capability flag a toggle request addresses.
    pub open spec fn cap_state(self, cap: Capability) -> bool {
        match cap {
            Capability::ScissorTest => self.scissor,
            Capability::DepthTest => self.depth_test,
            Capability::Blend => self.blend,
            Capability::CullFace => self.cull,
            Capability::PolygonOffsetFill => self.polygon_offset_fill,
            Capability::PolygonOffsetLine => self.polygon_offset_line,
            Capability::ColorLogicOp => self.logic_op_enabled,
        }
    }

    pub open spec fn with_cap_state(self, cap: Capability, v: bool) -> CacheView {
        match cap {
            Capability::ScissorTest => CacheView { scissor: v, ..self },
            Capability::DepthTest => CacheView { depth_test: v, ..self },
            Capability::Blend => CacheView { blend: v, ..self },
            Capability::CullFace => CacheView { cull: v, ..self },
            Capability::PolygonOffsetFill => CacheView { polygon_offset_fill: v, ..self },
            Capability::PolygonOffsetLine => CacheView { polygon_offset_line: v, ..self },
            Capability::ColorLogicOp => CacheView { logic_op_enabled: v, ..self },
        }
    }
}

/// Whether a request is admissible against a well-formed cache.
pub open spec fn req_wf(req: StateRequest) -> bool {
    match req {
        StateRequest::ActiveTexture(unit) => unit < TEXTURE_UNITS,
        _ => true,
    }
}

/// True when the request would not change actual device state, so the
/// underlying call is suppressed. Texture-capability flips are tracked
/// purely on the CPU side and never reach the device at all.
pub open spec fn spec_elides(s: CacheView, req: StateRequest) -> bool {
    match req {
        StateRequest::Toggle(cap, v) => s.cap_state(cap) == v,
        StateRequest::DepthFunc(f) => s.depth_func == f,
        StateRequest::DepthMask(m) => s.depth_mask == m,
        StateRequest::BlendFunc(src, dst) => {
            s.src_rgb == src && s.dst_rgb == dst && s.src_alpha == src && s.dst_alpha == dst
        },
        StateRequest::BlendFuncSeparate(sr, dr, sa, da) => {
            s.src_rgb == sr && s.dst_rgb == dr && s.src_alpha == sa && s.dst_alpha == da
        },
        StateRequest::PolygonOffset(factor, units) => s.po_factor == factor && s.po_units
            == units,
        StateRequest::LogicOp(op) => s.logic_op == op,
        StateRequest::Viewport(x, y, w, h) => {
            s.viewport_x == x && s.viewport_y == y && s.viewport_w == w && s.viewport_h == h
        },
        StateRequest::ColorMask(r, g, b, a) => {
            s.color_mask_r == r && s.color_mask_g == g && s.color_mask_b == b && s.color_mask_a
                == a
        },
        StateRequest::StencilFunc(f, refv, mask) => {
            s.stencil_func == f && s.stencil_ref == refv && s.stencil_func_mask == mask
        },
        StateRequest::StencilMask(m) => s.stencil_mask == m,
        StateRequest::StencilOp(sfail, dpfail, dppass) => {
            s.stencil_sfail == sfail && s.stencil_dpfail == dpfail && s.stencil_dppass == dppass
        },
        StateRequest::ActiveTexture(unit) => s.active_texture == unit,
        StateRequest::BindTexture(id) => s.textures[s.active_texture as int].bound == Some(id),
        StateRequest::UnbindTexture => s.textures[s.active_texture as int].bound is None,
        StateRequest::TextureCap(_) => true,
    }
}

/// The device call a request issues when it is not elided; texture
/// capability flips never produce one.
pub open spec fn spec_call_of(req: StateRequest) -> Option<DeviceCall> {
    match req {
        StateRequest::Toggle(cap, v) => if v {
            Some(DeviceCall::Enable(cap))
        } else {
            Some(DeviceCall::Disable(cap))
        },
        StateRequest::DepthFunc(f) => Some(DeviceCall::DepthFunc(f)),
        StateRequest::DepthMask(m) => Some(DeviceCall::DepthMask(m)),
        StateRequest::BlendFunc(src, dst) => Some(DeviceCall::BlendFunc(src, dst)),
        StateRequest::BlendFuncSeparate(sr, dr, sa, da) => Some(DeviceCall::BlendFuncSeparate(sr, dr, sa, da)),
        StateRequest::PolygonOffset(factor, units) => Some(DeviceCall::PolygonOffset(factor, units)),
        StateRequest::LogicOp(op) => Some(DeviceCall::LogicOp(op)),
        StateRequest::Viewport(x, y, w, h) => Some(DeviceCall::Viewport(x, y, w, h)),
        StateRequest::ColorMask(r, g, b, a) => Some(DeviceCall::ColorMask(r, g, b, a)),
        StateRequest::StencilFunc(f, refv, mask) => Some(DeviceCall::StencilFunc(f, refv, mask)),
        StateRequest::StencilMask(m) => Some(DeviceCall::StencilMask(m)),
        StateRequest::StencilOp(sfail, dpfail, dppass) => Some(DeviceCall::StencilOp(sfail, dpfail, dppass)),
        StateRequest::ActiveTexture(unit) => Some(DeviceCall::ActiveTexture(unit)),
        StateRequest::BindTexture(id) => Some(DeviceCall::BindTexture(id)),
        StateRequest::UnbindTexture => Some(DeviceCall::BindTexture(0)),
        StateRequest::TextureCap(_) => None,
    }
}

/// The recorded state after a request has been applied.
pub open spec fn spec_apply(s: CacheView, req: StateRequest) -> CacheView {
    match req {
        StateRequest::Toggle(cap, v) => s.with_cap_state(cap, v),
        StateRequest::DepthFunc(f) => CacheView { depth_func: f, ..s },
        StateRequest::DepthMask(m) => CacheView { depth_mask: m, ..s },
        StateRequest::BlendFunc(src, dst) => CacheView {
            src_rgb: src,
            dst_rgb: dst,
            src_alpha: src,
            dst_alpha: dst,
            ..s
        },
        StateRequest::BlendFuncSeparate(sr, dr, sa, da) => CacheView {
            src_rgb: sr,
            dst_rgb: dr,
            src_alpha: sa,
            dst_alpha: da,
            ..s
        },
        StateRequest::PolygonOffset(factor, units) => CacheView {
            po_factor: factor,
            po_units: units,
            ..s
        },
        StateRequest::LogicOp(op) => CacheView { logic_op: op, ..s },
        StateRequest::Viewport(x, y, w, h) => CacheView {
            viewport_x: x,
            viewport_y: y,
            viewport_w: w,
            viewport_h: h,
            ..s
        },
        StateRequest::ColorMask(r, g, b, a) => CacheView {
            color_mask_r: r,
            color_mask_g: g,
            color_mask_b: b,
            color_mask_a: a,
            ..s
        },
        StateRequest::StencilFunc(f, refv, mask) => CacheView {
            stencil_func: f,
            stencil_ref: refv,
            stencil_func_mask: mask,
            ..s
        },
        StateRequest::StencilMask(m) => CacheView { stencil_mask: m, ..s },
        StateRequest::StencilOp(sfail, dpfail, dppass) => CacheView {
            stencil_sfail: sfail,
            stencil_dpfail: dpfail,
            stencil_dppass: dppass,
            ..s
        },
        StateRequest::ActiveTexture(unit) => CacheView { active_texture: unit, ..s },
        StateRequest::BindTexture(id) => CacheView {
            textures: s.textures.update(
                s.active_texture as int,
                TextureSlot { bound: Some(id), ..s.textures[s.active_texture as int] },
            ),
            ..s
        },
        StateRequest::UnbindTexture => CacheView {
            textures: s.textures.update(
                s.active_texture as int,
                TextureSlot { bound: None, ..s.textures[s.active_texture as int] },
            ),
            ..s
        },
        StateRequest::TextureCap(v) => CacheView {
            textures: s.textures.update(
                s.active_texture as int,
                TextureSlot { enabled: v, ..s.textures[s.active_texture as int] },
            ),
            ..s
        },
    }
}

/// The call the cache hands back for a request: the request's device call
/// when the state would change, nothing when it would not.
pub open spec fn spec_emits(s: CacheView, req: StateRequest) -> Option<DeviceCall> {
    if spec_elides(s, req) {
        None
    } else {
        spec_call_of(req)
    }
}


/// The cache's recorded state at startup: the device's known defaults.
pub open spec fn spec_initial_view() -> CacheView {
    CacheView {
        scissor: false,
        depth_test: false,
        depth_mask: true,
        depth_func: ComparisonFunc::Less,
        blend: false,
        src_rgb: BlendFactor::One,
        dst_rgb: BlendFactor::Zero,
        src_alpha: BlendFactor::One,
        dst_alpha: BlendFactor::Zero,
        cull: false,
        cull_mode: CullMode::Back,
        polygon_offset_fill: false,
        polygon_offset_line: false,
        po_factor: 0u32,
        po_units: 0u32,
        logic_op_enabled: false,
        logic_op: LogicOpKind::Copy,
        stencil_func: ComparisonFunc::Always,
        stencil_ref: 0i32,
        stencil_func_mask: 0u32,
        stencil_mask: 0u32,
        stencil_sfail: StencilOpKind::Keep,
        stencil_dpfail: StencilOpKind::Keep,
        stencil_dppass: StencilOpKind::Keep,
        viewport_x: 0i32,
        viewport_y: 0i32,
        viewport_w: 0i32,
        viewport_h: 0i32,
        color_mask_r: 1u8,
        color_mask_g: 1u8,
        color_mask_b: 1u8,
        color_mask_a: 1u8,
        active_texture: 0usize,
        textures: Seq::new(
            TEXTURE_UNITS as nat,
            |i: int| TextureSlot { enabled: false, bound: Some(0u32) },
        ),
        max_texture_size: None,
    }
}

/// The mirror of the device's fixed-function state. One instance belongs to
/// one device context; its setters are the only way that context's state is
/// meant to change.
pub struct DeviceStateCache {
    scissor: bool,
    depth_test: bool,
    depth_mask: bool,
    depth_func: ComparisonFunc,
    blend: bool,
    src_rgb: BlendFactor,
    dst_rgb: BlendFactor,
    src_alpha: BlendFactor,
    dst_alpha: BlendFactor,
    cull: bool,
    cull_mode: CullMode,
    polygon_offset_fill: bool,
    polygon_offset_line: bool,
    po_factor: u32,
    po_units: u32,
    logic_op_enabled: bool,
    logic_op: LogicOpKind,
    stencil_func: ComparisonFunc,
    stencil_ref: i32,
    stencil_func_mask: u32,
    stencil_mask: u32,
    stencil_sfail: StencilOpKind,
    stencil_dpfail: StencilOpKind,
    stencil_dppass: StencilOpKind,
    viewport_x: i32,
    viewport_y: i32,
    viewport_w: i32,
    viewport_h: i32,
    color_mask_r: u8,
    color_mask_g: u8,
    color_mask_b: u8,
    color_mask_a: u8,
    active_texture: usize,
    textures: Vec<TextureSlot>,
    max_texture_size: Option<i32>,
}

impl View for DeviceStateCache {
    type V = CacheView;

    closed spec fn view(&self) -> CacheView {
        CacheView {
            scissor: self.scissor,
            depth_test: self.depth_test,
            depth_mask: self.depth_mask,
            depth_func: self.depth_func,
            blend: self.blend,
            src_rgb: self.src_rgb,
            dst_rgb: self.dst_rgb,
            src_alpha: self.src_alpha,
            dst_alpha: self.dst_alpha,
            cull: self.cull,
            cull_mode: self.cull_mode,
            polygon_offset_fill: self.polygon_offset_fill,
            polygon_offset_line: self.polygon_offset_line,
            po_factor: self.po_factor,
            po_units: self.po_units,
            logic_op_enabled: self.logic_op_enabled,
            logic_op: self.logic_op,
            stencil_func: self.stencil_func,
            stencil_ref: self.stencil_ref,
            stencil_func_mask: self.stencil_func_mask,
            stencil_mask: self.stencil_mask,
            stencil_sfail: self.stencil_sfail,
            stencil_dpfail: self.stencil_dpfail,
            stencil_dppass: self.stencil_dppass,
            viewport_x: self.viewport_x,
            viewport_y: self.viewport_y,
            viewport_w: self.viewport_w,
            viewport_h: self.viewport_h,
            color_mask_r: self.color_mask_r,
            color_mask_g: self.color_mask_g,
            color_mask_b: self.color_mask_b,
            color_mask_a: self.color_mask_a,
            active_texture: self.active_texture,
            textures: self.textures@,
            max_texture_size: self.max_texture_size,
        }
    }
}

impl DeviceStateCache {
    /// A cache recording the device's startup defaults.
    pub fn new() -> (r: DeviceStateCache)
        ensures
            r@ =~= spec_initial_view(),
            r@.wf(),
    {
        let mut textures: Vec<TextureSlot> = Vec::new();
        let mut i: usize = 0;
        while i < TEXTURE_UNITS
            invariant
                i <= TEXTURE_UNITS,
                textures@.len() == i,
                forall|k: int|
                    0 <= k < i ==> textures@[k] == (TextureSlot {
                        enabled: false,
                        bound: Some(0u32),
                    }),
            decreases TEXTURE_UNITS - i,
        {
            textures.push(TextureSlot { enabled: false, bound: Some(0u32) });
            i = i + 1;
        }
        DeviceStateCache {
            scissor: false,
            depth_test: false,
            depth_mask: true,
            depth_func: ComparisonFunc::Less,
            blend: false,
            src_rgb: BlendFactor::One,
            dst_rgb: BlendFactor::Zero,
            src_alpha: BlendFactor::One,
            dst_alpha: BlendFactor::Zero,
            cull: false,
            cull_mode: CullMode::Back,
            polygon_offset_fill: false,
            polygon_offset_line: false,
            po_factor: 0,
            po_units: 0,
            logic_op_enabled: false,
            logic_op: LogicOpKind::Copy,
            stencil_func: ComparisonFunc::Always,
            stencil_ref: 0,
            stencil_func_mask: 0,
            stencil_mask: 0,
            stencil_sfail: StencilOpKind::Keep,
            stencil_dpfail: StencilOpKind::Keep,
            stencil_dppass: StencilOpKind::Keep,
            viewport_x: 0,
            viewport_y: 0,
            viewport_w: 0,
            viewport_h: 0,
            color_mask_r: 1,
            color_mask_g: 1,
            color_mask_b: 1,
            color_mask_a: 1,
            active_texture: 0,
            textures,
            max_texture_size: None,
        }
    }

    fn toggle_field(&mut self, cap: Capability, v: bool) -> (r: Option<DeviceCall>)
        ensures
            final(self)@ =~= spec_apply(old(self)@, StateRequest::Toggle(cap, v)),
            r == spec_emits(old(self)@, StateRequest::Toggle(cap, v)),
    {
        let prev = match cap {
            Capability::ScissorTest => self.scissor,
            Capability::DepthTest => self.depth_test,
            Capability::Blend => self.blend,
            Capability::CullFace => self.cull,
            Capability::PolygonOffsetFill => self.polygon_offset_fill,
            Capability::PolygonOffsetLine => self.polygon_offset_line,
            Capability::ColorLogicOp => self.logic_op_enabled,
        };
        match cap {
            Capability::ScissorTest => self.scissor = v,
            Capability::DepthTest => self.depth_test = v,
            Capability::Blend => self.blend = v,
            Capability::CullFace => self.cull = v,
            Capability::PolygonOffsetFill => self.polygon_offset_fill = v,
            Capability::PolygonOffsetLine => self.polygon_offset_line = v,
            Capability::ColorLogicOp => self.logic_op_enabled = v,
        };
        if prev != v {
            if v {
                Some(DeviceCall::Enable(cap))
            } else {
                Some(DeviceCall::Disable(cap))
            }
        } else {
            None
        }
    }

    fn apply_depth_func(&mut self, f: ComparisonFunc) -> (r: Option<DeviceCall>)
        ensures
            final(self)@ =~= spec_apply(old(self)@, StateRequest::DepthFunc(f)),
            r == spec_emits(old(self)@, StateRequest::DepthFunc(f)),
    {
        let changed = !(self.depth_func == f);
        self.depth_func = f;
        if changed {
            Some(DeviceCall::DepthFunc(f))
        } else {
            None
        }
    }

    fn apply_depth_mask(&mut self, m: bool) -> (r: Option<DeviceCall>)
        ensures
            final(self)@ =~= spec_apply(old(self)@, StateRequest::DepthMask(m)),
            r == spec_emits(old(self)@, StateRequest::DepthMask(m)),
    {
        let changed = !(self.depth_mask == m);
        self.depth_mask = m;
        if changed {
            Some(DeviceCall::DepthMask(m))
        } else {
            None
        }
    }

    fn apply_blend_func(&mut self, src: BlendFactor, dst: BlendFactor) -> (r: Option<DeviceCall>)
        ensures
            final(self)@ =~= spec_apply(old(self)@, StateRequest::BlendFunc(src, dst)),
            r == spec_emits(old(self)@, StateRequest::BlendFunc(src, dst)),
    {
        let changed = !(self.src_rgb == src) || !(self.dst_rgb == dst) || !(self.src_alpha
            == src) || !(self.dst_alpha == dst);
        self.src_rgb = src;
        self.dst_rgb = dst;
        self.src_alpha = src;
        self.dst_alpha = dst;
        if changed {
            Some(DeviceCall::BlendFunc(src, dst))
        } else {
            None
        }
    }

    fn apply_blend_func_separate(&mut self, sr: BlendFactor, dr: BlendFactor, sa: BlendFactor, da: BlendFactor) -> (r: Option<DeviceCall>)
        ensures
            final(self)@ =~= spec_apply(old(self)@, StateRequest::BlendFuncSeparate(sr, dr, sa, da)),
            r == spec_emits(old(self)@, StateRequest::BlendFuncSeparate(sr, dr, sa, da)),
    {
        let changed = !(self.src_rgb == sr) || !(self.dst_rgb == dr) || !(self.src_alpha == sa)
            || !(self.dst_alpha == da);
        self.src_rgb = sr;
        self.dst_rgb = dr;
        self.src_alpha = sa;
        self.dst_alpha = da;
        if changed {
            Some(DeviceCall::BlendFuncSeparate(sr, dr, sa, da))
        } else {
            None
        }
    }

    fn apply_polygon_offset(&mut self, factor: u32, units: u32) -> (r: Option<DeviceCall>)
        ensures
            final(self)@ =~= spec_apply(old(self)@, StateRequest::PolygonOffset(factor, units)),
            r == spec_emits(old(self)@, StateRequest::PolygonOffset(factor, units)),
    {
        let changed = !(self.po_factor == factor) || !(self.po_units == units);
        self.po_factor = factor;
        self.po_units = units;
        if changed {
            Some(DeviceCall::PolygonOffset(factor, units))
        } else {
            None
        }
    }

    fn apply_logic_op(&mut self, op: LogicOpKind) -> (r: Option<DeviceCall>)
        ensures
            final(self)@ =~= spec_apply(old(self)@, StateRequest::LogicOp(op)),
            r == spec_emits(old(self)@, StateRequest::LogicOp(op)),
    {
        let changed = !(self.logic_op == op);
        self.logic_op = op;
        if changed {
            Some(DeviceCall::LogicOp(op))
        } else {
            None
        }
    }

    fn apply_viewport(&mut self, x: i32, y: i32, w: i32, h: i32) -> (r: Option<DeviceCall>)
        ensures
            final(self)@ =~= spec_apply(old(self)@, StateRequest::Viewport(x, y, w, h)),
            r == spec_emits(old(self)@, StateRequest::Viewport(x, y, w, h)),
    {
        let changed = !(self.viewport_x == x) || !(self.viewport_y == y) || !(self.viewport_w
            == w) || !(self.viewport_h == h);
        self.viewport_x = x;
        self.viewport_y = y;
        self.viewport_w = w;
        self.viewport_h = h;
        if changed {
            Some(DeviceCall::Viewport(x, y, w, h))
        } else {
            None
        }
    }

    fn apply_color_mask(&mut self, red: u8, green: u8, blue: u8, alpha: u8) -> (r: Option<DeviceCall>)
        ensures
            final(self)@ =~= spec_apply(old(self)@, StateRequest::ColorMask(red, green, blue, alpha)),
            r == spec_emits(old(self)@, StateRequest::ColorMask(red, green, blue, alpha)),
    {
        let changed = !(self.color_mask_r == red) || !(self.color_mask_g == green) || !(
        self.color_mask_b == blue) || !(self.color_mask_a == alpha);
        self.color_mask_r = red;
        self.color_mask_g = green;
        self.color_mask_b = blue;
        self.color_mask_a = alpha;
        if changed {
            Some(DeviceCall::ColorMask(red, green, blue, alpha))
        } else {
            None
        }
    }

    fn apply_stencil_func(&mut self, f: ComparisonFunc, refv: i32, mask: u32) -> (r: Option<DeviceCall>)
        ensures
            final(self)@ =~= spec_apply(old(self)@, StateRequest::StencilFunc(f, refv, mask)),
            r == spec_emits(old(self)@, StateRequest::StencilFunc(f, refv, mask)),
    {
        let changed = !(self.stencil_func == f) || !(self.stencil_ref == refv) || !(
        self.stencil_func_mask == mask);
        self.stencil_func = f;
        self.stencil_ref = refv;
        self.stencil_func_mask = mask;
        if changed {
            Some(DeviceCall::StencilFunc(f, refv, mask))
        } else {
            None
        }
    }

    fn apply_stencil_mask(&mut self, m: u32) -> (r: Option<DeviceCall>)
        ensures
            final(self)@ =~= spec_apply(old(self)@, StateRequest::StencilMask(m)),
            r == spec_emits(old(self)@, StateRequest::StencilMask(m)),
    {
        let changed = !(self.stencil_mask == m);
        self.stencil_mask = m;
        if changed {
            Some(DeviceCall::StencilMask(m))
        } else {
            None
        }
    }

    fn apply_stencil_op(&mut self, sfail: StencilOpKind, dpfail: StencilOpKind, dppass: StencilOpKind) -> (r: Option<DeviceCall>)
        ensures
            final(self)@ =~= spec_apply(old(self)@, StateRequest::StencilOp(sfail, dpfail, dppass)),
            r == spec_emits(old(self)@, StateRequest::StencilOp(sfail, dpfail, dppass)),
    {
        let changed = !(self.stencil_sfail == sfail) || !(self.stencil_dpfail == dpfail) || !(
        self.stencil_dppass == dppass);
        self.stencil_sfail = sfail;
        self.stencil_dpfail = dpfail;
        self.stencil_dppass = dppass;
        if changed {
            Some(DeviceCall::StencilOp(sfail, dpfail, dppass))
        } else {
            None
        }
    }

    fn apply_active_texture(&mut self, unit: usize) -> (r: Option<DeviceCall>)
        ensures
            final(self)@ =~= spec_apply(old(self)@, StateRequest::ActiveTexture(unit)),
            r == spec_emits(old(self)@, StateRequest::ActiveTexture(unit)),
    {
        let changed = !(self.active_texture == unit);
        self.active_texture = unit;
        if changed {
            Some(DeviceCall::ActiveTexture(unit))
        } else {
            None
        }
    }

    fn apply_bind_texture_req(&mut self, id: u32) -> (r: Option<DeviceCall>)
        requires
            old(self)@.wf(),
        ensures
            final(self)@ =~= spec_apply(old(self)@, StateRequest::BindTexture(id)),
            r == spec_emits(old(self)@, StateRequest::BindTexture(id)),
    {
        let slot = self.textures[self.active_texture];
        let changed = match slot.bound {
            Some(prev) => !(prev == id),
            None => true,
        };
        self.textures.set(
            self.active_texture,
            TextureSlot { enabled: slot.enabled, bound: Some(id) },
        );
        if changed {
            Some(DeviceCall::BindTexture(id))
        } else {
            None
        }
    }

    fn apply_unbind_texture_req(&mut self) -> (r: Option<DeviceCall>)
        requires
            old(self)@.wf(),
        ensures
            final(self)@ =~= spec_apply(old(self)@, StateRequest::UnbindTexture),
            r == spec_emits(old(self)@, StateRequest::UnbindTexture),
    {
        let slot = self.textures[self.active_texture];
        let changed = match slot.bound {
            Some(_) => true,
            None => false,
        };
        self.textures.set(self.active_texture, TextureSlot { enabled: slot.enabled, bound: None });
        if changed {
            Some(DeviceCall::BindTexture(0))
        } else {
            None
        }
    }

    fn apply_texture_cap(&mut self, v: bool) -> (r: Option<DeviceCall>)
        requires
            old(self)@.wf(),
        ensures
            final(self)@ =~= spec_apply(old(self)@, StateRequest::TextureCap(v)),
            r == spec_emits(old(self)@, StateRequest::TextureCap(v)),
    {
        let slot = self.textures[self.active_texture];
        self.textures.set(self.active_texture, TextureSlot { enabled: v, bound: slot.bound });
        None
    }

    /// Applies one state request: records the requested values and returns
    /// the device call to issue, or nothing when the device already holds
    /// that state.
    pub fn submit(&mut self, req: StateRequest) -> (r: Option<DeviceCall>)
        requires
            old(self)@.wf(),
            req_wf(req),
        ensures
            final(self)@ =~= spec_apply(old(self)@, req),
            r == spec_emits(old(self)@, req),
            final(self)@.wf(),
    {
        match req {
            StateRequest::Toggle(cap, v) => self.toggle_field(cap, v),
            StateRequest::DepthFunc(f) => self.apply_depth_func(f),
            StateRequest::DepthMask(m) => self.apply_depth_mask(m),
            StateRequest::BlendFunc(src, dst) => self.apply_blend_func(src, dst),
            StateRequest::BlendFuncSeparate(sr, dr, sa, da) => self.apply_blend_func_separate(
                sr,
                dr,
                sa,
                da,
            ),
            StateRequest::PolygonOffset(factor, units) => self.apply_polygon_offset(
                factor,
                units,
            ),
            StateRequest::LogicOp(op) => self.apply_logic_op(op),
            StateRequest::Viewport(x, y, w, h) => self.apply_viewport(x, y, w, h),
            StateRequest::ColorMask(red, green, blue, alpha) => self.apply_color_mask(
                red,
                green,
                blue,
                alpha,
            ),
            StateRequest::StencilFunc(f, refv, mask) => self.apply_stencil_func(f, refv, mask),
            StateRequest::StencilMask(m) => self.apply_stencil_mask(m),
            StateRequest::StencilOp(sfail, dpfail, dppass) => self.apply_stencil_op(
                sfail,
                dpfail,
                dppass,
            ),
            StateRequest::ActiveTexture(unit) => self.apply_active_texture(unit),
            StateRequest::BindTexture(id) => self.apply_bind_texture_req(id),
            StateRequest::UnbindTexture => self.apply_unbind_texture_req(),
            StateRequest::TextureCap(v) => self.apply_texture_cap(v),
        }
    }


    /// Turns the scissor test off.
    pub fn disable_scissor_test(&mut self) -> (r: Option<DeviceCall>)
        requires
            old(self)@.wf(),
        ensures
            final(self)@ =~= spec_apply(old(self)@, StateRequest::Toggle(Capability::ScissorTest, false)),
            r == spec_emits(old(self)@, StateRequest::Toggle(Capability::ScissorTest, false)),
            final(self)@.wf(),
    {
        self.submit(StateRequest::Toggle(Capability::ScissorTest, false))
    }

    /// Turns the scissor test on.
    pub fn enable_scissor_test(&mut self) -> (r: Option<DeviceCall>)
        requires
            old(self)@.wf(),
        ensures
            final(self)@ =~= spec_apply(old(self)@, StateRequest::Toggle(Capability::ScissorTest, true)),
            r == spec_emits(old(self)@, StateRequest::Toggle(Capability::ScissorTest, true)),
            final(self)@.wf(),
    {
        self.submit(StateRequest::Toggle(Capability::ScissorTest, true))
    }

    /// Turns the depth test off.
    pub fn disable_depth_test(&mut self) -> (r: Option<DeviceCall>)
        requires
            old(self)@.wf(),
        ensures
            final(self)@ =~= spec_apply(old(self)@, StateRequest::Toggle(Capability::DepthTest, false)),
            r == spec_emits(old(self)@, StateRequest::Toggle(Capability::DepthTest, false)),
            final(self)@.wf(),
    {
        self.submit(StateRequest::Toggle(Capability::DepthTest, false))
    }

    /// Turns the depth test on.
    pub fn enable_depth_test(&mut self) -> (r: Option<DeviceCall>)
        requires
            old(self)@.wf(),
        ensures
            final(self)@ =~= spec_apply(old(self)@, StateRequest::Toggle(Capability::DepthTest, true)),
            r == spec_emits(old(self)@, StateRequest::Toggle(Capability::DepthTest, true)),
            final(self)@.wf(),
    {
        self.submit(StateRequest::Toggle(Capability::DepthTest, true))
    }

    /// Selects the depth comparison function.
    pub fn depth_func(&mut self, func: ComparisonFunc) -> (r: Option<DeviceCall>)
        requires
            old(self)@.wf(),
        ensures
            final(self)@ =~= spec_apply(old(self)@, StateRequest::DepthFunc(func)),
            r == spec_emits(old(self)@, StateRequest::DepthFunc(func)),
            final(self)@.wf(),
    {
        self.submit(StateRequest::DepthFunc(func))
    }

    /// Enables or disables depth writes.
    pub fn depth_mask(&mut self, mask: bool) -> (r: Option<DeviceCall>)
        requires
            old(self)@.wf(),
        ensures
            final(self)@ =~= spec_apply(old(self)@, StateRequest::DepthMask(mask)),
            r == spec_emits(old(self)@, StateRequest::DepthMask(mask)),
            final(self)@.wf(),
    {
        self.submit(StateRequest::DepthMask(mask))
    }

    /// Turns blending off.
    pub fn disable_blend(&mut self) -> (r: Option<DeviceCall>)
        requires
            old(self)@.wf(),
        ensures
            final(self)@ =~= spec_apply(old(self)@, StateRequest::Toggle(Capability::Blend, false)),
            r == spec_emits(old(self)@, StateRequest::Toggle(Capability::Blend, false)),
            final(self)@.wf(),
    {
        self.submit(StateRequest::Toggle(Capability::Blend, false))
    }

    /// Turns blending on.
    pub fn enable_blend(&mut self) -> (r: Option<DeviceCall>)
        requires
            old(self)@.wf(),
        ensures
            final(self)@ =~= spec_apply(old(self)@, StateRequest::Toggle(Capability::Blend, true)),
            r == spec_emits(old(self)@, StateRequest::Toggle(Capability::Blend, true)),
            final(self)@.wf(),
    {
        self.submit(StateRequest::Toggle(Capability::Blend, true))
    }

    /// Selects the source and destination blend factors. The device applies
    /// them to the RGB and alpha channels alike, so the cache compares and
    /// records all four factors to stay bit-for-bit consistent with it.
    pub fn blend_func(&mut self, src_factor: BlendFactor, dst_factor: BlendFactor) -> (r: Option<DeviceCall>)
        requires
            old(self)@.wf(),
        ensures
            final(self)@ =~= spec_apply(old(self)@, StateRequest::BlendFunc(src_factor, dst_factor)),
            r == spec_emits(old(self)@, StateRequest::BlendFunc(src_factor, dst_factor)),
            final(self)@.wf(),
    {
        self.submit(StateRequest::BlendFunc(src_factor, dst_factor))
    }

    /// Selects all four blend factors, RGB and alpha separately.
    pub fn blend_func_separate(&mut self, src_factor_rgb: BlendFactor, dst_factor_rgb: BlendFactor, src_factor_alpha: BlendFactor, dst_factor_alpha: BlendFactor) -> (r: Option<DeviceCall>)
        requires
            old(self)@.wf(),
        ensures
            final(self)@ =~= spec_apply(old(self)@, StateRequest::BlendFuncSeparate(src_factor_rgb, dst_factor_rgb, src_factor_alpha, dst_factor_alpha)),
            r == spec_emits(old(self)@, StateRequest::BlendFuncSeparate(src_factor_rgb, dst_factor_rgb, src_factor_alpha, dst_factor_alpha)),
            final(self)@.wf(),
    {
        self.submit(StateRequest::BlendFuncSeparate(src_factor_rgb, dst_factor_rgb, src_factor_alpha, dst_factor_alpha))
    }

    /// Turns face culling on.
    pub fn enable_cull(&mut self) -> (r: Option<DeviceCall>)
        requires
            old(self)@.wf(),
        ensures
            final(self)@ =~= spec_apply(old(self)@, StateRequest::Toggle(Capability::CullFace, true)),
            r == spec_emits(old(self)@, StateRequest::Toggle(Capability::CullFace, true)),
            final(self)@.wf(),
    {
        self.submit(StateRequest::Toggle(Capability::CullFace, true))
    }

    /// Turns face culling off.
    pub fn disable_cull(&mut self) -> (r: Option<DeviceCall>)
        requires
            old(self)@.wf(),
        ensures
            final(self)@ =~= spec_apply(old(self)@, StateRequest::Toggle(Capability::CullFace, false)),
            r == spec_emits(old(self)@, StateRequest::Toggle(Capability::CullFace, false)),
            final(self)@.wf(),
    {
        self.submit(StateRequest::Toggle(Capability::CullFace, false))
    }

    /// Selects the polygon offset factor and units, given as IEEE-754 bit patterns.
    pub fn polygon_offset(&mut self, factor: u32, units: u32) -> (r: Option<DeviceCall>)
        requires
            old(self)@.wf(),
        ensures
            final(self)@ =~= spec_apply(old(self)@, StateRequest::PolygonOffset(factor, units)),
            r == spec_emits(old(self)@, StateRequest::PolygonOffset(factor, units)),
            final(self)@.wf(),
    {
        self.submit(StateRequest::PolygonOffset(factor, units))
    }

    /// Turns the color logic operation on.
    pub fn enable_color_logic_op(&mut self) -> (r: Option<DeviceCall>)
        requires
            old(self)@.wf(),
        ensures
            final(self)@ =~= spec_apply(old(self)@, StateRequest::Toggle(Capability::ColorLogicOp, true)),
            r == spec_emits(old(self)@, StateRequest::Toggle(Capability::ColorLogicOp, true)),
            final(self)@.wf(),
    {
        self.submit(StateRequest::Toggle(Capability::ColorLogicOp, true))
    }

    /// Turns the color logic operation off.
    pub fn disable_color_logic_op(&mut self) -> (r: Option<DeviceCall>)
        requires
            old(self)@.wf(),
        ensures
            final(self)@ =~= spec_apply(old(self)@, StateRequest::Toggle(Capability::ColorLogicOp, false)),
            r == spec_emits(old(self)@, StateRequest::Toggle(Capability::ColorLogicOp, false)),
            final(self)@.wf(),
    {
        self.submit(StateRequest::Toggle(Capability::ColorLogicOp, false))
    }

    /// Selects the color logic operation.
    pub fn logic_op(&mut self, op: LogicOpKind) -> (r: Option<DeviceCall>)
        requires
            old(self)@.wf(),
        ensures
            final(self)@ =~= spec_apply(old(self)@, StateRequest::LogicOp(op)),
            r == spec_emits(old(self)@, StateRequest::LogicOp(op)),
            final(self)@.wf(),
    {
        self.submit(StateRequest::LogicOp(op))
    }

    /// Selects the viewport rectangle.
    pub fn viewport(&mut self, x: i32, y: i32, width: i32, height: i32) -> (r: Option<DeviceCall>)
        requires
            old(self)@.wf(),
        ensures
            final(self)@ =~= spec_apply(old(self)@, StateRequest::Viewport(x, y, width, height)),
            r == spec_emits(old(self)@, StateRequest::Viewport(x, y, width, height)),
            final(self)@.wf(),
    {
        self.submit(StateRequest::Viewport(x, y, width, height))
    }

    /// Selects which color channels draws may write.
    pub fn color_mask(&mut self, red: u8, green: u8, blue: u8, alpha: u8) -> (r: Option<DeviceCall>)
        requires
            old(self)@.wf(),
        ensures
            final(self)@ =~= spec_apply(old(self)@, StateRequest::ColorMask(red, green, blue, alpha)),
            r == spec_emits(old(self)@, StateRequest::ColorMask(red, green, blue, alpha)),
            final(self)@.wf(),
    {
        self.submit(StateRequest::ColorMask(red, green, blue, alpha))
    }

    /// Selects the stencil comparison function, reference value and mask.
    pub fn stencil_func(&mut self, func: ComparisonFunc, ref_value: i32, mask: u32) -> (r: Option<DeviceCall>)
        requires
            old(self)@.wf(),
        ensures
            final(self)@ =~= spec_apply(old(self)@, StateRequest::StencilFunc(func, ref_value, mask)),
            r == spec_emits(old(self)@, StateRequest::StencilFunc(func, ref_value, mask)),
            final(self)@.wf(),
    {
        self.submit(StateRequest::StencilFunc(func, ref_value, mask))
    }

    /// Selects the stencil write mask.
    pub fn stencil_mask(&mut self, mask: u32) -> (r: Option<DeviceCall>)
        requires
            old(self)@.wf(),
        ensures
            final(self)@ =~= spec_apply(old(self)@, StateRequest::StencilMask(mask)),
            r == spec_emits(old(self)@, StateRequest::StencilMask(mask)),
            final(self)@.wf(),
    {
        self.submit(StateRequest::StencilMask(mask))
    }

    /// Selects the three stencil actions.
    pub fn stencil_op(&mut self, sfail: StencilOpKind, dpfail: StencilOpKind, dppass: StencilOpKind) -> (r: Option<DeviceCall>)
        requires
            old(self)@.wf(),
        ensures
            final(self)@ =~= spec_apply(old(self)@, StateRequest::StencilOp(sfail, dpfail, dppass)),
            r == spec_emits(old(self)@, StateRequest::StencilOp(sfail, dpfail, dppass)),
            final(self)@.wf(),
    {
        self.submit(StateRequest::StencilOp(sfail, dpfail, dppass))
    }

    /// Bind the given texture to the active unit; a rebind of the already-bound texture is elided.
    pub fn bind_texture(&mut self, texture: u32) -> (r: Option<DeviceCall>)
        requires
            old(self)@.wf(),
        ensures
            final(self)@ =~= spec_apply(old(self)@, StateRequest::BindTexture(texture)),
            r == spec_emits(old(self)@, StateRequest::BindTexture(texture)),
            final(self)@.wf(),
    {
        self.submit(StateRequest::BindTexture(texture))
    }

    /// Unbinds whatever texture the active unit holds; a unit with nothing bound needs no device call.
    pub fn unbind_texture(&mut self) -> (r: Option<DeviceCall>)
        requires
            old(self)@.wf(),
        ensures
            final(self)@ =~= spec_apply(old(self)@, StateRequest::UnbindTexture),
            r == spec_emits(old(self)@, StateRequest::UnbindTexture),
            final(self)@.wf(),
    {
        self.submit(StateRequest::UnbindTexture)
    }

    /// Marks 2D texturing enabled on the active unit; tracked on the CPU side only.
    pub fn enable_texture(&mut self) -> (r: Option<DeviceCall>)
        requires
            old(self)@.wf(),
        ensures
            final(self)@ =~= spec_apply(old(self)@, StateRequest::TextureCap(true)),
            r == spec_emits(old(self)@, StateRequest::TextureCap(true)),
            final(self)@.wf(),
    {
        self.submit(StateRequest::TextureCap(true))
    }

    /// Marks 2D texturing disabled on the active unit; tracked on the CPU side only.
    pub fn disable_texture(&mut self) -> (r: Option<DeviceCall>)
        requires
            old(self)@.wf(),
        ensures
            final(self)@ =~= spec_apply(old(self)@, StateRequest::TextureCap(false)),
            r == spec_emits(old(self)@, StateRequest::TextureCap(false)),
            final(self)@.wf(),
    {
        self.submit(StateRequest::TextureCap(false))
    }

    /// Switches the active texture unit; a switch to the unit that is
    /// already active is elided before any bind.
    pub fn set_active_texture(&mut self, unit: usize) -> (r: Option<DeviceCall>)
        requires
            old(self)@.wf(),
            unit < TEXTURE_UNITS,
        ensures
            final(self)@ =~= spec_apply(old(self)@, StateRequest::ActiveTexture(unit)),
            r == spec_emits(old(self)@, StateRequest::ActiveTexture(unit)),
            final(self)@.wf(),
    {
        self.submit(StateRequest::ActiveTexture(unit))
    }

    /// Reads the cached maximum supported texture dimension, if a probe has
    /// stored one already.
    pub fn cached_max_texture_size(&self) -> (r: Option<i32>)
        ensures
            r == self@.max_texture_size,
    {
        self.max_texture_size
    }

    /// Stores the probed maximum supported texture dimension; it is cached
    /// permanently after the first query.
    pub fn store_max_texture_size(&mut self, size: i32)
        ensures
            final(self)@ =~= (CacheView { max_texture_size: Some(size), ..old(self)@ }),
    {
        self.max_texture_size = Some(size);
    }

    /// Records that the given texture was deleted on the device: every unit
    /// that still had it bound forgets the binding. The delete call itself
    /// is unconditional, so there is no elision decision to make here.
    pub fn delete_texture(&mut self, texture: u32)
        ensures
            final(self)@ =~= spec_scrub(old(self)@, seq![texture]),
    {
        let ids: Vec<u32> = vec![texture];
        proof {
            assert(ids@ =~= seq![texture]);
        }
        self.delete_textures(&ids);
    }

    /// Records that all the given textures were deleted on the device: every
    /// unit bound to any of them forgets its binding.
    pub fn delete_textures(&mut self, textures: &Vec<u32>)
        ensures
            final(self)@ =~= spec_scrub(old(self)@, textures@),
    {
        scrub_slots(&mut self.textures, textures);
        proof {
            assert(self@.textures =~= spec_scrub(old(self)@, textures@).textures);
            assert(self@ =~= spec_scrub(old(self)@, textures@));
        }
    }
}

/// Forgets, in a table of texture slots, every binding to one of the given
/// ids.
fn scrub_slots(slots: &mut Vec<TextureSlot>, ids: &Vec<u32>)
    ensures
        final(slots)@.len() == old(slots)@.len(),
        forall|k: int|
            0 <= k < old(slots)@.len() ==> final(slots)@[k] == spec_scrub_slot(
                old(slots)@[k],
                ids@,
            ),
{
    let mut i: usize = 0;
    let n = slots.len();
    while i < n
        invariant
            n == slots@.len(),
            n == old(slots)@.len(),
            i <= n,
            forall|k: int|
                0 <= k < i ==> slots@[k] == spec_scrub_slot(old(slots)@[k], ids@),
            forall|k: int| i <= k < n ==> slots@[k] == old(slots)@[k],
        decreases n - i,
    {
        let slot = slots[i];
        let clear = match slot.bound {
            Some(bound) => contains_id(ids, bound),
            None => false,
        };
        if clear {
            slots.set(i, TextureSlot { enabled: slot.enabled, bound: None });
        }
        i = i + 1;
    }
}

/// One texture slot after a set of texture ids was deleted: a binding to a
/// deleted id is forgotten, anything else is kept.
pub open spec fn spec_scrub_slot(slot: TextureSlot, ids: Seq<u32>) -> TextureSlot {
    match slot.bound {
        Some(bound) => if ids.contains(bound) {
            TextureSlot { enabled: slot.enabled, bound: None }
        } else {
            slot
        },
        None => slot,
    }
}

/// The cache after a set of texture ids was deleted on the device.
pub open spec fn spec_scrub(s: CacheView, ids: Seq<u32>) -> CacheView {
    CacheView {
        textures: Seq::new(s.textures.len(), |k: int| spec_scrub_slot(s.textures[k], ids)),
        ..s
    }
}

/// Whether a vector of texture ids holds the given one.
fn contains_id(ids: &Vec<u32>, v: u32) -> (r: bool)
    ensures
        r == ids@.contains(v),
{
    let mut i: usize = 0;
    let n = ids.len();
    while i < n
        invariant
            n == ids@.len(),
            i <= n,
            forall|k: int| 0 <= k < i ==> ids@[k] != v,
        decreases n - i,
    {
        if ids[i] == v {
            return true;
        }
        i = i + 1;
    }
    false
}

/// One request, issued twice in a row with identical arguments, reaches the
/// device at most once: the first issue reaches it exactly when the cache
/// held something else, and the repeat is always elided.
pub proof fn lemma_repeated_request_elided(s: CacheView, req: StateRequest)
    requires
        s.wf(),
        req_wf(req),
    ensures
        !spec_elides(s, req) && !(req is TextureCap) ==> spec_emits(s, req) is Some,
        spec_emits(spec_apply(s, req), req) is None,
{
}

/// Requests on one knob. Two of them with different values cannot both be
/// elided: the second always reaches the device after the first.
pub open spec fn same_knob(r1: StateRequest, r2: StateRequest) -> bool {
    match (r1, r2) {
        (StateRequest::Toggle(c1, _), StateRequest::Toggle(c2, _)) => c1 == c2,
        (StateRequest::DepthFunc(_), StateRequest::DepthFunc(_)) => true,
        (StateRequest::DepthMask(_), StateRequest::DepthMask(_)) => true,
        (StateRequest::BlendFunc(_, _), StateRequest::BlendFunc(_, _)) => true,
        (
            StateRequest::BlendFuncSeparate(_, _, _, _),
            StateRequest::BlendFuncSeparate(_, _, _, _),
        ) => true,
        (StateRequest::PolygonOffset(_, _), StateRequest::PolygonOffset(_, _)) => true,
        (StateRequest::LogicOp(_), StateRequest::LogicOp(_)) => true,
        (StateRequest::Viewport(_, _, _, _), StateRequest::Viewport(_, _, _, _)) => true,
        (StateRequest::ColorMask(_, _, _, _), StateRequest::ColorMask(_, _, _, _)) => true,
        (StateRequest::StencilFunc(_, _, _), StateRequest::StencilFunc(_, _, _)) => true,
        (StateRequest::StencilMask(_), StateRequest::StencilMask(_)) => true,
        (StateRequest::StencilOp(_, _, _), StateRequest::StencilOp(_, _, _)) => true,
        (StateRequest::ActiveTexture(_), StateRequest::ActiveTexture(_)) => true,
        (StateRequest::BindTexture(_), StateRequest::BindTexture(_)) => true,
        (StateRequest::UnbindTexture, StateRequest::UnbindTexture) => true,
        _ => false,
    }
}

/// One knob, two different requests in a row: the second request is not
/// elided, so the two issues produce exactly two device calls, in order.
pub proof fn lemma_changed_request_issues(s: CacheView, r1: StateRequest, r2: StateRequest)
    requires
        s.wf(),
        req_wf(r1),
        req_wf(r2),
        same_knob(r1, r2),
        r1 != r2,
    ensures
        spec_emits(spec_apply(s, r1), r2) is Some,
{
}


/// Fixed ceiling the probe starts from, whatever the device reports.
pub const TEXTURE_PROBE_CEILING: i32 = 32768;

/// Fixed floor the probed maximum is never taken below.
pub const MIN_TEXTURE_SIZE: i32 = 1024;

/// The decision logic of the lazy maximum-texture-size probe. Starting from
/// the larger of a fixed ceiling and the device-reported maximum, the
/// embedder allocates a proxy (non-resident) texture of the requested size,
/// reads back the resulting width, and reports it here; the probe halves the
/// size until some width is accepted, and floors the result at a fixed
/// minimum. This guards against devices that report an unusable theoretical
/// maximum.
pub struct TextureSizeProbe {
    size: i32,
}

impl TextureSizeProbe {
    /// The size the next proxy allocation is tried at.
    pub closed spec fn current(self) -> int {
        self.size as int
    }

    pub open spec fn wf(self) -> bool {
        self.current() >= MIN_TEXTURE_SIZE
    }

    /// Begins a probe at the larger of the fixed ceiling and the maximum the
    /// device reports for itself.
    pub fn start(reported_max: i32) -> (r: TextureSizeProbe)
        ensures
            r.current() == if reported_max >= TEXTURE_PROBE_CEILING {
                reported_max as int
            } else {
                TEXTURE_PROBE_CEILING as int
            },
            r.wf(),
    {
        let size = if reported_max >= TEXTURE_PROBE_CEILING {
            reported_max
        } else {
            TEXTURE_PROBE_CEILING
        };
        TextureSizeProbe { size }
    }

    /// The size to allocate the next proxy texture at.
    pub fn request(&self) -> (r: i32)
        ensures
            r == self.current(),
    {
        self.size
    }

    /// Feeds back the width the device reported for the last proxy
    /// allocation. A nonzero width is accepted, floored at the fixed
    /// minimum. On zero the probe halves its size; once it would fall under
    /// the minimum, the minimum itself is the answer.
    pub fn report_width(&mut self, width: i32) -> (r: Option<i32>)
        requires
            old(self).wf(),
        ensures
            width != 0 ==> r == Some(
                if width >= MIN_TEXTURE_SIZE {
                    width
                } else {
                    MIN_TEXTURE_SIZE
                },
            ),
            width == 0 && old(self).current() / 2 >= MIN_TEXTURE_SIZE ==> r is None
                && final(self).current() == old(self).current() / 2,
            width == 0 && old(self).current() / 2 < MIN_TEXTURE_SIZE ==> r == Some(
                MIN_TEXTURE_SIZE,
            ),
            final(self).wf(),
    {
        if width != 0 {
            let accepted = if width >= MIN_TEXTURE_SIZE {
                width
            } else {
                MIN_TEXTURE_SIZE
            };
            self.size = accepted;
            Some(accepted)
        } else {
            let halved = self.size / 2;
            if halved < MIN_TEXTURE_SIZE {
                self.size = MIN_TEXTURE_SIZE;
                Some(MIN_TEXTURE_SIZE)
            } else {
                self.size = halved;
                None
            }
        }
    }
}


/// A standalone toggle-tracker for one device capability: the uniform
/// shape every capability knob of the cache follows. `set_state` touches
/// the device only when the requested state differs from the recorded one.
#[derive(Debug, Clone, Copy, PartialEq, Eq, Structural)]
pub struct CapTracker {
    pub cap: Capability,
    pub enabled: bool,
}

impl CapTracker {
    pub fn new(cap: Capability, enabled: bool) -> (r: CapTracker)
        ensures
            r == (CapTracker { cap, enabled }),
    {
        CapTracker { cap, enabled }
    }

    /// Enables or disables the tracked capability; a request for the state
    /// already recorded is elided.
    pub fn set_state(&mut self, state: bool) -> (r: Option<DeviceCall>)
        ensures
            final(self).cap == old(self).cap,
            final(self).enabled == state,
            r == if state != old(self).enabled {
                Some(
                    if state {
                        DeviceCall::Enable(old(self).cap)
                    } else {
                        DeviceCall::Disable(old(self).cap)
                    },
                )
            } else {
                None::<DeviceCall>
            },
    {
        if state != self.enabled {
            self.enabled = state;
            if state {
                Some(DeviceCall::Enable(self.cap))
            } else {
                Some(DeviceCall::Disable(self.cap))
            }
        } else {
            None
        }
    }
}

} // verus!
