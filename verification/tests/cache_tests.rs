use render_core::cache::{
    BlendFactor, CapTracker, Capability, ComparisonFunc, DeviceCall, DeviceStateCache,
    LogicOpKind, StencilOpKind, TextureSizeProbe,
};

#[test]
fn repeated_toggle_issues_one_call() {
    let mut c = DeviceStateCache::new();
    assert_eq!(c.enable_blend(), Some(DeviceCall::Enable(Capability::Blend)));
    assert_eq!(c.enable_blend(), None);
    assert_eq!(c.disable_blend(), Some(DeviceCall::Disable(Capability::Blend)));
    assert_eq!(c.disable_blend(), None);
}

#[test]
fn depth_func_second_identical_call_is_elided() {
    let mut c = DeviceStateCache::new();
    assert_eq!(
        c.depth_func(ComparisonFunc::Greater),
        Some(DeviceCall::DepthFunc(ComparisonFunc::Greater))
    );
    assert_eq!(c.depth_func(ComparisonFunc::Greater), None);
    // A different argument issues a second call, in order.
    assert_eq!(
        c.depth_func(ComparisonFunc::LessOrEqual),
        Some(DeviceCall::DepthFunc(ComparisonFunc::LessOrEqual))
    );
}

#[test]
fn depth_func_default_is_less() {
    let mut c = DeviceStateCache::new();
    assert_eq!(c.depth_func(ComparisonFunc::Less), None);
    assert_eq!(c.depth_mask(true), None);
    assert_eq!(c.depth_mask(false), Some(DeviceCall::DepthMask(false)));
}

#[test]
fn blend_func_mirrors_all_four_factors() {
    let mut c = DeviceStateCache::new();
    // The device defaults are One/Zero for RGB and alpha alike.
    assert_eq!(c.blend_func(BlendFactor::One, BlendFactor::Zero), None);
    assert_eq!(
        c.blend_func(BlendFactor::SrcAlpha, BlendFactor::OneMinusSrcAlpha),
        Some(DeviceCall::BlendFunc(BlendFactor::SrcAlpha, BlendFactor::OneMinusSrcAlpha))
    );
    assert_eq!(c.blend_func(BlendFactor::SrcAlpha, BlendFactor::OneMinusSrcAlpha), None);
    // The call set the alpha factors on the device too, and the cache
    // recorded that: a separate request for the very same four is elided.
    assert_eq!(
        c.blend_func_separate(
            BlendFactor::SrcAlpha,
            BlendFactor::OneMinusSrcAlpha,
            BlendFactor::SrcAlpha,
            BlendFactor::OneMinusSrcAlpha,
        ),
        None
    );
    // Diverging alpha factors reach the device...
    assert_eq!(
        c.blend_func_separate(
            BlendFactor::SrcAlpha,
            BlendFactor::OneMinusSrcAlpha,
            BlendFactor::One,
            BlendFactor::Zero,
        ),
        Some(DeviceCall::BlendFuncSeparate(
            BlendFactor::SrcAlpha,
            BlendFactor::OneMinusSrcAlpha,
            BlendFactor::One,
            BlendFactor::Zero,
        ))
    );
    // ...and a plain blend_func afterwards is not elided either, though the
    // RGB pair still matches: it must bring the alpha factors back.
    assert_eq!(
        c.blend_func(BlendFactor::SrcAlpha, BlendFactor::OneMinusSrcAlpha),
        Some(DeviceCall::BlendFunc(BlendFactor::SrcAlpha, BlendFactor::OneMinusSrcAlpha))
    );
}

#[test]
fn viewport_and_color_mask_compare_all_components() {
    let mut c = DeviceStateCache::new();
    assert_eq!(c.viewport(0, 0, 854, 480), Some(DeviceCall::Viewport(0, 0, 854, 480)));
    assert_eq!(c.viewport(0, 0, 854, 480), None);
    assert_eq!(c.viewport(0, 0, 854, 481), Some(DeviceCall::Viewport(0, 0, 854, 481)));
    assert_eq!(c.color_mask(1, 1, 1, 1), None);
    assert_eq!(c.color_mask(1, 1, 1, 0), Some(DeviceCall::ColorMask(1, 1, 1, 0)));
    assert_eq!(c.color_mask(1, 1, 1, 0), None);
}

#[test]
fn stencil_setters_compare_groups() {
    let mut c = DeviceStateCache::new();
    assert_eq!(c.stencil_func(ComparisonFunc::Always, 0, 0), None);
    assert_eq!(
        c.stencil_func(ComparisonFunc::Equal, 1, 0xFF),
        Some(DeviceCall::StencilFunc(ComparisonFunc::Equal, 1, 0xFF))
    );
    assert_eq!(c.stencil_mask(0), None);
    assert_eq!(c.stencil_mask(0xFF), Some(DeviceCall::StencilMask(0xFF)));
    assert_eq!(
        c.stencil_op(StencilOpKind::Keep, StencilOpKind::Keep, StencilOpKind::Replace),
        Some(DeviceCall::StencilOp(
            StencilOpKind::Keep,
            StencilOpKind::Keep,
            StencilOpKind::Replace
        ))
    );
    assert_eq!(
        c.stencil_op(StencilOpKind::Keep, StencilOpKind::Keep, StencilOpKind::Replace),
        None
    );
}

#[test]
fn polygon_offset_compares_bit_patterns() {
    let mut c = DeviceStateCache::new();
    let f = 1.25f32.to_bits();
    let u = 0.5f32.to_bits();
    assert_eq!(c.polygon_offset(f, u), Some(DeviceCall::PolygonOffset(f, u)));
    assert_eq!(c.polygon_offset(f, u), None);
    assert_eq!(c.polygon_offset(0, 0), Some(DeviceCall::PolygonOffset(0, 0)));
    assert_eq!(c.logic_op(LogicOpKind::Copy), None);
    assert_eq!(c.logic_op(LogicOpKind::Xor), Some(DeviceCall::LogicOp(LogicOpKind::Xor)));
}

#[test]
fn texture_binding_is_tracked_per_unit() {
    let mut c = DeviceStateCache::new();
    // Unit 0 starts with texture 0 bound.
    assert_eq!(c.bind_texture(0), None);
    assert_eq!(c.bind_texture(7), Some(DeviceCall::BindTexture(7)));
    assert_eq!(c.bind_texture(7), None);
    // Switching units: redundant switches are elided before any bind.
    assert_eq!(c.set_active_texture(0), None);
    assert_eq!(c.set_active_texture(2), Some(DeviceCall::ActiveTexture(2)));
    assert_eq!(c.set_active_texture(2), None);
    assert_eq!(c.bind_texture(7), Some(DeviceCall::BindTexture(7)));
    // Back on unit 0 the binding is remembered.
    assert_eq!(c.set_active_texture(0), Some(DeviceCall::ActiveTexture(0)));
    assert_eq!(c.bind_texture(7), None);
    assert_eq!(c.unbind_texture(), Some(DeviceCall::BindTexture(0)));
    assert_eq!(c.unbind_texture(), None);
    assert_eq!(c.enable_texture(), None);
    assert_eq!(c.disable_texture(), None);
}

#[test]
fn deleting_a_texture_forgets_its_bindings() {
    let mut c = DeviceStateCache::new();
    c.bind_texture(9);
    c.set_active_texture(3);
    c.bind_texture(9);
    c.delete_texture(9);
    // Nothing is bound on either unit any more, so a rebind reaches the
    // device again.
    assert_eq!(c.bind_texture(9), Some(DeviceCall::BindTexture(9)));
    c.set_active_texture(0);
    assert_eq!(c.bind_texture(9), Some(DeviceCall::BindTexture(9)));
    c.delete_textures(&vec![9, 3]);
    assert_eq!(c.bind_texture(9), Some(DeviceCall::BindTexture(9)));
}

#[test]
fn scissor_and_cull_toggles() {
    let mut c = DeviceStateCache::new();
    assert_eq!(
        c.enable_scissor_test(),
        Some(DeviceCall::Enable(Capability::ScissorTest))
    );
    assert_eq!(c.enable_scissor_test(), None);
    assert_eq!(
        c.disable_scissor_test(),
        Some(DeviceCall::Disable(Capability::ScissorTest))
    );
    assert_eq!(c.enable_cull(), Some(DeviceCall::Enable(Capability::CullFace)));
    assert_eq!(c.disable_depth_test(), None);
    assert_eq!(c.enable_depth_test(), Some(DeviceCall::Enable(Capability::DepthTest)));
    assert_eq!(
        c.enable_color_logic_op(),
        Some(DeviceCall::Enable(Capability::ColorLogicOp))
    );
    assert_eq!(c.disable_color_logic_op(), Some(DeviceCall::Disable(Capability::ColorLogicOp)));
}

#[test]
fn max_texture_size_is_cached_after_first_probe() {
    let mut c = DeviceStateCache::new();
    assert_eq!(c.cached_max_texture_size(), None);
    c.store_max_texture_size(8192);
    assert_eq!(c.cached_max_texture_size(), Some(8192));
}

#[test]
fn probe_starts_at_ceiling_and_halves_until_accepted() {
    let mut p = TextureSizeProbe::start(16384);
    assert_eq!(p.request(), 32768);
    assert_eq!(p.report_width(0), None);
    assert_eq!(p.request(), 16384);
    assert_eq!(p.report_width(0), None);
    assert_eq!(p.request(), 8192);
    assert_eq!(p.report_width(8192), Some(8192));
}

#[test]
fn probe_keeps_a_reported_maximum_above_the_ceiling() {
    let p = TextureSizeProbe::start(65536);
    assert_eq!(p.request(), 65536);
}

#[test]
fn probe_floors_at_the_minimum() {
    let mut p = TextureSizeProbe::start(0);
    assert_eq!(p.report_width(512), Some(1024));
    let mut q = TextureSizeProbe::start(0);
    // The device never accepts: halving exhausts down to the floor.
    let mut out = None;
    for _ in 0..8 {
        out = q.report_width(0);
        if out.is_some() {
            break;
        }
    }
    assert_eq!(out, Some(1024));
}

#[test]
fn cap_tracker_elides_repeats() {
    let mut t = CapTracker::new(Capability::Blend, false);
    assert_eq!(t.set_state(true), Some(DeviceCall::Enable(Capability::Blend)));
    assert_eq!(t.set_state(true), None);
    assert_eq!(t.set_state(false), Some(DeviceCall::Disable(Capability::Blend)));
    assert_eq!(t.set_state(false), None);
}
