use wgpu_types::{
    Backend, BindingType, BlendComponent, BlendFactor, BlendOperation, BufferBindingType,
    ColorTargetState, ColorWrites, CompareFunction, DownlevelCapabilities, DownlevelFlags, Extent3d,
    Face, Features, ImageSubresourceRange, InstanceFlags, Maintain, MaintainResult, Origin2d,
    PresentationTimestamp, PrimitiveTopology, ShaderModel, StencilFaceState, StencilOperation,
    StencilState, TextureAspect, TextureDescriptor, TextureDimension, TextureFormat,
    TextureFormatFeatureFlags, TextureUsages, TextureViewDimension, VertexFormat,
};

#[test]
fn mip_levels() {
    let e = Extent3d { width: 100, height: 7, depth_or_array_layers: 33 };
    assert_eq!(e.mip_level_size(2, TextureDimension::D2), Extent3d { width: 25, height: 1, depth_or_array_layers: 33 });
    assert_eq!(e.mip_level_size(3, TextureDimension::D3), Extent3d { width: 12, height: 1, depth_or_array_layers: 4 });
    assert_eq!(e.mip_level_size(1, TextureDimension::D1), Extent3d { width: 50, height: 1, depth_or_array_layers: 1 });
    assert_eq!(Extent3d { width: 0, height: 0, depth_or_array_layers: 1 }.max_mips(TextureDimension::D2), 0);
    assert_eq!(Extent3d { width: u32::MAX, height: 1, depth_or_array_layers: 1 }.max_mips(TextureDimension::D2), 32);
    let desc = TextureDescriptor {
        label: "t",
        size: e,
        mip_level_count: 3,
        sample_count: 1,
        dimension: TextureDimension::D2,
        format: TextureFormat::Rgba8Unorm,
        usage: TextureUsages::empty(),
        view_formats: vec![TextureFormat::Rgba8UnormSrgb],
    };
    assert_eq!(desc.mip_level_size(3), None);
    assert_eq!(desc.mip_level_size(1), Some(Extent3d { width: 50, height: 3, depth_or_array_layers: 33 }));
    assert_eq!(desc.compute_render_extent(2), Extent3d { width: 25, height: 1, depth_or_array_layers: 1 });
    assert_eq!(desc.array_layer_count(), 33);
    let mapped = desc.map_label(|l| l.len());
    assert_eq!(mapped.label, 1);
    assert_eq!(mapped.view_formats, vec![TextureFormat::Rgba8UnormSrgb]);
    let both = desc.map_label_and_view_formats(|l| l.to_string(), |v| v.len());
    assert_eq!((both.label.as_str(), both.view_formats), ("t", 1));
}

#[test]
fn physical_size_rounds_to_blocks() {
    let e = Extent3d { width: 5, height: 1, depth_or_array_layers: 2 };
    assert_eq!(e.physical_size(TextureFormat::Bc1RgbaUnorm), Extent3d { width: 8, height: 4, depth_or_array_layers: 2 });
    assert_eq!(e.physical_size(TextureFormat::R8Unorm), e);
}

#[test]
fn subresource_ranges() {
    let r = ImageSubresourceRange {
        aspect: TextureAspect::All,
        base_mip_level: 0,
        mip_level_count: None,
        base_array_layer: 0,
        array_layer_count: Some(6),
    };
    assert!(r.is_full_resource(TextureFormat::Rgba8Unorm, 4, 6));
    assert!(!r.is_full_resource(TextureFormat::Rgba8Unorm, 4, 7));
    assert!(r.is_full_resource(TextureFormat::Depth24PlusStencil8, 4, 6));
    assert!(!r.is_full_resource(TextureFormat::NV12, 4, 6));
    assert_eq!(r.mip_range(4), 0..4);
    let s = ImageSubresourceRange { base_mip_level: 2, mip_level_count: Some(3), ..r };
    assert_eq!(s.mip_range(10), 2..5);
    assert_eq!(s.layer_range(9), 0..6);
}

#[test]
fn sample_counts() {
    let flags = TextureFormatFeatureFlags::from_bits_retain(
        TextureFormatFeatureFlags::MULTISAMPLE_X4 | TextureFormatFeatureFlags::MULTISAMPLE_X16,
    );
    assert_eq!(flags.supported_sample_counts(), vec![1, 4, 16]);
    assert!(flags.sample_count_supported(1));
    assert!(!flags.sample_count_supported(2));
    assert!(!flags.sample_count_supported(3));
    assert_eq!(TextureFormatFeatureFlags::empty().supported_sample_counts(), vec![1]);
}

#[test]
fn stencil_rules() {
    let ignore = StencilFaceState::ignore();
    assert!(!ignore.needs_ref_value());
    assert!(ignore.is_read_only());
    let replace = StencilFaceState { pass_op: StencilOperation::Replace, ..ignore };
    assert!(replace.needs_ref_value());
    assert!(!replace.is_read_only());
    let s = StencilState { front: replace, back: ignore, read_mask: 0xff, write_mask: 0xff };
    assert!(s.is_enabled());
    assert!(!s.is_read_only(None));
    assert!(s.is_read_only(Some(Face::Front)));
    assert!(s.needs_ref_value());
    assert!(!StencilState::default().is_enabled());
    assert!(CompareFunction::Less.needs_ref_value());
    assert!(!CompareFunction::Always.needs_ref_value());
}

#[test]
fn blend_rules() {
    let c = BlendComponent { src_factor: BlendFactor::OneMinusConstant, dst_factor: BlendFactor::Zero, operation: BlendOperation::Add };
    assert!(c.uses_constant());
    assert!(!BlendComponent::over().uses_constant());
    assert!(BlendFactor::Src1Alpha.ref_second_blend_source());
    assert!(!BlendFactor::SrcAlpha.ref_second_blend_source());
    let t = ColorTargetState::from(TextureFormat::Bgra8Unorm);
    assert_eq!(t.write_mask.bits(), ColorWrites::ALL);
    assert_eq!(t.blend, None);
    assert!(PrimitiveTopology::TriangleStrip.is_strip());
    assert!(!PrimitiveTopology::PointList.is_strip());
}

#[test]
fn small_rules() {
    assert_eq!(VertexFormat::Float64x3.size(), 24);
    assert_eq!(VertexFormat::Unorm10_10_10_2.size(), 4);
    assert_eq!(Backend::BrowserWebGpu.to_str(), "webgpu");
    assert_eq!(TextureViewDimension::CubeArray.compatible_texture_dimension(), TextureDimension::D2);
    assert!(PresentationTimestamp(u128::MAX).is_invalid());
    assert!(!PresentationTimestamp(5).is_invalid());
    assert_eq!(Origin2d { x: 1, y: 2 }.to_3d(3).to_2d(), Origin2d { x: 1, y: 2 });
    let b = BindingType::Buffer { ty: BufferBindingType::Storage { read_only: true }, has_dynamic_offset: true, min_binding_size: None };
    assert!(b.has_dynamic_offset());
    assert!(Maintain::wait_for(3u64).is_wait());
    assert!(!Maintain::<u64>::Poll.is_wait());
    match Maintain::wait_for(3u64).map_index(|i| i * 2) {
        Maintain::WaitForSubmissionIndex(i) => assert_eq!(i, 6),
        _ => panic!("wrong variant"),
    }
    assert!(MaintainResult::SubmissionQueueEmpty.is_queue_empty());
}

#[test]
fn flag_rules() {
    let f = InstanceFlags::debugging().with_env(Some("0"), None, Some("yes"), None);
    assert_eq!(f.bits(), InstanceFlags::DEBUG | InstanceFlags::ALLOW_UNDERLYING_NONCOMPLIANT_ADAPTER);
    assert_eq!(InstanceFlags::from_build_config(false), InstanceFlags::empty());
    assert_eq!(InstanceFlags::from_build_config(true), InstanceFlags::debugging());
    assert_eq!(InstanceFlags::advanced_debugging().bits(), 0b10011);
    assert_eq!(Features::all_webgpu_mask().bits(), 0xFFF);
    assert_eq!(Features::all_native_mask().bits() & 0xFFFFF, 0);
    assert!(Features::empty().allowed_vertex_formats_for_blas().is_empty());
    assert_eq!(
        Features::from_bits_retain(Features::EXPERIMENTAL_RAY_TRACING_ACCELERATION_STRUCTURE).allowed_vertex_formats_for_blas(),
        vec![VertexFormat::Float32x3]
    );
    assert!(DownlevelCapabilities::default().is_webgpu_compliant());
    let weak = DownlevelCapabilities { flags: DownlevelFlags::compliant(), limits: Default::default(), shader_model: ShaderModel::Sm4 };
    assert!(!weak.is_webgpu_compliant());
    assert!(!DownlevelFlags::compliant().contains(DownlevelFlags::from_bits_retain(DownlevelFlags::ANISOTROPIC_FILTERING)));
    let mut u = TextureUsages::from_bits_retain(1 << 7);
    assert!(u.contains_invalid_bits());
    u.set(TextureUsages::from_bits_retain(1 << 7), false);
    assert!(!u.contains_invalid_bits());
    assert_eq!(TextureUsages::from_bits_truncate(0xFF).bits(), 0x1F);
}
