use wgpu_types::{
    AstcBlock, AstcChannel, Features, TextureAspect, TextureFormat, TextureFormatFeatureFlags,
    TextureSampleType, TextureUsages,
};

fn every_format() -> Vec<TextureFormat> {
    let mut v = vec![
        TextureFormat::R8Unorm, TextureFormat::R8Snorm, TextureFormat::R8Uint,
        TextureFormat::R8Sint, TextureFormat::R16Uint, TextureFormat::R16Sint,
        TextureFormat::R16Unorm, TextureFormat::R16Snorm, TextureFormat::R16Float,
        TextureFormat::Rg8Unorm, TextureFormat::Rg8Snorm, TextureFormat::Rg8Uint,
        TextureFormat::Rg8Sint, TextureFormat::R32Uint, TextureFormat::R32Sint,
        TextureFormat::R32Float, TextureFormat::Rg16Uint, TextureFormat::Rg16Sint,
        TextureFormat::Rg16Unorm, TextureFormat::Rg16Snorm, TextureFormat::Rg16Float,
        TextureFormat::Rgba8Unorm, TextureFormat::Rgba8UnormSrgb, TextureFormat::Rgba8Snorm,
        TextureFormat::Rgba8Uint, TextureFormat::Rgba8Sint, TextureFormat::Bgra8Unorm,
        TextureFormat::Bgra8UnormSrgb, TextureFormat::Rgb9e5Ufloat, TextureFormat::Rgb10a2Uint,
        TextureFormat::Rgb10a2Unorm, TextureFormat::Rg11b10Ufloat, TextureFormat::Rg32Uint,
        TextureFormat::Rg32Sint, TextureFormat::Rg32Float, TextureFormat::Rgba16Uint,
        TextureFormat::Rgba16Sint, TextureFormat::Rgba16Unorm, TextureFormat::Rgba16Snorm,
        TextureFormat::Rgba16Float, TextureFormat::Rgba32Uint, TextureFormat::Rgba32Sint,
        TextureFormat::Rgba32Float, TextureFormat::Stencil8, TextureFormat::Depth16Unorm,
        TextureFormat::Depth24Plus, TextureFormat::Depth24PlusStencil8,
        TextureFormat::Depth32Float, TextureFormat::Depth32FloatStencil8, TextureFormat::NV12,
        TextureFormat::Bc1RgbaUnorm, TextureFormat::Bc1RgbaUnormSrgb,
        TextureFormat::Bc2RgbaUnorm, TextureFormat::Bc2RgbaUnormSrgb,
        TextureFormat::Bc3RgbaUnorm, TextureFormat::Bc3RgbaUnormSrgb, TextureFormat::Bc4RUnorm,
        TextureFormat::Bc4RSnorm, TextureFormat::Bc5RgUnorm, TextureFormat::Bc5RgSnorm,
        TextureFormat::Bc6hRgbUfloat, TextureFormat::Bc6hRgbFloat, TextureFormat::Bc7RgbaUnorm,
        TextureFormat::Bc7RgbaUnormSrgb, TextureFormat::Etc2Rgb8Unorm,
        TextureFormat::Etc2Rgb8UnormSrgb, TextureFormat::Etc2Rgb8A1Unorm,
        TextureFormat::Etc2Rgb8A1UnormSrgb, TextureFormat::Etc2Rgba8Unorm,
        TextureFormat::Etc2Rgba8UnormSrgb, TextureFormat::EacR11Unorm,
        TextureFormat::EacR11Snorm, TextureFormat::EacRg11Unorm, TextureFormat::EacRg11Snorm,
    ];
    let blocks = [
        AstcBlock::B4x4, AstcBlock::B5x4, AstcBlock::B5x5, AstcBlock::B6x5, AstcBlock::B6x6,
        AstcBlock::B8x5, AstcBlock::B8x6, AstcBlock::B8x8, AstcBlock::B10x5, AstcBlock::B10x6,
        AstcBlock::B10x8, AstcBlock::B10x10, AstcBlock::B12x10, AstcBlock::B12x12,
    ];
    for block in blocks {
        for channel in [AstcChannel::Unorm, AstcChannel::UnormSrgb, AstcChannel::Hdr] {
            v.push(TextureFormat::Astc { block, channel });
        }
    }
    v
}

#[test]
fn every_name_decodes_to_its_format() {
    let all = every_format();
    assert_eq!(all.len(), 116);
    for f in all {
        assert_eq!(TextureFormat::from_name(&f.name()), Some(f), "{:?}", f);
    }
}

#[test]
fn astc_names_are_composed() {
    let f = TextureFormat::Astc { block: AstcBlock::B10x6, channel: AstcChannel::UnormSrgb };
    assert_eq!(f.name(), "astc-10x6-unorm-srgb");
    assert_eq!(
        TextureFormat::from_name("astc-12x12-hdr"),
        Some(TextureFormat::Astc { block: AstcBlock::B12x12, channel: AstcChannel::Hdr })
    );
}

#[test]
fn unknown_names_are_rejected() {
    for s in ["", "r8", "R8UNORM", "astc-4x4", "astc-4x4-srgb", "astc-9x9-unorm", "astc-", "depth24", "nv12 ", "astc-10x10-unormsrgb"] {
        assert_eq!(TextureFormat::from_name(s), None, "{s}");
    }
}

#[test]
fn every_format_has_blocks_and_components() {
    for f in every_format() {
        let (w, h) = f.block_dimensions();
        assert!(w >= 1 && h >= 1);
        let c = f.components_with_aspect(TextureAspect::All);
        assert!((1..=4).contains(&c), "{:?}", f);
        assert_eq!(f.components(), c);
    }
}

#[test]
fn block_dimensions_of_families() {
    assert_eq!(TextureFormat::Rgba8Unorm.block_dimensions(), (1, 1));
    assert_eq!(TextureFormat::Bc7RgbaUnorm.block_dimensions(), (4, 4));
    assert_eq!(TextureFormat::EacRg11Snorm.block_dimensions(), (4, 4));
    let astc = TextureFormat::Astc { block: AstcBlock::B8x5, channel: AstcChannel::Unorm };
    assert_eq!(astc.block_dimensions(), (8, 5));
    assert_eq!(TextureFormat::NV12.size_multiple_requirement(), (2, 2));
    assert!(astc.is_compressed());
    assert!(!TextureFormat::R8Unorm.is_compressed());
}

fn feature_sets() -> Vec<Features> {
    vec![
        Features::empty(),
        Features::from_bits_retain(Features::FLOAT32_FILTERABLE),
        Features::from_bits_retain(Features::RG11B10UFLOAT_RENDERABLE | Features::BGRA8UNORM_STORAGE),
        Features::all(),
    ]
}

#[test]
fn filterable_flag_follows_sample_type() {
    for f in every_format() {
        for caps in feature_sets() {
            let flags = f.guaranteed_format_features(caps).flags;
            let filterable = flags.contains(TextureFormatFeatureFlags::from_bits_retain(
                TextureFormatFeatureFlags::FILTERABLE,
            ));
            let expected = f.sample_type(None, Some(caps))
                == Some(TextureSampleType::Float { filterable: true });
            assert_eq!(filterable, expected, "{:?}", f);
        }
    }
}

#[test]
fn float32_filterable_does_not_make_blendable() {
    let caps = Features::from_bits_retain(Features::FLOAT32_FILTERABLE);
    let flags = TextureFormat::R32Float.guaranteed_format_features(caps).flags;
    assert_eq!(flags.bits(), TextureFormatFeatureFlags::MULTISAMPLE_X4 | TextureFormatFeatureFlags::FILTERABLE);
    let plain = TextureFormat::R32Float.guaranteed_format_features(Features::empty()).flags;
    assert_eq!(plain.bits(), TextureFormatFeatureFlags::MULTISAMPLE_X4);
}

#[test]
fn guaranteed_features_of_rgba8unorm() {
    let r = TextureFormat::Rgba8Unorm.guaranteed_format_features(Features::empty());
    assert_eq!(r.allowed_usages.bits(), TextureUsages::ALL_BITS);
    assert_eq!(
        r.flags.bits(),
        TextureFormatFeatureFlags::MULTISAMPLE_X4
            | TextureFormatFeatureFlags::MULTISAMPLE_RESOLVE
            | TextureFormatFeatureFlags::FILTERABLE
            | TextureFormatFeatureFlags::BLENDABLE
    );
}

#[test]
fn conditional_usages() {
    let basic = TextureUsages::COPY_SRC | TextureUsages::COPY_DST | TextureUsages::TEXTURE_BINDING;
    let rg = TextureFormat::Rg11b10Ufloat;
    assert_eq!(rg.guaranteed_format_features(Features::empty()).allowed_usages.bits(), basic);
    assert_eq!(
        rg.guaranteed_format_features(Features::from_bits_retain(Features::RG11B10UFLOAT_RENDERABLE))
            .allowed_usages
            .bits(),
        basic | TextureUsages::RENDER_ATTACHMENT
    );
    let bgra = TextureFormat::Bgra8Unorm;
    assert_eq!(
        bgra.guaranteed_format_features(Features::empty()).allowed_usages.bits(),
        basic | TextureUsages::RENDER_ATTACHMENT
    );
    assert_eq!(
        bgra.guaranteed_format_features(Features::from_bits_retain(Features::BGRA8UNORM_STORAGE))
            .allowed_usages
            .bits(),
        TextureUsages::ALL_BITS
    );
    assert_eq!(TextureFormat::NV12.guaranteed_format_features(Features::all()).allowed_usages.bits(), TextureUsages::TEXTURE_BINDING);
}

#[test]
fn depth_aspect_resolves_to_a_component() {
    for d in [TextureFormat::Depth24PlusStencil8, TextureFormat::Depth32FloatStencil8] {
        let depth = d.aspect_specific_format(TextureAspect::DepthOnly).unwrap();
        assert!(depth.is_depth_stencil_component(d));
        let stencil = d.aspect_specific_format(TextureAspect::StencilOnly).unwrap();
        assert_eq!(stencil, TextureFormat::Stencil8);
        assert!(stencil.is_depth_stencil_component(d));
    }
    assert_eq!(
        TextureFormat::Depth24PlusStencil8.aspect_specific_format(TextureAspect::DepthOnly),
        Some(TextureFormat::Depth24Plus)
    );
}

#[test]
fn aspect_resolution() {
    assert_eq!(TextureFormat::Rgba8Unorm.aspect_specific_format(TextureAspect::All), Some(TextureFormat::Rgba8Unorm));
    assert_eq!(TextureFormat::Rgba8Unorm.aspect_specific_format(TextureAspect::DepthOnly), None);
    assert_eq!(TextureFormat::NV12.aspect_specific_format(TextureAspect::All), None);
    assert_eq!(TextureFormat::NV12.aspect_specific_format(TextureAspect::Plane0), Some(TextureFormat::R8Unorm));
    assert_eq!(TextureFormat::NV12.aspect_specific_format(TextureAspect::Plane1), Some(TextureFormat::Rg8Unorm));
    assert_eq!(TextureFormat::NV12.aspect_specific_format(TextureAspect::Plane2), None);
    assert!(!TextureFormat::Depth24Plus.is_depth_stencil_component(TextureFormat::Depth32FloatStencil8));
}

#[test]
fn combined_depth_stencil_needs_an_aspect_for_sample_type() {
    let f = TextureFormat::Depth32FloatStencil8;
    assert_eq!(f.sample_type(None, None), None);
    assert_eq!(f.sample_type(Some(TextureAspect::DepthOnly), None), Some(TextureSampleType::Depth));
    assert_eq!(f.sample_type(Some(TextureAspect::StencilOnly), None), Some(TextureSampleType::Uint));
    assert_eq!(f.sample_type(Some(TextureAspect::All), None), None);
}

#[test]
fn sample_types() {
    assert_eq!(TextureFormat::R8Sint.sample_type(None, None), Some(TextureSampleType::Sint));
    assert_eq!(TextureFormat::Rgb10a2Uint.sample_type(None, None), Some(TextureSampleType::Uint));
    assert_eq!(TextureFormat::Stencil8.sample_type(None, None), Some(TextureSampleType::Uint));
    assert_eq!(TextureFormat::Depth16Unorm.sample_type(None, None), Some(TextureSampleType::Depth));
    assert_eq!(TextureFormat::Rg32Float.sample_type(None, None), Some(TextureSampleType::Float { filterable: false }));
    assert_eq!(
        TextureFormat::Rg32Float.sample_type(None, Some(Features::from_bits_retain(Features::FLOAT32_FILTERABLE))),
        Some(TextureSampleType::Float { filterable: true })
    );
    assert_eq!(TextureFormat::NV12.sample_type(Some(TextureAspect::Plane1), None), Some(TextureSampleType::Float { filterable: false }));
    assert_eq!(TextureFormat::NV12.sample_type(None, None), None);
    assert_eq!(TextureSampleType::default(), TextureSampleType::Float { filterable: true });
}

#[test]
fn block_copy_sizes() {
    assert_eq!(TextureFormat::Rgba32Float.block_copy_size(None), Some(16));
    assert_eq!(TextureFormat::Depth24Plus.block_copy_size(None), None);
    assert_eq!(TextureFormat::Depth24PlusStencil8.block_copy_size(Some(TextureAspect::DepthOnly)), None);
    assert_eq!(TextureFormat::Depth24PlusStencil8.block_copy_size(Some(TextureAspect::StencilOnly)), Some(1));
    assert_eq!(TextureFormat::Depth32FloatStencil8.block_copy_size(Some(TextureAspect::DepthOnly)), Some(4));
    assert_eq!(TextureFormat::Depth32FloatStencil8.block_copy_size(None), None);
    assert_eq!(TextureFormat::NV12.block_copy_size(Some(TextureAspect::Plane1)), Some(2));
    assert_eq!(TextureFormat::Bc1RgbaUnorm.block_copy_size(None), Some(8));
    assert_eq!(TextureFormat::Bc1RgbaUnorm.block_size(None), Some(8));
}

#[test]
fn attachment_costs() {
    assert_eq!(TextureFormat::Rgba8Unorm.target_pixel_byte_cost(), Some(8));
    assert_eq!(TextureFormat::Rgba8Uint.target_pixel_byte_cost(), Some(4));
    assert_eq!(TextureFormat::Depth32Float.target_pixel_byte_cost(), None);
    assert_eq!(TextureFormat::Rg11b10Ufloat.target_component_alignment(), Some(4));
    assert_eq!(TextureFormat::Rgba16Float.target_component_alignment(), Some(2));
    assert_eq!(TextureFormat::Bc1RgbaUnorm.target_component_alignment(), None);
}

#[test]
fn components_per_aspect() {
    assert_eq!(TextureFormat::Depth24PlusStencil8.components_with_aspect(TextureAspect::All), 2);
    assert_eq!(TextureFormat::Depth24PlusStencil8.components_with_aspect(TextureAspect::DepthOnly), 1);
    assert_eq!(TextureFormat::NV12.components_with_aspect(TextureAspect::All), 3);
    assert_eq!(TextureFormat::NV12.components_with_aspect(TextureAspect::Plane1), 2);
    assert_eq!(TextureFormat::Bc6hRgbFloat.components(), 3);
}

#[test]
fn required_capabilities() {
    assert_eq!(TextureFormat::Rgba8Unorm.required_features(), Features::empty());
    assert_eq!(TextureFormat::Bc3RgbaUnorm.required_features().bits(), Features::TEXTURE_COMPRESSION_BC);
    assert!(TextureFormat::Bc3RgbaUnorm.is_bcn());
    assert!(!TextureFormat::Etc2Rgb8Unorm.is_bcn());
    assert_eq!(TextureFormat::R16Snorm.required_features().bits(), Features::TEXTURE_FORMAT_16BIT_NORM);
    let hdr = TextureFormat::Astc { block: AstcBlock::B4x4, channel: AstcChannel::Hdr };
    assert_eq!(hdr.required_features().bits(), Features::TEXTURE_COMPRESSION_ASTC_HDR);
    let srgb = TextureFormat::Astc { block: AstcBlock::B4x4, channel: AstcChannel::UnormSrgb };
    assert_eq!(srgb.required_features().bits(), Features::TEXTURE_COMPRESSION_ASTC);
    assert_eq!(TextureFormat::NV12.required_features().bits(), Features::TEXTURE_FORMAT_NV12);
}

#[test]
fn srgb_suffixes() {
    assert_eq!(TextureFormat::Bgra8Unorm.add_srgb_suffix(), TextureFormat::Bgra8UnormSrgb);
    assert_eq!(TextureFormat::Bgra8UnormSrgb.remove_srgb_suffix(), TextureFormat::Bgra8Unorm);
    assert_eq!(TextureFormat::R8Unorm.add_srgb_suffix(), TextureFormat::R8Unorm);
    assert!(TextureFormat::Etc2Rgba8UnormSrgb.is_srgb());
    assert!(!TextureFormat::Etc2Rgba8Unorm.is_srgb());
    let a = TextureFormat::Astc { block: AstcBlock::B6x6, channel: AstcChannel::Unorm };
    assert_eq!(a.add_srgb_suffix(), TextureFormat::Astc { block: AstcBlock::B6x6, channel: AstcChannel::UnormSrgb });
}

#[test]
fn aspects_of_formats() {
    assert!(TextureFormat::Stencil8.has_stencil_aspect());
    assert!(!TextureFormat::Stencil8.has_depth_aspect());
    assert!(!TextureFormat::Stencil8.has_color_aspect());
    assert!(TextureFormat::Depth32FloatStencil8.is_combined_depth_stencil_format());
    assert!(TextureFormat::NV12.is_multi_planar_format());
    assert_eq!(TextureFormat::NV12.planes(), Some(2));
    assert_eq!(TextureAspect::from_plane(1), Some(TextureAspect::Plane1));
    assert_eq!(TextureAspect::from_plane(3), None);
}
