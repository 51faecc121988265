use wgpu_types::{AstcBlock, AstcChannel, Extent3d, TextureDimension, TextureFormat};

#[test]
fn texture_format_serialize() {
    assert_eq!(
        serde_json::to_string(&TextureFormat::R8Unorm.name()).unwrap(),
        "\"r8unorm\"".to_string()
    );
    assert_eq!(
        serde_json::to_string(&TextureFormat::R8Snorm.name()).unwrap(),
        "\"r8snorm\"".to_string()
    );
    assert_eq!(
        serde_json::to_string(&TextureFormat::R8Uint.name()).unwrap(),
        "\"r8uint\"".to_string()
    );
    assert_eq!(
        serde_json::to_string(&TextureFormat::R8Sint.name()).unwrap(),
        "\"r8sint\"".to_string()
    );
    assert_eq!(
        serde_json::to_string(&TextureFormat::R16Uint.name()).unwrap(),
        "\"r16uint\"".to_string()
    );
    assert_eq!(
        serde_json::to_string(&TextureFormat::R16Sint.name()).unwrap(),
        "\"r16sint\"".to_string()
    );
    assert_eq!(
        serde_json::to_string(&TextureFormat::R16Unorm.name()).unwrap(),
        "\"r16unorm\"".to_string()
    );
    assert_eq!(
        serde_json::to_string(&TextureFormat::R16Snorm.name()).unwrap(),
        "\"r16snorm\"".to_string()
    );
    assert_eq!(
        serde_json::to_string(&TextureFormat::R16Float.name()).unwrap(),
        "\"r16float\"".to_string()
    );
    assert_eq!(
        serde_json::to_string(&TextureFormat::Rg8Unorm.name()).unwrap(),
        "\"rg8unorm\"".to_string()
    );
    assert_eq!(
        serde_json::to_string(&TextureFormat::Rg8Snorm.name()).unwrap(),
        "\"rg8snorm\"".to_string()
    );
    assert_eq!(
        serde_json::to_string(&TextureFormat::Rg8Uint.name()).unwrap(),
        "\"rg8uint\"".to_string()
    );
    assert_eq!(
        serde_json::to_string(&TextureFormat::Rg8Sint.name()).unwrap(),
        "\"rg8sint\"".to_string()
    );
    assert_eq!(
        serde_json::to_string(&TextureFormat::R32Uint.name()).unwrap(),
        "\"r32uint\"".to_string()
    );
    assert_eq!(
        serde_json::to_string(&TextureFormat::R32Sint.name()).unwrap(),
        "\"r32sint\"".to_string()
    );
    assert_eq!(
        serde_json::to_string(&TextureFormat::R32Float.name()).unwrap(),
        "\"r32float\"".to_string()
    );
    assert_eq!(
        serde_json::to_string(&TextureFormat::Rg16Uint.name()).unwrap(),
        "\"rg16uint\"".to_string()
    );
    assert_eq!(
        serde_json::to_string(&TextureFormat::Rg16Sint.name()).unwrap(),
        "\"rg16sint\"".to_string()
    );
    assert_eq!(
        serde_json::to_string(&TextureFormat::Rg16Unorm.name()).unwrap(),
        "\"rg16unorm\"".to_string()
    );
    assert_eq!(
        serde_json::to_string(&TextureFormat::Rg16Snorm.name()).unwrap(),
        "\"rg16snorm\"".to_string()
    );
    assert_eq!(
        serde_json::to_string(&TextureFormat::Rg16Float.name()).unwrap(),
        "\"rg16float\"".to_string()
    );
    assert_eq!(
        serde_json::to_string(&TextureFormat::Rgba8Unorm.name()).unwrap(),
        "\"rgba8unorm\"".to_string()
    );
    assert_eq!(
        serde_json::to_string(&TextureFormat::Rgba8UnormSrgb.name()).unwrap(),
        "\"rgba8unorm-srgb\"".to_string()
    );
    assert_eq!(
        serde_json::to_string(&TextureFormat::Rgba8Snorm.name()).unwrap(),
        "\"rgba8snorm\"".to_string()
    );
    assert_eq!(
        serde_json::to_string(&TextureFormat::Rgba8Uint.name()).unwrap(),
        "\"rgba8uint\"".to_string()
    );
    assert_eq!(
        serde_json::to_string(&TextureFormat::Rgba8Sint.name()).unwrap(),
        "\"rgba8sint\"".to_string()
    );
    assert_eq!(
        serde_json::to_string(&TextureFormat::Bgra8Unorm.name()).unwrap(),
        "\"bgra8unorm\"".to_string()
    );
    assert_eq!(
        serde_json::to_string(&TextureFormat::Bgra8UnormSrgb.name()).unwrap(),
        "\"bgra8unorm-srgb\"".to_string()
    );
    assert_eq!(
        serde_json::to_string(&TextureFormat::Rgb10a2Uint.name()).unwrap(),
        "\"rgb10a2uint\"".to_string()
    );
    assert_eq!(
        serde_json::to_string(&TextureFormat::Rgb10a2Unorm.name()).unwrap(),
        "\"rgb10a2unorm\"".to_string()
    );
    assert_eq!(
        serde_json::to_string(&TextureFormat::Rg11b10Ufloat.name()).unwrap(),
        "\"rg11b10ufloat\"".to_string()
    );
    assert_eq!(
        serde_json::to_string(&TextureFormat::Rg32Uint.name()).unwrap(),
        "\"rg32uint\"".to_string()
    );
    assert_eq!(
        serde_json::to_string(&TextureFormat::Rg32Sint.name()).unwrap(),
        "\"rg32sint\"".to_string()
    );
    assert_eq!(
        serde_json::to_string(&TextureFormat::Rg32Float.name()).unwrap(),
        "\"rg32float\"".to_string()
    );
    assert_eq!(
        serde_json::to_string(&TextureFormat::Rgba16Uint.name()).unwrap(),
        "\"rgba16uint\"".to_string()
    );
    assert_eq!(
        serde_json::to_string(&TextureFormat::Rgba16Sint.name()).unwrap(),
        "\"rgba16sint\"".to_string()
    );
    assert_eq!(
        serde_json::to_string(&TextureFormat::Rgba16Unorm.name()).unwrap(),
        "\"rgba16unorm\"".to_string()
    );
    assert_eq!(
        serde_json::to_string(&TextureFormat::Rgba16Snorm.name()).unwrap(),
        "\"rgba16snorm\"".to_string()
    );
    assert_eq!(
        serde_json::to_string(&TextureFormat::Rgba16Float.name()).unwrap(),
        "\"rgba16float\"".to_string()
    );
    assert_eq!(
        serde_json::to_string(&TextureFormat::Rgba32Uint.name()).unwrap(),
        "\"rgba32uint\"".to_string()
    );
    assert_eq!(
        serde_json::to_string(&TextureFormat::Rgba32Sint.name()).unwrap(),
        "\"rgba32sint\"".to_string()
    );
    assert_eq!(
        serde_json::to_string(&TextureFormat::Rgba32Float.name()).unwrap(),
        "\"rgba32float\"".to_string()
    );
    assert_eq!(
        serde_json::to_string(&TextureFormat::Stencil8.name()).unwrap(),
        "\"stencil8\"".to_string()
    );
    assert_eq!(
        serde_json::to_string(&TextureFormat::Depth32Float.name()).unwrap(),
        "\"depth32float\"".to_string()
    );
    assert_eq!(
        serde_json::to_string(&TextureFormat::Depth16Unorm.name()).unwrap(),
        "\"depth16unorm\"".to_string()
    );
    assert_eq!(
        serde_json::to_string(&TextureFormat::Depth32FloatStencil8.name()).unwrap(),
        "\"depth32float-stencil8\"".to_string()
    );
    assert_eq!(
        serde_json::to_string(&TextureFormat::Depth24Plus.name()).unwrap(),
        "\"depth24plus\"".to_string()
    );
    assert_eq!(
        serde_json::to_string(&TextureFormat::Depth24PlusStencil8.name()).unwrap(),
        "\"depth24plus-stencil8\"".to_string()
    );
    assert_eq!(
        serde_json::to_string(&TextureFormat::Rgb9e5Ufloat.name()).unwrap(),
        "\"rgb9e5ufloat\"".to_string()
    );
    assert_eq!(
        serde_json::to_string(&TextureFormat::Bc1RgbaUnorm.name()).unwrap(),
        "\"bc1-rgba-unorm\"".to_string()
    );
    assert_eq!(
        serde_json::to_string(&TextureFormat::Bc1RgbaUnormSrgb.name()).unwrap(),
        "\"bc1-rgba-unorm-srgb\"".to_string()
    );
    assert_eq!(
        serde_json::to_string(&TextureFormat::Bc2RgbaUnorm.name()).unwrap(),
        "\"bc2-rgba-unorm\"".to_string()
    );
    assert_eq!(
        serde_json::to_string(&TextureFormat::Bc2RgbaUnormSrgb.name()).unwrap(),
        "\"bc2-rgba-unorm-srgb\"".to_string()
    );
    assert_eq!(
        serde_json::to_string(&TextureFormat::Bc3RgbaUnorm.name()).unwrap(),
        "\"bc3-rgba-unorm\"".to_string()
    );
    assert_eq!(
        serde_json::to_string(&TextureFormat::Bc3RgbaUnormSrgb.name()).unwrap(),
        "\"bc3-rgba-unorm-srgb\"".to_string()
    );
    assert_eq!(
        serde_json::to_string(&TextureFormat::Bc4RUnorm.name()).unwrap(),
        "\"bc4-r-unorm\"".to_string()
    );
    assert_eq!(
        serde_json::to_string(&TextureFormat::Bc4RSnorm.name()).unwrap(),
        "\"bc4-r-snorm\"".to_string()
    );
    assert_eq!(
        serde_json::to_string(&TextureFormat::Bc5RgUnorm.name()).unwrap(),
        "\"bc5-rg-unorm\"".to_string()
    );
    assert_eq!(
        serde_json::to_string(&TextureFormat::Bc5RgSnorm.name()).unwrap(),
        "\"bc5-rg-snorm\"".to_string()
    );
    assert_eq!(
        serde_json::to_string(&TextureFormat::Bc6hRgbUfloat.name()).unwrap(),
        "\"bc6h-rgb-ufloat\"".to_string()
    );
    assert_eq!(
        serde_json::to_string(&TextureFormat::Bc6hRgbFloat.name()).unwrap(),
        "\"bc6h-rgb-float\"".to_string()
    );
    assert_eq!(
        serde_json::to_string(&TextureFormat::Bc7RgbaUnorm.name()).unwrap(),
        "\"bc7-rgba-unorm\"".to_string()
    );
    assert_eq!(
        serde_json::to_string(&TextureFormat::Bc7RgbaUnormSrgb.name()).unwrap(),
        "\"bc7-rgba-unorm-srgb\"".to_string()
    );
    assert_eq!(
        serde_json::to_string(&TextureFormat::Etc2Rgb8Unorm.name()).unwrap(),
        "\"etc2-rgb8unorm\"".to_string()
    );
    assert_eq!(
        serde_json::to_string(&TextureFormat::Etc2Rgb8UnormSrgb.name()).unwrap(),
        "\"etc2-rgb8unorm-srgb\"".to_string()
    );
    assert_eq!(
        serde_json::to_string(&TextureFormat::Etc2Rgb8A1Unorm.name()).unwrap(),
        "\"etc2-rgb8a1unorm\"".to_string()
    );
    assert_eq!(
        serde_json::to_string(&TextureFormat::Etc2Rgb8A1UnormSrgb.name()).unwrap(),
        "\"etc2-rgb8a1unorm-srgb\"".to_string()
    );
    assert_eq!(
        serde_json::to_string(&TextureFormat::Etc2Rgba8Unorm.name()).unwrap(),
        "\"etc2-rgba8unorm\"".to_string()
    );
    assert_eq!(
        serde_json::to_string(&TextureFormat::Etc2Rgba8UnormSrgb.name()).unwrap(),
        "\"etc2-rgba8unorm-srgb\"".to_string()
    );
    assert_eq!(
        serde_json::to_string(&TextureFormat::EacR11Unorm.name()).unwrap(),
        "\"eac-r11unorm\"".to_string()
    );
    assert_eq!(
        serde_json::to_string(&TextureFormat::EacR11Snorm.name()).unwrap(),
        "\"eac-r11snorm\"".to_string()
    );
    assert_eq!(
        serde_json::to_string(&TextureFormat::EacRg11Unorm.name()).unwrap(),
        "\"eac-rg11unorm\"".to_string()
    );
    assert_eq!(
        serde_json::to_string(&TextureFormat::EacRg11Snorm.name()).unwrap(),
        "\"eac-rg11snorm\"".to_string()
    );
}

#[test]
fn texture_format_deserialize() {
    assert_eq!(
        TextureFormat::from_name(&serde_json::from_str::<String>("\"r8unorm\"").unwrap()).unwrap(),
        TextureFormat::R8Unorm
    );
    assert_eq!(
        TextureFormat::from_name(&serde_json::from_str::<String>("\"r8snorm\"").unwrap()).unwrap(),
        TextureFormat::R8Snorm
    );
    assert_eq!(
        TextureFormat::from_name(&serde_json::from_str::<String>("\"r8uint\"").unwrap()).unwrap(),
        TextureFormat::R8Uint
    );
    assert_eq!(
        TextureFormat::from_name(&serde_json::from_str::<String>("\"r8sint\"").unwrap()).unwrap(),
        TextureFormat::R8Sint
    );
    assert_eq!(
        TextureFormat::from_name(&serde_json::from_str::<String>("\"r16uint\"").unwrap()).unwrap(),
        TextureFormat::R16Uint
    );
    assert_eq!(
        TextureFormat::from_name(&serde_json::from_str::<String>("\"r16sint\"").unwrap()).unwrap(),
        TextureFormat::R16Sint
    );
    assert_eq!(
        TextureFormat::from_name(&serde_json::from_str::<String>("\"r16unorm\"").unwrap()).unwrap(),
        TextureFormat::R16Unorm
    );
    assert_eq!(
        TextureFormat::from_name(&serde_json::from_str::<String>("\"r16snorm\"").unwrap()).unwrap(),
        TextureFormat::R16Snorm
    );
    assert_eq!(
        TextureFormat::from_name(&serde_json::from_str::<String>("\"r16float\"").unwrap()).unwrap(),
        TextureFormat::R16Float
    );
    assert_eq!(
        TextureFormat::from_name(&serde_json::from_str::<String>("\"rg8unorm\"").unwrap()).unwrap(),
        TextureFormat::Rg8Unorm
    );
    assert_eq!(
        TextureFormat::from_name(&serde_json::from_str::<String>("\"rg8snorm\"").unwrap()).unwrap(),
        TextureFormat::Rg8Snorm
    );
    assert_eq!(
        TextureFormat::from_name(&serde_json::from_str::<String>("\"rg8uint\"").unwrap()).unwrap(),
        TextureFormat::Rg8Uint
    );
    assert_eq!(
        TextureFormat::from_name(&serde_json::from_str::<String>("\"rg8sint\"").unwrap()).unwrap(),
        TextureFormat::Rg8Sint
    );
    assert_eq!(
        TextureFormat::from_name(&serde_json::from_str::<String>("\"r32uint\"").unwrap()).unwrap(),
        TextureFormat::R32Uint
    );
    assert_eq!(
        TextureFormat::from_name(&serde_json::from_str::<String>("\"r32sint\"").unwrap()).unwrap(),
        TextureFormat::R32Sint
    );
    assert_eq!(
        TextureFormat::from_name(&serde_json::from_str::<String>("\"r32float\"").unwrap()).unwrap(),
        TextureFormat::R32Float
    );
    assert_eq!(
        TextureFormat::from_name(&serde_json::from_str::<String>("\"rg16uint\"").unwrap()).unwrap(),
        TextureFormat::Rg16Uint
    );
    assert_eq!(
        TextureFormat::from_name(&serde_json::from_str::<String>("\"rg16sint\"").unwrap()).unwrap(),
        TextureFormat::Rg16Sint
    );
    assert_eq!(
        TextureFormat::from_name(&serde_json::from_str::<String>("\"rg16unorm\"").unwrap()).unwrap(),
        TextureFormat::Rg16Unorm
    );
    assert_eq!(
        TextureFormat::from_name(&serde_json::from_str::<String>("\"rg16snorm\"").unwrap()).unwrap(),
        TextureFormat::Rg16Snorm
    );
    assert_eq!(
        TextureFormat::from_name(&serde_json::from_str::<String>("\"rg16float\"").unwrap()).unwrap(),
        TextureFormat::Rg16Float
    );
    assert_eq!(
        TextureFormat::from_name(&serde_json::from_str::<String>("\"rgba8unorm\"").unwrap()).unwrap(),
        TextureFormat::Rgba8Unorm
    );
    assert_eq!(
        TextureFormat::from_name(&serde_json::from_str::<String>("\"rgba8unorm-srgb\"").unwrap()).unwrap(),
        TextureFormat::Rgba8UnormSrgb
    );
    assert_eq!(
        TextureFormat::from_name(&serde_json::from_str::<String>("\"rgba8snorm\"").unwrap()).unwrap(),
        TextureFormat::Rgba8Snorm
    );
    assert_eq!(
        TextureFormat::from_name(&serde_json::from_str::<String>("\"rgba8uint\"").unwrap()).unwrap(),
        TextureFormat::Rgba8Uint
    );
    assert_eq!(
        TextureFormat::from_name(&serde_json::from_str::<String>("\"rgba8sint\"").unwrap()).unwrap(),
        TextureFormat::Rgba8Sint
    );
    assert_eq!(
        TextureFormat::from_name(&serde_json::from_str::<String>("\"bgra8unorm\"").unwrap()).unwrap(),
        TextureFormat::Bgra8Unorm
    );
    assert_eq!(
        TextureFormat::from_name(&serde_json::from_str::<String>("\"bgra8unorm-srgb\"").unwrap()).unwrap(),
        TextureFormat::Bgra8UnormSrgb
    );
    assert_eq!(
        TextureFormat::from_name(&serde_json::from_str::<String>("\"rgb10a2uint\"").unwrap()).unwrap(),
        TextureFormat::Rgb10a2Uint
    );
    assert_eq!(
        TextureFormat::from_name(&serde_json::from_str::<String>("\"rgb10a2unorm\"").unwrap()).unwrap(),
        TextureFormat::Rgb10a2Unorm
    );
    assert_eq!(
        TextureFormat::from_name(&serde_json::from_str::<String>("\"rg11b10ufloat\"").unwrap()).unwrap(),
        TextureFormat::Rg11b10Ufloat
    );
    assert_eq!(
        TextureFormat::from_name(&serde_json::from_str::<String>("\"rg32uint\"").unwrap()).unwrap(),
        TextureFormat::Rg32Uint
    );
    assert_eq!(
        TextureFormat::from_name(&serde_json::from_str::<String>("\"rg32sint\"").unwrap()).unwrap(),
        TextureFormat::Rg32Sint
    );
    assert_eq!(
        TextureFormat::from_name(&serde_json::from_str::<String>("\"rg32float\"").unwrap()).unwrap(),
        TextureFormat::Rg32Float
    );
    assert_eq!(
        TextureFormat::from_name(&serde_json::from_str::<String>("\"rgba16uint\"").unwrap()).unwrap(),
        TextureFormat::Rgba16Uint
    );
    assert_eq!(
        TextureFormat::from_name(&serde_json::from_str::<String>("\"rgba16sint\"").unwrap()).unwrap(),
        TextureFormat::Rgba16Sint
    );
    assert_eq!(
        TextureFormat::from_name(&serde_json::from_str::<String>("\"rgba16unorm\"").unwrap()).unwrap(),
        TextureFormat::Rgba16Unorm
    );
    assert_eq!(
        TextureFormat::from_name(&serde_json::from_str::<String>("\"rgba16snorm\"").unwrap()).unwrap(),
        TextureFormat::Rgba16Snorm
    );
    assert_eq!(
        TextureFormat::from_name(&serde_json::from_str::<String>("\"rgba16float\"").unwrap()).unwrap(),
        TextureFormat::Rgba16Float
    );
    assert_eq!(
        TextureFormat::from_name(&serde_json::from_str::<String>("\"rgba32uint\"").unwrap()).unwrap(),
        TextureFormat::Rgba32Uint
    );
    assert_eq!(
        TextureFormat::from_name(&serde_json::from_str::<String>("\"rgba32sint\"").unwrap()).unwrap(),
        TextureFormat::Rgba32Sint
    );
    assert_eq!(
        TextureFormat::from_name(&serde_json::from_str::<String>("\"rgba32float\"").unwrap()).unwrap(),
        TextureFormat::Rgba32Float
    );
    assert_eq!(
        TextureFormat::from_name(&serde_json::from_str::<String>("\"stencil8\"").unwrap()).unwrap(),
        TextureFormat::Stencil8
    );
    assert_eq!(
        TextureFormat::from_name(&serde_json::from_str::<String>("\"depth32float\"").unwrap()).unwrap(),
        TextureFormat::Depth32Float
    );
    assert_eq!(
        TextureFormat::from_name(&serde_json::from_str::<String>("\"depth16unorm\"").unwrap()).unwrap(),
        TextureFormat::Depth16Unorm
    );
    assert_eq!(
        TextureFormat::from_name(&serde_json::from_str::<String>("\"depth32float-stencil8\"").unwrap()).unwrap(),
        TextureFormat::Depth32FloatStencil8
    );
    assert_eq!(
        TextureFormat::from_name(&serde_json::from_str::<String>("\"depth24plus\"").unwrap()).unwrap(),
        TextureFormat::Depth24Plus
    );
    assert_eq!(
        TextureFormat::from_name(&serde_json::from_str::<String>("\"depth24plus-stencil8\"").unwrap()).unwrap(),
        TextureFormat::Depth24PlusStencil8
    );
    assert_eq!(
        TextureFormat::from_name(&serde_json::from_str::<String>("\"rgb9e5ufloat\"").unwrap()).unwrap(),
        TextureFormat::Rgb9e5Ufloat
    );
    assert_eq!(
        TextureFormat::from_name(&serde_json::from_str::<String>("\"bc1-rgba-unorm\"").unwrap()).unwrap(),
        TextureFormat::Bc1RgbaUnorm
    );
    assert_eq!(
        TextureFormat::from_name(&serde_json::from_str::<String>("\"bc1-rgba-unorm-srgb\"").unwrap()).unwrap(),
        TextureFormat::Bc1RgbaUnormSrgb
    );
    assert_eq!(
        TextureFormat::from_name(&serde_json::from_str::<String>("\"bc2-rgba-unorm\"").unwrap()).unwrap(),
        TextureFormat::Bc2RgbaUnorm
    );
    assert_eq!(
        TextureFormat::from_name(&serde_json::from_str::<String>("\"bc2-rgba-unorm-srgb\"").unwrap()).unwrap(),
        TextureFormat::Bc2RgbaUnormSrgb
    );
    assert_eq!(
        TextureFormat::from_name(&serde_json::from_str::<String>("\"bc3-rgba-unorm\"").unwrap()).unwrap(),
        TextureFormat::Bc3RgbaUnorm
    );
    assert_eq!(
        TextureFormat::from_name(&serde_json::from_str::<String>("\"bc3-rgba-unorm-srgb\"").unwrap()).unwrap(),
        TextureFormat::Bc3RgbaUnormSrgb
    );
    assert_eq!(
        TextureFormat::from_name(&serde_json::from_str::<String>("\"bc4-r-unorm\"").unwrap()).unwrap(),
        TextureFormat::Bc4RUnorm
    );
    assert_eq!(
        TextureFormat::from_name(&serde_json::from_str::<String>("\"bc4-r-snorm\"").unwrap()).unwrap(),
        TextureFormat::Bc4RSnorm
    );
    assert_eq!(
        TextureFormat::from_name(&serde_json::from_str::<String>("\"bc5-rg-unorm\"").unwrap()).unwrap(),
        TextureFormat::Bc5RgUnorm
    );
    assert_eq!(
        TextureFormat::from_name(&serde_json::from_str::<String>("\"bc5-rg-snorm\"").unwrap()).unwrap(),
        TextureFormat::Bc5RgSnorm
    );
    assert_eq!(
        TextureFormat::from_name(&serde_json::from_str::<String>("\"bc6h-rgb-ufloat\"").unwrap()).unwrap(),
        TextureFormat::Bc6hRgbUfloat
    );
    assert_eq!(
        TextureFormat::from_name(&serde_json::from_str::<String>("\"bc6h-rgb-float\"").unwrap()).unwrap(),
        TextureFormat::Bc6hRgbFloat
    );
    assert_eq!(
        TextureFormat::from_name(&serde_json::from_str::<String>("\"bc7-rgba-unorm\"").unwrap()).unwrap(),
        TextureFormat::Bc7RgbaUnorm
    );
    assert_eq!(
        TextureFormat::from_name(&serde_json::from_str::<String>("\"bc7-rgba-unorm-srgb\"").unwrap()).unwrap(),
        TextureFormat::Bc7RgbaUnormSrgb
    );
    assert_eq!(
        TextureFormat::from_name(&serde_json::from_str::<String>("\"etc2-rgb8unorm\"").unwrap()).unwrap(),
        TextureFormat::Etc2Rgb8Unorm
    );
    assert_eq!(
        TextureFormat::from_name(&serde_json::from_str::<String>("\"etc2-rgb8unorm-srgb\"").unwrap()).unwrap(),
        TextureFormat::Etc2Rgb8UnormSrgb
    );
    assert_eq!(
        TextureFormat::from_name(&serde_json::from_str::<String>("\"etc2-rgb8a1unorm\"").unwrap()).unwrap(),
        TextureFormat::Etc2Rgb8A1Unorm
    );
    assert_eq!(
        TextureFormat::from_name(&serde_json::from_str::<String>("\"etc2-rgb8a1unorm-srgb\"").unwrap()).unwrap(),
        TextureFormat::Etc2Rgb8A1UnormSrgb
    );
    assert_eq!(
        TextureFormat::from_name(&serde_json::from_str::<String>("\"etc2-rgba8unorm\"").unwrap()).unwrap(),
        TextureFormat::Etc2Rgba8Unorm
    );
    assert_eq!(
        TextureFormat::from_name(&serde_json::from_str::<String>("\"etc2-rgba8unorm-srgb\"").unwrap()).unwrap(),
        TextureFormat::Etc2Rgba8UnormSrgb
    );
    assert_eq!(
        TextureFormat::from_name(&serde_json::from_str::<String>("\"eac-r11unorm\"").unwrap()).unwrap(),
        TextureFormat::EacR11Unorm
    );
    assert_eq!(
        TextureFormat::from_name(&serde_json::from_str::<String>("\"eac-r11snorm\"").unwrap()).unwrap(),
        TextureFormat::EacR11Snorm
    );
    assert_eq!(
        TextureFormat::from_name(&serde_json::from_str::<String>("\"eac-rg11unorm\"").unwrap()).unwrap(),
        TextureFormat::EacRg11Unorm
    );
    assert_eq!(
        TextureFormat::from_name(&serde_json::from_str::<String>("\"eac-rg11snorm\"").unwrap()).unwrap(),
        TextureFormat::EacRg11Snorm
    );
}

#[test]
fn test_physical_size() {
    let format = TextureFormat::Bc1RgbaUnormSrgb; // 4x4 blocks
    assert_eq!(
        Extent3d {
            width: 7,
            height: 7,
            depth_or_array_layers: 1
        }
        .physical_size(format),
        Extent3d {
            width: 8,
            height: 8,
            depth_or_array_layers: 1
        }
    );
    // Doesn't change, already aligned
    assert_eq!(
        Extent3d {
            width: 8,
            height: 8,
            depth_or_array_layers: 1
        }
        .physical_size(format),
        Extent3d {
            width: 8,
            height: 8,
            depth_or_array_layers: 1
        }
    );
    let format = TextureFormat::Astc {
        block: AstcBlock::B8x5,
        channel: AstcChannel::Unorm,
    }; // 8x5 blocks
    assert_eq!(
        Extent3d {
            width: 7,
            height: 7,
            depth_or_array_layers: 1
        }
        .physical_size(format),
        Extent3d {
            width: 8,
            height: 10,
            depth_or_array_layers: 1
        }
    );
}

#[test]
fn test_max_mips() {
    // 1D
    assert_eq!(
        Extent3d {
            width: 240,
            height: 1,
            depth_or_array_layers: 1
        }
        .max_mips(TextureDimension::D1),
        1
    );
    // 2D
    assert_eq!(
        Extent3d {
            width: 1,
            height: 1,
            depth_or_array_layers: 1
        }
        .max_mips(TextureDimension::D2),
        1
    );
    assert_eq!(
        Extent3d {
            width: 60,
            height: 60,
            depth_or_array_layers: 1
        }
        .max_mips(TextureDimension::D2),
        6
    );
    assert_eq!(
        Extent3d {
            width: 240,
            height: 1,
            depth_or_array_layers: 1000
        }
        .max_mips(TextureDimension::D2),
        8
    );
    // 3D
    assert_eq!(
        Extent3d {
            width: 16,
            height: 30,
            depth_or_array_layers: 60
        }
        .max_mips(TextureDimension::D3),
        6
    );
}
