use vstd::prelude::*;

verus! {

/// Pixel formats as the host engine numbers them.
///
/// The numeric code of each variant is the host's own; `from_code` is the one
/// place that turns a raw code into a variant.
#[allow(non_camel_case_types)]
#[derive(Debug, Clone, Copy, PartialEq, Eq, Structural, Hash)]
pub enum UnityTextureEnum {
    /// Code 0: no format.
    NoFormat,
    R8_SRGB,
    R8G8_SRGB,
    R8G8B8_SRGB,
    R8G8B8A8_SRGB,
    R8_UNorm,
    R8G8_UNorm,
    R8G8B8_UNorm,
    R8G8B8A8_UNorm,
    R8_SNorm,
    R8G8_SNorm,
    R8G8B8_SNorm,
    R8G8B8A8_SNorm,
    R8_UInt,
    R8G8_UInt,
    R8G8B8_UInt,
    R8G8B8A8_UInt,
    R8_SInt,
    R8G8_SInt,
    R8G8B8_SInt,
    R8G8B8A8_SInt,
    R16_UNorm,
    R16G16_UNorm,
    R16G16B16_UNorm,
    R16G16B16A16_UNorm,
    R16_SNorm,
    R16G16_SNorm,
    R16G16B16_SNorm,
    R16G16B16A16_SNorm,
    R16_UInt,
    R16G16_UInt,
    R16G16B16_UInt,
    R16G16B16A16_UInt,
    R16_SInt,
    R16G16_SInt,
    R16G16B16_SInt,
    R16G16B16A16_SInt,
    R32_UInt,
    R32G32_UInt,
    R32G32B32_UInt,
    R32G32B32A32_UInt,
    R32_SInt,
    R32G32_SInt,
    R32G32B32_SInt,
    R32G32B32A32_SInt,
    R16_SFloat,
    R16G16_SFloat,
    R16G16B16_SFloat,
    R16G16B16A16_SFloat,
    R32_SFloat,
    R32G32_SFloat,
    R32G32B32_SFloat,
    R32G32B32A32_SFloat,
    B8G8R8_SRGB,
    B8G8R8A8_SRGB,
    B8G8R8_UNorm,
    B8G8R8A8_UNorm,
    B8G8R8_SNorm,
    B8G8R8A8_SNorm,
    B8G8R8_UInt,
    B8G8R8A8_UInt,
    B8G8R8_SInt,
    B8G8R8A8_SInt,
    R4G4B4A4_UNormPack16,
    B4G4R4A4_UNormPack16,
    R5G6B5_UNormPack16,
    B5G6R5_UNormPack16,
    R5G5B5A1_UNormPack16,
    B5G5R5A1_UNormPack16,
    A1R5G5B5_UNormPack16,
    E5B9G9R9_UFloatPack32,
    B10G11R11_UFloatPack32,
    A2B10G10R10_UNormPack32,
    A2B10G10R10_UIntPack32,
    A2B10G10R10_SIntPack32,
    A2R10G10B10_UNormPack32,
    A2R10G10B10_UIntPack32,
    A2R10G10B10_SIntPack32,
    A2R10G10B10_XRSRGBPack32,
    A2R10G10B10_XRUNormPack32,
    R10G10B10_XRSRGBPack32,
    R10G10B10_XRUNormPack32,
    A10R10G10B10_XRSRGBPack32,
    A10R10G10B10_XRUNormPack32,
    RGBA_DXT1_SRGB,
    RGBA_DXT1_UNorm,
    RGBA_DXT3_SRGB,
    RGBA_DXT3_UNorm,
    RGBA_DXT5_SRGB,
    RGBA_DXT5_UNorm,
    R_BC4_UNorm,
    R_BC4_SNorm,
    RG_BC5_UNorm,
    RG_BC5_SNorm,
    RGB_BC6H_UFloat,
    RGB_BC6H_SFloat,
    RGBA_BC7_SRGB,
    RGBA_BC7_UNorm,
    RGB_PVRTC_2Bpp_SRGB,
    RGB_PVRTC_2Bpp_UNorm,
    RGB_PVRTC_4Bpp_SRGB,
    RGB_PVRTC_4Bpp_UNorm,
    RGBA_PVRTC_2Bpp_SRGB,
    RGBA_PVRTC_2Bpp_UNorm,
    RGBA_PVRTC_4Bpp_SRGB,
    RGBA_PVRTC_4Bpp_UNorm,
    RGB_ETC_UNorm,
    RGB_ETC2_SRGB,
    RGB_ETC2_UNorm,
    RGB_A1_ETC2_SRGB,
    RGB_A1_ETC2_UNorm,
    RGBA_ETC2_SRGB,
    RGBA_ETC2_UNorm,
    R_EAC_UNorm,
    R_EAC_SNorm,
    RG_EAC_UNorm,
    RG_EAC_SNorm,
    RGBA_ASTC4X4_SRGB,
    RGBA_ASTC4X4_UNorm,
    RGBA_ASTC5X5_SRGB,
    RGBA_ASTC5X5_UNorm,
    RGBA_ASTC6X6_SRGB,
    RGBA_ASTC6X6_UNorm,
    RGBA_ASTC8X8_SRGB,
    RGBA_ASTC8X8_UNorm,
    RGBA_ASTC10X10_SRGB,
    RGBA_ASTC10X10_UNorm,
    RGBA_ASTC12X12_SRGB,
    RGBA_ASTC12X12_UNorm,
}

/// Texture dimensions as the host engine numbers them.
#[derive(Debug, Clone, Copy, PartialEq, Eq, Structural, Hash)]
pub enum TextureDimension {
    Unknown,
    /// Code 0: no dimension.
    NoDimension,
    Any,
    Tex2D,
    Tex3D,
    Cube,
    Tex2DArray,
    CubeArray,
}

/// The GPU backend's pixel formats that some host or shader format maps to.
#[derive(Debug, Clone, Copy, PartialEq, Eq, Structural, Hash)]
pub enum GpuTextureFormat {
    Rgba8UnormSrgb,
    R8Unorm,
    Rg8Unorm,
    Rgba8Unorm,
    R8Snorm,
    Rg8Snorm,
    Rgba8Snorm,
    R8Uint,
    Rg8Uint,
    Rgba8Uint,
    R8Sint,
    Rg8Sint,
    Rgba8Sint,
    R16Unorm,
    Rg16Unorm,
    Rgba16Unorm,
    R16Snorm,
    Rg16Snorm,
    Rgba16Snorm,
    R16Uint,
    Rg16Uint,
    Rgba16Uint,
    R16Sint,
    Rg16Sint,
    Rgba16Sint,
    R32Uint,
    Rg32Uint,
    Rgba32Uint,
    R32Sint,
    Rg32Sint,
    Rgba32Sint,
    R16Float,
    Rg16Float,
    Rgba16Float,
    R32Float,
    Rg32Float,
    Rgba32Float,
    Bgra8UnormSrgb,
    Bgra8Unorm,
    Rgb10a2Unorm,
    Bc1RgbaUnormSrgb,
    Bc1RgbaUnorm,
    Bc2RgbaUnormSrgb,
    Bc2RgbaUnorm,
    Bc3RgbaUnormSrgb,
    Bc3RgbaUnorm,
    Bc4RUnorm,
    Bc4RSnorm,
    Bc5RgUnorm,
    Bc5RgSnorm,
    Bc6hRgbUfloat,
    Bc7RgbaUnormSrgb,
    Bc7RgbaUnorm,
    Etc2Rgb8UnormSrgb,
    Etc2Rgb8Unorm,
    Etc2Rgb8A1UnormSrgb,
    Etc2Rgb8A1Unorm,
    Etc2Rgba8UnormSrgb,
    Etc2Rgba8Unorm,
    EacR11Unorm,
    EacR11Snorm,
    EacRg11Unorm,
    EacRg11Snorm,
    Rgb10a2Uint,
    Rg11b10Ufloat,
}

/// The GPU backend's texture dimensions.
#[derive(Debug, Clone, Copy, PartialEq, Eq, Structural, Hash)]
pub enum GpuTextureDimension {
    D1,
    D2,
    D3,
}

/// Why a host code could not be turned into a backend value.
#[derive(Debug, Clone, Copy, PartialEq, Eq, Structural, Hash)]
pub enum MappingError {
    /// The format code names no host format, or one with no backend equivalent.
    UnmappedFormat,
    /// The dimension code names no host dimension, or one with no backend equivalent.
    UnmappedDimension,
}

/// The host format that a raw code stands for, if any.
pub open spec fn format_of_code(code: u32) -> Option<UnityTextureEnum> {
    match code {
        0u32 => Some(UnityTextureEnum::NoFormat),
        1u32 => Some(UnityTextureEnum::R8_SRGB),
        2u32 => Some(UnityTextureEnum::R8G8_SRGB),
        3u32 => Some(UnityTextureEnum::R8G8B8_SRGB),
        4u32 => Some(UnityTextureEnum::R8G8B8A8_SRGB),
        5u32 => Some(UnityTextureEnum::R8_UNorm),
        6u32 => Some(UnityTextureEnum::R8G8_UNorm),
        7u32 => Some(UnityTextureEnum::R8G8B8_UNorm),
        8u32 => Some(UnityTextureEnum::R8G8B8A8_UNorm),
        9u32 => Some(UnityTextureEnum::R8_SNorm),
        10u32 => Some(UnityTextureEnum::R8G8_SNorm),
        11u32 => Some(UnityTextureEnum::R8G8B8_SNorm),
        12u32 => Some(UnityTextureEnum::R8G8B8A8_SNorm),
        13u32 => Some(UnityTextureEnum::R8_UInt),
        14u32 => Some(UnityTextureEnum::R8G8_UInt),
        15u32 => Some(UnityTextureEnum::R8G8B8_UInt),
        16u32 => Some(UnityTextureEnum::R8G8B8A8_UInt),
        17u32 => Some(UnityTextureEnum::R8_SInt),
        18u32 => Some(UnityTextureEnum::R8G8_SInt),
        19u32 => Some(UnityTextureEnum::R8G8B8_SInt),
        20u32 => Some(UnityTextureEnum::R8G8B8A8_SInt),
        21u32 => Some(UnityTextureEnum::R16_UNorm),
        22u32 => Some(UnityTextureEnum::R16G16_UNorm),
        23u32 => Some(UnityTextureEnum::R16G16B16_UNorm),
        24u32 => Some(UnityTextureEnum::R16G16B16A16_UNorm),
        25u32 => Some(UnityTextureEnum::R16_SNorm),
        26u32 => Some(UnityTextureEnum::R16G16_SNorm),
        27u32 => Some(UnityTextureEnum::R16G16B16_SNorm),
        28u32 => Some(UnityTextureEnum::R16G16B16A16_SNorm),
        29u32 => Some(UnityTextureEnum::R16_UInt),
        30u32 => Some(UnityTextureEnum::R16G16_UInt),
        31u32 => Some(UnityTextureEnum::R16G16B16_UInt),
        32u32 => Some(UnityTextureEnum::R16G16B16A16_UInt),
        33u32 => Some(UnityTextureEnum::R16_SInt),
        34u32 => Some(UnityTextureEnum::R16G16_SInt),
        35u32 => Some(UnityTextureEnum::R16G16B16_SInt),
        36u32 => Some(UnityTextureEnum::R16G16B16A16_SInt),
        37u32 => Some(UnityTextureEnum::R32_UInt),
        38u32 => Some(UnityTextureEnum::R32G32_UInt),
        39u32 => Some(UnityTextureEnum::R32G32B32_UInt),
        40u32 => Some(UnityTextureEnum::R32G32B32A32_UInt),
        41u32 => Some(UnityTextureEnum::R32_SInt),
        42u32 => Some(UnityTextureEnum::R32G32_SInt),
        43u32 => Some(UnityTextureEnum::R32G32B32_SInt),
        44u32 => Some(UnityTextureEnum::R32G32B32A32_SInt),
        45u32 => Some(UnityTextureEnum::R16_SFloat),
        46u32 => Some(UnityTextureEnum::R16G16_SFloat),
        47u32 => Some(UnityTextureEnum::R16G16B16_SFloat),
        48u32 => Some(UnityTextureEnum::R16G16B16A16_SFloat),
        49u32 => Some(UnityTextureEnum::R32_SFloat),
        50u32 => Some(UnityTextureEnum::R32G32_SFloat),
        51u32 => Some(UnityTextureEnum::R32G32B32_SFloat),
        52u32 => Some(UnityTextureEnum::R32G32B32A32_SFloat),
        56u32 => Some(UnityTextureEnum::B8G8R8_SRGB),
        57u32 => Some(UnityTextureEnum::B8G8R8A8_SRGB),
        58u32 => Some(UnityTextureEnum::B8G8R8_UNorm),
        59u32 => Some(UnityTextureEnum::B8G8R8A8_UNorm),
        60u32 => Some(UnityTextureEnum::B8G8R8_SNorm),
        61u32 => Some(UnityTextureEnum::B8G8R8A8_SNorm),
        62u32 => Some(UnityTextureEnum::B8G8R8_UInt),
        63u32 => Some(UnityTextureEnum::B8G8R8A8_UInt),
        64u32 => Some(UnityTextureEnum::B8G8R8_SInt),
        65u32 => Some(UnityTextureEnum::B8G8R8A8_SInt),
        66u32 => Some(UnityTextureEnum::R4G4B4A4_UNormPack16),
        67u32 => Some(UnityTextureEnum::B4G4R4A4_UNormPack16),
        68u32 => Some(UnityTextureEnum::R5G6B5_UNormPack16),
        69u32 => Some(UnityTextureEnum::B5G6R5_UNormPack16),
        70u32 => Some(UnityTextureEnum::R5G5B5A1_UNormPack16),
        71u32 => Some(UnityTextureEnum::B5G5R5A1_UNormPack16),
        72u32 => Some(UnityTextureEnum::A1R5G5B5_UNormPack16),
        73u32 => Some(UnityTextureEnum::E5B9G9R9_UFloatPack32),
        74u32 => Some(UnityTextureEnum::B10G11R11_UFloatPack32),
        75u32 => Some(UnityTextureEnum::A2B10G10R10_UNormPack32),
        76u32 => Some(UnityTextureEnum::A2B10G10R10_UIntPack32),
        77u32 => Some(UnityTextureEnum::A2B10G10R10_SIntPack32),
        78u32 => Some(UnityTextureEnum::A2R10G10B10_UNormPack32),
        79u32 => Some(UnityTextureEnum::A2R10G10B10_UIntPack32),
        80u32 => Some(UnityTextureEnum::A2R10G10B10_SIntPack32),
        81u32 => Some(UnityTextureEnum::A2R10G10B10_XRSRGBPack32),
        82u32 => Some(UnityTextureEnum::A2R10G10B10_XRUNormPack32),
        83u32 => Some(UnityTextureEnum::R10G10B10_XRSRGBPack32),
        84u32 => Some(UnityTextureEnum::R10G10B10_XRUNormPack32),
        85u32 => Some(UnityTextureEnum::A10R10G10B10_XRSRGBPack32),
        86u32 => Some(UnityTextureEnum::A10R10G10B10_XRUNormPack32),
        96u32 => Some(UnityTextureEnum::RGBA_DXT1_SRGB),
        97u32 => Some(UnityTextureEnum::RGBA_DXT1_UNorm),
        98u32 => Some(UnityTextureEnum::RGBA_DXT3_SRGB),
        99u32 => Some(UnityTextureEnum::RGBA_DXT3_UNorm),
        100u32 => Some(UnityTextureEnum::RGBA_DXT5_SRGB),
        101u32 => Some(UnityTextureEnum::RGBA_DXT5_UNorm),
        102u32 => Some(UnityTextureEnum::R_BC4_UNorm),
        103u32 => Some(UnityTextureEnum::R_BC4_SNorm),
        104u32 => Some(UnityTextureEnum::RG_BC5_UNorm),
        105u32 => Some(UnityTextureEnum::RG_BC5_SNorm),
        106u32 => Some(UnityTextureEnum::RGB_BC6H_UFloat),
        107u32 => Some(UnityTextureEnum::RGB_BC6H_SFloat),
        108u32 => Some(UnityTextureEnum::RGBA_BC7_SRGB),
        109u32 => Some(UnityTextureEnum::RGBA_BC7_UNorm),
        110u32 => Some(UnityTextureEnum::RGB_PVRTC_2Bpp_SRGB),
        111u32 => Some(UnityTextureEnum::RGB_PVRTC_2Bpp_UNorm),
        112u32 => Some(UnityTextureEnum::RGB_PVRTC_4Bpp_SRGB),
        113u32 => Some(UnityTextureEnum::RGB_PVRTC_4Bpp_UNorm),
        114u32 => Some(UnityTextureEnum::RGBA_PVRTC_2Bpp_SRGB),
        115u32 => Some(UnityTextureEnum::RGBA_PVRTC_2Bpp_UNorm),
        116u32 => Some(UnityTextureEnum::RGBA_PVRTC_4Bpp_SRGB),
        117u32 => Some(UnityTextureEnum::RGBA_PVRTC_4Bpp_UNorm),
        118u32 => Some(UnityTextureEnum::RGB_ETC_UNorm),
        119u32 => Some(UnityTextureEnum::RGB_ETC2_SRGB),
        120u32 => Some(UnityTextureEnum::RGB_ETC2_UNorm),
        121u32 => Some(UnityTextureEnum::RGB_A1_ETC2_SRGB),
        122u32 => Some(UnityTextureEnum::RGB_A1_ETC2_UNorm),
        123u32 => Some(UnityTextureEnum::RGBA_ETC2_SRGB),
        124u32 => Some(UnityTextureEnum::RGBA_ETC2_UNorm),
        125u32 => Some(UnityTextureEnum::R_EAC_UNorm),
        126u32 => Some(UnityTextureEnum::R_EAC_SNorm),
        127u32 => Some(UnityTextureEnum::RG_EAC_UNorm),
        128u32 => Some(UnityTextureEnum::RG_EAC_SNorm),
        129u32 => Some(UnityTextureEnum::RGBA_ASTC4X4_SRGB),
        130u32 => Some(UnityTextureEnum::RGBA_ASTC4X4_UNorm),
        131u32 => Some(UnityTextureEnum::RGBA_ASTC5X5_SRGB),
        132u32 => Some(UnityTextureEnum::RGBA_ASTC5X5_UNorm),
        133u32 => Some(UnityTextureEnum::RGBA_ASTC6X6_SRGB),
        134u32 => Some(UnityTextureEnum::RGBA_ASTC6X6_UNorm),
        135u32 => Some(UnityTextureEnum::RGBA_ASTC8X8_SRGB),
        136u32 => Some(UnityTextureEnum::RGBA_ASTC8X8_UNorm),
        137u32 => Some(UnityTextureEnum::RGBA_ASTC10X10_SRGB),
        138u32 => Some(UnityTextureEnum::RGBA_ASTC10X10_UNorm),
        139u32 => Some(UnityTextureEnum::RGBA_ASTC12X12_SRGB),
        140u32 => Some(UnityTextureEnum::RGBA_ASTC12X12_UNorm),
        _ => Option::None,
    }
}

/// The backend format that a host format maps to; `None` where there is none.
pub open spec fn backend_format(f: UnityTextureEnum) -> Option<GpuTextureFormat> {
    match f {
        UnityTextureEnum::R8G8B8A8_SRGB => Some(GpuTextureFormat::Rgba8UnormSrgb),
        UnityTextureEnum::R8_UNorm => Some(GpuTextureFormat::R8Unorm),
        UnityTextureEnum::R8G8_UNorm => Some(GpuTextureFormat::Rg8Unorm),
        UnityTextureEnum::R8G8B8A8_UNorm => Some(GpuTextureFormat::Rgba8Unorm),
        UnityTextureEnum::R8_SNorm => Some(GpuTextureFormat::R8Snorm),
        UnityTextureEnum::R8G8_SNorm => Some(GpuTextureFormat::Rg8Snorm),
        UnityTextureEnum::R8G8B8A8_SNorm => Some(GpuTextureFormat::Rgba8Snorm),
        UnityTextureEnum::R8_UInt => Some(GpuTextureFormat::R8Uint),
        UnityTextureEnum::R8G8_UInt => Some(GpuTextureFormat::Rg8Uint),
        UnityTextureEnum::R8G8B8A8_UInt => Some(GpuTextureFormat::Rgba8Uint),
        UnityTextureEnum::R8_SInt => Some(GpuTextureFormat::R8Sint),
        UnityTextureEnum::R8G8_SInt => Some(GpuTextureFormat::Rg8Sint),
        UnityTextureEnum::R8G8B8A8_SInt => Some(GpuTextureFormat::Rgba8Sint),
        UnityTextureEnum::R16_UNorm => Some(GpuTextureFormat::R16Unorm),
        UnityTextureEnum::R16G16_UNorm => Some(GpuTextureFormat::Rg16Unorm),
        UnityTextureEnum::R16G16B16A16_UNorm => Some(GpuTextureFormat::Rgba16Unorm),
        UnityTextureEnum::R16_SNorm => Some(GpuTextureFormat::R16Snorm),
        UnityTextureEnum::R16G16_SNorm => Some(GpuTextureFormat::Rg16Snorm),
        UnityTextureEnum::R16G16B16A16_SNorm => Some(GpuTextureFormat::Rgba16Snorm),
        UnityTextureEnum::R16_UInt => Some(GpuTextureFormat::R16Uint),
        UnityTextureEnum::R16G16_UInt => Some(GpuTextureFormat::Rg16Uint),
        UnityTextureEnum::R16G16B16A16_UInt => Some(GpuTextureFormat::Rgba16Uint),
        UnityTextureEnum::R16_SInt => Some(GpuTextureFormat::R16Sint),
        UnityTextureEnum::R16G16_SInt => Some(GpuTextureFormat::Rg16Sint),
        UnityTextureEnum::R16G16B16A16_SInt => Some(GpuTextureFormat::Rgba16Sint),
        UnityTextureEnum::R32_UInt => Some(GpuTextureFormat::R32Uint),
        UnityTextureEnum::R32G32_UInt => Some(GpuTextureFormat::Rg32Uint),
        UnityTextureEnum::R32G32B32A32_UInt => Some(GpuTextureFormat::Rgba32Uint),
        UnityTextureEnum::R32_SInt => Some(GpuTextureFormat::R32Sint),
        UnityTextureEnum::R32G32_SInt => Some(GpuTextureFormat::Rg32Sint),
        UnityTextureEnum::R32G32B32A32_SInt => Some(GpuTextureFormat::Rgba32Sint),
        UnityTextureEnum::R16_SFloat => Some(GpuTextureFormat::R16Float),
        UnityTextureEnum::R16G16_SFloat => Some(GpuTextureFormat::Rg16Float),
        UnityTextureEnum::R16G16B16A16_SFloat => Some(GpuTextureFormat::Rgba16Float),
        UnityTextureEnum::R32_SFloat => Some(GpuTextureFormat::R32Float),
        UnityTextureEnum::R32G32_SFloat => Some(GpuTextureFormat::Rg32Float),
        UnityTextureEnum::R32G32B32A32_SFloat => Some(GpuTextureFormat::Rgba32Float),
        UnityTextureEnum::B8G8R8A8_SRGB => Some(GpuTextureFormat::Bgra8UnormSrgb),
        UnityTextureEnum::B8G8R8A8_UNorm => Some(GpuTextureFormat::Bgra8Unorm),
        UnityTextureEnum::A2B10G10R10_UNormPack32 => Some(GpuTextureFormat::Rgb10a2Unorm),
        UnityTextureEnum::RGBA_DXT1_SRGB => Some(GpuTextureFormat::Bc1RgbaUnormSrgb),
        UnityTextureEnum::RGBA_DXT1_UNorm => Some(GpuTextureFormat::Bc1RgbaUnorm),
        UnityTextureEnum::RGBA_DXT3_SRGB => Some(GpuTextureFormat::Bc2RgbaUnormSrgb),
        UnityTextureEnum::RGBA_DXT3_UNorm => Some(GpuTextureFormat::Bc2RgbaUnorm),
        UnityTextureEnum::RGBA_DXT5_SRGB => Some(GpuTextureFormat::Bc3RgbaUnormSrgb),
        UnityTextureEnum::RGBA_DXT5_UNorm => Some(GpuTextureFormat::Bc3RgbaUnorm),
        UnityTextureEnum::R_BC4_UNorm => Some(GpuTextureFormat::Bc4RUnorm),
        UnityTextureEnum::R_BC4_SNorm => Some(GpuTextureFormat::Bc4RSnorm),
        UnityTextureEnum::RG_BC5_UNorm => Some(GpuTextureFormat::Bc5RgUnorm),
        UnityTextureEnum::RG_BC5_SNorm => Some(GpuTextureFormat::Bc5RgSnorm),
        UnityTextureEnum::RGB_BC6H_UFloat => Some(GpuTextureFormat::Bc6hRgbUfloat),
        UnityTextureEnum::RGBA_BC7_SRGB => Some(GpuTextureFormat::Bc7RgbaUnormSrgb),
        UnityTextureEnum::RGBA_BC7_UNorm => Some(GpuTextureFormat::Bc7RgbaUnorm),
        UnityTextureEnum::RGB_ETC2_SRGB => Some(GpuTextureFormat::Etc2Rgb8UnormSrgb),
        UnityTextureEnum::RGB_ETC2_UNorm => Some(GpuTextureFormat::Etc2Rgb8Unorm),
        UnityTextureEnum::RGB_A1_ETC2_SRGB => Some(GpuTextureFormat::Etc2Rgb8A1UnormSrgb),
        UnityTextureEnum::RGB_A1_ETC2_UNorm => Some(GpuTextureFormat::Etc2Rgb8A1Unorm),
        UnityTextureEnum::RGBA_ETC2_SRGB => Some(GpuTextureFormat::Etc2Rgba8UnormSrgb),
        UnityTextureEnum::RGBA_ETC2_UNorm => Some(GpuTextureFormat::Etc2Rgba8Unorm),
        UnityTextureEnum::R_EAC_UNorm => Some(GpuTextureFormat::EacR11Unorm),
        UnityTextureEnum::R_EAC_SNorm => Some(GpuTextureFormat::EacR11Snorm),
        UnityTextureEnum::RG_EAC_UNorm => Some(GpuTextureFormat::EacRg11Unorm),
        UnityTextureEnum::RG_EAC_SNorm => Some(GpuTextureFormat::EacRg11Snorm),
        _ => Option::None,
    }
}

/// The host dimension that a raw code stands for, if any.
pub open spec fn dimension_of_code(code: i32) -> Option<TextureDimension> {
    match code {
        -1i32 => Some(TextureDimension::Unknown),
        0i32 => Some(TextureDimension::NoDimension),
        1i32 => Some(TextureDimension::Any),
        2i32 => Some(TextureDimension::Tex2D),
        3i32 => Some(TextureDimension::Tex3D),
        4i32 => Some(TextureDimension::Cube),
        5i32 => Some(TextureDimension::Tex2DArray),
        6i32 => Some(TextureDimension::CubeArray),
        _ => Option::None,
    }
}

/// The backend dimension that a host dimension maps to; `None` where there is none.
pub open spec fn backend_dimension(d: TextureDimension) -> Option<GpuTextureDimension> {
    match d {
        TextureDimension::Tex2D => Some(GpuTextureDimension::D2),
        TextureDimension::Tex3D => Some(GpuTextureDimension::D3),
        _ => Option::None,
    }
}

/// What a raw host format code imports as.
pub open spec fn format_for_code_spec(code: u32) -> Result<GpuTextureFormat, MappingError> {
    match format_of_code(code) {
        Some(f) => match backend_format(f) {
            Some(g) => Ok(g),
            Option::None => Err(MappingError::UnmappedFormat),
        },
        Option::None => Err(MappingError::UnmappedFormat),
    }
}

/// What a raw host dimension code imports as.
pub open spec fn dimension_for_code_spec(code: i32) -> Result<GpuTextureDimension, MappingError> {
    match dimension_of_code(code) {
        Some(d) => match backend_dimension(d) {
            Some(g) => Ok(g),
            Option::None => Err(MappingError::UnmappedDimension),
        },
        Option::None => Err(MappingError::UnmappedDimension),
    }
}

impl UnityTextureEnum {
    /// Reads a raw host format code; `None` for a code the host does not define.
    pub fn from_code(code: u32) -> (r: Option<UnityTextureEnum>)
        ensures
            r == format_of_code(code),
    {
        match code {
            0 => Some(UnityTextureEnum::NoFormat),
            1 => Some(UnityTextureEnum::R8_SRGB),
            2 => Some(UnityTextureEnum::R8G8_SRGB),
            3 => Some(UnityTextureEnum::R8G8B8_SRGB),
            4 => Some(UnityTextureEnum::R8G8B8A8_SRGB),
            5 => Some(UnityTextureEnum::R8_UNorm),
            6 => Some(UnityTextureEnum::R8G8_UNorm),
            7 => Some(UnityTextureEnum::R8G8B8_UNorm),
            8 => Some(UnityTextureEnum::R8G8B8A8_UNorm),
            9 => Some(UnityTextureEnum::R8_SNorm),
            10 => Some(UnityTextureEnum::R8G8_SNorm),
            11 => Some(UnityTextureEnum::R8G8B8_SNorm),
            12 => Some(UnityTextureEnum::R8G8B8A8_SNorm),
            13 => Some(UnityTextureEnum::R8_UInt),
            14 => Some(UnityTextureEnum::R8G8_UInt),
            15 => Some(UnityTextureEnum::R8G8B8_UInt),
            16 => Some(UnityTextureEnum::R8G8B8A8_UInt),
            17 => Some(UnityTextureEnum::R8_SInt),
            18 => Some(UnityTextureEnum::R8G8_SInt),
            19 => Some(UnityTextureEnum::R8G8B8_SInt),
            20 => Some(UnityTextureEnum::R8G8B8A8_SInt),
            21 => Some(UnityTextureEnum::R16_UNorm),
            22 => Some(UnityTextureEnum::R16G16_UNorm),
            23 => Some(UnityTextureEnum::R16G16B16_UNorm),
            24 => Some(UnityTextureEnum::R16G16B16A16_UNorm),
            25 => Some(UnityTextureEnum::R16_SNorm),
            26 => Some(UnityTextureEnum::R16G16_SNorm),
            27 => Some(UnityTextureEnum::R16G16B16_SNorm),
            28 => Some(UnityTextureEnum::R16G16B16A16_SNorm),
            29 => Some(UnityTextureEnum::R16_UInt),
            30 => Some(UnityTextureEnum::R16G16_UInt),
            31 => Some(UnityTextureEnum::R16G16B16_UInt),
            32 => Some(UnityTextureEnum::R16G16B16A16_UInt),
            33 => Some(UnityTextureEnum::R16_SInt),
            34 => Some(UnityTextureEnum::R16G16_SInt),
            35 => Some(UnityTextureEnum::R16G16B16_SInt),
            36 => Some(UnityTextureEnum::R16G16B16A16_SInt),
            37 => Some(UnityTextureEnum::R32_UInt),
            38 => Some(UnityTextureEnum::R32G32_UInt),
            39 => Some(UnityTextureEnum::R32G32B32_UInt),
            40 => Some(UnityTextureEnum::R32G32B32A32_UInt),
            41 => Some(UnityTextureEnum::R32_SInt),
            42 => Some(UnityTextureEnum::R32G32_SInt),
            43 => Some(UnityTextureEnum::R32G32B32_SInt),
            44 => Some(UnityTextureEnum::R32G32B32A32_SInt),
            45 => Some(UnityTextureEnum::R16_SFloat),
            46 => Some(UnityTextureEnum::R16G16_SFloat),
            47 => Some(UnityTextureEnum::R16G16B16_SFloat),
            48 => Some(UnityTextureEnum::R16G16B16A16_SFloat),
            49 => Some(UnityTextureEnum::R32_SFloat),
            50 => Some(UnityTextureEnum::R32G32_SFloat),
            51 => Some(UnityTextureEnum::R32G32B32_SFloat),
            52 => Some(UnityTextureEnum::R32G32B32A32_SFloat),
            56 => Some(UnityTextureEnum::B8G8R8_SRGB),
            57 => Some(UnityTextureEnum::B8G8R8A8_SRGB),
            58 => Some(UnityTextureEnum::B8G8R8_UNorm),
            59 => Some(UnityTextureEnum::B8G8R8A8_UNorm),
            60 => Some(UnityTextureEnum::B8G8R8_SNorm),
            61 => Some(UnityTextureEnum::B8G8R8A8_SNorm),
            62 => Some(UnityTextureEnum::B8G8R8_UInt),
            63 => Some(UnityTextureEnum::B8G8R8A8_UInt),
            64 => Some(UnityTextureEnum::B8G8R8_SInt),
            65 => Some(UnityTextureEnum::B8G8R8A8_SInt),
            66 => Some(UnityTextureEnum::R4G4B4A4_UNormPack16),
            67 => Some(UnityTextureEnum::B4G4R4A4_UNormPack16),
            68 => Some(UnityTextureEnum::R5G6B5_UNormPack16),
            69 => Some(UnityTextureEnum::B5G6R5_UNormPack16),
            70 => Some(UnityTextureEnum::R5G5B5A1_UNormPack16),
            71 => Some(UnityTextureEnum::B5G5R5A1_UNormPack16),
            72 => Some(UnityTextureEnum::A1R5G5B5_UNormPack16),
            73 => Some(UnityTextureEnum::E5B9G9R9_UFloatPack32),
            74 => Some(UnityTextureEnum::B10G11R11_UFloatPack32),
            75 => Some(UnityTextureEnum::A2B10G10R10_UNormPack32),
            76 => Some(UnityTextureEnum::A2B10G10R10_UIntPack32),
            77 => Some(UnityTextureEnum::A2B10G10R10_SIntPack32),
            78 => Some(UnityTextureEnum::A2R10G10B10_UNormPack32),
            79 => Some(UnityTextureEnum::A2R10G10B10_UIntPack32),
            80 => Some(UnityTextureEnum::A2R10G10B10_SIntPack32),
            81 => Some(UnityTextureEnum::A2R10G10B10_XRSRGBPack32),
            82 => Some(UnityTextureEnum::A2R10G10B10_XRUNormPack32),
            83 => Some(UnityTextureEnum::R10G10B10_XRSRGBPack32),
            84 => Some(UnityTextureEnum::R10G10B10_XRUNormPack32),
            85 => Some(UnityTextureEnum::A10R10G10B10_XRSRGBPack32),
            86 => Some(UnityTextureEnum::A10R10G10B10_XRUNormPack32),
            96 => Some(UnityTextureEnum::RGBA_DXT1_SRGB),
            97 => Some(UnityTextureEnum::RGBA_DXT1_UNorm),
            98 => Some(UnityTextureEnum::RGBA_DXT3_SRGB),
            99 => Some(UnityTextureEnum::RGBA_DXT3_UNorm),
            100 => Some(UnityTextureEnum::RGBA_DXT5_SRGB),
            101 => Some(UnityTextureEnum::RGBA_DXT5_UNorm),
            102 => Some(UnityTextureEnum::R_BC4_UNorm),
            103 => Some(UnityTextureEnum::R_BC4_SNorm),
            104 => Some(UnityTextureEnum::RG_BC5_UNorm),
            105 => Some(UnityTextureEnum::RG_BC5_SNorm),
            106 => Some(UnityTextureEnum::RGB_BC6H_UFloat),
            107 => Some(UnityTextureEnum::RGB_BC6H_SFloat),
            108 => Some(UnityTextureEnum::RGBA_BC7_SRGB),
            109 => Some(UnityTextureEnum::RGBA_BC7_UNorm),
            110 => Some(UnityTextureEnum::RGB_PVRTC_2Bpp_SRGB),
            111 => Some(UnityTextureEnum::RGB_PVRTC_2Bpp_UNorm),
            112 => Some(UnityTextureEnum::RGB_PVRTC_4Bpp_SRGB),
            113 => Some(UnityTextureEnum::RGB_PVRTC_4Bpp_UNorm),
            114 => Some(UnityTextureEnum::RGBA_PVRTC_2Bpp_SRGB),
            115 => Some(UnityTextureEnum::RGBA_PVRTC_2Bpp_UNorm),
            116 => Some(UnityTextureEnum::RGBA_PVRTC_4Bpp_SRGB),
            117 => Some(UnityTextureEnum::RGBA_PVRTC_4Bpp_UNorm),
            118 => Some(UnityTextureEnum::RGB_ETC_UNorm),
            119 => Some(UnityTextureEnum::RGB_ETC2_SRGB),
            120 => Some(UnityTextureEnum::RGB_ETC2_UNorm),
            121 => Some(UnityTextureEnum::RGB_A1_ETC2_SRGB),
            122 => Some(UnityTextureEnum::RGB_A1_ETC2_UNorm),
            123 => Some(UnityTextureEnum::RGBA_ETC2_SRGB),
            124 => Some(UnityTextureEnum::RGBA_ETC2_UNorm),
            125 => Some(UnityTextureEnum::R_EAC_UNorm),
            126 => Some(UnityTextureEnum::R_EAC_SNorm),
            127 => Some(UnityTextureEnum::RG_EAC_UNorm),
            128 => Some(UnityTextureEnum::RG_EAC_SNorm),
            129 => Some(UnityTextureEnum::RGBA_ASTC4X4_SRGB),
            130 => Some(UnityTextureEnum::RGBA_ASTC4X4_UNorm),
            131 => Some(UnityTextureEnum::RGBA_ASTC5X5_SRGB),
            132 => Some(UnityTextureEnum::RGBA_ASTC5X5_UNorm),
            133 => Some(UnityTextureEnum::RGBA_ASTC6X6_SRGB),
            134 => Some(UnityTextureEnum::RGBA_ASTC6X6_UNorm),
            135 => Some(UnityTextureEnum::RGBA_ASTC8X8_SRGB),
            136 => Some(UnityTextureEnum::RGBA_ASTC8X8_UNorm),
            137 => Some(UnityTextureEnum::RGBA_ASTC10X10_SRGB),
            138 => Some(UnityTextureEnum::RGBA_ASTC10X10_UNorm),
            139 => Some(UnityTextureEnum::RGBA_ASTC12X12_SRGB),
            140 => Some(UnityTextureEnum::RGBA_ASTC12X12_UNorm),
            _ => Option::None,
        }
    }

    /// The backend format this host format is imported as.
    pub fn to_backend(self) -> (r: Result<GpuTextureFormat, MappingError>)
        ensures
            r == (match backend_format(self) {
                Some(g) => Ok(g),
                Option::None => Err(MappingError::UnmappedFormat),
            }),
    {
        match self {
            UnityTextureEnum::R8G8B8A8_SRGB => Ok(GpuTextureFormat::Rgba8UnormSrgb),
            UnityTextureEnum::R8_UNorm => Ok(GpuTextureFormat::R8Unorm),
            UnityTextureEnum::R8G8_UNorm => Ok(GpuTextureFormat::Rg8Unorm),
            UnityTextureEnum::R8G8B8A8_UNorm => Ok(GpuTextureFormat::Rgba8Unorm),
            UnityTextureEnum::R8_SNorm => Ok(GpuTextureFormat::R8Snorm),
            UnityTextureEnum::R8G8_SNorm => Ok(GpuTextureFormat::Rg8Snorm),
            UnityTextureEnum::R8G8B8A8_SNorm => Ok(GpuTextureFormat::Rgba8Snorm),
            UnityTextureEnum::R8_UInt => Ok(GpuTextureFormat::R8Uint),
            UnityTextureEnum::R8G8_UInt => Ok(GpuTextureFormat::Rg8Uint),
            UnityTextureEnum::R8G8B8A8_UInt => Ok(GpuTextureFormat::Rgba8Uint),
            UnityTextureEnum::R8_SInt => Ok(GpuTextureFormat::R8Sint),
            UnityTextureEnum::R8G8_SInt => Ok(GpuTextureFormat::Rg8Sint),
            UnityTextureEnum::R8G8B8A8_SInt => Ok(GpuTextureFormat::Rgba8Sint),
            UnityTextureEnum::R16_UNorm => Ok(GpuTextureFormat::R16Unorm),
            UnityTextureEnum::R16G16_UNorm => Ok(GpuTextureFormat::Rg16Unorm),
            UnityTextureEnum::R16G16B16A16_UNorm => Ok(GpuTextureFormat::Rgba16Unorm),
            UnityTextureEnum::R16_SNorm => Ok(GpuTextureFormat::R16Snorm),
            UnityTextureEnum::R16G16_SNorm => Ok(GpuTextureFormat::Rg16Snorm),
            UnityTextureEnum::R16G16B16A16_SNorm => Ok(GpuTextureFormat::Rgba16Snorm),
            UnityTextureEnum::R16_UInt => Ok(GpuTextureFormat::R16Uint),
            UnityTextureEnum::R16G16_UInt => Ok(GpuTextureFormat::Rg16Uint),
            UnityTextureEnum::R16G16B16A16_UInt => Ok(GpuTextureFormat::Rgba16Uint),
            UnityTextureEnum::R16_SInt => Ok(GpuTextureFormat::R16Sint),
            UnityTextureEnum::R16G16_SInt => Ok(GpuTextureFormat::Rg16Sint),
            UnityTextureEnum::R16G16B16A16_SInt => Ok(GpuTextureFormat::Rgba16Sint),
            UnityTextureEnum::R32_UInt => Ok(GpuTextureFormat::R32Uint),
            UnityTextureEnum::R32G32_UInt => Ok(GpuTextureFormat::Rg32Uint),
            UnityTextureEnum::R32G32B32A32_UInt => Ok(GpuTextureFormat::Rgba32Uint),
            UnityTextureEnum::R32_SInt => Ok(GpuTextureFormat::R32Sint),
            UnityTextureEnum::R32G32_SInt => Ok(GpuTextureFormat::Rg32Sint),
            UnityTextureEnum::R32G32B32A32_SInt => Ok(GpuTextureFormat::Rgba32Sint),
            UnityTextureEnum::R16_SFloat => Ok(GpuTextureFormat::R16Float),
            UnityTextureEnum::R16G16_SFloat => Ok(GpuTextureFormat::Rg16Float),
            UnityTextureEnum::R16G16B16A16_SFloat => Ok(GpuTextureFormat::Rgba16Float),
            UnityTextureEnum::R32_SFloat => Ok(GpuTextureFormat::R32Float),
            UnityTextureEnum::R32G32_SFloat => Ok(GpuTextureFormat::Rg32Float),
            UnityTextureEnum::R32G32B32A32_SFloat => Ok(GpuTextureFormat::Rgba32Float),
            UnityTextureEnum::B8G8R8A8_SRGB => Ok(GpuTextureFormat::Bgra8UnormSrgb),
            UnityTextureEnum::B8G8R8A8_UNorm => Ok(GpuTextureFormat::Bgra8Unorm),
            UnityTextureEnum::A2B10G10R10_UNormPack32 => Ok(GpuTextureFormat::Rgb10a2Unorm),
            UnityTextureEnum::RGBA_DXT1_SRGB => Ok(GpuTextureFormat::Bc1RgbaUnormSrgb),
            UnityTextureEnum::RGBA_DXT1_UNorm => Ok(GpuTextureFormat::Bc1RgbaUnorm),
            UnityTextureEnum::RGBA_DXT3_SRGB => Ok(GpuTextureFormat::Bc2RgbaUnormSrgb),
            UnityTextureEnum::RGBA_DXT3_UNorm => Ok(GpuTextureFormat::Bc2RgbaUnorm),
            UnityTextureEnum::RGBA_DXT5_SRGB => Ok(GpuTextureFormat::Bc3RgbaUnormSrgb),
            UnityTextureEnum::RGBA_DXT5_UNorm => Ok(GpuTextureFormat::Bc3RgbaUnorm),
            UnityTextureEnum::R_BC4_UNorm => Ok(GpuTextureFormat::Bc4RUnorm),
            UnityTextureEnum::R_BC4_SNorm => Ok(GpuTextureFormat::Bc4RSnorm),
            UnityTextureEnum::RG_BC5_UNorm => Ok(GpuTextureFormat::Bc5RgUnorm),
            UnityTextureEnum::RG_BC5_SNorm => Ok(GpuTextureFormat::Bc5RgSnorm),
            UnityTextureEnum::RGB_BC6H_UFloat => Ok(GpuTextureFormat::Bc6hRgbUfloat),
            UnityTextureEnum::RGBA_BC7_SRGB => Ok(GpuTextureFormat::Bc7RgbaUnormSrgb),
            UnityTextureEnum::RGBA_BC7_UNorm => Ok(GpuTextureFormat::Bc7RgbaUnorm),
            UnityTextureEnum::RGB_ETC2_SRGB => Ok(GpuTextureFormat::Etc2Rgb8UnormSrgb),
            UnityTextureEnum::RGB_ETC2_UNorm => Ok(GpuTextureFormat::Etc2Rgb8Unorm),
            UnityTextureEnum::RGB_A1_ETC2_SRGB => Ok(GpuTextureFormat::Etc2Rgb8A1UnormSrgb),
            UnityTextureEnum::RGB_A1_ETC2_UNorm => Ok(GpuTextureFormat::Etc2Rgb8A1Unorm),
            UnityTextureEnum::RGBA_ETC2_SRGB => Ok(GpuTextureFormat::Etc2Rgba8UnormSrgb),
            UnityTextureEnum::RGBA_ETC2_UNorm => Ok(GpuTextureFormat::Etc2Rgba8Unorm),
            UnityTextureEnum::R_EAC_UNorm => Ok(GpuTextureFormat::EacR11Unorm),
            UnityTextureEnum::R_EAC_SNorm => Ok(GpuTextureFormat::EacR11Snorm),
            UnityTextureEnum::RG_EAC_UNorm => Ok(GpuTextureFormat::EacRg11Unorm),
            UnityTextureEnum::RG_EAC_SNorm => Ok(GpuTextureFormat::EacRg11Snorm),
            _ => Err(MappingError::UnmappedFormat),
        }
    }
}

impl TextureDimension {
    /// Reads a raw host dimension code; `None` for a code the host does not define.
    pub fn from_code(code: i32) -> (r: Option<TextureDimension>)
        ensures
            r == dimension_of_code(code),
    {
        match code {
            -1 => Some(TextureDimension::Unknown),
            0 => Some(TextureDimension::NoDimension),
            1 => Some(TextureDimension::Any),
            2 => Some(TextureDimension::Tex2D),
            3 => Some(TextureDimension::Tex3D),
            4 => Some(TextureDimension::Cube),
            5 => Some(TextureDimension::Tex2DArray),
            6 => Some(TextureDimension::CubeArray),
            _ => Option::None,
        }
    }

    /// The backend dimension this host dimension is imported as.
    pub fn to_backend(self) -> (r: Result<GpuTextureDimension, MappingError>)
        ensures
            r == (match backend_dimension(self) {
                Some(g) => Ok(g),
                Option::None => Err(MappingError::UnmappedDimension),
            }),
    {
        match self {
            TextureDimension::Tex2D => Ok(GpuTextureDimension::D2),
            TextureDimension::Tex3D => Ok(GpuTextureDimension::D3),
            _ => Err(MappingError::UnmappedDimension),
        }
    }
}

/// Turns a raw host format code into the backend format it imports as.
pub fn format_for_code(code: u32) -> (r: Result<GpuTextureFormat, MappingError>)
    ensures
        r == format_for_code_spec(code),
{
    match UnityTextureEnum::from_code(code) {
        Some(f) => f.to_backend(),
        Option::None => Err(MappingError::UnmappedFormat),
    }
}

/// Turns a raw host dimension code into the backend dimension it imports as.
pub fn dimension_for_code(code: i32) -> (r: Result<GpuTextureDimension, MappingError>)
    ensures
        r == dimension_for_code_spec(code),
{
    match TextureDimension::from_code(code) {
        Some(d) => d.to_backend(),
        Option::None => Err(MappingError::UnmappedDimension),
    }
}

} // verus!
