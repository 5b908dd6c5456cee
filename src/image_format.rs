use vstd::prelude::*;
use crate::formats::GpuTextureFormat;

verus! {

/// Storage-image pixel formats as shader reflection reports them.
#[allow(non_camel_case_types)]
#[derive(Debug, Clone, Copy, PartialEq, Eq, Structural, Hash)]
pub enum ImageFormat {
    Undefined,
    RGBA32_FLOAT,
    RGBA16_FLOAT,
    R32_FLOAT,
    RGBA8,
    RGBA8_SNORM,
    RG32_FLOAT,
    RG16_FLOAT,
    R11G11B10_FLOAT,
    R16_FLOAT,
    RGBA16,
    RGB10A2,
    RG16,
    RG8,
    R16,
    R8,
    RGBA16_SNORM,
    RG16_SNORM,
    RG8_SNORM,
    R16_SNORM,
    R8_SNORM,
    RGBA32_INT,
    RGBA16_INT,
    RGBA8_INT,
    R32_INT,
    RG32_INT,
    RG16_INT,
    RG8_INT,
    R16_INT,
    R8_INT,
    RGBA32_UINT,
    RGBA16_UINT,
    RGBA8_UINT,
    R32_UINT,
    RGB10A2_UINT,
    RG32_UINT,
    RG16_UINT,
    RG8_UINT,
    R16_UINT,
    R8_UINT,
}

/// The backend format of a storage image declared with a reflected format.
pub open spec fn storage_format_spec(f: ImageFormat) -> Option<GpuTextureFormat> {
    match f {
        ImageFormat::R8_INT => Some(GpuTextureFormat::R8Sint),
        ImageFormat::R8 => Some(GpuTextureFormat::R8Unorm),
        ImageFormat::R8_SNORM => Some(GpuTextureFormat::R8Snorm),
        ImageFormat::R8_UINT => Some(GpuTextureFormat::R8Uint),
        ImageFormat::R16_UINT => Some(GpuTextureFormat::R16Uint),
        ImageFormat::R16_SNORM => Some(GpuTextureFormat::R16Snorm),
        ImageFormat::R16 => Some(GpuTextureFormat::R16Unorm),
        ImageFormat::R16_FLOAT => Some(GpuTextureFormat::R16Float),
        ImageFormat::R16_INT => Some(GpuTextureFormat::R16Sint),
        ImageFormat::R32_INT => Some(GpuTextureFormat::R32Sint),
        ImageFormat::R32_FLOAT => Some(GpuTextureFormat::R32Float),
        ImageFormat::R32_UINT => Some(GpuTextureFormat::R32Uint),
        ImageFormat::RG8 => Some(GpuTextureFormat::Rg8Unorm),
        ImageFormat::RG8_INT => Some(GpuTextureFormat::Rg8Sint),
        ImageFormat::RG8_SNORM => Some(GpuTextureFormat::Rg8Snorm),
        ImageFormat::RG8_UINT => Some(GpuTextureFormat::Rg8Uint),
        ImageFormat::RG16_UINT => Some(GpuTextureFormat::Rg16Uint),
        ImageFormat::RG16 => Some(GpuTextureFormat::Rg16Unorm),
        ImageFormat::RG16_SNORM => Some(GpuTextureFormat::Rg16Snorm),
        ImageFormat::RG16_FLOAT => Some(GpuTextureFormat::Rg16Float),
        ImageFormat::RG32_FLOAT => Some(GpuTextureFormat::Rg32Float),
        ImageFormat::RG32_UINT => Some(GpuTextureFormat::Rg32Uint),
        ImageFormat::RG32_INT => Some(GpuTextureFormat::Rg32Sint),
        ImageFormat::RGB10A2 => Some(GpuTextureFormat::Rgb10a2Unorm),
        ImageFormat::RGB10A2_UINT => Some(GpuTextureFormat::Rgb10a2Uint),
        ImageFormat::RGBA8 => Some(GpuTextureFormat::Rgba8Unorm),
        ImageFormat::RGBA8_SNORM => Some(GpuTextureFormat::Rgba8Snorm),
        ImageFormat::RGBA8_UINT => Some(GpuTextureFormat::Rgba8Uint),
        ImageFormat::RGBA8_INT => Some(GpuTextureFormat::Rgba8Sint),
        ImageFormat::RGBA16 => Some(GpuTextureFormat::Rgba16Unorm),
        ImageFormat::RGBA16_FLOAT => Some(GpuTextureFormat::Rgba16Float),
        ImageFormat::RGBA16_INT => Some(GpuTextureFormat::Rgba16Sint),
        ImageFormat::RGBA16_UINT => Some(GpuTextureFormat::Rgba16Uint),
        ImageFormat::RGBA16_SNORM => Some(GpuTextureFormat::Rgba16Snorm),
        ImageFormat::RGBA32_FLOAT => Some(GpuTextureFormat::Rgba32Float),
        ImageFormat::RGBA32_INT => Some(GpuTextureFormat::Rgba32Sint),
        ImageFormat::RGBA32_UINT => Some(GpuTextureFormat::Rgba32Uint),
        ImageFormat::R11G11B10_FLOAT => Some(GpuTextureFormat::Rg11b10Ufloat),
        ImageFormat::RG16_INT => Some(GpuTextureFormat::Rg16Sint),
        ImageFormat::Undefined => Option::None,
    }
}

/// Maps a reflected storage-image format to the backend format; `None` for an
/// undeclared format.
pub fn storage_format(f: ImageFormat) -> (r: Option<GpuTextureFormat>)
    ensures
        r == storage_format_spec(f),
{
    match f {
        ImageFormat::R8_INT => Some(GpuTextureFormat::R8Sint),
        ImageFormat::R8 => Some(GpuTextureFormat::R8Unorm),
        ImageFormat::R8_SNORM => Some(GpuTextureFormat::R8Snorm),
        ImageFormat::R8_UINT => Some(GpuTextureFormat::R8Uint),
        ImageFormat::R16_UINT => Some(GpuTextureFormat::R16Uint),
        ImageFormat::R16_SNORM => Some(GpuTextureFormat::R16Snorm),
        ImageFormat::R16 => Some(GpuTextureFormat::R16Unorm),
        ImageFormat::R16_FLOAT => Some(GpuTextureFormat::R16Float),
        ImageFormat::R16_INT => Some(GpuTextureFormat::R16Sint),
        ImageFormat::R32_INT => Some(GpuTextureFormat::R32Sint),
        ImageFormat::R32_FLOAT => Some(GpuTextureFormat::R32Float),
        ImageFormat::R32_UINT => Some(GpuTextureFormat::R32Uint),
        ImageFormat::RG8 => Some(GpuTextureFormat::Rg8Unorm),
        ImageFormat::RG8_INT => Some(GpuTextureFormat::Rg8Sint),
        ImageFormat::RG8_SNORM => Some(GpuTextureFormat::Rg8Snorm),
        ImageFormat::RG8_UINT => Some(GpuTextureFormat::Rg8Uint),
        ImageFormat::RG16_UINT => Some(GpuTextureFormat::Rg16Uint),
        ImageFormat::RG16 => Some(GpuTextureFormat::Rg16Unorm),
        ImageFormat::RG16_SNORM => Some(GpuTextureFormat::Rg16Snorm),
        ImageFormat::RG16_FLOAT => Some(GpuTextureFormat::Rg16Float),
        ImageFormat::RG32_FLOAT => Some(GpuTextureFormat::Rg32Float),
        ImageFormat::RG32_UINT => Some(GpuTextureFormat::Rg32Uint),
        ImageFormat::RG32_INT => Some(GpuTextureFormat::Rg32Sint),
        ImageFormat::RGB10A2 => Some(GpuTextureFormat::Rgb10a2Unorm),
        ImageFormat::RGB10A2_UINT => Some(GpuTextureFormat::Rgb10a2Uint),
        ImageFormat::RGBA8 => Some(GpuTextureFormat::Rgba8Unorm),
        ImageFormat::RGBA8_SNORM => Some(GpuTextureFormat::Rgba8Snorm),
        ImageFormat::RGBA8_UINT => Some(GpuTextureFormat::Rgba8Uint),
        ImageFormat::RGBA8_INT => Some(GpuTextureFormat::Rgba8Sint),
        ImageFormat::RGBA16 => Some(GpuTextureFormat::Rgba16Unorm),
        ImageFormat::RGBA16_FLOAT => Some(GpuTextureFormat::Rgba16Float),
        ImageFormat::RGBA16_INT => Some(GpuTextureFormat::Rgba16Sint),
        ImageFormat::RGBA16_UINT => Some(GpuTextureFormat::Rgba16Uint),
        ImageFormat::RGBA16_SNORM => Some(GpuTextureFormat::Rgba16Snorm),
        ImageFormat::RGBA32_FLOAT => Some(GpuTextureFormat::Rgba32Float),
        ImageFormat::RGBA32_INT => Some(GpuTextureFormat::Rgba32Sint),
        ImageFormat::RGBA32_UINT => Some(GpuTextureFormat::Rgba32Uint),
        ImageFormat::R11G11B10_FLOAT => Some(GpuTextureFormat::Rg11b10Ufloat),
        ImageFormat::RG16_INT => Some(GpuTextureFormat::Rg16Sint),
        ImageFormat::Undefined => Option::None,
    }
}

} // verus!
