use truetrace_native::formats::{
    dimension_for_code, format_for_code, GpuTextureDimension, GpuTextureFormat, MappingError,
    TextureDimension, UnityTextureEnum,
};

#[test]
fn host_format_codes_read_back_as_their_variants() {
    assert_eq!(UnityTextureEnum::from_code(0), Some(UnityTextureEnum::NoFormat));
    assert_eq!(UnityTextureEnum::from_code(4), Some(UnityTextureEnum::R8G8B8A8_SRGB));
    assert_eq!(UnityTextureEnum::from_code(52), Some(UnityTextureEnum::R32G32B32A32_SFloat));
    assert_eq!(UnityTextureEnum::from_code(56), Some(UnityTextureEnum::B8G8R8_SRGB));
    assert_eq!(UnityTextureEnum::from_code(140), Some(UnityTextureEnum::RGBA_ASTC12X12_UNorm));
}

#[test]
fn undefined_host_format_codes_are_rejected() {
    assert_eq!(UnityTextureEnum::from_code(53), None);
    assert_eq!(UnityTextureEnum::from_code(95), None);
    assert_eq!(UnityTextureEnum::from_code(141), None);
    assert_eq!(UnityTextureEnum::from_code(u32::MAX), None);
}

#[test]
fn mapped_host_formats_import_as_backend_formats() {
    assert_eq!(format_for_code(4), Ok(GpuTextureFormat::Rgba8UnormSrgb));
    assert_eq!(format_for_code(8), Ok(GpuTextureFormat::Rgba8Unorm));
    assert_eq!(format_for_code(48), Ok(GpuTextureFormat::Rgba16Float));
    assert_eq!(format_for_code(49), Ok(GpuTextureFormat::R32Float));
    assert_eq!(format_for_code(59), Ok(GpuTextureFormat::Bgra8Unorm));
    assert_eq!(format_for_code(75), Ok(GpuTextureFormat::Rgb10a2Unorm));
    assert_eq!(format_for_code(109), Ok(GpuTextureFormat::Bc7RgbaUnorm));
    assert_eq!(format_for_code(128), Ok(GpuTextureFormat::EacRg11Snorm));
}

#[test]
fn unmapped_host_formats_are_refused() {
    // A defined host format with no backend equivalent.
    assert_eq!(format_for_code(1), Err(MappingError::UnmappedFormat));
    assert_eq!(format_for_code(74), Err(MappingError::UnmappedFormat));
    assert_eq!(format_for_code(107), Err(MappingError::UnmappedFormat));
    assert_eq!(format_for_code(129), Err(MappingError::UnmappedFormat));
    assert_eq!(format_for_code(0), Err(MappingError::UnmappedFormat));
    // A code the host does not define.
    assert_eq!(format_for_code(53), Err(MappingError::UnmappedFormat));
}

#[test]
fn host_dimensions_map_to_two_and_three_dimensional_textures_only() {
    assert_eq!(TextureDimension::from_code(-1), Some(TextureDimension::Unknown));
    assert_eq!(TextureDimension::from_code(6), Some(TextureDimension::CubeArray));
    assert_eq!(TextureDimension::from_code(7), None);
    assert_eq!(dimension_for_code(2), Ok(GpuTextureDimension::D2));
    assert_eq!(dimension_for_code(3), Ok(GpuTextureDimension::D3));
    assert_eq!(dimension_for_code(4), Err(MappingError::UnmappedDimension));
    assert_eq!(dimension_for_code(-1), Err(MappingError::UnmappedDimension));
    assert_eq!(dimension_for_code(0), Err(MappingError::UnmappedDimension));
    assert_eq!(dimension_for_code(99), Err(MappingError::UnmappedDimension));
    assert_eq!(
        TextureDimension::Tex2DArray.to_backend(),
        Err(MappingError::UnmappedDimension)
    );
}
