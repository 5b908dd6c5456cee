use truetrace_native::formats::GpuTextureFormat;
use truetrace_native::image_format::{storage_format, ImageFormat};
use truetrace_native::reflection::{
    layout_entries, layout_entry, view_dimension, BindingKind, DescriptorKind, GlobalsMember,
    ImageDim, LayoutEntry, LayoutError, ReflectedBinding, SampleType, StorageAccess, TypeInfo,
    ViewDimension,
};

fn binding(name: &str, slot: u32, kind: DescriptorKind) -> ReflectedBinding {
    ReflectedBinding {
        name: String::from(name),
        slot,
        kind,
        dim: ImageDim::Undefined,
        arrayed: false,
        multisampled: false,
        image_format: ImageFormat::Undefined,
        type_info: Some(TypeInfo { non_writable: false, float_type: false, int_type: false }),
        members: Vec::new(),
    }
}

#[test]
fn storage_buffers_are_read_only_when_not_writable() {
    let mut b = binding("InBuf", 3, DescriptorKind::StorageBuffer);
    b.type_info = Some(TypeInfo { non_writable: true, float_type: false, int_type: false });
    assert_eq!(
        layout_entry(&b),
        Ok(LayoutEntry {
            slot: 3,
            kind: BindingKind::StorageBuffer { read_only: true, dynamic_offset: false },
        })
    );
    let mut d = binding("OutBuf", 7, DescriptorKind::StorageBufferDynamic);
    d.type_info = Some(TypeInfo { non_writable: false, float_type: false, int_type: false });
    assert_eq!(
        layout_entry(&d),
        Ok(LayoutEntry {
            slot: 7,
            kind: BindingKind::StorageBuffer { read_only: false, dynamic_offset: true },
        })
    );
}

#[test]
fn storage_buffer_without_type_information_is_refused() {
    let mut b = binding("InBuf", 0, DescriptorKind::StorageBuffer);
    b.type_info = None;
    assert_eq!(layout_entry(&b), Err(LayoutError::MissingTypeInfo));
}

#[test]
fn uniform_buffers_samplers_and_acceleration_structures() {
    assert_eq!(
        layout_entry(&binding("$Globals", 1, DescriptorKind::UniformBuffer)).map(|e| e.kind),
        Ok(BindingKind::UniformBuffer { dynamic_offset: false })
    );
    assert_eq!(
        layout_entry(&binding("u", 2, DescriptorKind::UniformBufferDynamic)).map(|e| e.kind),
        Ok(BindingKind::UniformBuffer { dynamic_offset: true })
    );
    assert_eq!(
        layout_entry(&binding("s", 4, DescriptorKind::Sampler)).map(|e| e.kind),
        Ok(BindingKind::Sampler)
    );
    assert_eq!(
        layout_entry(&binding("tlas", 5, DescriptorKind::AccelerationStructure)).map(|e| e.kind),
        Ok(BindingKind::AccelerationStructure)
    );
}

#[test]
fn unsupported_descriptor_kinds_are_refused() {
    for kind in [
        DescriptorKind::Undefined,
        DescriptorKind::CombinedImageSampler,
        DescriptorKind::InputAttachment,
    ] {
        assert_eq!(layout_entry(&binding("x", 0, kind)), Err(LayoutError::UnsupportedDescriptor));
    }
}

#[test]
fn sampled_images_take_dimension_and_sample_type_from_reflection() {
    let mut b = binding("Tex", 9, DescriptorKind::SampledImage);
    b.dim = ImageDim::Cube;
    b.arrayed = true;
    b.multisampled = true;
    b.type_info = Some(TypeInfo { non_writable: false, float_type: true, int_type: false });
    assert_eq!(
        layout_entry(&b),
        Ok(LayoutEntry {
            slot: 9,
            kind: BindingKind::Texture {
                view_dimension: ViewDimension::CubeArray,
                sample_type: SampleType::Float,
                multisampled: true,
            },
        })
    );
    b.type_info = Some(TypeInfo { non_writable: false, float_type: false, int_type: true });
    b.dim = ImageDim::Type2d;
    b.arrayed = false;
    assert_eq!(
        layout_entry(&b).map(|e| e.kind),
        Ok(BindingKind::Texture {
            view_dimension: ViewDimension::D2,
            sample_type: SampleType::Sint,
            multisampled: true,
        })
    );
    b.type_info = Some(TypeInfo { non_writable: false, float_type: false, int_type: false });
    assert_eq!(layout_entry(&b), Err(LayoutError::UnsupportedSampleType));
    b.dim = ImageDim::Type3d;
    b.arrayed = true;
    assert_eq!(layout_entry(&b), Err(LayoutError::UnsupportedViewDimension));
}

#[test]
fn storage_images_take_access_format_and_dimension() {
    let mut b = binding("Result", 2, DescriptorKind::StorageImage);
    b.dim = ImageDim::Type2d;
    b.image_format = ImageFormat::RGBA16_FLOAT;
    assert_eq!(
        layout_entry(&b).map(|e| e.kind),
        Ok(BindingKind::StorageTexture {
            access: StorageAccess::ReadWrite,
            format: GpuTextureFormat::Rgba16Float,
            view_dimension: ViewDimension::D2,
        })
    );
    b.type_info = Some(TypeInfo { non_writable: true, float_type: true, int_type: false });
    b.image_format = ImageFormat::R11G11B10_FLOAT;
    assert_eq!(
        layout_entry(&b).map(|e| e.kind),
        Ok(BindingKind::StorageTexture {
            access: StorageAccess::ReadOnly,
            format: GpuTextureFormat::Rg11b10Ufloat,
            view_dimension: ViewDimension::D2,
        })
    );
    b.image_format = ImageFormat::Undefined;
    assert_eq!(layout_entry(&b), Err(LayoutError::UnsupportedImageFormat));
}

#[test]
fn view_dimensions_and_storage_formats() {
    assert_eq!(view_dimension(ImageDim::Type1d, false), Some(ViewDimension::D1));
    assert_eq!(view_dimension(ImageDim::Type1d, true), None);
    assert_eq!(view_dimension(ImageDim::Type2d, true), Some(ViewDimension::D2Array));
    assert_eq!(view_dimension(ImageDim::Cube, false), Some(ViewDimension::Cube));
    assert_eq!(view_dimension(ImageDim::Rect, false), None);
    assert_eq!(storage_format(ImageFormat::R32_UINT), Some(GpuTextureFormat::R32Uint));
    assert_eq!(storage_format(ImageFormat::RGB10A2_UINT), Some(GpuTextureFormat::Rgb10a2Uint));
    assert_eq!(storage_format(ImageFormat::Undefined), None);
}

#[test]
fn layout_keeps_reflected_slots_and_fails_as_a_whole() {
    let a = binding("a", 5, DescriptorKind::UniformBuffer);
    let b = binding("b", 2, DescriptorKind::Sampler);
    let entries = layout_entries(&vec![a.clone(), b.clone()]).unwrap();
    assert_eq!(entries.len(), 2);
    assert_eq!(entries[0].slot, 5);
    assert_eq!(entries[1].slot, 2);
    let bad = binding("c", 1, DescriptorKind::CombinedImageSampler);
    assert_eq!(layout_entries(&vec![a, bad, b]), Err(LayoutError::UnsupportedDescriptor));
    let _ = GlobalsMember { name: String::new(), offset: 0, size: 0 };
}
