use vstd::prelude::*;
use crate::formats::GpuTextureFormat;
use crate::image_format::{ImageFormat, storage_format, storage_format_spec};

verus! {

/// Descriptor kinds that shader reflection reports for a binding.
#[derive(Debug, Clone, Copy, PartialEq, Eq, Structural, Hash)]
pub enum DescriptorKind {
    Undefined,
    Sampler,
    CombinedImageSampler,
    SampledImage,
    StorageImage,
    UniformTexelBuffer,
    StorageTexelBuffer,
    UniformBuffer,
    StorageBuffer,
    UniformBufferDynamic,
    StorageBufferDynamic,
    InputAttachment,
    AccelerationStructure,
}

/// Image dimensions that shader reflection reports for a binding.
#[derive(Debug, Clone, Copy, PartialEq, Eq, Structural, Hash)]
pub enum ImageDim {
    Undefined,
    Type1d,
    Type2d,
    Type3d,
    Cube,
    Rect,
    Buffer,
    SubPassData,
}

/// What reflection says of a binding's type, where it says anything.
#[derive(Debug, Clone, Copy, PartialEq, Eq, Structural, Hash)]
pub struct TypeInfo {
    /// The resource is decorated as not writable.
    pub non_writable: bool,
    /// The element type is a float type.
    pub float_type: bool,
    /// The element type is an integer type.
    pub int_type: bool,
}

/// One member of the implicit globals block: its name, byte offset and byte size.
#[derive(Debug, Clone, PartialEq, Eq, Hash)]
pub struct GlobalsMember {
    pub name: String,
    pub offset: u32,
    pub size: u32,
}

/// One descriptor binding as reflection reports it.
#[derive(Debug, Clone, PartialEq, Eq, Hash)]
pub struct ReflectedBinding {
    pub name: String,
    pub slot: u32,
    pub kind: DescriptorKind,
    pub dim: ImageDim,
    pub arrayed: bool,
    pub multisampled: bool,
    pub image_format: ImageFormat,
    pub type_info: Option<TypeInfo>,
    /// Members of the binding's block (only read for the globals block).
    pub members: Vec<GlobalsMember>,
}

/// Texture view dimensions of the backend.
#[derive(Debug, Clone, Copy, PartialEq, Eq, Structural, Hash)]
pub enum ViewDimension {
    D1,
    D2,
    D2Array,
    Cube,
    CubeArray,
    D3,
}

/// Sample types of a sampled texture.
#[derive(Debug, Clone, Copy, PartialEq, Eq, Structural, Hash)]
pub enum SampleType {
    /// Float samples, not filterable.
    Float,
    /// Signed integer samples.
    Sint,
}

/// Access modes of a storage texture.
#[derive(Debug, Clone, Copy, PartialEq, Eq, Structural, Hash)]
pub enum StorageAccess {
    ReadOnly,
    ReadWrite,
}

/// The backend binding type of one layout entry.
#[derive(Debug, Clone, Copy, PartialEq, Eq, Structural, Hash)]
pub enum BindingKind {
    StorageBuffer { read_only: bool, dynamic_offset: bool },
    UniformBuffer { dynamic_offset: bool },
    AccelerationStructure,
    Texture { view_dimension: ViewDimension, sample_type: SampleType, multisampled: bool },
    /// A non-filtering sampler.
    Sampler,
    StorageTexture { access: StorageAccess, format: GpuTextureFormat, view_dimension: ViewDimension },
}

/// One compute-visible entry of a binding layout, at the reflected slot.
#[derive(Debug, Clone, Copy, PartialEq, Eq, Structural, Hash)]
pub struct LayoutEntry {
    pub slot: u32,
    pub kind: BindingKind,
}

/// Why a binding could not be given a layout entry.
#[derive(Debug, Clone, Copy, PartialEq, Eq, Structural, Hash)]
pub enum LayoutError {
    /// The descriptor kind has no backend binding type.
    UnsupportedDescriptor,
    /// Reflection gave no type information where the binding type needs it.
    MissingTypeInfo,
    /// The image dimension (with its arrayed flag) has no backend view dimension.
    UnsupportedViewDimension,
    /// A sampled image whose element type is neither float nor integer.
    UnsupportedSampleType,
    /// A storage image whose pixel format has no backend format.
    UnsupportedImageFormat,
}

/// The backend view dimension of an image dimension and arrayed flag.
pub open spec fn view_dimension_spec(dim: ImageDim, arrayed: bool) -> Option<ViewDimension> {
    match (dim, arrayed) {
        (ImageDim::Cube, false) => Some(ViewDimension::Cube),
        (ImageDim::Cube, true) => Some(ViewDimension::CubeArray),
        (ImageDim::Type1d, false) => Some(ViewDimension::D1),
        (ImageDim::Type2d, false) => Some(ViewDimension::D2),
        (ImageDim::Type2d, true) => Some(ViewDimension::D2Array),
        (ImageDim::Type3d, false) => Some(ViewDimension::D3),
        _ => Option::None,
    }
}

/// Whether a buffer-like binding is read-only, which needs type information.
pub open spec fn read_only_spec(b: ReflectedBinding) -> Result<bool, LayoutError> {
    match b.type_info {
        Some(t) => Ok(t.non_writable),
        Option::None => Err(LayoutError::MissingTypeInfo),
    }
}

/// The backend binding type that a reflected binding is given.
pub open spec fn binding_kind_spec(b: ReflectedBinding) -> Result<BindingKind, LayoutError> {
    match b.kind {
        DescriptorKind::StorageBuffer | DescriptorKind::StorageTexelBuffer => match read_only_spec(b) {
            Ok(ro) => Ok(BindingKind::StorageBuffer { read_only: ro, dynamic_offset: false }),
            Err(e) => Err(e),
        },
        DescriptorKind::StorageBufferDynamic => match read_only_spec(b) {
            Ok(ro) => Ok(BindingKind::StorageBuffer { read_only: ro, dynamic_offset: true }),
            Err(e) => Err(e),
        },
        DescriptorKind::UniformBuffer | DescriptorKind::UniformTexelBuffer => Ok(
            BindingKind::UniformBuffer { dynamic_offset: false },
        ),
        DescriptorKind::UniformBufferDynamic => Ok(BindingKind::UniformBuffer { dynamic_offset: true }),
        DescriptorKind::AccelerationStructure => Ok(BindingKind::AccelerationStructure),
        DescriptorKind::Sampler => Ok(BindingKind::Sampler),
        DescriptorKind::SampledImage => match view_dimension_spec(b.dim, b.arrayed) {
            Option::None => Err(LayoutError::UnsupportedViewDimension),
            Some(vd) => match b.type_info {
                Option::None => Err(LayoutError::MissingTypeInfo),
                Some(t) => if t.float_type {
                    Ok(
                        BindingKind::Texture {
                            view_dimension: vd,
                            sample_type: SampleType::Float,
                            multisampled: b.multisampled,
                        },
                    )
                } else if t.int_type {
                    Ok(
                        BindingKind::Texture {
                            view_dimension: vd,
                            sample_type: SampleType::Sint,
                            multisampled: b.multisampled,
                        },
                    )
                } else {
                    Err(LayoutError::UnsupportedSampleType)
                },
            },
        },
        DescriptorKind::StorageImage => match b.type_info {
            Option::None => Err(LayoutError::MissingTypeInfo),
            Some(t) => match storage_format_spec(b.image_format) {
                Option::None => Err(LayoutError::UnsupportedImageFormat),
                Some(f) => match view_dimension_spec(b.dim, b.arrayed) {
                    Option::None => Err(LayoutError::UnsupportedViewDimension),
                    Some(vd) => Ok(
                        BindingKind::StorageTexture {
                            access: if t.non_writable {
                                StorageAccess::ReadOnly
                            } else {
                                StorageAccess::ReadWrite
                            },
                            format: f,
                            view_dimension: vd,
                        },
                    ),
                },
            },
        },
        _ => Err(LayoutError::UnsupportedDescriptor),
    }
}

/// The layout entry that a reflected binding is given: its binding type at its own slot.
pub open spec fn layout_entry_spec(b: ReflectedBinding) -> Result<LayoutEntry, LayoutError> {
    match binding_kind_spec(b) {
        Ok(k) => Ok(LayoutEntry { slot: b.slot, kind: k }),
        Err(e) => Err(e),
    }
}

/// The backend view dimension of an image dimension and arrayed flag.
pub fn view_dimension(dim: ImageDim, arrayed: bool) -> (r: Option<ViewDimension>)
    ensures
        r == view_dimension_spec(dim, arrayed),
{
    match (dim, arrayed) {
        (ImageDim::Cube, false) => Some(ViewDimension::Cube),
        (ImageDim::Cube, true) => Some(ViewDimension::CubeArray),
        (ImageDim::Type1d, false) => Some(ViewDimension::D1),
        (ImageDim::Type2d, false) => Some(ViewDimension::D2),
        (ImageDim::Type2d, true) => Some(ViewDimension::D2Array),
        (ImageDim::Type3d, false) => Some(ViewDimension::D3),
        _ => Option::None,
    }
}

fn read_only(b: &ReflectedBinding) -> (r: Result<bool, LayoutError>)
    ensures
        r == read_only_spec(*b),
{
    match b.type_info {
        Some(t) => Ok(t.non_writable),
        Option::None => Err(LayoutError::MissingTypeInfo),
    }
}

/// Gives a reflected binding its backend binding type.
pub fn binding_kind(b: &ReflectedBinding) -> (r: Result<BindingKind, LayoutError>)
    ensures
        r == binding_kind_spec(*b),
{
    match b.kind {
        DescriptorKind::StorageBuffer | DescriptorKind::StorageTexelBuffer => {
            let ro = read_only(b)?;
            Ok(BindingKind::StorageBuffer { read_only: ro, dynamic_offset: false })
        },
        DescriptorKind::StorageBufferDynamic => {
            let ro = read_only(b)?;
            Ok(BindingKind::StorageBuffer { read_only: ro, dynamic_offset: true })
        },
        DescriptorKind::UniformBuffer | DescriptorKind::UniformTexelBuffer => Ok(
            BindingKind::UniformBuffer { dynamic_offset: false },
        ),
        DescriptorKind::UniformBufferDynamic => Ok(BindingKind::UniformBuffer { dynamic_offset: true }),
        DescriptorKind::AccelerationStructure => Ok(BindingKind::AccelerationStructure),
        DescriptorKind::Sampler => Ok(BindingKind::Sampler),
        DescriptorKind::SampledImage => {
            let vd = match view_dimension(b.dim, b.arrayed) {
                Some(vd) => vd,
                Option::None => {
                    return Err(LayoutError::UnsupportedViewDimension);
                },
            };
            let t = match b.type_info {
                Some(t) => t,
                Option::None => {
                    return Err(LayoutError::MissingTypeInfo);
                },
            };
            if t.float_type {
                Ok(
                    BindingKind::Texture {
                        view_dimension: vd,
                        sample_type: SampleType::Float,
                        multisampled: b.multisampled,
                    },
                )
            } else if t.int_type {
                Ok(
                    BindingKind::Texture {
                        view_dimension: vd,
                        sample_type: SampleType::Sint,
                        multisampled: b.multisampled,
                    },
                )
            } else {
                Err(LayoutError::UnsupportedSampleType)
            }
        },
        DescriptorKind::StorageImage => {
            let t = match b.type_info {
                Some(t) => t,
                Option::None => {
                    return Err(LayoutError::MissingTypeInfo);
                },
            };
            let f = match storage_format(b.image_format) {
                Some(f) => f,
                Option::None => {
                    return Err(LayoutError::UnsupportedImageFormat);
                },
            };
            let vd = match view_dimension(b.dim, b.arrayed) {
                Some(vd) => vd,
                Option::None => {
                    return Err(LayoutError::UnsupportedViewDimension);
                },
            };
            let access = if t.non_writable {
                StorageAccess::ReadOnly
            } else {
                StorageAccess::ReadWrite
            };
            Ok(BindingKind::StorageTexture { access, format: f, view_dimension: vd })
        },
        _ => Err(LayoutError::UnsupportedDescriptor),
    }
}

/// Gives a reflected binding its layout entry, at exactly the reflected slot.
pub fn layout_entry(b: &ReflectedBinding) -> (r: Result<LayoutEntry, LayoutError>)
    ensures
        r == layout_entry_spec(*b),
{
    let kind = binding_kind(b)?;
    Ok(LayoutEntry { slot: b.slot, kind })
}

/// The layout entries of a whole binding list, or the first binding's failure.
pub open spec fn layout_entries_spec(bs: Seq<ReflectedBinding>) -> Result<Seq<LayoutEntry>, LayoutError>
    decreases bs.len(),
{
    if bs.len() == 0 {
        Ok(Seq::empty())
    } else {
        match layout_entries_spec(bs.drop_last()) {
            Err(e) => Err(e),
            Ok(es) => match layout_entry_spec(bs.last()) {
                Err(e) => Err(e),
                Ok(x) => Ok(es.push(x)),
            },
        }
    }
}

/// Builds the layout entries of a binding list, one per binding in order, failing
/// as a whole on the first binding that has no backend equivalent.
pub fn layout_entries(bs: &Vec<ReflectedBinding>) -> (r: Result<Vec<LayoutEntry>, LayoutError>)
    ensures
        match layout_entries_spec(bs@) {
            Ok(es) => r is Ok && r->Ok_0@ == es,
            Err(e) => r == Err::<Vec<LayoutEntry>, LayoutError>(e),
        },
{
    let mut out: Vec<LayoutEntry> = Vec::new();
    let mut i: usize = 0;
    while i < bs.len()
        invariant
            i <= bs@.len(),
            layout_entries_spec(bs@.take(i as int)) == Ok::<Seq<LayoutEntry>, LayoutError>(out@),
        decreases bs@.len() - i,
    {
        assert(bs@.take(i as int + 1).drop_last() == bs@.take(i as int));
        let e = layout_entry(&bs[i]);
        match e {
            Ok(x) => {
                out.push(x);
            },
            Err(err) => {
                proof {
                    lemma_layout_entries_fail_prefix(bs@, i as int + 1);
                }
                return Err(err);
            },
        }
        i += 1;
    }
    assert(bs@.take(bs@.len() as int) == bs@);
    Ok(out)
}

/// A failure on a prefix is the failure of the whole list.
proof fn lemma_layout_entries_fail_prefix(bs: Seq<ReflectedBinding>, n: int)
    requires
        0 <= n <= bs.len(),
        layout_entries_spec(bs.take(n)) is Err,
    ensures
        layout_entries_spec(bs) == layout_entries_spec(bs.take(n)),
    decreases bs.len() - n,
{
    if n < bs.len() {
        assert(bs.take(n + 1).drop_last() == bs.take(n));
        lemma_layout_entries_fail_prefix(bs, n + 1);
    } else {
        assert(bs.take(n) == bs);
    }
}

} // verus!
