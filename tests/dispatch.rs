use truetrace_native::bytecode::{load_kernel, local_size, words_from_bytes};
use truetrace_native::formats::{GpuTextureDimension, GpuTextureFormat, MappingError};
use truetrace_native::group::{FieldError, KernelStruct, LoadError};
use truetrace_native::image_format::ImageFormat;
use truetrace_native::reflection::{
    layout_entries, DescriptorKind, GlobalsMember, ImageDim, LayoutError, ReflectedBinding,
    TypeInfo,
};
use truetrace_native::registry::{KernelSource, Kernels, RegistryError};
use truetrace_native::session::{
    resolve_bindings, u32_le_bytes, BindEntry, Resource, Session, SessionError, Workgroups,
};

fn buffer_binding(name: &str, slot: u32) -> ReflectedBinding {
    ReflectedBinding {
        name: String::from(name),
        slot,
        kind: DescriptorKind::StorageBuffer,
        dim: ImageDim::Undefined,
        arrayed: false,
        multisampled: false,
        image_format: ImageFormat::Undefined,
        type_info: Some(TypeInfo { non_writable: false, float_type: false, int_type: false }),
        members: Vec::new(),
    }
}

fn texture_binding(name: &str, slot: u32) -> ReflectedBinding {
    ReflectedBinding {
        name: String::from(name),
        slot,
        kind: DescriptorKind::StorageImage,
        dim: ImageDim::Type2d,
        arrayed: false,
        multisampled: false,
        image_format: ImageFormat::RGBA8,
        type_info: Some(TypeInfo { non_writable: false, float_type: true, int_type: false }),
        members: Vec::new(),
    }
}

fn member(name: &str, offset: u32, size: u32) -> GlobalsMember {
    GlobalsMember { name: String::from(name), offset, size }
}

fn globals_binding(slot: u32, members: Vec<GlobalsMember>) -> ReflectedBinding {
    ReflectedBinding {
        name: String::from("$Globals"),
        slot,
        kind: DescriptorKind::UniformBuffer,
        dim: ImageDim::Undefined,
        arrayed: false,
        multisampled: false,
        image_format: ImageFormat::Undefined,
        type_info: None,
        members,
    }
}

/// The "Utility" group: kernel "Compress" with a storage buffer "InBuf" at
/// slot 0, a texture "Out" at slot 2, and a globals float "threshold" at
/// offset 0.
fn utility_registry() -> Kernels {
    let mut group = KernelStruct::new();
    let bindings = vec![
        buffer_binding("InBuf", 0),
        globals_binding(1, vec![member("threshold", 0, 4)]),
        texture_binding("Out", 2),
    ];
    group.add_kernel(String::from("Compress"), 1, &bindings).unwrap();
    let mut registry = Kernels::new();
    registry.register(String::from("Utility"), group).unwrap();
    registry
}

fn utility_session() -> Session {
    let mut registry = utility_registry();
    Session::load(&mut registry, &String::from("Utility")).unwrap()
}

#[test]
fn utility_group_scenario() {
    let mut registry = utility_registry();
    let mut session = Session::load(&mut registry, &String::from("Utility")).unwrap();
    let threshold = String::from("threshold");
    session.set_float_bits(&threshold, 0.5f32.to_bits()).unwrap();
    assert_eq!(session.globals()[0..4], 0.5f32.to_le_bytes());
    let compress = session.find_kernel(&String::from("Compress")).unwrap();
    session.set_buffer(compress, &String::from("InBuf"), 0xdead0, 1024).unwrap();
    assert_eq!(
        session.entries().clone(),
        vec![BindEntry { slot: 0, resource: Resource::Buffer { handle: 0xdead0, size: 1024 } }]
    );
    let plan = session.dispatch(compress, 8, 1, 1).unwrap();
    assert_eq!(plan.kernel_index, compress);
    assert_eq!(plan.workgroups, Workgroups::Direct { x: 8, y: 1, z: 1 });
    assert_eq!(plan.bindings.len(), 1);
    assert_eq!(plan.bindings[0].slot, 0);
    assert_eq!(plan.globals[0..4], 0.5f32.to_le_bytes());
    assert_eq!(plan.globals_slot, Some(1));
    // The session stays usable, with its bindings, after the dispatch.
    assert_eq!(session.entries().len(), 1);
    assert!(session.dispatch(compress, 1, 2, 3).is_ok());
}

#[test]
fn unknown_field_write_fails_and_changes_nothing() {
    let mut session = utility_session();
    let before = session.globals().clone();
    assert_eq!(
        session.set_float_bits(&String::from("nonexistent_field"), 1.0f32.to_bits()),
        Err(SessionError::UnknownField)
    );
    assert_eq!(*session.globals(), before);
}

#[test]
fn unknown_kernel_name_fails_and_keeps_the_index_table() {
    let session = utility_session();
    assert_eq!(
        session.find_kernel(&String::from("DoesNotExist")),
        Err(SessionError::UnknownKernelName)
    );
    assert_eq!(session.find_kernel(&String::from("Compress")), Ok(1));
    assert_eq!(session.kernel_name(1), Some(String::from("Compress")));
    assert_eq!(session.kernel_name(2), None);
}

#[test]
fn kernel_indices_and_names_round_trip() {
    let mut group = KernelStruct::new();
    group.add_kernel(String::from("kernel_trace"), 4, &vec![]).unwrap();
    group.add_kernel(String::from("kernel_shadow"), 2, &vec![]).unwrap();
    group.add_kernel(String::from("kernel_heightmap"), 1, &vec![]).unwrap();
    for i in [1u32, 2, 4] {
        let name = group.kernel_name(i).unwrap();
        assert_eq!(group.find_kernel(&name), Some(i));
    }
    for n in ["kernel_trace", "kernel_shadow", "kernel_heightmap"] {
        let i = group.find_kernel(&String::from(n)).unwrap();
        assert_eq!(group.kernel_name(i), Some(String::from(n)));
    }
    assert_eq!(group.kernel_name(3), None);
}

#[test]
fn duplicate_kernels_are_refused_without_change() {
    let mut group = KernelStruct::new();
    group.add_kernel(String::from("A"), 1, &vec![buffer_binding("x", 0)]).unwrap();
    assert_eq!(
        group.add_kernel(String::from("B"), 1, &vec![]),
        Err(LoadError::DuplicateKernelIndex)
    );
    assert_eq!(
        group.add_kernel(String::from("A"), 2, &vec![]),
        Err(LoadError::DuplicateKernelName)
    );
    assert_eq!(group.kernel_name(2), None);
    assert_eq!(group.find_kernel(&String::from("B")), None);
}

#[test]
fn unmapped_binding_fails_the_whole_kernel() {
    let mut group = KernelStruct::new();
    let mut bad = buffer_binding("img", 3);
    bad.kind = DescriptorKind::CombinedImageSampler;
    let bindings = vec![globals_binding(0, vec![member("a", 0, 4)]), bad];
    assert_eq!(
        group.add_kernel(String::from("K"), 1, &bindings),
        Err(LoadError::Layout(LayoutError::UnsupportedDescriptor))
    );
    assert_eq!(group.kernel_name(1), None);
    assert!(group.globals().is_empty());
    assert_eq!(group.field_offset(&String::from("a")), None);
}

#[test]
fn globals_block_grows_by_every_reflected_member() {
    let mut group = KernelStruct::new();
    let members = vec![member("a", 0, 4), member("v", 16, 16), member("m", 32, 64)];
    group.add_kernel(String::from("K1"), 1, &vec![globals_binding(0, members.clone())]).unwrap();
    assert_eq!(group.globals().len(), 84);
    assert!(group.globals().iter().all(|b| *b == 0));
    // A second kernel of the group reflects the same block again.
    group.add_kernel(String::from("K2"), 2, &vec![globals_binding(0, members)]).unwrap();
    assert_eq!(group.globals().len(), 168);
    assert_eq!(group.field_offset(&String::from("v")), Some(16));
    assert_eq!(group.field_offset(&String::from("m")), Some(32));
    assert_eq!(group.field_offset(&String::from("b")), None);
    assert_eq!(group.slot_of(&String::from("K2"), &String::from("$Globals")), Some(0));
}

#[test]
fn slots_are_the_reflected_ones_and_stay_fixed() {
    let mut group = KernelStruct::new();
    group
        .add_kernel(String::from("K"), 7, &vec![buffer_binding("A", 12), buffer_binding("B", 3)])
        .unwrap();
    let k = String::from("K");
    assert_eq!(group.slot_of(&k, &String::from("A")), Some(12));
    assert_eq!(group.slot_of(&k, &String::from("B")), Some(3));
    assert_eq!(group.slot_of(&k, &String::from("A")), Some(12));
    assert_eq!(group.slot_of(&String::from("L"), &String::from("A")), None);
    let mut registry = Kernels::new();
    registry.register(String::from("G"), group).unwrap();
    let mut session = Session::load(&mut registry, &String::from("G")).unwrap();
    session.set_buffer(7, &String::from("B"), 1, 4).unwrap();
    session.set_u32(&String::from("nothing"), 5).unwrap_err();
    session.set_buffer(7, &String::from("B"), 2, 4).unwrap();
    assert_eq!(session.entries()[0].slot, 3);
    assert_eq!(session.entries()[1].slot, 3);
}

#[test]
fn checkout_is_exclusive_until_restored() {
    let mut registry = utility_registry();
    let utility = String::from("Utility");
    assert!(Session::load(&mut registry, &String::from("Missing")).is_none());
    let session = Session::load(&mut registry, &utility).unwrap();
    assert!(Session::load(&mut registry, &utility).is_none());
    assert!(registry.checkout(&utility).is_none());
    assert_eq!(session.close(&mut registry), Ok(()));
    let again = Session::load(&mut registry, &utility).unwrap();
    assert_eq!(again.find_kernel(&String::from("Compress")), Ok(1));
    assert_eq!(
        registry.register(utility.clone(), KernelStruct::new()),
        Err(RegistryError::DuplicateGroup)
    );
    assert_eq!(
        registry.restore(&String::from("Missing"), KernelStruct::new()),
        Err(RegistryError::NotCheckedOut)
    );
}

#[test]
fn closing_keeps_globals_written_in_the_session() {
    let mut registry = utility_registry();
    let utility = String::from("Utility");
    let mut session = Session::load(&mut registry, &utility).unwrap();
    session.set_int(&String::from("threshold"), -2).unwrap();
    session.close(&mut registry).unwrap();
    let session = Session::load(&mut registry, &utility).unwrap();
    assert_eq!(session.globals()[0..4], (-2i32).to_le_bytes());
    assert!(session.entries().is_empty());
}

#[test]
fn unmapped_texture_codes_bind_nothing() {
    let mut session = utility_session();
    let out = String::from("Out");
    assert_eq!(
        session.set_texture(1, &out, 0x1000, 64, 64, 1, 2, 1),
        Err(SessionError::Mapping(MappingError::UnmappedFormat))
    );
    assert_eq!(
        session.set_texture(1, &out, 0x1000, 64, 64, 999, 2, 1),
        Err(SessionError::Mapping(MappingError::UnmappedFormat))
    );
    assert_eq!(
        session.set_texture(1, &out, 0x1000, 64, 64, 8, 4, 1),
        Err(SessionError::Mapping(MappingError::UnmappedDimension))
    );
    assert!(session.entries().is_empty());
    session.set_texture(1, &out, 0x1000, 64, 32, 8, 2, 3).unwrap();
    assert_eq!(
        session.entries().clone(),
        vec![BindEntry {
            slot: 2,
            resource: Resource::Texture {
                handle: 0x1000,
                width: 64,
                height: 32,
                format: GpuTextureFormat::Rgba8Unorm,
                dimension: GpuTextureDimension::D2,
                mip_count: 3,
            },
        }]
    );
}

#[test]
fn bindings_to_unknown_kernels_or_resources_are_refused() {
    let mut session = utility_session();
    assert_eq!(
        session.set_buffer(9, &String::from("InBuf"), 1, 4),
        Err(SessionError::UnknownKernel)
    );
    assert_eq!(
        session.set_buffer(1, &String::from("Nope"), 1, 4),
        Err(SessionError::UnknownResource)
    );
    assert_eq!(
        session.set_texture(9, &String::from("Out"), 1, 1, 1, 8, 2, 1),
        Err(SessionError::UnknownKernel)
    );
    assert!(session.entries().is_empty());
    assert_eq!(session.dispatch(9, 1, 1, 1).err(), Some(SessionError::UnknownKernel));
    assert_eq!(session.dispatch_indirect(9, 5, 12).err(), Some(SessionError::UnknownKernel));
}

#[test]
fn last_binding_to_a_slot_wins() {
    let mut session = utility_session();
    let in_buf = String::from("InBuf");
    session.set_buffer(1, &in_buf, 10, 4).unwrap();
    session.set_texture(1, &String::from("Out"), 30, 8, 8, 8, 2, 1).unwrap();
    session.set_buffer(1, &in_buf, 20, 8).unwrap();
    let plan = session.dispatch_indirect(1, 77, 12).unwrap();
    assert_eq!(plan.workgroups, Workgroups::Indirect { handle: 77, size: 12 });
    assert_eq!(plan.globals_slot, Some(1));
    assert_eq!(plan.bindings.len(), 2);
    assert_eq!(plan.bindings[0].slot, 2);
    assert_eq!(plan.bindings[1], BindEntry { slot: 0, resource: Resource::Buffer { handle: 20, size: 8 } });
    let entries = vec![
        BindEntry { slot: 1, resource: Resource::Buffer { handle: 1, size: 1 } },
        BindEntry { slot: 1, resource: Resource::Buffer { handle: 2, size: 1 } },
        BindEntry { slot: 1, resource: Resource::Buffer { handle: 3, size: 1 } },
    ];
    assert_eq!(resolve_bindings(&entries), vec![entries[2]]);
    assert!(resolve_bindings(&vec![]).is_empty());
}

#[test]
fn globals_writes_read_back_exactly() {
    let mut group = KernelStruct::new();
    let members = vec![member("flag", 0, 4), member("count", 4, 4), member("v", 8, 16), member("m", 24, 64)];
    group.add_kernel(String::from("K"), 1, &vec![globals_binding(0, members)]).unwrap();
    let mut registry = Kernels::new();
    registry.register(String::from("G"), group).unwrap();
    let mut session = Session::load(&mut registry, &String::from("G")).unwrap();
    session.set_bool(&String::from("flag"), true).unwrap();
    session.set_int(&String::from("count"), -7).unwrap();
    let v: [u8; 16] = core::array::from_fn(|i| i as u8 + 1);
    session.set_vector(&String::from("v"), &v).unwrap();
    let m: [u8; 64] = core::array::from_fn(|i| 200 - i as u8);
    session.set_matrix(&String::from("m"), &m).unwrap();
    let g = session.globals();
    assert_eq!(g.len(), 88);
    assert_eq!(g[0..4], [1, 0, 0, 0]);
    assert_eq!(g[4..8], (-7i32).to_le_bytes());
    assert_eq!(g[8..24], v);
    assert_eq!(g[24..88], m);
    session.set_bool(&String::from("flag"), false).unwrap();
    assert_eq!(session.globals()[0..4], [0, 0, 0, 0]);
}

#[test]
fn writes_past_the_end_of_the_globals_block_are_refused() {
    let mut group = KernelStruct::new();
    group
        .add_kernel(String::from("K"), 1, &vec![globals_binding(0, vec![member("late", 8, 4)])])
        .unwrap();
    assert_eq!(group.globals().len(), 4);
    assert_eq!(group.write_field(&String::from("late"), &[1, 2, 3, 4]), Err(FieldError::OutOfRange));
    assert_eq!(*group.globals(), vec![0u8; 4]);
    let mut registry = Kernels::new();
    registry.register(String::from("G"), group).unwrap();
    let mut session = Session::load(&mut registry, &String::from("G")).unwrap();
    assert_eq!(session.set_vector(&String::from("late"), &[9u8; 16]), Err(SessionError::FieldOutOfRange));
}

#[test]
fn little_endian_encoding() {
    assert_eq!(u32_le_bytes(0x11223344), vec![0x44, 0x33, 0x22, 0x11]);
    assert_eq!(u32_le_bytes(0.5f32.to_bits()), 0.5f32.to_le_bytes().to_vec());
    assert_eq!(words_from_bytes(&[0x03, 0x02, 0x23, 0x07, 1, 0, 0, 0]), Some(vec![0x07230203, 1]));
    assert_eq!(words_from_bytes(&[]), Some(vec![]));
    assert_eq!(words_from_bytes(&[1, 2, 3]), None);
}

#[test]
fn loading_rejects_misaligned_or_invalid_bytecode() {
    let mut group = KernelStruct::new();
    let bindings = vec![buffer_binding("A", 0)];
    assert_eq!(
        load_kernel(&mut group, String::from("K"), 1, &[0x03, 0x02, 0x23], &bindings).err(),
        Some(LoadError::MisalignedBytecode)
    );
    assert_eq!(
        load_kernel(&mut group, String::from("K"), 1, &[0u8; 16], &bindings).err(),
        Some(LoadError::CrossCompileFailed)
    );
    assert_eq!(group.kernel_name(1), None);
    let mut registry = Kernels::new();
    let g = String::from("G");
    assert_eq!(
        registry.load_kernel(&g, String::from("K"), 1, &[1, 2], &bindings).err(),
        Some(LoadError::UnknownGroup)
    );
    assert!(registry.checkout(&g).is_none());
    registry.register(g.clone(), KernelStruct::new()).unwrap();
    assert_eq!(
        registry.load_kernel(&g, String::from("K"), 1, &[1, 2], &bindings).err(),
        Some(LoadError::MisalignedBytecode)
    );
    let session = Session::load(&mut registry, &g).unwrap();
    assert_eq!(session.kernel_name(1), None);
}

/// A compute shader with an empty `main` and a 1x1x1 workgroup, as SPIR-V.
fn minimal_compute_spirv() -> Vec<u8> {
    let words: Vec<u32> = vec![
        0x07230203, 0x00010000, 0, 5, 0,
        (2 << 16) | 17, 1,
        (3 << 16) | 14, 0, 1,
        (5 << 16) | 15, 5, 3, 0x6e69616d, 0,
        (6 << 16) | 16, 3, 17, 1, 1, 1,
        (2 << 16) | 19, 1,
        (3 << 16) | 33, 2, 1,
        (5 << 16) | 54, 1, 3, 0, 2,
        (2 << 16) | 248, 4,
        (1 << 16) | 253,
        (1 << 16) | 56,
    ];
    words.iter().flat_map(|w| w.to_le_bytes()).collect()
}

#[test]
fn loading_cross_compiles_spirv_to_hlsl() {
    let spirv = minimal_compute_spirv();
    let bindings = vec![buffer_binding("A", 0)];
    let mut group = KernelStruct::new();
    let loaded = load_kernel(&mut group, String::from("K"), 1, &spirv, &bindings).unwrap();
    assert!(loaded.hlsl.contains("numthreads(1, 1, 1)"));
    assert!(!loaded.hlsl.as_bytes().starts_with(&[0x03, 0x02, 0x23, 0x07]));
    assert_eq!(loaded.layout, layout_entries(&bindings).unwrap());
    assert_eq!(group.kernel_name(1), Some(String::from("K")));
    assert_eq!(group.slot_of(&String::from("K"), &String::from("A")), Some(0));

    let mut registry = Kernels::new();
    let g = String::from("G");
    registry.register(g.clone(), KernelStruct::new()).unwrap();
    let text = registry.load_kernel(&g, String::from("K1"), 1, &spirv, &bindings).unwrap().hlsl;
    assert_eq!(text, loaded.hlsl);
    registry.load_kernel(&g, String::from("K2"), 2, &spirv, &bindings).unwrap();
    assert_eq!(
        registry.load_kernel(&g, String::from("K2"), 3, &spirv, &bindings).err(),
        Some(LoadError::DuplicateKernelName)
    );
    let session = Session::load(&mut registry, &g).unwrap();
    assert_eq!(session.find_kernel(&String::from("K2")), Ok(2));
    assert_eq!(
        registry.load_kernel(&g, String::from("K3"), 3, &spirv, &bindings).err(),
        Some(LoadError::GroupCheckedOut)
    );
}

fn source(group: &str, kernel: &str, index: u32, bytecode: Vec<u8>) -> KernelSource {
    KernelSource {
        group: String::from(group),
        kernel: String::from(kernel),
        index,
        bytecode,
        bindings: vec![buffer_binding("A", 0)],
    }
}

#[test]
fn loading_a_shader_table_fills_each_declared_group() {
    let spirv = minimal_compute_spirv();
    let mut registry = Kernels::new();
    for g in ["Utility/CopyTextureShader", "MainCompute/RayGenKernels"] {
        registry.register(String::from(g), KernelStruct::new()).unwrap();
    }
    let sources = vec![
        source("Utility/CopyTextureShader", "BC4Kernel", 1, spirv.clone()),
        source("MainCompute/RayGenKernels", "Generate", 3, spirv.clone()),
        source("Utility/CopyTextureShader", "Compress", 3, spirv.clone()),
    ];
    let loaded = registry.load_all(&sources).unwrap();
    assert_eq!(loaded.len(), 3);
    let copy = Session::load(&mut registry, &String::from("Utility/CopyTextureShader")).unwrap();
    assert_eq!(copy.find_kernel(&String::from("Compress")), Ok(3));
    assert_eq!(copy.kernel_name(1), Some(String::from("BC4Kernel")));
    assert_eq!(copy.find_kernel(&String::from("Generate")), Err(SessionError::UnknownKernelName));
    let raygen = Session::load(&mut registry, &String::from("MainCompute/RayGenKernels")).unwrap();
    assert_eq!(raygen.kernel_name(3), Some(String::from("Generate")));
    assert_eq!(raygen.kernel_name(1), None);
}

#[test]
fn loading_a_shader_table_stops_at_an_unknown_group() {
    let spirv = minimal_compute_spirv();
    let mut registry = Kernels::new();
    registry.register(String::from("Known"), KernelStruct::new()).unwrap();
    let sources = vec![
        source("Known", "A", 1, spirv.clone()),
        source("Unknown", "B", 1, spirv.clone()),
        source("Known", "C", 2, spirv.clone()),
    ];
    assert_eq!(registry.load_all(&sources).err(), Some(LoadError::UnknownGroup));
    let dup = vec![source("Known", "D", 1, spirv)];
    assert_eq!(registry.load_all(&dup).err(), Some(LoadError::DuplicateKernelIndex));
}

#[test]
fn workgroup_size_is_read_from_the_execution_mode() {
    let words = words_from_bytes(&minimal_compute_spirv()).unwrap();
    assert_eq!(local_size(&words), Some((1, 1, 1)));
    let mut wide = words.clone();
    wide[18] = 8;
    wide[19] = 4;
    wide[20] = 2;
    assert_eq!(local_size(&wide), Some((8, 4, 2)));
    assert_eq!(local_size(&words[0..15].to_vec()), None);
    let mut broken = words.clone();
    broken[5] = 1;
    assert_eq!(local_size(&broken), None);
    assert_eq!(local_size(&vec![]), None);
    let mut other_entry = words.clone();
    other_entry[16] = 9;
    assert_eq!(local_size(&other_entry), None);
}
