use vstd::prelude::*;
use crate::formats::{
    GpuTextureDimension, GpuTextureFormat, MappingError, dimension_for_code,
    dimension_for_code_spec, format_for_code, format_for_code_spec,
};
use crate::group::{
    FieldError, GroupView, KernelStruct, globals_block_name, index_of, lookup, overwrite,
};
use crate::registry::{Kernels, RegistryError, available, checked_out};

verus! {

/// A host-owned resource, described by its native handle and the metadata the
/// host declared for it. The handle is carried, never dereferenced or freed.
#[derive(Debug, Clone, Copy, PartialEq, Eq, Structural, Hash)]
pub enum Resource {
    Buffer { handle: usize, size: usize },
    Texture {
        handle: usize,
        width: u32,
        height: u32,
        format: GpuTextureFormat,
        dimension: GpuTextureDimension,
        mip_count: u32,
    },
}

/// A resource bound at a binding slot.
#[derive(Debug, Clone, Copy, PartialEq, Eq, Structural, Hash)]
pub struct BindEntry {
    pub slot: u32,
    pub resource: Resource,
}

/// How many workgroups a dispatch runs.
#[derive(Debug, Clone, Copy, PartialEq, Eq, Structural, Hash)]
pub enum Workgroups {
    /// Counts given with the dispatch.
    Direct { x: u32, y: u32, z: u32 },
    /// Counts that the device reads from a host-owned buffer.
    Indirect { handle: usize, size: usize },
}

/// Everything one dispatch needs: the kernel, the globals bytes to upload as a
/// fresh constant buffer and the kernel's slot for them, one binding per slot,
/// and the workgroup counts.
#[derive(Debug)]
pub struct DispatchPlan {
    pub kernel_index: u32,
    pub globals: Vec<u8>,
    /// The kernel's globals block slot, if the kernel reads the globals.
    pub globals_slot: Option<u32>,
    pub bindings: Vec<BindEntry>,
    pub workgroups: Workgroups,
}

/// Why a session call was refused. A refused call changes nothing.
#[derive(Debug, Clone, Copy, PartialEq, Eq, Structural, Hash)]
pub enum SessionError {
    /// The group's globals block has no field of that name.
    UnknownField,
    /// The value would run past the end of the globals block.
    FieldOutOfRange,
    /// The group has no kernel with that index.
    UnknownKernel,
    /// The group has no kernel with that name.
    UnknownKernelName,
    /// The kernel has no binding with that resource name.
    UnknownResource,
    /// A host format or dimension code has no backend equivalent.
    Mapping(MappingError),
}

/// Whether entry `i` is the last one bound to its slot.
pub open spec fn last_for_slot(es: Seq<BindEntry>, i: int) -> bool {
    forall|j: int| i < j < es.len() ==> (#[trigger] es[j]).slot != es[i].slot
}

/// The entries among the first `n` that are the last for their slot, in order.
pub open spec fn last_per_slot(es: Seq<BindEntry>, n: int) -> Seq<BindEntry>
    decreases n,
{
    if n <= 0 {
        Seq::empty()
    } else if last_for_slot(es, n - 1) {
        last_per_slot(es, n - 1).push(es[n - 1])
    } else {
        last_per_slot(es, n - 1)
    }
}

/// The bindings a dispatch uses: where a slot was bound more than once, the
/// entry bound last wins.
pub open spec fn effective_bindings(es: Seq<BindEntry>) -> Seq<BindEntry> {
    last_per_slot(es, es.len() as int)
}

/// The four little-endian bytes of a 32-bit value.
pub open spec fn le_bytes(v: u32) -> Seq<u8> {
    seq![
        (v % 256) as u8,
        ((v / 256) % 256) as u8,
        ((v / 65536) % 256) as u8,
        ((v / 16777216) % 256) as u8,
    ]
}

/// What writing `bytes` to a globals field does to a group.
pub open spec fn write_outcome(g: GroupView, field: Seq<char>, bytes: Seq<u8>) -> Result<
    GroupView,
    SessionError,
> {
    match lookup(g.offsets, field) {
        None => Err(SessionError::UnknownField),
        Some(off) => if off + bytes.len() > g.globals.len() {
            Err(SessionError::FieldOutOfRange)
        } else {
            Ok(GroupView { globals: overwrite(g.globals, off as int, bytes), ..g })
        },
    }
}

/// What a globals write leaves behind: the same bindings and name, and the
/// group that `write_outcome` gives, or on error the group unchanged.
pub open spec fn wrote(
    before: Session,
    after: Session,
    field: Seq<char>,
    bytes: Seq<u8>,
    r: Result<(), SessionError>,
) -> bool {
    &&& after.wf()
    &&& after.bindings() == before.bindings()
    &&& after.group_name() == before.group_name()
    &&& match write_outcome(before.group_view(), field, bytes) {
        Ok(g) => r is Ok && after.group_view() == g,
        Err(e) => r == Err::<(), SessionError>(e) && after.group_view() == before.group_view(),
    }
}

/// The slot of a kernel's resource, found through the kernel's name.
pub open spec fn resolve_slot(g: GroupView, kernel_index: u32, resource: Seq<char>) -> Result<
    u32,
    SessionError,
> {
    if !g.kernels.contains_key(kernel_index) {
        Err(SessionError::UnknownKernel)
    } else {
        match lookup(g.slots, (g.kernels[kernel_index], resource)) {
            None => Err(SessionError::UnknownResource),
            Some(slot) => Ok(slot),
        }
    }
}

/// The entry that binding a host texture appends.
pub open spec fn texture_entry(
    g: GroupView,
    kernel_index: u32,
    resource: Seq<char>,
    handle: usize,
    width: u32,
    height: u32,
    format_code: u32,
    dimension_code: i32,
    mip_count: u32,
) -> Result<BindEntry, SessionError> {
    match resolve_slot(g, kernel_index, resource) {
        Err(e) => Err(e),
        Ok(slot) => match format_for_code_spec(format_code) {
            Err(m) => Err(SessionError::Mapping(m)),
            Ok(format) => match dimension_for_code_spec(dimension_code) {
                Err(m) => Err(SessionError::Mapping(m)),
                Ok(dimension) => Ok(
                    BindEntry {
                        slot,
                        resource: Resource::Texture {
                            handle,
                            width,
                            height,
                            format,
                            dimension,
                            mip_count,
                        },
                    },
                ),
            },
        },
    }
}

/// A checked-out kernel group with the globals writes and resource bindings
/// made so far. Bindings accumulate across dispatches.
pub struct Session {
    name: String,
    group: KernelStruct,
    entries: Vec<BindEntry>,
}

impl Session {
    /// The name the group was checked out under.
    pub closed spec fn group_name(&self) -> Seq<char> {
        self.name@
    }

    /// The checked-out group.
    pub closed spec fn group_view(&self) -> GroupView {
        self.group@
    }

    /// The bindings made so far, in order.
    pub closed spec fn bindings(&self) -> Seq<BindEntry> {
        self.entries@
    }

    pub closed spec fn wf(&self) -> bool {
        self.group.wf()
    }

    /// Checks the named group out of the registry into a new session with no
    /// bindings. `None`, with the registry unchanged, when no such group is
    /// available.
    pub fn load(registry: &mut Kernels, name: &String) -> (r: Option<Session>)
        requires
            old(registry).wf(),
        ensures
            final(registry).wf(),
            r is Some <==> available(old(registry)@, name@),
            match r {
                Some(s) => s.wf() && s.group_name() == name@ && Some(s.group_view()) == old(
                    registry,
                )@[name@] && s.bindings() == Seq::<BindEntry>::empty() && final(registry)@ == old(
                    registry,
                )@.insert(name@, None),
                None => final(registry)@ == old(registry)@,
            },
    {
        match registry.checkout(name) {
            Some(group) => Some(Session { name: name.clone(), group, entries: Vec::new() }),
            None => None,
        }
    }

    /// Ends the session, putting its group back in the registry with the
    /// globals as they now stand. The bindings are dropped.
    pub fn close(self, registry: &mut Kernels) -> (r: Result<(), RegistryError>)
        requires
            old(registry).wf(),
            self.wf(),
        ensures
            final(registry).wf(),
            r is Ok <==> checked_out(old(registry)@, self.group_name()),
            r is Ok ==> final(registry)@ == old(registry)@.insert(
                self.group_name(),
                Some(self.group_view()),
            ),
            r is Err ==> final(registry)@ == old(registry)@,
    {
        registry.restore(&self.name, self.group)
    }

    /// The globals block as it stands.
    pub fn globals(&self) -> (r: &Vec<u8>)
        ensures
            r@ == self.group_view().globals,
    {
        self.group.globals()
    }

    /// The bindings made so far, in order.
    pub fn entries(&self) -> (r: &Vec<BindEntry>)
        ensures
            r@ == self.bindings(),
    {
        &self.entries
    }

    /// The name of the kernel with this index.
    pub fn kernel_name(&self, kernel_index: u32) -> (r: Option<String>)
        requires
            self.wf(),
        ensures
            r is Some <==> self.group_view().kernels.contains_key(kernel_index),
            r matches Some(n) ==> n@ == self.group_view().kernels[kernel_index],
    {
        self.group.kernel_name(kernel_index)
    }

    /// The index of the kernel with this name.
    pub fn find_kernel(&self, name: &String) -> (r: Result<u32, SessionError>)
        requires
            self.wf(),
        ensures
            match index_of(self.group_view().kernels, name@) {
                Some(i) => r == Ok::<u32, SessionError>(i),
                None => r == Err::<u32, SessionError>(SessionError::UnknownKernelName),
            },
            forall|i: u32|
                self.group_view().kernels.contains_key(i) && self.group_view().kernels[i] == name@
                    ==> r == Ok::<u32, SessionError>(i),
    {
        proof {
            self.group.lemma_index_name_round_trip();
        }
        match self.group.find_kernel(name) {
            Some(i) => Ok(i),
            None => Err(SessionError::UnknownKernelName),
        }
    }

    /// The session's kernel names are unique: a kernel's name leads back to its
    /// index, and a name that finds an index is that index's name.
    pub proof fn lemma_index_name_round_trip(&self)
        requires
            self.wf(),
        ensures
            forall|i: u32| #[trigger]
                self.group_view().kernels.contains_key(i) ==> index_of(
                    self.group_view().kernels,
                    self.group_view().kernels[i],
                ) == Some(i),
            forall|n: Seq<char>| #[trigger]
                index_of(self.group_view().kernels, n) is Some ==> self.group_view().kernels.contains_key(
                    index_of(self.group_view().kernels, n)->Some_0,
                ) && self.group_view().kernels[index_of(self.group_view().kernels, n)->Some_0] == n,
    {
        self.group.lemma_index_name_round_trip();
    }

    /// Writes raw bytes at a globals field's reflected offset.
    pub fn set_bytes(&mut self, field: &String, bytes: &[u8]) -> (r: Result<(), SessionError>)
        requires
            old(self).wf(),
        ensures
            wrote(*old(self), *final(self), field@, bytes@, r),
    {
        match self.group.write_field(field, bytes) {
            Ok(()) => Ok(()),
            Err(FieldError::UnknownField) => Err(SessionError::UnknownField),
            Err(FieldError::OutOfRange) => Err(SessionError::FieldOutOfRange),
        }
    }

    /// Writes a 32-bit value, little-endian, at a globals field's offset.
    pub fn set_u32(&mut self, field: &String, value: u32) -> (r: Result<(), SessionError>)
        requires
            old(self).wf(),
        ensures
            wrote(*old(self), *final(self), field@, le_bytes(value), r),
    {
        let bytes = u32_le_bytes(value);
        self.set_bytes(field, bytes.as_slice())
    }

    /// Writes a boolean as the 32-bit value 0 or 1.
    pub fn set_bool(&mut self, field: &String, value: bool) -> (r: Result<(), SessionError>)
        requires
            old(self).wf(),
        ensures
            wrote(*old(self), *final(self), field@, le_bytes(if value { 1u32 } else { 0u32 }), r),
    {
        self.set_u32(field, if value { 1 } else { 0 })
    }

    /// Writes a signed 32-bit value in two's complement, little-endian.
    pub fn set_int(&mut self, field: &String, value: i32) -> (r: Result<(), SessionError>)
        requires
            old(self).wf(),
        ensures
            wrote(*old(self), *final(self), field@, le_bytes(value as u32), r),
    {
        self.set_u32(field, value as u32)
    }

    /// Writes a 32-bit float given by its IEEE-754 bit pattern.
    pub fn set_float_bits(&mut self, field: &String, bits: u32) -> (r: Result<(), SessionError>)
        requires
            old(self).wf(),
        ensures
            wrote(*old(self), *final(self), field@, le_bytes(bits), r),
    {
        self.set_u32(field, bits)
    }

    /// Writes a 4-component vector given as its 16 raw bytes.
    pub fn set_vector(&mut self, field: &String, bytes: &[u8; 16]) -> (r: Result<(), SessionError>)
        requires
            old(self).wf(),
        ensures
            wrote(*old(self), *final(self), field@, bytes@, r),
    {
        self.set_bytes(field, bytes.as_slice())
    }

    /// Writes a 4x4 matrix given as its 64 raw bytes.
    pub fn set_matrix(&mut self, field: &String, bytes: &[u8; 64]) -> (r: Result<(), SessionError>)
        requires
            old(self).wf(),
        ensures
            wrote(*old(self), *final(self), field@, bytes@, r),
    {
        self.set_bytes(field, bytes.as_slice())
    }

    fn slot_for(&self, kernel_index: u32, resource: &String) -> (r: Result<u32, SessionError>)
        requires
            self.wf(),
        ensures
            r == resolve_slot(self.group_view(), kernel_index, resource@),
    {
        let kernel = match self.group.kernel_name(kernel_index) {
            Some(k) => k,
            None => {
                return Err(SessionError::UnknownKernel);
            },
        };
        match self.group.slot_of(&kernel, resource) {
            Some(slot) => Ok(slot),
            None => Err(SessionError::UnknownResource),
        }
    }

    /// Binds a host buffer of `size` bytes to a kernel's resource, appending one
    /// entry at the resource's reflected slot.
    pub fn set_buffer(&mut self, kernel_index: u32, resource: &String, handle: usize, size: usize) -> (r:
        Result<(), SessionError>)
        requires
            old(self).wf(),
        ensures
            final(self).wf(),
            final(self).group_view() == old(self).group_view(),
            final(self).group_name() == old(self).group_name(),
            match resolve_slot(old(self).group_view(), kernel_index, resource@) {
                Ok(slot) => r is Ok && final(self).bindings() == old(self).bindings().push(
                    BindEntry { slot, resource: Resource::Buffer { handle, size } },
                ),
                Err(e) => r == Err::<(), SessionError>(e) && final(self).bindings() == old(
                    self,
                ).bindings(),
            },
    {
        let slot = self.slot_for(kernel_index, resource)?;
        self.entries.push(BindEntry { slot, resource: Resource::Buffer { handle, size } });
        Ok(())
    }

    /// Binds a host texture to a kernel's resource. The host's format and
    /// dimension codes are mapped to backend values first; a code without a
    /// backend equivalent fails the call and binds nothing.
    pub fn set_texture(
        &mut self,
        kernel_index: u32,
        resource: &String,
        handle: usize,
        width: u32,
        height: u32,
        format_code: u32,
        dimension_code: i32,
        mip_count: u32,
    ) -> (r: Result<(), SessionError>)
        requires
            old(self).wf(),
        ensures
            final(self).wf(),
            final(self).group_view() == old(self).group_view(),
            final(self).group_name() == old(self).group_name(),
            match texture_entry(
                old(self).group_view(),
                kernel_index,
                resource@,
                handle,
                width,
                height,
                format_code,
                dimension_code,
                mip_count,
            ) {
                Ok(e) => r is Ok && final(self).bindings() == old(self).bindings().push(e),
                Err(e) => r == Err::<(), SessionError>(e) && final(self).bindings() == old(
                    self,
                ).bindings(),
            },
    {
        let slot = self.slot_for(kernel_index, resource)?;
        let format = match format_for_code(format_code) {
            Ok(f) => f,
            Err(m) => {
                return Err(SessionError::Mapping(m));
            },
        };
        let dimension = match dimension_for_code(dimension_code) {
            Ok(d) => d,
            Err(m) => {
                return Err(SessionError::Mapping(m));
            },
        };
        self.entries.push(
            BindEntry {
                slot,
                resource: Resource::Texture { handle, width, height, format, dimension, mip_count },
            },
        );
        Ok(())
    }

    /// Whether `p` plans a dispatch of this kernel over these workgroups with
    /// the session as it stands: its globals, the kernel's globals slot, and
    /// per slot the binding made last.
    pub open spec fn is_plan(&self, p: DispatchPlan, kernel_index: u32, workgroups: Workgroups) -> bool {
        &&& p.kernel_index == kernel_index
        &&& p.globals@ == self.group_view().globals
        &&& p.globals_slot == lookup(
            self.group_view().slots,
            (self.group_view().kernels[kernel_index], globals_block_name()),
        )
        &&& p.bindings@ == effective_bindings(self.bindings())
        &&& p.workgroups == workgroups
    }

    fn plan(&self, kernel_index: u32, workgroups: Workgroups) -> (r: Result<
        DispatchPlan,
        SessionError,
    >)
        requires
            self.wf(),
        ensures
            match r {
                Ok(p) => self.group_view().kernels.contains_key(kernel_index) && self.is_plan(
                    p,
                    kernel_index,
                    workgroups,
                ),
                Err(e) => !self.group_view().kernels.contains_key(kernel_index) && e
                    == SessionError::UnknownKernel,
            },
    {
        let kernel = match self.group.kernel_name(kernel_index) {
            Some(k) => k,
            None => {
                return Err(SessionError::UnknownKernel);
            },
        };
        let globals_slot = self.group.slot_of(&kernel, &"$Globals".to_owned());
        let globals = copy_bytes(self.group.globals());
        let bindings = resolve_bindings(&self.entries);
        Ok(DispatchPlan { kernel_index, globals, globals_slot, bindings, workgroups })
    }

    /// Plans a dispatch of a kernel over `x * y * z` workgroups, with the
    /// current globals and, per slot, the binding made last. The session keeps
    /// its group and bindings for further dispatches.
    pub fn dispatch(&self, kernel_index: u32, x: u32, y: u32, z: u32) -> (r: Result<
        DispatchPlan,
        SessionError,
    >)
        requires
            self.wf(),
        ensures
            match r {
                Ok(p) => self.group_view().kernels.contains_key(kernel_index) && self.is_plan(
                    p,
                    kernel_index,
                    Workgroups::Direct { x, y, z },
                ),
                Err(e) => !self.group_view().kernels.contains_key(kernel_index) && e
                    == SessionError::UnknownKernel,
            },
    {
        self.plan(kernel_index, Workgroups::Direct { x, y, z })
    }

    /// Plans a dispatch whose workgroup counts the device reads from a
    /// host-owned buffer; otherwise as `dispatch`.
    pub fn dispatch_indirect(&self, kernel_index: u32, handle: usize, size: usize) -> (r: Result<
        DispatchPlan,
        SessionError,
    >)
        requires
            self.wf(),
        ensures
            match r {
                Ok(p) => self.group_view().kernels.contains_key(kernel_index) && self.is_plan(
                    p,
                    kernel_index,
                    Workgroups::Indirect { handle, size },
                ),
                Err(e) => !self.group_view().kernels.contains_key(kernel_index) && e
                    == SessionError::UnknownKernel,
            },
    {
        self.plan(kernel_index, Workgroups::Indirect { handle, size })
    }
}

/// The four little-endian bytes of a 32-bit value.
pub fn u32_le_bytes(v: u32) -> (r: Vec<u8>)
    ensures
        r@ == le_bytes(v),
{
    let r = vec![
        (v % 256) as u8,
        ((v / 256) % 256) as u8,
        ((v / 65536) % 256) as u8,
        ((v / 16777216) % 256) as u8,
    ];
    assert(r@ =~= le_bytes(v));
    r
}

fn copy_bytes(b: &Vec<u8>) -> (r: Vec<u8>)
    ensures
        r@ == b@,
{
    let mut out: Vec<u8> = Vec::new();
    let mut i: usize = 0;
    while i < b.len()
        invariant
            i <= b@.len(),
            out@ == b@.take(i as int),
        decreases b@.len() - i,
    {
        out.push(b[i]);
        assert(out@ =~= b@.take(i as int + 1));
        i += 1;
    }
    assert(b@.take(b@.len() as int) =~= b@);
    out
}

/// Keeps, in order, each entry that is the last one bound to its slot.
pub fn resolve_bindings(es: &Vec<BindEntry>) -> (r: Vec<BindEntry>)
    ensures
        r@ == effective_bindings(es@),
{
    let mut out: Vec<BindEntry> = Vec::new();
    let mut i: usize = 0;
    while i < es.len()
        invariant
            i <= es@.len(),
            out@ == last_per_slot(es@, i as int),
        decreases es@.len() - i,
    {
        let mut last = true;
        let mut j: usize = i + 1;
        while j < es.len()
            invariant
                i < j <= es@.len(),
                last <==> forall|k: int| i < k < j ==> (#[trigger] es@[k]).slot != es@[i as int].slot,
            decreases es@.len() - j,
        {
            if es[j].slot == es[i].slot {
                last = false;
            }
            j += 1;
        }
        if last {
            out.push(es[i]);
        }
        i += 1;
    }
    out
}

/// Writing bytes to a globals field and reading the field's bytes back gives
/// exactly the bytes written; every other byte of the block, the block's
/// length, and every offset, slot and kernel of the group stay as they were.
pub proof fn lemma_field_write_read_back(g: GroupView, field: Seq<char>, bytes: Seq<u8>)
    requires
        write_outcome(g, field, bytes) is Ok,
    ensures
        ({
            let off = g.offsets[field] as int;
            let h = write_outcome(g, field, bytes)->Ok_0;
            &&& h.globals.subrange(off, off + bytes.len()) == bytes
            &&& h.globals.len() == g.globals.len()
            &&& forall|i: int|
                0 <= i < g.globals.len() && !(off <= i < off + bytes.len()) ==> #[trigger] h.globals[i]
                    == g.globals[i]
            &&& h.offsets == g.offsets
            &&& h.slots == g.slots
            &&& h.kernels == g.kernels
            &&& h.layouts == g.layouts
        }),
{
    let off = g.offsets[field] as int;
    let h = write_outcome(g, field, bytes)->Ok_0;
    assert(h.globals.subrange(off, off + bytes.len()) =~= bytes);
}

/// A host format or dimension code without a backend equivalent always makes
/// a texture binding fail, so nothing is bound.
pub proof fn lemma_unmapped_code_binds_nothing(
    g: GroupView,
    kernel_index: u32,
    resource: Seq<char>,
    handle: usize,
    width: u32,
    height: u32,
    format_code: u32,
    dimension_code: i32,
    mip_count: u32,
)
    requires
        format_for_code_spec(format_code) is Err || dimension_for_code_spec(dimension_code) is Err,
    ensures
        texture_entry(
            g,
            kernel_index,
            resource,
            handle,
            width,
            height,
            format_code,
            dimension_code,
            mip_count,
        ) is Err,
{
}

/// A dispatch binds each slot at most once, and to the entry bound last for
/// that slot: every entry it uses is the last for its slot, and every slot that
/// was bound is used.
pub proof fn lemma_last_binding_wins(es: Seq<BindEntry>)
    ensures
        forall|k: int|
            0 <= k < effective_bindings(es).len() ==> exists|i: int|
                0 <= i < es.len() && last_for_slot(es, i) && #[trigger] effective_bindings(es)[k]
                    == es[i],
        forall|i: int|
            0 <= i < es.len() && #[trigger] last_for_slot(es, i) ==> exists|k: int|
                0 <= k < effective_bindings(es).len() && effective_bindings(es)[k] == es[i],
        forall|k1: int, k2: int|
            0 <= k1 < k2 < effective_bindings(es).len() ==> (#[trigger] effective_bindings(es)[k1]).slot
                != (#[trigger] effective_bindings(es)[k2]).slot,
{
    lemma_last_per_slot_sources(es, es.len() as int);
    lemma_last_per_slot_complete(es, es.len() as int);
    lemma_last_per_slot_distinct(es, es.len() as int);
}

proof fn lemma_last_per_slot_sources(es: Seq<BindEntry>, n: int)
    requires
        0 <= n <= es.len(),
    ensures
        forall|k: int|
            0 <= k < last_per_slot(es, n).len() ==> exists|i: int|
                0 <= i < n && last_for_slot(es, i) && #[trigger] last_per_slot(es, n)[k] == es[i],
    decreases n,
{
    if n > 0 {
        lemma_last_per_slot_sources(es, n - 1);
        let prev = last_per_slot(es, n - 1);
        let cur = last_per_slot(es, n);
        let last = last_for_slot(es, n - 1);
        if last {
            assert(cur == prev.push(es[n - 1]));
        } else {
            assert(cur == prev);
        }
        assert forall|k: int| 0 <= k < cur.len() implies exists|i: int|
            0 <= i < n && last_for_slot(es, i) && #[trigger] cur[k] == es[i] by {
            if k < prev.len() {
                assert(cur[k] == prev[k]);
                let i = choose|i: int| 0 <= i < n - 1 && last_for_slot(es, i) && #[trigger] prev[k] == es[i];
                assert(0 <= i < n && last_for_slot(es, i) && cur[k] == es[i]);
            } else {
                assert(cur[k] == es[n - 1]);
                assert(last_for_slot(es, n - 1));
            }
        }
    }
}

proof fn lemma_last_per_slot_complete(es: Seq<BindEntry>, n: int)
    requires
        0 <= n <= es.len(),
    ensures
        forall|i: int|
            0 <= i < n && #[trigger] last_for_slot(es, i) ==> exists|k: int|
                0 <= k < last_per_slot(es, n).len() && last_per_slot(es, n)[k] == es[i],
    decreases n,
{
    if n > 0 {
        lemma_last_per_slot_complete(es, n - 1);
        let prev = last_per_slot(es, n - 1);
        let cur = last_per_slot(es, n);
        assert forall|i: int| 0 <= i < n && #[trigger] last_for_slot(es, i) implies exists|k: int|
            0 <= k < cur.len() && cur[k] == es[i] by {
            if i < n - 1 {
                let k = choose|k: int| 0 <= k < prev.len() && prev[k] == es[i];
                assert(cur[k] == prev[k]);
            } else {
                assert(cur[prev.len() as int] == es[i]);
            }
        }
    }
}

proof fn lemma_last_per_slot_distinct(es: Seq<BindEntry>, n: int)
    requires
        0 <= n <= es.len(),
    ensures
        forall|k1: int, k2: int|
            0 <= k1 < k2 < last_per_slot(es, n).len() ==> (#[trigger] last_per_slot(es, n)[k1]).slot
                != (#[trigger] last_per_slot(es, n)[k2]).slot,
    decreases n,
{
    if n > 0 {
        lemma_last_per_slot_distinct(es, n - 1);
        lemma_last_per_slot_sources(es, n - 1);
        let prev = last_per_slot(es, n - 1);
        let cur = last_per_slot(es, n);
        assert forall|k1: int, k2: int| 0 <= k1 < k2 < cur.len() implies (#[trigger] cur[k1]).slot
            != (#[trigger] cur[k2]).slot by {
            assert(cur[k1] == prev[k1]);
            if k2 < prev.len() {
                assert(cur[k2] == prev[k2]);
            } else {
                let i = choose|i: int| 0 <= i < n - 1 && last_for_slot(es, i) && #[trigger] prev[k1] == es[i];
                assert(cur[k2] == es[n - 1]);
                assert(es[n - 1].slot != es[i].slot);
            }
        }
    }
}

} // verus!
