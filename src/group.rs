use vstd::prelude::*;
use crate::reflection::{
    GlobalsMember, LayoutEntry, LayoutError, ReflectedBinding, layout_entries,
    layout_entries_spec,
};
use crate::table::{
    fold_records, has_key, lemma_fold_concat, lemma_fold_dom, lemma_fold_last, lemma_fold_push,
};

verus! {

/// One kernel of a group: its stable index, its name and its binding layout.
#[derive(Debug)]
pub struct KernelRecord {
    pub index: u32,
    pub name: String,
    pub layout: Vec<LayoutEntry>,
}

/// A binding slot, recorded under (kernel name, resource name).
#[derive(Debug)]
pub struct SlotRecord {
    pub kernel: String,
    pub resource: String,
    pub slot: u32,
}

/// A globals field and its byte offset in the globals block.
#[derive(Debug)]
pub struct FieldRecord {
    pub name: String,
    pub offset: u32,
}

/// A kernel group: kernels that share one globals block, with the binding slots
/// and globals offsets that reflection gave them at load time.
///
/// The tables are append-only; where two records share a key, the later one
/// stands, so a re-reflected globals member keeps its latest offset.
#[derive(Debug)]
pub struct KernelStruct {
    kernels: Vec<KernelRecord>,
    slots: Vec<SlotRecord>,
    fields: Vec<FieldRecord>,
    globals: Vec<u8>,
}

/// What a kernel group holds, as maps and bytes.
pub struct GroupView {
    /// Kernel index to kernel name.
    pub kernels: Map<u32, Seq<char>>,
    /// Kernel index to the kernel's binding layout.
    pub layouts: Map<u32, Seq<LayoutEntry>>,
    /// (kernel name, resource name) to binding slot.
    pub slots: Map<(Seq<char>, Seq<char>), u32>,
    /// Globals field name to byte offset.
    pub offsets: Map<Seq<char>, u32>,
    /// The globals block.
    pub globals: Seq<u8>,
}

/// Why a kernel could not be added to a group.
#[derive(Debug, Clone, Copy, PartialEq, Eq, Structural, Hash)]
pub enum LoadError {
    /// The group already has a kernel with this index.
    DuplicateKernelIndex,
    /// The group already has a kernel with this name.
    DuplicateKernelName,
    /// A binding has no backend equivalent.
    Layout(LayoutError),
    /// The bytecode is not a whole number of 32-bit words.
    MisalignedBytecode,
    /// The cross-compiler rejected the module.
    CrossCompileFailed,
    /// The group is checked out and cannot take more kernels now.
    GroupCheckedOut,
    /// No group of that name was declared.
    UnknownGroup,
}

/// Why a globals write was refused.
#[derive(Debug, Clone, Copy, PartialEq, Eq, Structural, Hash)]
pub enum FieldError {
    /// The group's globals block has no field of that name.
    UnknownField,
    /// The bytes would run past the end of the globals block.
    OutOfRange,
}

/// The name reflection gives the implicit globals block.
pub open spec fn globals_block_name() -> Seq<char> {
    "$Globals"@
}

pub open spec fn is_globals_block(b: ReflectedBinding) -> bool {
    b.name@ == globals_block_name()
}

/// The slot records of one kernel's bindings, in order.
pub open spec fn slot_records(kernel: Seq<char>, bs: Seq<ReflectedBinding>) -> Seq<
    ((Seq<char>, Seq<char>), u32),
>
    decreases bs.len(),
{
    if bs.len() == 0 {
        Seq::empty()
    } else {
        slot_records(kernel, bs.drop_last()).push(((kernel, bs.last().name@), bs.last().slot))
    }
}

/// The offset records of a globals block's members, in order.
pub open spec fn member_records(ms: Seq<GlobalsMember>) -> Seq<(Seq<char>, u32)>
    decreases ms.len(),
{
    if ms.len() == 0 {
        Seq::empty()
    } else {
        member_records(ms.drop_last()).push((ms.last().name@, ms.last().offset))
    }
}

/// The summed byte sizes of a globals block's members.
pub open spec fn members_size(ms: Seq<GlobalsMember>) -> nat
    decreases ms.len(),
{
    if ms.len() == 0 {
        0
    } else {
        members_size(ms.drop_last()) + ms.last().size as nat
    }
}

/// The offset records of every globals block among the bindings, in order.
pub open spec fn field_records(bs: Seq<ReflectedBinding>) -> Seq<(Seq<char>, u32)>
    decreases bs.len(),
{
    if bs.len() == 0 {
        Seq::empty()
    } else if is_globals_block(bs.last()) {
        field_records(bs.drop_last()) + member_records(bs.last().members@)
    } else {
        field_records(bs.drop_last())
    }
}

/// How many bytes the globals block grows by for these bindings: the summed
/// member sizes of every globals block among them.
pub open spec fn globals_growth(bs: Seq<ReflectedBinding>) -> nat
    decreases bs.len(),
{
    if bs.len() == 0 {
        0
    } else if is_globals_block(bs.last()) {
        globals_growth(bs.drop_last()) + members_size(bs.last().members@)
    } else {
        globals_growth(bs.drop_last())
    }
}

pub open spec fn zeros(n: nat) -> Seq<u8> {
    Seq::new(n, |i: int| 0u8)
}

/// `s` with the bytes from `at` on replaced by `b`.
pub open spec fn overwrite(s: Seq<u8>, at: int, b: Seq<u8>) -> Seq<u8> {
    s.take(at) + b + s.skip(at + b.len())
}

/// Whether some kernel of the map has this name.
pub open spec fn names_kernel(kernels: Map<u32, Seq<char>>, name: Seq<char>) -> bool {
    exists|i: u32| kernels.contains_key(i) && kernels[i] == name
}

/// The index of the kernel with this name, if there is one.
pub open spec fn index_of(kernels: Map<u32, Seq<char>>, name: Seq<char>) -> Option<u32> {
    if names_kernel(kernels, name) {
        Some(choose|i: u32| kernels.contains_key(i) && kernels[i] == name)
    } else {
        None
    }
}

/// A group with no kernels, slots, fields or globals.
pub open spec fn empty_group() -> GroupView {
    GroupView {
        kernels: Map::empty(),
        layouts: Map::empty(),
        slots: Map::empty(),
        offsets: Map::empty(),
        globals: Seq::empty(),
    }
}

/// What adding a kernel does to a group: the group it becomes, or why it is refused.
pub open spec fn add_outcome(
    g: GroupView,
    name: Seq<char>,
    index: u32,
    bindings: Seq<ReflectedBinding>,
) -> Result<GroupView, LoadError> {
    if g.kernels.contains_key(index) {
        Err(LoadError::DuplicateKernelIndex)
    } else if names_kernel(g.kernels, name) {
        Err(LoadError::DuplicateKernelName)
    } else {
        match layout_entries_spec(bindings) {
            Err(e) => Err(LoadError::Layout(e)),
            Ok(es) => Ok(
                GroupView {
                    kernels: g.kernels.insert(index, name),
                    layouts: g.layouts.insert(index, es),
                    slots: fold_records(g.slots, slot_records(name, bindings)),
                    offsets: fold_records(g.offsets, field_records(bindings)),
                    globals: g.globals + zeros(globals_growth(bindings)),
                },
            ),
        }
    }
}

/// What a map holds at a key, as an `Option`.
pub open spec fn lookup<K, V>(m: Map<K, V>, k: K) -> Option<V> {
    if m.contains_key(k) {
        Some(m[k])
    } else {
        None
    }
}

impl View for KernelStruct {
    type V = GroupView;

    closed spec fn view(&self) -> GroupView {
        GroupView {
            kernels: fold_records(Map::empty(), self.kernel_records()),
            layouts: fold_records(Map::empty(), self.layout_records()),
            slots: fold_records(Map::empty(), self.slot_entries()),
            offsets: fold_records(Map::empty(), self.field_entries()),
            globals: self.globals@,
        }
    }
}

impl KernelStruct {
    closed spec fn kernel_records(&self) -> Seq<(u32, Seq<char>)> {
        Seq::new(self.kernels@.len(), |i: int| (self.kernels@[i].index, self.kernels@[i].name@))
    }

    closed spec fn layout_records(&self) -> Seq<(u32, Seq<LayoutEntry>)> {
        Seq::new(self.kernels@.len(), |i: int| (self.kernels@[i].index, self.kernels@[i].layout@))
    }

    closed spec fn slot_entries(&self) -> Seq<((Seq<char>, Seq<char>), u32)> {
        Seq::new(
            self.slots@.len(),
            |i: int| ((self.slots@[i].kernel@, self.slots@[i].resource@), self.slots@[i].slot),
        )
    }

    closed spec fn field_entries(&self) -> Seq<(Seq<char>, u32)> {
        Seq::new(self.fields@.len(), |i: int| (self.fields@[i].name@, self.fields@[i].offset))
    }

    /// Kernel indices and kernel names are each unique within the group.
    pub closed spec fn wf(&self) -> bool {
        forall|i: int, j: int|
            0 <= i < j < self.kernels@.len() ==> self.kernels@[i].index != self.kernels@[j].index
                && self.kernels@[i].name@ != self.kernels@[j].name@
    }

    /// An empty group.
    pub fn new() -> (g: KernelStruct)
        ensures
            g.wf(),
            g@ == empty_group(),
    {
        let g = KernelStruct {
            kernels: Vec::new(),
            slots: Vec::new(),
            fields: Vec::new(),
            globals: Vec::new(),
        };
        assert(g.kernel_records() =~= Seq::empty());
        assert(g.layout_records() =~= Seq::empty());
        assert(g.slot_entries() =~= Seq::empty());
        assert(g.field_entries() =~= Seq::empty());
        g
    }

    /// The record at position `p` is what the views hold for its index.
    proof fn lemma_kernel_at(&self, p: int)
        requires
            self.wf(),
            0 <= p < self.kernels@.len(),
        ensures
            self@.kernels.contains_key(self.kernels@[p].index),
            self@.kernels[self.kernels@[p].index] == self.kernels@[p].name@,
            self@.layouts.contains_key(self.kernels@[p].index),
            self@.layouts[self.kernels@[p].index] == self.kernels@[p].layout@,
    {
        let kr = self.kernel_records();
        let lr = self.layout_records();
        assert forall|j: int| p < j < kr.len() implies (#[trigger] kr[j]).0 != kr[p].0 by {}
        assert forall|j: int| p < j < lr.len() implies (#[trigger] lr[j]).0 != lr[p].0 by {}
        lemma_fold_last(Map::empty(), kr, p);
        lemma_fold_last(Map::empty(), lr, p);
    }

    /// An index is in the views exactly when some record has it.
    proof fn lemma_kernel_dom(&self, i: u32)
        ensures
            self@.kernels.contains_key(i) <==> exists|p: int|
                0 <= p < self.kernels@.len() && (#[trigger] self.kernels@[p]).index == i,
            self@.layouts.contains_key(i) <==> self@.kernels.contains_key(i),
    {
        let kr = self.kernel_records();
        let lr = self.layout_records();
        lemma_fold_dom(Map::empty(), kr, i);
        lemma_fold_dom(Map::empty(), lr, i);
        if has_key(kr, i) {
            let p = choose|p: int| 0 <= p < kr.len() && (#[trigger] kr[p]).0 == i;
            assert(self.kernels@[p].index == i);
            assert(lr[p].0 == i);
        }
        if has_key(lr, i) {
            let p = choose|p: int| 0 <= p < lr.len() && (#[trigger] lr[p]).0 == i;
            assert(kr[p].0 == i);
        }
        if exists|p: int| 0 <= p < self.kernels@.len() && (#[trigger] self.kernels@[p]).index == i {
            let p = choose|p: int|
                0 <= p < self.kernels@.len() && (#[trigger] self.kernels@[p]).index == i;
            assert(kr[p].0 == i);
        }
    }

    /// Two kernel indices of a group never share a name, so a name leads back
    /// to the one index that has it, and an index to the one name it has.
    pub proof fn lemma_index_name_round_trip(&self)
        requires
            self.wf(),
        ensures
            forall|i: u32| #[trigger]
                self@.kernels.contains_key(i) ==> index_of(self@.kernels, self@.kernels[i]) == Some(
                    i,
                ),
            forall|n: Seq<char>| #[trigger]
                index_of(self@.kernels, n) is Some ==> self@.kernels.contains_key(
                    index_of(self@.kernels, n)->Some_0,
                ) && self@.kernels[index_of(self@.kernels, n)->Some_0] == n,
    {
        assert forall|i: u32, j: u32|
            self@.kernels.contains_key(i) && self@.kernels.contains_key(j) && self@.kernels[i]
                == self@.kernels[j] implies i == j by {
            self.lemma_kernel_dom(i);
            self.lemma_kernel_dom(j);
            let p = choose|p: int|
                0 <= p < self.kernels@.len() && (#[trigger] self.kernels@[p]).index == i;
            let q = choose|q: int|
                0 <= q < self.kernels@.len() && (#[trigger] self.kernels@[q]).index == j;
            self.lemma_kernel_at(p);
            self.lemma_kernel_at(q);
        }
        assert forall|i: u32| #[trigger]
            self@.kernels.contains_key(i) implies index_of(self@.kernels, self@.kernels[i]) == Some(
            i,
        ) by {
            assert(names_kernel(self@.kernels, self@.kernels[i]));
        }
    }

    fn position_of_index(&self, index: u32) -> (r: Option<usize>)
        ensures
            match r {
                Some(p) => p < self.kernels@.len() && self.kernels@[p as int].index == index,
                None => forall|p: int|
                    0 <= p < self.kernels@.len() ==> (#[trigger] self.kernels@[p]).index != index,
            },
    {
        let mut p: usize = 0;
        while p < self.kernels.len()
            invariant
                p <= self.kernels@.len(),
                forall|q: int| 0 <= q < p ==> (#[trigger] self.kernels@[q]).index != index,
            decreases self.kernels@.len() - p,
        {
            if self.kernels[p].index == index {
                return Some(p);
            }
            p += 1;
        }
        None
    }

    fn position_of_name(&self, name: &String) -> (r: Option<usize>)
        ensures
            match r {
                Some(p) => p < self.kernels@.len() && self.kernels@[p as int].name@ == name@,
                None => forall|p: int|
                    0 <= p < self.kernels@.len() ==> (#[trigger] self.kernels@[p]).name@ != name@,
            },
    {
        let mut p: usize = 0;
        while p < self.kernels.len()
            invariant
                p <= self.kernels@.len(),
                forall|q: int| 0 <= q < p ==> (#[trigger] self.kernels@[q]).name@ != name@,
            decreases self.kernels@.len() - p,
        {
            if self.kernels[p].name == *name {
                return Some(p);
            }
            p += 1;
        }
        None
    }

    /// The name of the kernel with this index.
    pub fn kernel_name(&self, index: u32) -> (r: Option<String>)
        requires
            self.wf(),
        ensures
            r matches Some(n) ==> n@ == self@.kernels[index],
            r is Some <==> self@.kernels.contains_key(index),
    {
        proof {
            self.lemma_kernel_dom(index);
        }
        match self.position_of_index(index) {
            Some(p) => {
                proof {
                    self.lemma_kernel_at(p as int);
                }
                Some(self.kernels[p].name.clone())
            },
            None => None,
        }
    }

    /// The index of the kernel with this name.
    pub fn find_kernel(&self, name: &String) -> (r: Option<u32>)
        requires
            self.wf(),
        ensures
            r == index_of(self@.kernels, name@),
    {
        proof {
            self.lemma_index_name_round_trip();
        }
        match self.position_of_name(name) {
            Some(p) => {
                proof {
                    self.lemma_kernel_at(p as int);
                }
                Some(self.kernels[p].index)
            },
            None => {
                proof {
                    assert forall|i: u32|
                        self@.kernels.contains_key(i) implies self@.kernels[i] != name@ by {
                        self.lemma_kernel_dom(i);
                        let p = choose|p: int|
                            0 <= p < self.kernels@.len() && (#[trigger] self.kernels@[p]).index
                                == i;
                        self.lemma_kernel_at(p);
                    }
                }
                None
            },
        }
    }

    /// The binding layout of the kernel with this index.
    pub fn layout(&self, index: u32) -> (r: Option<&Vec<LayoutEntry>>)
        requires
            self.wf(),
        ensures
            r matches Some(l) ==> l@ == self@.layouts[index],
            r is Some <==> self@.layouts.contains_key(index),
    {
        proof {
            self.lemma_kernel_dom(index);
        }
        match self.position_of_index(index) {
            Some(p) => {
                proof {
                    self.lemma_kernel_at(p as int);
                }
                Some(&self.kernels[p].layout)
            },
            None => None,
        }
    }

    /// The binding slot of a kernel's resource, as reflection gave it.
    pub fn slot_of(&self, kernel: &String, resource: &String) -> (r: Option<u32>)
        ensures
            r == lookup(self@.slots, (kernel@, resource@)),
    {
        let ghost key = (kernel@, resource@);
        let ghost s = self.slot_entries();
        let mut p: usize = self.slots.len();
        while p > 0
            invariant
                p <= self.slots@.len(),
                s == self.slot_entries(),
                key == (kernel@, resource@),
                forall|q: int| p <= q < s.len() ==> (#[trigger] s[q]).0 != key,
            decreases p,
        {
            p -= 1;
            let rec = &self.slots[p];
            assert(s[p as int] == ((rec.kernel@, rec.resource@), rec.slot));
            if rec.kernel == *kernel && rec.resource == *resource {
                proof {
                    assert(s[p as int].0 == key);
                    lemma_fold_last(Map::empty(), s, p as int);
                }
                return Some(rec.slot);
            }
            assert(s[p as int].0 != key);
        }
        proof {
            lemma_fold_dom(Map::empty(), s, key);
        }
        None
    }

    /// The byte offset of a globals field, as reflection gave it.
    pub fn field_offset(&self, field: &String) -> (r: Option<u32>)
        ensures
            r == lookup(self@.offsets, field@),
    {
        let ghost s = self.field_entries();
        let mut p: usize = self.fields.len();
        while p > 0
            invariant
                p <= self.fields@.len(),
                s == self.field_entries(),
                forall|q: int| p <= q < s.len() ==> (#[trigger] s[q]).0 != field@,
            decreases p,
        {
            p -= 1;
            if self.fields[p].name == *field {
                proof {
                    lemma_fold_last(Map::empty(), s, p as int);
                }
                return Some(self.fields[p].offset);
            }
        }
        proof {
            lemma_fold_dom(Map::empty(), s, field@);
        }
        None
    }

    /// The globals block as it stands.
    pub fn globals(&self) -> (r: &Vec<u8>)
        ensures
            r@ == self@.globals,
    {
        &self.globals
    }

    /// Writes `bytes` into the globals block at the reflected offset of `field`.
    /// Nothing changes when the field is unknown or the bytes would not fit.
    pub fn write_field(&mut self, field: &String, bytes: &[u8]) -> (r: Result<(), FieldError>)
        requires
            old(self).wf(),
        ensures
            final(self).wf(),
            match lookup(old(self)@.offsets, field@) {
                None => r == Err::<(), FieldError>(FieldError::UnknownField) && *final(self)
                    == *old(self),
                Some(off) => if off + bytes@.len() > old(self)@.globals.len() {
                    r == Err::<(), FieldError>(FieldError::OutOfRange) && *final(self) == *old(self)
                } else {
                    r is Ok && final(self)@ == (GroupView {
                        globals: overwrite(old(self)@.globals, off as int, bytes@),
                        ..old(self)@
                    })
                },
            },
    {
        let off = match self.field_offset(field) {
            Some(off) => off as usize,
            None => {
                return Err(FieldError::UnknownField);
            },
        };
        if bytes.len() > self.globals.len() || off > self.globals.len() - bytes.len() {
            return Err(FieldError::OutOfRange);
        }
        let ghost before = self.globals@;
        let glen = self.globals.len();
        let mut k: usize = 0;
        while k < bytes.len()
            invariant
                glen == before.len(),
                off + bytes@.len() <= before.len(),
                k <= bytes@.len(),
                self.globals@.len() == before.len(),
                forall|i: int|
                    0 <= i < before.len() ==> #[trigger] self.globals@[i] == if off <= i < off + k {
                        bytes@[i - off]
                    } else {
                        before[i]
                    },
                self.kernels == old(self).kernels,
                self.slots == old(self).slots,
                self.fields == old(self).fields,
            decreases bytes@.len() - k,
        {
            self.globals.set(off + k, bytes[k]);
            k += 1;
        }
        assert(self.globals@ =~= overwrite(before, off as int, bytes@));
        Ok(())
    }

    fn record_members(&mut self, ms: &Vec<GlobalsMember>)
        ensures
            final(self).kernels == old(self).kernels,
            final(self).slots == old(self).slots,
            final(self).field_entries() == old(self).field_entries() + member_records(ms@),
            final(self).globals@ == old(self).globals@ + zeros(members_size(ms@)),
    {
        let mut j: usize = 0;
        while j < ms.len()
            invariant
                j <= ms@.len(),
                self.kernels == old(self).kernels,
                self.slots == old(self).slots,
                self.field_entries() == old(self).field_entries() + member_records(
                    ms@.take(j as int),
                ),
                self.globals@ == old(self).globals@ + zeros(members_size(ms@.take(j as int))),
            decreases ms@.len() - j,
        {
            let m = &ms[j];
            let ghost fe = self.field_entries();
            self.fields.push(FieldRecord { name: m.name.clone(), offset: m.offset });
            assert(self.field_entries() =~= fe.push((m.name@, m.offset)));
            let ghost g0 = self.globals@;
            let mut k: u32 = 0;
            while k < m.size
                invariant
                    k <= m.size,
                    self.globals@ == g0 + zeros(k as nat),
                    self.kernels == old(self).kernels,
                    self.slots == old(self).slots,
                    self.field_entries() == fe.push((m.name@, m.offset)),
                decreases m.size - k,
            {
                self.globals.push(0u8);
                assert(self.globals@ =~= g0 + zeros(k as nat + 1));
                k += 1;
            }
            proof {
                let t = ms@.take(j as int + 1);
                assert(t.drop_last() =~= ms@.take(j as int));
                assert(t.last() == ms@[j as int]);
                assert(self.field_entries() =~= old(self).field_entries() + member_records(t));
                assert(self.globals@ =~= old(self).globals@ + zeros(members_size(t)));
            }
            j += 1;
        }
        assert(ms@.take(ms@.len() as int) =~= ms@);
    }

    fn record_bindings(&mut self, kernel: &String, bs: &Vec<ReflectedBinding>)
        ensures
            final(self).kernels == old(self).kernels,
            final(self).slot_entries() == old(self).slot_entries() + slot_records(kernel@, bs@),
            final(self).field_entries() == old(self).field_entries() + field_records(bs@),
            final(self).globals@ == old(self).globals@ + zeros(globals_growth(bs@)),
    {
        let globals_name = "$Globals".to_owned();
        let mut i: usize = 0;
        while i < bs.len()
            invariant
                i <= bs@.len(),
                globals_name@ == globals_block_name(),
                self.kernels == old(self).kernels,
                self.slot_entries() == old(self).slot_entries() + slot_records(
                    kernel@,
                    bs@.take(i as int),
                ),
                self.field_entries() == old(self).field_entries() + field_records(
                    bs@.take(i as int),
                ),
                self.globals@ == old(self).globals@ + zeros(globals_growth(bs@.take(i as int))),
            decreases bs@.len() - i,
        {
            let b = &bs[i];
            let ghost se = self.slot_entries();
            let ghost fe = self.field_entries();
            let ghost g0 = self.globals@;
            self.slots.push(
                SlotRecord { kernel: kernel.clone(), resource: b.name.clone(), slot: b.slot },
            );
            assert(self.slot_entries() =~= se.push(((kernel@, b.name@), b.slot)));
            if b.name == globals_name {
                self.record_members(&b.members);
            }
            proof {
                let t = bs@.take(i as int + 1);
                assert(t.drop_last() =~= bs@.take(i as int));
                assert(t.last() == bs@[i as int]);
                assert(self.slot_entries() =~= old(self).slot_entries() + slot_records(kernel@, t));
                if is_globals_block(*b) {
                    assert(self.field_entries() =~= old(self).field_entries() + field_records(t));
                    assert(self.globals@ =~= old(self).globals@ + zeros(globals_growth(t)));
                } else {
                    assert(self.field_entries() =~= old(self).field_entries() + field_records(t));
                    assert(self.globals@ =~= old(self).globals@ + zeros(globals_growth(t)));
                }
            }
            i += 1;
        }
        assert(bs@.take(bs@.len() as int) =~= bs@);
    }

    /// Adds one kernel to the group from its reflected bindings: its index and
    /// name, its layout (one entry per binding at the reflected slot), a slot
    /// record per binding, and for each globals block an offset per member and
    /// that member's size in zero bytes at the end of the globals block.
    /// Fails, changing nothing, on a duplicate index or name or on a binding
    /// with no backend equivalent.
    /// Returns the kernel's layout.
    pub fn add_kernel(&mut self, name: String, index: u32, bindings: &Vec<ReflectedBinding>) -> (r:
        Result<Vec<LayoutEntry>, LoadError>)
        requires
            old(self).wf(),
        ensures
            final(self).wf(),
            match add_outcome(old(self)@, name@, index, bindings@) {
                Ok(v) => r matches Ok(l) && final(self)@ == v && l@ == v.layouts[index],
                Err(e) => r == Err::<Vec<LayoutEntry>, LoadError>(e) && *final(self) == *old(self),
            },
    {
        proof {
            self.lemma_kernel_dom(index);
        }
        if self.position_of_index(index).is_some() {
            return Err(LoadError::DuplicateKernelIndex);
        }
        if self.find_kernel(&name).is_some() {
            return Err(LoadError::DuplicateKernelName);
        }
        let layout = match layout_entries(bindings) {
            Ok(l) => l,
            Err(e) => {
                return Err(LoadError::Layout(e));
            },
        };
        let copy = copy_layout(&layout);
        let ghost old_self = *self;
        proof {
            assert forall|p: int| 0 <= p < self.kernels@.len() implies (
            #[trigger] self.kernels@[p]).name@ != name@ by {
                self.lemma_kernel_at(p);
            }
        }
        self.kernels.push(KernelRecord { index, name: name.clone(), layout });
        assert(self.kernel_records() =~= old_self.kernel_records().push((index, name@)));
        assert(self.layout_records() =~= old_self.layout_records().push((index, layout@)));
        self.record_bindings(&name, bindings);
        proof {
            lemma_fold_push(Map::empty(), old_self.kernel_records(), index, name@);
            lemma_fold_push(Map::empty(), old_self.layout_records(), index, layout@);
            lemma_fold_concat(
                Map::empty(),
                old_self.slot_entries(),
                slot_records(name@, bindings@),
            );
            lemma_fold_concat(Map::empty(), old_self.field_entries(), field_records(bindings@));
        }
        Ok(copy)
    }
}

fn copy_layout(l: &Vec<LayoutEntry>) -> (r: Vec<LayoutEntry>)
    ensures
        r@ == l@,
{
    let mut out: Vec<LayoutEntry> = Vec::new();
    let mut i: usize = 0;
    while i < l.len()
        invariant
            i <= l@.len(),
            out@ == l@.take(i as int),
        decreases l@.len() - i,
    {
        out.push(l[i]);
        assert(out@ =~= l@.take(i as int + 1));
        i += 1;
    }
    assert(l@.take(l@.len() as int) =~= l@);
    out
}

/// The slot a kernel's resource has after loading is the slot reflection
/// reported for the last binding of that name: it is captured once, from the
/// reflected list, whatever the group held before.
pub proof fn lemma_slot_captured_at_load(
    before: Map<(Seq<char>, Seq<char>), u32>,
    kernel: Seq<char>,
    bs: Seq<ReflectedBinding>,
    i: int,
)
    requires
        0 <= i < bs.len(),
        forall|j: int| i < j < bs.len() ==> (#[trigger] bs[j]).name@ != bs[i].name@,
    ensures
        fold_records(before, slot_records(kernel, bs)).contains_key((kernel, bs[i].name@)),
        fold_records(before, slot_records(kernel, bs))[(kernel, bs[i].name@)] == bs[i].slot,
{
    lemma_slot_records_index(kernel, bs);
    let s = slot_records(kernel, bs);
    assert forall|j: int| i < j < s.len() implies (#[trigger] s[j]).0 != s[i].0 by {
        assert(bs[j].name@ != bs[i].name@);
    }
    lemma_fold_last(before, s, i);
}

proof fn lemma_slot_records_index(kernel: Seq<char>, bs: Seq<ReflectedBinding>)
    ensures
        slot_records(kernel, bs).len() == bs.len(),
        forall|i: int|
            0 <= i < bs.len() ==> #[trigger] slot_records(kernel, bs)[i] == ((kernel, bs[i].name@), bs[i].slot),
    decreases bs.len(),
{
    if bs.len() > 0 {
        lemma_slot_records_index(kernel, bs.drop_last());
        assert forall|i: int| 0 <= i < bs.len() implies #[trigger] slot_records(kernel, bs)[i] == (
        (kernel, bs[i].name@), bs[i].slot) by {
            if i < bs.len() - 1 {
                assert(bs.drop_last()[i] == bs[i]);
            }
        }
    }
}

} // verus!
