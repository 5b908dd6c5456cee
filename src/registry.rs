use vstd::prelude::*;
use crate::bytecode::{LoadedKernel, compiles_to_hlsl, hlsl_of, load_kernel, words_of};
use crate::group::{GroupView, KernelStruct, LoadError, add_outcome};
use crate::reflection::ReflectedBinding;
use crate::table::{
    fold_records, has_key, lemma_fold_dom, lemma_fold_last, lemma_fold_push,
    lemma_fold_unique_update, unique_keys,
};

verus! {

/// The table of kernel groups, by group name. A group is either available or
/// checked out; a checked-out group keeps its name until it is restored.
pub struct Kernels {
    names: Vec<String>,
    groups: Vec<Option<KernelStruct>>,
}

/// One kernel of the shader table: its group, name, index, bytecode and the
/// bindings reflection found in it.
#[derive(Debug)]
pub struct KernelSource {
    pub group: String,
    pub kernel: String,
    pub index: u32,
    pub bytecode: Vec<u8>,
    pub bindings: Vec<ReflectedBinding>,
}

/// What loading one kernel does to the registry, or why it is refused.
pub open spec fn load_step(m: Map<Seq<char>, Option<GroupView>>, s: KernelSource) -> Result<
    Map<Seq<char>, Option<GroupView>>,
    LoadError,
> {
    let g = s.group@;
    if !m.contains_key(g) {
        Err(LoadError::UnknownGroup)
    } else if m[g] is None {
        Err(LoadError::GroupCheckedOut)
    } else if s.bytecode@.len() % 4 != 0 {
        Err(LoadError::MisalignedBytecode)
    } else if !compiles_to_hlsl(words_of(s.bytecode@)) {
        Err(LoadError::CrossCompileFailed)
    } else {
        match add_outcome(m[g]->Some_0, s.kernel@, s.index, s.bindings@) {
            Ok(v) => Ok(m.insert(g, Some(v))),
            Err(e) => Err(e),
        }
    }
}

/// What loading a list of kernels in order does to the registry, or the first
/// refusal.
pub open spec fn load_all_spec(m: Map<Seq<char>, Option<GroupView>>, srcs: Seq<KernelSource>) -> Result<
    Map<Seq<char>, Option<GroupView>>,
    LoadError,
>
    decreases srcs.len(),
{
    if srcs.len() == 0 {
        Ok(m)
    } else {
        match load_all_spec(m, srcs.drop_last()) {
            Err(e) => Err(e),
            Ok(m2) => load_step(m2, srcs.last()),
        }
    }
}

/// The (index, name) records of the kernels that a list assigns to group `g`.
pub open spec fn group_kernels(srcs: Seq<KernelSource>, g: Seq<char>) -> Seq<(u32, Seq<char>)>
    decreases srcs.len(),
{
    if srcs.len() == 0 {
        Seq::empty()
    } else if srcs.last().group@ == g {
        group_kernels(srcs.drop_last(), g).push((srcs.last().index, srcs.last().kernel@))
    } else {
        group_kernels(srcs.drop_last(), g)
    }
}

/// After a successful load of a list of kernels, each group's index-to-name
/// table is the one it started with, extended by exactly the list's kernels
/// of that group (for a declared, empty group: exactly those kernels).
pub proof fn lemma_loaded_kernel_tables(
    m0: Map<Seq<char>, Option<GroupView>>,
    srcs: Seq<KernelSource>,
    g: Seq<char>,
)
    requires
        load_all_spec(m0, srcs) is Ok,
        available(m0, g),
    ensures
        available(load_all_spec(m0, srcs)->Ok_0, g),
        load_all_spec(m0, srcs)->Ok_0[g]->Some_0.kernels == fold_records(
            m0[g]->Some_0.kernels,
            group_kernels(srcs, g),
        ),
    decreases srcs.len(),
{
    if srcs.len() > 0 {
        lemma_loaded_kernel_tables(m0, srcs.drop_last(), g);
        let m2 = load_all_spec(m0, srcs.drop_last())->Ok_0;
        let s = srcs.last();
        if s.group@ == g {
            lemma_fold_push(
                m0[g]->Some_0.kernels,
                group_kernels(srcs.drop_last(), g),
                s.index,
                s.kernel@,
            );
        }
    }
}

proof fn lemma_load_all_fail_prefix(m: Map<Seq<char>, Option<GroupView>>, srcs: Seq<KernelSource>, n: int)
    requires
        0 <= n <= srcs.len(),
        load_all_spec(m, srcs.take(n)) is Err,
    ensures
        load_all_spec(m, srcs) == load_all_spec(m, srcs.take(n)),
    decreases srcs.len() - n,
{
    if n < srcs.len() {
        assert(srcs.take(n + 1).drop_last() == srcs.take(n));
        lemma_load_all_fail_prefix(m, srcs, n + 1);
    } else {
        assert(srcs.take(n) == srcs);
    }
}

/// Why the registry refused a request.
#[derive(Debug, Clone, Copy, PartialEq, Eq, Structural, Hash)]
pub enum RegistryError {
    /// A group of that name is already registered.
    DuplicateGroup,
    /// No group of that name is checked out.
    NotCheckedOut,
}

/// Whether the group of that name is registered and not checked out.
pub open spec fn available(m: Map<Seq<char>, Option<GroupView>>, name: Seq<char>) -> bool {
    m.contains_key(name) && m[name] is Some
}

/// Whether the group of that name is registered and checked out.
pub open spec fn checked_out(m: Map<Seq<char>, Option<GroupView>>, name: Seq<char>) -> bool {
    m.contains_key(name) && m[name] is None
}

pub open spec fn group_view_of(g: Option<KernelStruct>) -> Option<GroupView> {
    match g {
        Some(g) => Some(g@),
        None => None,
    }
}

impl View for Kernels {
    /// Group name to the group's view, or `None` while it is checked out.
    type V = Map<Seq<char>, Option<GroupView>>;

    closed spec fn view(&self) -> Map<Seq<char>, Option<GroupView>> {
        fold_records(Map::empty(), self.records())
    }
}

impl Kernels {
    closed spec fn records(&self) -> Seq<(Seq<char>, Option<GroupView>)> {
        Seq::new(self.names@.len(), |i: int| (self.names@[i]@, group_view_of(self.groups@[i])))
    }

    /// Names are unique, and every available group is well formed.
    pub closed spec fn wf(&self) -> bool {
        &&& self.names@.len() == self.groups@.len()
        &&& unique_keys(self.records())
        &&& forall|i: int|
            0 <= i < self.groups@.len() ==> (#[trigger] self.groups@[i] matches Some(g) ==> g.wf())
    }

    /// An empty registry.
    pub fn new() -> (r: Kernels)
        ensures
            r.wf(),
            r@ == Map::<Seq<char>, Option<GroupView>>::empty(),
    {
        let r = Kernels { names: Vec::new(), groups: Vec::new() };
        assert(r.records() =~= Seq::empty());
        r
    }

    fn position_of(&self, name: &String) -> (r: Option<usize>)
        requires
            self.wf(),
        ensures
            match r {
                Some(p) => p < self.names@.len() && self.names@[p as int]@ == name@,
                None => !self@.contains_key(name@),
            },
    {
        let mut p: usize = 0;
        while p < self.names.len()
            invariant
                p <= self.names@.len(),
                forall|q: int| 0 <= q < p ==> (#[trigger] self.names@[q])@ != name@,
            decreases self.names@.len() - p,
        {
            if self.names[p] == *name {
                return Some(p);
            }
            p += 1;
        }
        proof {
            lemma_fold_dom(Map::empty(), self.records(), name@);
            if has_key(self.records(), name@) {
                let q = choose|q: int|
                    0 <= q < self.records().len() && (#[trigger] self.records()[q]).0 == name@;
                assert(self.names@[q]@ == name@);
            }
        }
        None
    }

    proof fn lemma_record_at(&self, p: int)
        requires
            self.wf(),
            0 <= p < self.names@.len(),
        ensures
            self@.contains_key(self.names@[p]@),
            self@[self.names@[p]@] == group_view_of(self.groups@[p]),
    {
        let s = self.records();
        assert forall|j: int| p < j < s.len() implies (#[trigger] s[j]).0 != s[p].0 by {}
        lemma_fold_last(Map::empty(), s, p);
    }

    /// Registers a group under a new name. A name that is already registered,
    /// whether or not its group is checked out, is refused.
    pub fn register(&mut self, name: String, group: KernelStruct) -> (r: Result<(), RegistryError>)
        requires
            old(self).wf(),
            group.wf(),
        ensures
            final(self).wf(),
            old(self)@.contains_key(name@) ==> r == Err::<(), RegistryError>(
                RegistryError::DuplicateGroup,
            ) && final(self)@ == old(self)@,
            !old(self)@.contains_key(name@) ==> r is Ok && final(self)@ == old(self)@.insert(
                name@,
                Some(group@),
            ),
    {
        if let Some(p) = self.position_of(&name) {
            proof {
                self.lemma_record_at(p as int);
            }
            return Err(RegistryError::DuplicateGroup);
        }
        let ghost s = self.records();
        proof {
            lemma_fold_dom(Map::empty(), s, name@);
        }
        let ghost gv = group@;
        self.names.push(name);
        self.groups.push(Some(group));
        assert(self.records() =~= s.push((name@, Some(gv))));
        proof {
            lemma_fold_push(Map::empty(), s, name@, Some(gv));
            assert forall|i: int| 0 <= i < s.len() implies (#[trigger] s[i]).0 != name@ by {
                assert(!has_key(s, name@));
            }
        }
        Ok(())
    }

    /// Takes the group of that name out of the registry, leaving the name
    /// checked out. `None` when no such group is available.
    pub fn checkout(&mut self, name: &String) -> (r: Option<KernelStruct>)
        requires
            old(self).wf(),
        ensures
            final(self).wf(),
            r is Some <==> available(old(self)@, name@),
            match r {
                Some(g) => g.wf() && Some(g@) == old(self)@[name@] && final(self)@ == old(self)@.insert(name@, None),
                None => final(self)@ == old(self)@,
            },
    {
        let p = match self.position_of(name) {
            Some(p) => p,
            None => {
                return None;
            },
        };
        proof {
            self.lemma_record_at(p as int);
        }
        if self.groups[p].is_none() {
            return None;
        }
        let ghost s = self.records();
        let ghost old_groups = self.groups@;
        let g = self.groups.remove(p);
        self.groups.insert(p, None);
        assert(self.groups@ =~= old_groups.update(p as int, None));
        assert(self.records() =~= s.update(p as int, (s[p as int].0, None)));
        proof {
            lemma_fold_unique_update(s, p as int, None);
            assert forall|i: int, j: int|
                0 <= i < j < self.records().len() implies (#[trigger] self.records()[i]).0 != (
            #[trigger] self.records()[j]).0 by {
                assert(s[i].0 != s[j].0);
            }
            assert forall|i: int| 0 <= i < self.groups@.len() implies (
            #[trigger] self.groups@[i] matches Some(h) ==> h.wf()) by {
                if i != p {
                    assert(self.groups@[i] == old_groups[i]);
                }
            }
            assert(old_groups[p as int] == g);
        }
        g
    }

    /// Puts a checked-out group back under its name, making it available again.
    /// Refused when no group of that name is checked out.
    pub fn restore(&mut self, name: &String, group: KernelStruct) -> (r: Result<(), RegistryError>)
        requires
            old(self).wf(),
            group.wf(),
        ensures
            final(self).wf(),
            r is Ok <==> checked_out(old(self)@, name@),
            r is Ok ==> final(self)@ == old(self)@.insert(name@, Some(group@)),
            r is Err ==> r == Err::<(), RegistryError>(RegistryError::NotCheckedOut) && final(self)@ == old(self)@,
    {
        let p = match self.position_of(name) {
            Some(p) => p,
            None => {
                return Err(RegistryError::NotCheckedOut);
            },
        };
        proof {
            self.lemma_record_at(p as int);
        }
        if self.groups[p].is_some() {
            return Err(RegistryError::NotCheckedOut);
        }
        let ghost s = self.records();
        let ghost old_groups = self.groups@;
        let ghost gv = group@;
        self.groups.set(p, Some(group));
        assert(self.records() =~= s.update(p as int, (s[p as int].0, Some(gv))));
        proof {
            lemma_fold_unique_update(s, p as int, Some(gv));
            assert forall|i: int, j: int|
                0 <= i < j < self.records().len() implies (#[trigger] self.records()[i]).0 != (
            #[trigger] self.records()[j]).0 by {
                assert(s[i].0 != s[j].0);
            }
            assert forall|i: int| 0 <= i < self.groups@.len() implies (
            #[trigger] self.groups@[i] matches Some(h) ==> h.wf()) by {
                if i != p {
                    assert(self.groups@[i] == old_groups[i]);
                }
            }
        }
        Ok(())
    }
    /// Loads one kernel into the named group. The known groups are those
    /// registered beforehand (`register` with an empty group declares one); a
    /// name outside them is refused, as is a checked-out group. Returns the
    /// kernel's HLSL text and layout. Nothing changes on failure.
    pub fn load_kernel(
        &mut self,
        group_name: &String,
        kernel: String,
        index: u32,
        bytecode: &[u8],
        bindings: &Vec<ReflectedBinding>,
    ) -> (r: Result<LoadedKernel, LoadError>)
        requires
            old(self).wf(),
        ensures
            final(self).wf(),
            r is Err ==> final(self)@ == old(self)@,
            !old(self)@.contains_key(group_name@) ==> r == Err::<LoadedKernel, LoadError>(
                LoadError::UnknownGroup,
            ),
            checked_out(old(self)@, group_name@) ==> r == Err::<LoadedKernel, LoadError>(
                LoadError::GroupCheckedOut,
            ),
            available(old(self)@, group_name@) && bytecode@.len() % 4 != 0 ==> r == Err::<
                LoadedKernel,
                LoadError,
            >(LoadError::MisalignedBytecode),
            available(old(self)@, group_name@) && bytecode@.len() % 4 == 0 && !compiles_to_hlsl(
                words_of(bytecode@),
            ) ==> r == Err::<LoadedKernel, LoadError>(LoadError::CrossCompileFailed),
            available(old(self)@, group_name@) && bytecode@.len() % 4 == 0 && compiles_to_hlsl(
                words_of(bytecode@),
            ) ==> match add_outcome(old(self)@[group_name@]->Some_0, kernel@, index, bindings@) {
                Ok(v) => r matches Ok(k) && k.hlsl@ == hlsl_of(words_of(bytecode@)) && k.layout@
                    == v.layouts[index] && final(self)@ == old(self)@.insert(group_name@, Some(v)),
                Err(e) => r == Err::<LoadedKernel, LoadError>(e),
            },
    {
        let p = match self.position_of(group_name) {
            Some(p) => p,
            None => {
                return Err(LoadError::UnknownGroup);
            },
        };
        proof {
            self.lemma_record_at(p as int);
        }
        let mut group = match self.checkout(group_name) {
            Some(g) => g,
            None => {
                return Err(LoadError::GroupCheckedOut);
            },
        };
        let ghost before = group;
        let r = load_kernel(&mut group, kernel, index, bytecode, bindings);
        let _ = self.restore(group_name, group);
        proof {
            if r is Err {
                assert(old(self)@.insert(group_name@, None).insert(group_name@, Some(before@))
                    =~= old(self)@);
            }
            assert(old(self)@.insert(group_name@, None).insert(group_name@, Some(group@))
                =~= old(self)@.insert(group_name@, Some(group@)));
        }
        r
    }

    /// Loads a list of kernels in order, each as `load_kernel` does, stopping at
    /// the first refusal. Returns each kernel's HLSL text and layout, in order.
    pub fn load_all(&mut self, sources: &Vec<KernelSource>) -> (r: Result<Vec<LoadedKernel>, LoadError>)
        requires
            old(self).wf(),
        ensures
            final(self).wf(),
            match load_all_spec(old(self)@, sources@) {
                Ok(m) => r matches Ok(ks) && final(self)@ == m && ks@.len() == sources@.len() && forall|
                    k: int,
                | 0 <= k < ks@.len() ==> (#[trigger] ks@[k]).hlsl@ == hlsl_of(
                    words_of(sources@[k].bytecode@),
                ),
                Err(e) => r == Err::<Vec<LoadedKernel>, LoadError>(e),
            },
    {
        let mut out: Vec<LoadedKernel> = Vec::new();
        let mut i: usize = 0;
        while i < sources.len()
            invariant
                i <= sources@.len(),
                self.wf(),
                load_all_spec(old(self)@, sources@.take(i as int)) == Ok::<
                    Map<Seq<char>, Option<GroupView>>,
                    LoadError,
                >(self@),
                out@.len() == i,
                forall|k: int|
                    0 <= k < i ==> (#[trigger] out@[k]).hlsl@ == hlsl_of(
                        words_of(sources@[k].bytecode@),
                    ),
            decreases sources@.len() - i,
        {
            let src = &sources[i];
            proof {
                assert(sources@.take(i as int + 1).drop_last() =~= sources@.take(i as int));
                assert(sources@.take(i as int + 1).last() == sources@[i as int]);
            }
            match self.load_kernel(
                &src.group,
                src.kernel.clone(),
                src.index,
                src.bytecode.as_slice(),
                &src.bindings,
            ) {
                Ok(k) => {
                    out.push(k);
                },
                Err(e) => {
                    proof {
                        lemma_load_all_fail_prefix(old(self)@, sources@, i as int + 1);
                    }
                    return Err(e);
                },
            }
            i += 1;
        }
        assert(sources@.take(sources@.len() as int) =~= sources@);
        Ok(out)
    }
}

/// A name that was never registered cannot be checked out; a checkout leaves
/// the name checked out, so a second checkout fails until the group is
/// restored; and restoring it makes it available once more.
pub proof fn lemma_checkout_exclusive(m: Map<Seq<char>, Option<GroupView>>, name: Seq<char>, g: GroupView)
    ensures
        !m.contains_key(name) ==> !available(m, name),
        !available(m.insert(name, None), name),
        checked_out(m.insert(name, None), name),
        available(m.insert(name, None).insert(name, Some(g)), name),
{
}

} // verus!
