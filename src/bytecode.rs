use vstd::prelude::*;
use crate::group::{GroupView, KernelStruct, LoadError, add_outcome};
use crate::reflection::{LayoutEntry, ReflectedBinding};

verus! {

/// The 32-bit word `i` of a byte sequence, read little-endian.
pub open spec fn le_word(b: Seq<u8>, i: int) -> u32 {
    (b[4 * i] as int + 256 * b[4 * i + 1] as int + 65536 * b[4 * i + 2] as int + 16777216 * b[4
        * i + 3] as int) as u32
}

/// The words of a byte sequence whose length is a multiple of four.
pub open spec fn words_of(b: Seq<u8>) -> Seq<u32> {
    Seq::new(b.len() / 4, |i: int| le_word(b, i))
}

/// Reads bytecode as little-endian 32-bit words. `None` when the length is
/// not a multiple of four.
pub fn words_from_bytes(bytes: &[u8]) -> (r: Option<Vec<u32>>)
    ensures
        r is Some <==> bytes@.len() % 4 == 0,
        r matches Some(w) ==> w@ == words_of(bytes@),
{
    if bytes.len() % 4 != 0 {
        return None;
    }
    let len = bytes.len();
    let n = len / 4;
    let mut out: Vec<u32> = Vec::new();
    let mut i: usize = 0;
    while i < n
        invariant
            len == bytes@.len(),
            4 * n == len,
            i <= n,
            out@.len() == i,
            forall|k: int| 0 <= k < i ==> #[trigger] out@[k] == le_word(bytes@, k),
        decreases n - i,
    {
        let b0 = bytes[4 * i] as u32;
        let b1 = bytes[4 * i + 1] as u32;
        let b2 = bytes[4 * i + 2] as u32;
        let b3 = bytes[4 * i + 3] as u32;
        let w = b0 + 256 * b1 + 65536 * b2 + 16777216 * b3;
        out.push(w);
        i += 1;
    }
    assert(out@ =~= words_of(bytes@));
    Some(out)
}

/// The id of the first `OpEntryPoint` at or after word `i` of a SPIR-V
/// instruction stream; `None` when there is none, or when an instruction's
/// word count is zero or runs past the end.
pub open spec fn entry_point_at(words: Seq<u32>, i: int) -> Option<u32>
    decreases words.len() - i,
{
    if i < 0 || i >= words.len() {
        None
    } else {
        let count = (words[i] / 65536) as int;
        if count == 0 || i + count > words.len() {
            None
        } else if words[i] % 65536 == 15 && count >= 3 {
            Some(words[i + 2])
        } else {
            entry_point_at(words, i + count)
        }
    }
}

/// The operands of the first `OpExecutionMode entry LocalSize x y z`
/// instruction for the given entry point at or after word `i`; `None` when
/// there is none, or when an instruction's word count is zero or runs past the
/// end.
pub open spec fn local_size_at(words: Seq<u32>, entry: u32, i: int) -> Option<(u32, u32, u32)>
    decreases words.len() - i,
{
    if i < 0 || i >= words.len() {
        None
    } else {
        let count = (words[i] / 65536) as int;
        if count == 0 || i + count > words.len() {
            None
        } else if words[i] % 65536 == 16 && count >= 6 && words[i + 1] == entry && words[i + 2]
            == 17 {
            Some((words[i + 3], words[i + 4], words[i + 5]))
        } else {
            local_size_at(words, entry, i + count)
        }
    }
}

/// The workgroup size that a SPIR-V module declares for its first entry
/// point; instructions start after the five-word header.
pub open spec fn local_size_spec(words: Seq<u32>) -> Option<(u32, u32, u32)> {
    match entry_point_at(words, 5) {
        Some(entry) => local_size_at(words, entry, 5),
        None => None,
    }
}

fn first_entry_point(words: &Vec<u32>) -> (r: Option<u32>)
    ensures
        r == entry_point_at(words@, 5),
{
    let len = words.len();
    let mut i: usize = 5;
    while i < len
        invariant
            len == words@.len(),
            5 <= i,
            entry_point_at(words@, i as int) == entry_point_at(words@, 5),
        decreases len - i,
    {
        let count = (words[i] / 65536) as usize;
        if count == 0 || count > len - i {
            return None;
        }
        if words[i] % 65536 == 15 && count >= 3 {
            return Some(words[i + 2]);
        }
        i += count;
    }
    None
}

/// Finds the `LocalSize` workgroup size that a SPIR-V module declares for its
/// first entry point. A size given through `LocalSizeId` is not resolved.
pub fn local_size(words: &Vec<u32>) -> (r: Option<(u32, u32, u32)>)
    ensures
        r == local_size_spec(words@),
{
    let entry = match first_entry_point(words) {
        Some(e) => e,
        None => {
            return None;
        },
    };
    let len = words.len();
    let mut i: usize = 5;
    while i < len
        invariant
            len == words@.len(),
            5 <= i,
            entry_point_at(words@, 5) == Some(entry),
            local_size_at(words@, entry, i as int) == local_size_spec(words@),
        decreases len - i,
    {
        let count = (words[i] / 65536) as usize;
        if count == 0 || count > len - i {
            return None;
        }
        if words[i] % 65536 == 16 && count >= 6 && words[i + 1] == entry && words[i + 2] == 17 {
            return Some((words[i + 3], words[i + 4], words[i + 5]));
        }
        i += count;
    }
    None
}

/// The HLSL text that SPIRV-Cross produces for a SPIR-V module, at shader
/// model 6.8 with 16-bit types enabled.
pub uninterp spec fn hlsl_of(words: Seq<u32>) -> Seq<char>;

/// Whether SPIRV-Cross accepts a SPIR-V module for HLSL at those options.
pub uninterp spec fn compiles_to_hlsl(words: Seq<u32>) -> bool;

/// Relies on spirv_cross2 (`Module::from_words`, `Compiler::<Hlsl>::new`,
/// `compile`, and the artifact's `Display`): cross-compiles SPIR-V words to
/// HLSL. Whether it succeeds, and the text, depend on the words and the fixed
/// options alone.
#[verifier::external_body]
fn cross_compile_hlsl(words: &Vec<u32>) -> (r: Option<String>)
    ensures
        r is Some <==> compiles_to_hlsl(words@),
        r matches Some(t) ==> t@ == hlsl_of(words@),
{
    let module = spirv_cross2::Module::from_words(words.as_slice());
    let compiler = spirv_cross2::Compiler::<spirv_cross2::targets::Hlsl>::new(module).ok()?;
    let mut options =
        <spirv_cross2::targets::Hlsl as spirv_cross2::compile::CompilableTarget>::options();
    options.shader_model = spirv_cross2::compile::hlsl::HlslShaderModel::ShaderModel6_8;
    options.enable_16bit_types = true;
    let artifact = compiler.compile(&options).ok()?;
    Some(artifact.to_string())
}

/// A loaded kernel: its HLSL text and its binding layout, from which the
/// caller builds the native shader module and bind group layout.
#[derive(Debug)]
pub struct LoadedKernel {
    pub hlsl: String,
    pub layout: Vec<LayoutEntry>,
}

/// Loads one kernel into a group: reads its bytecode as words, cross-compiles
/// it to HLSL, and adds the kernel with its reflected bindings. Nothing
/// changes on failure.
pub fn load_kernel(
    group: &mut KernelStruct,
    name: String,
    index: u32,
    bytecode: &[u8],
    bindings: &Vec<ReflectedBinding>,
) -> (r: Result<LoadedKernel, LoadError>)
    requires
        old(group).wf(),
    ensures
        final(group).wf(),
        r is Err ==> *final(group) == *old(group),
        bytecode@.len() % 4 != 0 ==> r == Err::<LoadedKernel, LoadError>(
            LoadError::MisalignedBytecode,
        ),
        bytecode@.len() % 4 == 0 && !compiles_to_hlsl(words_of(bytecode@)) ==> r == Err::<
            LoadedKernel,
            LoadError,
        >(LoadError::CrossCompileFailed),
        bytecode@.len() % 4 == 0 && compiles_to_hlsl(words_of(bytecode@)) ==> match add_outcome(
            old(group)@,
            name@,
            index,
            bindings@,
        ) {
            Ok(v) => r matches Ok(k) && k.hlsl@ == hlsl_of(words_of(bytecode@)) && k.layout@
                == v.layouts[index] && final(group)@ == v,
            Err(e) => r == Err::<LoadedKernel, LoadError>(e),
        },
{
    let words = match words_from_bytes(bytecode) {
        Some(w) => w,
        None => {
            return Err(LoadError::MisalignedBytecode);
        },
    };
    let hlsl = match cross_compile_hlsl(&words) {
        Some(t) => t,
        None => {
            return Err(LoadError::CrossCompileFailed);
        },
    };
    match group.add_kernel(name, index, bindings) {
        Ok(layout) => Ok(LoadedKernel { hlsl, layout }),
        Err(e) => Err(e),
    }
}

} // verus!
