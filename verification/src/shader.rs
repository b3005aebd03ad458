//! Shader modules, programs, and the reflected attribute table.
//!
//! The adapter consumes already-compiled shader binaries together with
//! the binary's reflected input variables, which the shader front-end
//! collaborator recovers.  For vertex modules the attribute table keeps
//! exactly the input variables that carry the one-character input naming
//! prefix `a` (which also excludes the builtins); the prefix is stripped
//! so that later name lookups match.

use crate::error::GpuError;
use vstd::prelude::*;

verus! {

/// The pipeline stage a shader module is compiled for.
#[derive(Debug, Clone, Copy, PartialEq, Eq, Structural)]
pub enum ShaderKind {
    Vertex,
    Fragment,
    Compute,
}

/// A compiled shader module: its native resource identifier, and — for
/// vertex modules — the reflected attribute table.
#[derive(Debug)]
pub struct WebGpuShader {
    pub name: Option<String>,
    /// Stripped attribute name to shader input location; `Some` exactly
    /// for vertex-kind modules.
    pub shader_vertex_attributes: Option<Vec<(String, u32)>>,
    pub kind: ShaderKind,
    /// The native shader module's resource identifier.
    pub module: u64,
}

/// The shaders a program is built from.
#[derive(Debug)]
pub enum ProgramKind {
    Raster { vertex: WebGpuShader, fragment: WebGpuShader },
    Compute(WebGpuShader),
}

/// An immutable raster program: one vertex and one fragment module.
#[derive(Debug)]
pub struct WebGpuProgram {
    pub name: Option<String>,
    pub vertex_shader: WebGpuShader,
    pub fragment_shader: WebGpuShader,
}

/// A named uniform handle; uniform binding resolution itself is an
/// acknowledged unimplemented capability.
#[derive(Debug, PartialEq, Eq)]
pub struct WebGpuUniform {
    pub name: String,
}

/// The attribute table of a list of reflected inputs: the inputs whose
/// name starts with the input prefix `a`, in order, with the prefix
/// stripped.
pub open spec fn spec_attr_table(inputs: Seq<(Seq<char>, u32)>) -> Seq<(Seq<char>, u32)>
    decreases inputs.len(),
{
    if inputs.len() == 0 {
        Seq::empty()
    } else {
        let rest = spec_attr_table(inputs.drop_last());
        let last = inputs.last();
        if last.0.len() > 0 && last.0[0] == 'a' {
            rest.push((last.0.subrange(1, last.0.len() as int), last.1))
        } else {
            rest
        }
    }
}

/// Builds the attribute table from the reflected inputs, keeping exactly
/// the prefixed names, stripped of the prefix.
pub fn attr_table(inputs: &Vec<(String, u32)>) -> (r: Vec<(String, u32)>)
    ensures
        r.deep_view() == spec_attr_table(inputs.deep_view()),
{
    let ghost all = inputs.deep_view();
    let mut table: Vec<(String, u32)> = Vec::new();
    let mut i: usize = 0;
    while i < inputs.len()
        invariant
            i <= inputs.len(),
            all == inputs.deep_view(),
            table.deep_view() == spec_attr_table(all.take(i as int)),
        decreases inputs.len() - i,
    {
        proof {
            assert(all.take(i + 1).drop_last() =~= all.take(i as int));
            assert(all.take(i + 1).last() == inputs@[i as int].deep_view());
        }
        let name: &String = &inputs[i].0;
        let name_len = name.as_str().unicode_len();
        if name_len >= 1 && name.as_str().get_char(0) == 'a' {
            let stripped = name.as_str().substring_char(1, name_len).to_owned();
            let location = inputs[i].1;
            table.push((stripped, location));
            proof {
                assert(table.deep_view() =~= spec_attr_table(all.take(i + 1)));
            }
        } else {
            proof {
                assert(table.deep_view() == spec_attr_table(all.take(i + 1)));
            }
        }
        i = i + 1;
    }
    proof {
        assert(all.take(inputs.deep_view().len() as int) =~= all);
    }
    table
}

/// The location an attribute table gives a name; when a name occurs more
/// than once, the later entry wins.
pub open spec fn spec_lookup_location(table: Seq<(Seq<char>, u32)>, name: Seq<char>) -> Option<
    u32,
>
    decreases table.len(),
{
    if table.len() == 0 {
        None
    } else if table.last().0 == name {
        Some(table.last().1)
    } else {
        spec_lookup_location(table.drop_last(), name)
    }
}

/// Looks a name up in an attribute table.
pub fn lookup_location(table: &Vec<(String, u32)>, name: &str) -> (r: Option<u32>)
    ensures
        r == spec_lookup_location(table.deep_view(), name@),
{
    let ghost all = table.deep_view();
    let owned_name: String = name.to_owned();
    let mut i: usize = table.len();
    proof {
        assert(all.take(table@.len() as int) =~= all);
    }
    while i > 0
        invariant
            i <= table.len(),
            all == table.deep_view(),
            owned_name@ == name@,
            spec_lookup_location(all, name@) == spec_lookup_location(all.take(i as int), name@),
        decreases i,
    {
        i = i - 1;
        proof {
            assert(all.take(i + 1).drop_last() =~= all.take(i as int));
            assert(all.take(i + 1).last() == table@[i as int].deep_view());
        }
        if table[i].0 == owned_name {
            return Some(table[i].1);
        }
    }
    None
}

/// The conventional file-name suffix letter of each shader kind.
pub open spec fn spec_shader_suffix(kind: ShaderKind) -> char {
    match kind {
        ShaderKind::Vertex => 'v',
        ShaderKind::Fragment => 'f',
        ShaderKind::Compute => 'c',
    }
}

/// The suffix letter naming a shader kind in compiled-binary file names.
pub fn shader_suffix(kind: ShaderKind) -> (r: char)
    ensures
        r == spec_shader_suffix(kind),
{
    match kind {
        ShaderKind::Vertex => 'v',
        ShaderKind::Fragment => 'f',
        ShaderKind::Compute => 'c',
    }
}

/// The byte length of one native shader instruction word.
pub open spec fn spec_shader_word_len() -> int {
    4
}

/// Whether a shader binary is a whole number of instruction words.
pub open spec fn spec_shader_binary_well_formed(binary: Seq<u8>) -> bool {
    binary.len() % 4 == 0
}

} // verus!
