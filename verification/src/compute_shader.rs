use vstd::prelude::*;
use vstd::string::StringExecFns;

use crate::compute::spec_buffer_type_name;
use crate::text::{decimal_text, spec_decimal};

use crate::compute::{ComputeBindingLayout, ComputeBufferType};
use crate::draw_shader::{find_entry_point, spec_entry_index};
use crate::shader::{
    spec_module_well_formed, MemorySpace, PipelineStage, ResourceBinding, ShaderModule,
};

verus! {

/// A buffer binding a compute shader declares.
#[derive(Clone, Copy, Debug, PartialEq, Eq, Structural)]
pub struct ShaderBufferBinding {
    pub binding: u32,
    pub ty: ComputeBufferType,
}

/// Why a compute shader was refused against its layout.
#[derive(Clone, Debug)]
pub enum ComputeShaderError {
    /// No compute entry point has the configured name.
    MissingEntryPoint(String),
    /// A shader binding has no entry in the layout.
    MissingFromLayout(u32),
    /// A shader binding's type differs from the layout's.
    TypeMismatch { binding: u32, actual: ComputeBufferType, expected: ComputeBufferType },
    /// A layout binding the shader does not declare.
    NotDeclaredInShader(u32),
    /// A resource outside group 0, or not a uniform or storage buffer.
    UnsupportedResource(ResourceBinding),
    /// Two resources share a binding.
    DuplicateResource(u32),
}

/// The buffer type a global variable in `space` is bound as, if it is a buffer.
pub open spec fn spec_space_buffer_type(space: MemorySpace) -> Option<ComputeBufferType> {
    match space {
        MemorySpace::Uniform => Some(ComputeBufferType::Uniform),
        MemorySpace::Storage { store, atomic } => if store || atomic {
            Some(ComputeBufferType::Storage)
        } else {
            Some(ComputeBufferType::ReadOnlyStorage)
        },
        _ => None,
    }
}

/// The buffer bindings among the first `n` global variables, in declaration
/// order, or the first error among them.
pub open spec fn spec_shader_bindings(module: ShaderModule, n: int) -> Result<
    Seq<ShaderBufferBinding>,
    ComputeShaderError,
>
    decreases n,
{
    if n <= 0 {
        Ok(Seq::empty())
    } else {
        match spec_shader_bindings(module, n - 1) {
            Err(e) => Err(e),
            Ok(found) => match module.global_variables@[n - 1].binding {
                None => Ok(found),
                Some(b) => if b.group != 0 {
                    Err(ComputeShaderError::UnsupportedResource(b))
                } else {
                    match spec_space_buffer_type(module.global_variables@[n - 1].space) {
                        None => Err(ComputeShaderError::UnsupportedResource(b)),
                        Some(ty) => if exists|k: int|
                            0 <= k < found.len() && #[trigger] found[k].binding == b.binding {
                            Err(ComputeShaderError::DuplicateResource(b.binding))
                        } else {
                            Ok(found.push(ShaderBufferBinding { binding: b.binding, ty }))
                        },
                    }
                },
            },
        }
    }
}

proof fn lemma_shader_bindings_stuck(module: ShaderModule, i: int, n: int)
    requires
        0 <= i < n,
        spec_shader_bindings(module, i + 1) is Err,
    ensures
        spec_shader_bindings(module, n) == spec_shader_bindings(module, i + 1),
    decreases n,
{
    if i + 1 < n {
        lemma_shader_bindings_stuck(module, i, n - 1);
    }
}

/// The buffer bindings a compute shader declares in group 0, in declaration
/// order; each must be a uniform or storage buffer and have its own binding.
pub fn collect_compute_shader_bindings(module: &ShaderModule) -> (bindings: Result<
    Vec<ShaderBufferBinding>,
    ComputeShaderError,
>)
    ensures
        match spec_shader_bindings(*module, module.global_variables@.len() as int) {
            Ok(s) => bindings matches Ok(v) && v@ == s,
            Err(e) => bindings matches Err(x) && x == e,
        },
{
    let mut found: Vec<ShaderBufferBinding> = Vec::new();
    let ghost n = module.global_variables@.len() as int;
    let mut g: usize = 0;
    while g < module.global_variables.len()
        invariant
            g <= n,
            n == module.global_variables@.len(),
            spec_shader_bindings(*module, g as int) == Ok::<
                Seq<ShaderBufferBinding>,
                ComputeShaderError,
            >(found@),
        decreases n - g,
    {
        let variable = module.global_variables[g];
        if let Some(b) = variable.binding {
            if b.group != 0 {
                proof {
                    lemma_shader_bindings_stuck(*module, g as int, n);
                }
                return Err(ComputeShaderError::UnsupportedResource(b));
            }
            let ty = match variable.space {
                MemorySpace::Uniform => ComputeBufferType::Uniform,
                MemorySpace::Storage { store, atomic } => {
                    if store || atomic {
                        ComputeBufferType::Storage
                    } else {
                        ComputeBufferType::ReadOnlyStorage
                    }
                },
                _ => {
                    proof {
                        lemma_shader_bindings_stuck(*module, g as int, n);
                    }
                    return Err(ComputeShaderError::UnsupportedResource(b));
                },
            };
            let mut k: usize = 0;
            while k < found.len()
                invariant
                    k <= found@.len(),
                    g < n,
                    n == module.global_variables@.len(),
                    variable == module.global_variables@[g as int],
                    variable.binding == Some(b),
                    b.group == 0,
                    spec_space_buffer_type(variable.space) == Some(ty),
                    spec_shader_bindings(*module, g as int) == Ok::<
                        Seq<ShaderBufferBinding>,
                        ComputeShaderError,
                    >(found@),
                    forall|kk: int| 0 <= kk < k ==> #[trigger] found@[kk].binding != b.binding,
                decreases found@.len() - k,
            {
                if found[k].binding == b.binding {
                    proof {
                        assert(found@[k as int].binding == b.binding);
                        lemma_shader_bindings_stuck(*module, g as int, n);
                    }
                    return Err(ComputeShaderError::DuplicateResource(b.binding));
                }
                k = k + 1;
            }
            found.push(ShaderBufferBinding { binding: b.binding, ty });
        }
        g = g + 1;
    }
    Ok(found)
}

/// The type the layout gives `binding`: its last entry for that binding.
pub open spec fn spec_layout_type(layout: Seq<ComputeBindingLayout>, binding: u32, n: int) -> Option<
    ComputeBufferType,
>
    decreases n,
{
    if n <= 0 {
        None
    } else if layout[n - 1].binding == binding {
        Some(layout[n - 1].ty)
    } else {
        spec_layout_type(layout, binding, n - 1)
    }
}

/// Whether a shader binding disagrees with the layout.
pub open spec fn spec_offending(layout: Seq<ComputeBindingLayout>, b: ShaderBufferBinding) -> bool {
    spec_layout_type(layout, b.binding, layout.len() as int) != Some(b.ty)
}

/// The disagreeing shader binding with the smallest binding number among
/// the first `n`.
pub open spec fn spec_min_offending(
    shader: Seq<ShaderBufferBinding>,
    layout: Seq<ComputeBindingLayout>,
    n: int,
) -> Option<ShaderBufferBinding>
    decreases n,
{
    if n <= 0 {
        None
    } else {
        let b = shader[n - 1];
        match spec_min_offending(shader, layout, n - 1) {
            Some(m) => if spec_offending(layout, b) && b.binding < m.binding {
                Some(b)
            } else {
                Some(m)
            },
            None => if spec_offending(layout, b) {
                Some(b)
            } else {
                None
            },
        }
    }
}

/// Whether the shader declares `binding`.
pub open spec fn spec_declared(shader: Seq<ShaderBufferBinding>, binding: u32) -> bool {
    exists|k: int| 0 <= k < shader.len() && #[trigger] shader[k].binding == binding
}

/// The smallest of the first `n` layout bindings the shader does not declare.
pub open spec fn spec_min_undeclared(
    layout: Seq<ComputeBindingLayout>,
    shader: Seq<ShaderBufferBinding>,
    n: int,
) -> Option<u32>
    decreases n,
{
    if n <= 0 {
        None
    } else {
        let binding = layout[n - 1].binding;
        match spec_min_undeclared(layout, shader, n - 1) {
            Some(m) => if !spec_declared(shader, binding) && binding < m {
                Some(binding)
            } else {
                Some(m)
            },
            None => if !spec_declared(shader, binding) {
                Some(binding)
            } else {
                None
            },
        }
    }
}

/// The error a compute shader with the configured entry point raises
/// against its layout, if any: an invalid resource, then the shader binding
/// with the smallest number that the layout lacks or types otherwise, then
/// the smallest layout binding the shader lacks.
pub open spec fn spec_compute_bindings_error(
    module: ShaderModule,
    layout: Seq<ComputeBindingLayout>,
) -> Option<ComputeShaderError> {
    match spec_shader_bindings(module, module.global_variables@.len() as int) {
        Err(e) => Some(e),
        Ok(shader) => match spec_min_offending(shader, layout, shader.len() as int) {
            Some(b) => match spec_layout_type(layout, b.binding, layout.len() as int) {
                None => Some(ComputeShaderError::MissingFromLayout(b.binding)),
                Some(expected) => Some(
                    ComputeShaderError::TypeMismatch { binding: b.binding, actual: b.ty, expected },
                ),
            },
            None => match spec_min_undeclared(layout, shader, layout.len() as int) {
                Some(binding) => Some(ComputeShaderError::NotDeclaredInShader(binding)),
                None => None,
            },
        },
    }
}

fn layout_type(layout: &[ComputeBindingLayout], binding: u32) -> (ty: Option<ComputeBufferType>)
    ensures
        ty == spec_layout_type(layout@, binding, layout@.len() as int),
{
    let mut i: usize = layout.len();
    while i > 0
        invariant
            i <= layout@.len(),
            spec_layout_type(layout@, binding, layout@.len() as int) == spec_layout_type(
                layout@,
                binding,
                i as int,
            ),
        decreases i,
    {
        if layout[i - 1].binding == binding {
            return Some(layout[i - 1].ty);
        }
        i = i - 1;
    }
    None
}

fn declared(shader: &Vec<ShaderBufferBinding>, binding: u32) -> (found: bool)
    ensures
        found == spec_declared(shader@, binding),
{
    let mut k: usize = 0;
    while k < shader.len()
        invariant
            k <= shader@.len(),
            forall|kk: int| 0 <= kk < k ==> #[trigger] shader@[kk].binding != binding,
        decreases shader@.len() - k,
    {
        if shader[k].binding == binding {
            proof {
                assert(shader@[k as int].binding == binding);
            }
            return true;
        }
        k = k + 1;
    }
    false
}

/// Whether `checked` is the outcome of checking a compute shader against
/// its layout: the entry point must exist with the compute stage, else the
/// error names it; then the first binding error, if any, is returned.
pub open spec fn spec_compute_interface(
    module: ShaderModule,
    entry_point: Seq<char>,
    layout: Seq<ComputeBindingLayout>,
    checked: Result<(), ComputeShaderError>,
) -> bool {
    let entries = module.entry_points@;
    match spec_entry_index(entries, entry_point, PipelineStage::Compute, entries.len() as int) {
        None => checked matches Err(ComputeShaderError::MissingEntryPoint(name)) && name@
            == entry_point,
        Some(_) => match spec_compute_bindings_error(module, layout) {
            Some(e) => checked == Err::<(), ComputeShaderError>(e),
            None => checked is Ok,
        },
    }
}

/// Checks a compute shader against the buffer layout of its pipeline: the
/// entry point exists, every buffer the shader binds is in the layout with
/// the same type, and every layout binding is used by the shader.
pub fn validate_compute_interface(
    module: &ShaderModule,
    entry_point: &str,
    layout: &[ComputeBindingLayout],
) -> (checked: Result<(), ComputeShaderError>)
    ensures
        spec_compute_interface(*module, entry_point@, layout@, checked),
{
    if find_entry_point(module, entry_point, PipelineStage::Compute).is_none() {
        return Err(ComputeShaderError::MissingEntryPoint(entry_point.to_owned()));
    }
    let shader = match collect_compute_shader_bindings(module) {
        Ok(shader) => shader,
        Err(e) => return Err(e),
    };
    let mut worst: Option<ShaderBufferBinding> = None;
    let mut i: usize = 0;
    while i < shader.len()
        invariant
            i <= shader@.len(),
            worst == spec_min_offending(shader@, layout@, i as int),
        decreases shader@.len() - i,
    {
        let b = shader[i];
        let offending = match layout_type(layout, b.binding) {
            Some(expected) => expected != b.ty,
            None => true,
        };
        worst = match worst {
            Some(m) => if offending && b.binding < m.binding {
                Some(b)
            } else {
                Some(m)
            },
            None => if offending {
                Some(b)
            } else {
                None
            },
        };
        i = i + 1;
    }
    if let Some(b) = worst {
        return match layout_type(layout, b.binding) {
            None => Err(ComputeShaderError::MissingFromLayout(b.binding)),
            Some(expected) => Err(
                ComputeShaderError::TypeMismatch { binding: b.binding, actual: b.ty, expected },
            ),
        };
    }
    let mut smallest: Option<u32> = None;
    let mut k: usize = 0;
    while k < layout.len()
        invariant
            k <= layout@.len(),
            smallest == spec_min_undeclared(layout@, shader@, k as int),
        decreases layout@.len() - k,
    {
        let binding = layout[k].binding;
        let missing = !declared(&shader, binding);
        smallest = match smallest {
            Some(m) => if missing && binding < m {
                Some(binding)
            } else {
                Some(m)
            },
            None => if missing {
                Some(binding)
            } else {
                None
            },
        };
        k = k + 1;
    }
    match smallest {
        Some(binding) => Err(ComputeShaderError::NotDeclaredInShader(binding)),
        None => Ok(()),
    }
}


/// The message a user is shown for a compute shader refused against its layout.
pub open spec fn spec_compute_shader_message(error: ComputeShaderError) -> Seq<char> {
    match error {
        ComputeShaderError::MissingEntryPoint(name) => "shader is missing required compute entry point \""@ + name@ + "\""@,
        ComputeShaderError::MissingFromLayout(binding) => "shader resource @group(0) @binding("@ + spec_decimal(binding as nat) + ") is missing from compute layout"@,
        ComputeShaderError::TypeMismatch { binding, actual, expected } => "shader resource @group(0) @binding("@ + spec_decimal(binding as nat) + ") is a "@ + spec_buffer_type_name(actual) + ", expected "@ + spec_buffer_type_name(expected),
        ComputeShaderError::NotDeclaredInShader(binding) => "compute layout binding "@ + spec_decimal(binding as nat) + " is not declared in the shader"@,
        ComputeShaderError::UnsupportedResource(b) => "unsupported compute shader resource @group("@ + spec_decimal(b.group as nat) + ") @binding("@ + spec_decimal(b.binding as nat) + ")"@,
        ComputeShaderError::DuplicateResource(binding) => "duplicate shader resource @group(0) @binding("@ + spec_decimal(binding as nat) + ")"@,
    }
}

impl ComputeShaderError {
    /// The message a user is shown for this error.
    pub fn message(&self) -> (text: String)
        ensures
            text@ == spec_compute_shader_message(*self),
    {
        match self {
            ComputeShaderError::MissingEntryPoint(name) => {
                let mut text = String::from_str("shader is missing required compute entry point \"");
                text.append(name.as_str());
                text.append("\"");
                text
            },
            ComputeShaderError::MissingFromLayout(binding) => {
                let mut text = String::from_str("shader resource @group(0) @binding(");
                text.append(decimal_text(*binding as u64).as_str());
                text.append(") is missing from compute layout");
                text
            },
            ComputeShaderError::TypeMismatch { binding, actual, expected } => {
                let mut text = String::from_str("shader resource @group(0) @binding(");
                text.append(decimal_text(*binding as u64).as_str());
                text.append(") is a ");
                text.append(actual.as_str());
                text.append(", expected ");
                text.append(expected.as_str());
                text
            },
            ComputeShaderError::NotDeclaredInShader(binding) => {
                let mut text = String::from_str("compute layout binding ");
                text.append(decimal_text(*binding as u64).as_str());
                text.append(" is not declared in the shader");
                text
            },
            ComputeShaderError::UnsupportedResource(b) => {
                let mut text = String::from_str("unsupported compute shader resource @group(");
                text.append(decimal_text(b.group as u64).as_str());
                text.append(") @binding(");
                text.append(decimal_text(b.binding as u64).as_str());
                text.append(")");
                text
            },
            ComputeShaderError::DuplicateResource(binding) => {
                let mut text = String::from_str("duplicate shader resource @group(0) @binding(");
                text.append(decimal_text(*binding as u64).as_str());
                text.append(")");
                text
            },
        }
    }
}

} // verus!
