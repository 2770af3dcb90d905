use std::collections::BTreeSet;
use vstd::prelude::*;
use vstd::string::StringExecFns;

use crate::text::{decimal_text, spec_decimal};

use crate::compute::{spec_buffer_type_name, spec_required_usage_bits, ComputeBindingLayout, ComputeBufferType};
use crate::draw::Compute;
use crate::gpu::{BufferUsages, Device};

verus! {

/// The sampled resources a draw shader declares.
#[derive(Clone, Copy, Debug, PartialEq, Eq, Structural)]
pub enum ShaderResourceLayout {
    NoResources,
    TextureSampler { group: u32, texture_binding: u32, sampler_binding: u32 },
    Uniform { group: u32, binding: u32 },
}

/// Why a bind group was refused.
#[derive(Clone, Copy, Debug, PartialEq, Eq, Structural)]
pub enum BindGroupError {
    /// The texture and sampler bindings differ from the ones the shader declares.
    TextureBindingsMismatch { group: u32, texture_binding: u32, sampler_binding: u32 },
    /// The shader declares no sampled texture and sampler.
    NoTextureSampler,
    /// The uniform binding differs from the one the shader declares.
    UniformBindingMismatch { group: u32, binding: u32 },
    /// The shader declares no uniform buffer.
    NoUniformBuffer,
    /// The compute pipeline declares no buffer bindings.
    NoBufferBindings,
    /// Two entries share a binding.
    DuplicateBinding(u32),
    /// An entry's binding is not in the compute layout.
    UnexpectedBinding(u32),
    /// The buffer lacks the usage its binding type needs.
    MissingUsage { binding: u32, ty: ComputeBufferType },
    /// The offset is not a multiple of the device's offset alignment.
    MisalignedOffset { binding: u32, alignment: u64 },
    /// The offset lies past the end of the buffer.
    OffsetExceedsBuffer(u32),
    /// An explicit binding size of zero.
    ZeroBindingSize(u32),
    /// The bound range runs past the end of the buffer.
    BindingExceedsBuffer(u32),
    /// The bound range is empty.
    EmptyBinding(u32),
    /// The bound range is smaller than the layout's minimum binding size.
    BelowMinBindingSize { binding: u32, min_binding_size: u64 },
    /// A uniform binding whose size is not a multiple of 16.
    UniformSizeNotMultipleOf16(u32),
    /// A binding of the compute layout has no entry.
    MissingBinding(u32),
}

/// The error binding a texture and a sampler at the given places raises
/// against the shader's resources, if any.
pub open spec fn spec_texture_bindings_error(
    required: ShaderResourceLayout,
    group_index: u32,
    texture_binding: u32,
    sampler_binding: u32,
) -> Option<BindGroupError> {
    match required {
        ShaderResourceLayout::TextureSampler { group, texture_binding: t, sampler_binding: s } => {
            if group == group_index && t == texture_binding && s == sampler_binding {
                None
            } else {
                Some(
                    BindGroupError::TextureBindingsMismatch {
                        group,
                        texture_binding: t,
                        sampler_binding: s,
                    },
                )
            }
        },
        _ => Some(BindGroupError::NoTextureSampler),
    }
}

/// The error binding a uniform buffer at the given place raises against the
/// shader's resources, if any.
pub open spec fn spec_uniform_bindings_error(
    required: ShaderResourceLayout,
    group_index: u32,
    binding: u32,
) -> Option<BindGroupError> {
    match required {
        ShaderResourceLayout::Uniform { group, binding: b } => {
            if group == group_index && b == binding {
                None
            } else {
                Some(BindGroupError::UniformBindingMismatch { group, binding: b })
            }
        },
        _ => Some(BindGroupError::NoUniformBuffer),
    }
}

/// Checks texture and sampler bindings against the ones the shader declares.
pub fn validate_texture_bindings(
    required: &ShaderResourceLayout,
    group_index: u32,
    texture_binding: u32,
    sampler_binding: u32,
) -> (checked: Result<(), BindGroupError>)
    ensures
        match spec_texture_bindings_error(*required, group_index, texture_binding, sampler_binding) {
            Some(error) => checked == Err::<(), BindGroupError>(error),
            None => checked is Ok,
        },
{
    match required {
        ShaderResourceLayout::TextureSampler { group, texture_binding: t, sampler_binding: s } => {
            if *group == group_index && *t == texture_binding && *s == sampler_binding {
                Ok(())
            } else {
                Err(
                    BindGroupError::TextureBindingsMismatch {
                        group: *group,
                        texture_binding: *t,
                        sampler_binding: *s,
                    },
                )
            }
        },
        _ => Err(BindGroupError::NoTextureSampler),
    }
}

/// Checks a uniform binding against the one the shader declares.
pub fn validate_uniform_bindings(required: &ShaderResourceLayout, group_index: u32, binding: u32) -> (checked:
    Result<(), BindGroupError>)
    ensures
        match spec_uniform_bindings_error(*required, group_index, binding) {
            Some(error) => checked == Err::<(), BindGroupError>(error),
            None => checked is Ok,
        },
{
    match required {
        ShaderResourceLayout::Uniform { group, binding: b } => {
            if *group == group_index && *b == binding {
                Ok(())
            } else {
                Err(BindGroupError::UniformBindingMismatch { group: *group, binding: *b })
            }
        },
        _ => Err(BindGroupError::NoUniformBuffer),
    }
}

/// A buffer range a compute bind group entry binds.
#[derive(Clone, Copy, Debug, PartialEq, Eq, Structural)]
pub struct BufferBindingSpec {
    pub binding: u32,
    pub buffer_size: u64,
    pub buffer_usage: BufferUsages,
    pub offset: u64,
    pub size: Option<u64>,
}

/// The first layout entry with the given binding.
pub open spec fn spec_find_layout(layout: Seq<ComputeBindingLayout>, binding: u32) -> Option<
    ComputeBindingLayout,
>
    decreases layout.len(),
{
    if layout.len() == 0 {
        None
    } else if layout[0].binding == binding {
        Some(layout[0])
    } else {
        spec_find_layout(layout.drop_first(), binding)
    }
}

/// The offset alignment a binding type needs on the device.
pub open spec fn spec_offset_alignment(ty: ComputeBufferType, min_uniform_align: u64, min_storage_align: u64) -> u64 {
    match ty {
        ComputeBufferType::Uniform => min_uniform_align,
        _ => min_storage_align,
    }
}

/// The error entry `e` raises against its layout entry `l`, if any.
pub open spec fn spec_range_error(
    l: ComputeBindingLayout,
    e: BufferBindingSpec,
    min_uniform_align: u64,
    min_storage_align: u64,
) -> Option<BindGroupError> {
    let required = spec_required_usage_bits(l.ty);
    let alignment = spec_offset_alignment(l.ty, min_uniform_align, min_storage_align);
    let remaining = e.buffer_size - e.offset;
    let bound = match e.size {
        Some(size) => size as int,
        None => remaining,
    };
    if e.buffer_usage.bits & required != required {
        Some(BindGroupError::MissingUsage { binding: e.binding, ty: l.ty })
    } else if alignment == 0 || e.offset % alignment != 0 {
        Some(BindGroupError::MisalignedOffset { binding: e.binding, alignment })
    } else if e.offset > e.buffer_size {
        Some(BindGroupError::OffsetExceedsBuffer(e.binding))
    } else if e.size == Some(0u64) {
        Some(BindGroupError::ZeroBindingSize(e.binding))
    } else if e.size is Some && e.size.unwrap() > remaining {
        Some(BindGroupError::BindingExceedsBuffer(e.binding))
    } else if bound == 0 {
        Some(BindGroupError::EmptyBinding(e.binding))
    } else if l.min_binding_size is Some && bound < l.min_binding_size.unwrap() {
        Some(
            BindGroupError::BelowMinBindingSize {
                binding: e.binding,
                min_binding_size: l.min_binding_size.unwrap(),
            },
        )
    } else if l.ty == ComputeBufferType::Uniform && bound % 16 != 0 {
        Some(BindGroupError::UniformSizeNotMultipleOf16(e.binding))
    } else {
        None
    }
}

/// The error entry `i` raises, given that the entries before it passed.
pub open spec fn spec_entry_error(
    layout: Seq<ComputeBindingLayout>,
    entries: Seq<BufferBindingSpec>,
    i: int,
    min_uniform_align: u64,
    min_storage_align: u64,
) -> Option<BindGroupError> {
    let e = entries[i];
    if exists|j: int| 0 <= j < i && #[trigger] entries[j].binding == e.binding {
        Some(BindGroupError::DuplicateBinding(e.binding))
    } else {
        match spec_find_layout(layout, e.binding) {
            None => Some(BindGroupError::UnexpectedBinding(e.binding)),
            Some(l) => spec_range_error(l, e, min_uniform_align, min_storage_align),
        }
    }
}

/// The first error among the first `n` entries, checked in order.
pub open spec fn spec_entries_error(
    layout: Seq<ComputeBindingLayout>,
    entries: Seq<BufferBindingSpec>,
    n: int,
    min_uniform_align: u64,
    min_storage_align: u64,
) -> Option<BindGroupError>
    decreases n,
{
    if n <= 0 {
        None
    } else {
        match spec_entries_error(layout, entries, n - 1, min_uniform_align, min_storage_align) {
            Some(error) => Some(error),
            None => spec_entry_error(layout, entries, n - 1, min_uniform_align, min_storage_align),
        }
    }
}

/// Whether some entry binds `binding`.
pub open spec fn spec_has_entry(entries: Seq<BufferBindingSpec>, binding: u32) -> bool {
    exists|j: int| 0 <= j < entries.len() && #[trigger] entries[j].binding == binding
}

/// The first of the first `n` layout bindings that no entry binds.
pub open spec fn spec_missing_binding(
    layout: Seq<ComputeBindingLayout>,
    entries: Seq<BufferBindingSpec>,
    n: int,
) -> Option<u32>
    decreases n,
{
    if n <= 0 {
        None
    } else {
        match spec_missing_binding(layout, entries, n - 1) {
            Some(binding) => Some(binding),
            None => if spec_has_entry(entries, layout[n - 1].binding) {
                None
            } else {
                Some(layout[n - 1].binding)
            },
        }
    }
}

/// The error a compute bind group raises against the pipeline's layout and
/// the device's offset alignments, if any.
pub open spec fn spec_compute_bindings_error(
    layout: Seq<ComputeBindingLayout>,
    entries: Seq<BufferBindingSpec>,
    min_uniform_align: u64,
    min_storage_align: u64,
) -> Option<BindGroupError> {
    if layout.len() == 0 {
        Some(BindGroupError::NoBufferBindings)
    } else {
        match spec_entries_error(layout, entries, entries.len() as int, min_uniform_align, min_storage_align) {
            Some(error) => Some(error),
            None => match spec_missing_binding(layout, entries, layout.len() as int) {
                Some(binding) => Some(BindGroupError::MissingBinding(binding)),
                None => None,
            },
        }
    }
}

} // verus!

verus! {

fn find_layout(layout: &[ComputeBindingLayout], binding: u32) -> (found: Option<ComputeBindingLayout>)
    ensures
        found == spec_find_layout(layout@, binding),
{
    let mut i: usize = 0;
    proof {
        assert(layout@.subrange(0, layout@.len() as int) =~= layout@);
    }
    while i < layout.len()
        invariant
            i <= layout@.len(),
            spec_find_layout(layout@, binding) == spec_find_layout(
                layout@.subrange(i as int, layout@.len() as int),
                binding,
            ),
        decreases layout@.len() - i,
    {
        let ghost rest = layout@.subrange(i as int, layout@.len() as int);
        proof {
            assert(rest.drop_first() =~= layout@.subrange(i as int + 1, layout@.len() as int));
        }
        if layout[i].binding == binding {
            return Some(layout[i]);
        }
        i = i + 1;
    }
    None
}

fn check_range(
    l: &ComputeBindingLayout,
    e: &BufferBindingSpec,
    min_uniform_align: u64,
    min_storage_align: u64,
) -> (checked: Result<(), BindGroupError>)
    ensures
        match spec_range_error(*l, *e, min_uniform_align, min_storage_align) {
            Some(error) => checked == Err::<(), BindGroupError>(error),
            None => checked is Ok,
        },
{
    if !e.buffer_usage.contains(l.ty.required_usage()) {
        return Err(BindGroupError::MissingUsage { binding: e.binding, ty: l.ty });
    }
    let alignment = match l.ty {
        ComputeBufferType::Uniform => min_uniform_align,
        _ => min_storage_align,
    };
    if alignment == 0 || e.offset % alignment != 0 {
        return Err(BindGroupError::MisalignedOffset { binding: e.binding, alignment });
    }
    if e.offset > e.buffer_size {
        return Err(BindGroupError::OffsetExceedsBuffer(e.binding));
    }
    let remaining = e.buffer_size - e.offset;
    let bound = match e.size {
        Some(0) => {
            return Err(BindGroupError::ZeroBindingSize(e.binding));
        },
        Some(size) => {
            if size > remaining {
                return Err(BindGroupError::BindingExceedsBuffer(e.binding));
            }
            size
        },
        None => remaining,
    };
    if bound == 0 {
        return Err(BindGroupError::EmptyBinding(e.binding));
    }
    if let Some(min_size) = l.min_binding_size {
        if bound < min_size {
            return Err(
                BindGroupError::BelowMinBindingSize { binding: e.binding, min_binding_size: min_size },
            );
        }
    }
    if l.ty == ComputeBufferType::Uniform && bound % 16 != 0 {
        return Err(BindGroupError::UniformSizeNotMultipleOf16(e.binding));
    }
    Ok(())
}

proof fn lemma_entries_error_first(
    layout: Seq<ComputeBindingLayout>,
    entries: Seq<BufferBindingSpec>,
    i: int,
    n: int,
    min_uniform_align: u64,
    min_storage_align: u64,
)
    requires
        0 <= i < n,
        spec_entries_error(layout, entries, i, min_uniform_align, min_storage_align) is None,
        spec_entry_error(layout, entries, i, min_uniform_align, min_storage_align) is Some,
    ensures
        spec_entries_error(layout, entries, n, min_uniform_align, min_storage_align)
            == spec_entry_error(layout, entries, i, min_uniform_align, min_storage_align),
    decreases n,
{
    if i < n - 1 {
        lemma_entries_error_first(layout, entries, i, n - 1, min_uniform_align, min_storage_align);
    }
}

proof fn lemma_missing_binding_first(
    layout: Seq<ComputeBindingLayout>,
    entries: Seq<BufferBindingSpec>,
    k: int,
    n: int,
)
    requires
        0 <= k < n,
        spec_missing_binding(layout, entries, k) is None,
        !spec_has_entry(entries, layout[k].binding),
    ensures
        spec_missing_binding(layout, entries, n) == Some(layout[k].binding),
    decreases n,
{
    if k < n - 1 {
        lemma_missing_binding_first(layout, entries, k, n - 1);
    }
}

/// The bindings of the first `n` entries.
pub open spec fn spec_bindings_before(entries: Seq<BufferBindingSpec>, n: int) -> Set<u32> {
    Set::new(|b: u32| exists|j: int| 0 <= j < n && #[trigger] entries[j].binding == b)
}

/// `u32` keys order as a `BTreeSet` needs them to.
pub open spec fn spec_u32_keys_ordered() -> bool {
    vstd::laws_cmp::obeys_cmp::<u32>()
}

proof fn lemma_bindings_ordered()
    ensures
        spec_u32_keys_ordered(),
{
    broadcast use vstd::laws_cmp::group_laws_cmp;

}

/// Checks the entries of a compute bind group against the pipeline's buffer
/// layout and the device's offset alignments: each entry binds a layout
/// binding once, with a buffer of the right usage and a non-empty, aligned
/// range inside it, and every layout binding gets an entry.
pub fn validate_compute_buffer_bindings(
    layout: &[ComputeBindingLayout],
    entries: &[BufferBindingSpec],
    min_uniform_align: u64,
    min_storage_align: u64,
) -> (checked: Result<(), BindGroupError>)
    ensures
        match spec_compute_bindings_error(layout@, entries@, min_uniform_align, min_storage_align) {
            Some(error) => checked == Err::<(), BindGroupError>(error),
            None => checked is Ok,
        },
{
    if layout.len() == 0 {
        return Err(BindGroupError::NoBufferBindings);
    }
    proof {
        lemma_bindings_ordered();
    }
    let mut seen: BTreeSet<u32> = BTreeSet::new();
    let mut i: usize = 0;
    while i < entries.len()
        invariant
            i <= entries@.len(),
            layout@.len() > 0,
            spec_u32_keys_ordered(),
            seen@ == spec_bindings_before(entries@, i as int),
            spec_entries_error(layout@, entries@, i as int, min_uniform_align, min_storage_align) is None,
        decreases entries@.len() - i,
    {
        let entry = entries[i];
        let fresh = seen.insert(entry.binding);
        if !fresh {
            proof {
                let jj = choose|jj: int| 0 <= jj < i && #[trigger] entries@[jj].binding == entry.binding;
                lemma_entries_error_first(
                    layout@,
                    entries@,
                    i as int,
                    entries@.len() as int,
                    min_uniform_align,
                    min_storage_align,
                );
            }
            return Err(BindGroupError::DuplicateBinding(entry.binding));
        }
        proof {
            assert(seen@ =~= spec_bindings_before(entries@, i + 1));
        }
        let found = find_layout(layout, entry.binding);
        match found {
            None => {
                proof {
                    lemma_entries_error_first(
                        layout@,
                        entries@,
                        i as int,
                        entries@.len() as int,
                        min_uniform_align,
                        min_storage_align,
                    );
                }
                return Err(BindGroupError::UnexpectedBinding(entry.binding));
            },
            Some(l) => {
                match check_range(&l, &entry, min_uniform_align, min_storage_align) {
                    Ok(()) => {},
                    Err(error) => {
                        proof {
                            lemma_entries_error_first(
                                layout@,
                                entries@,
                                i as int,
                                entries@.len() as int,
                                min_uniform_align,
                                min_storage_align,
                            );
                        }
                        return Err(error);
                    },
                }
            },
        }
        i = i + 1;
    }
    let mut k: usize = 0;
    while k < layout.len()
        invariant
            k <= layout@.len(),
            spec_missing_binding(layout@, entries@, k as int) is None,
            spec_entries_error(layout@, entries@, entries@.len() as int, min_uniform_align, min_storage_align) is None,
        decreases layout@.len() - k,
    {
        let binding = layout[k].binding;
        let mut present = false;
        let mut j: usize = 0;
        while j < entries.len()
            invariant
                j <= entries@.len(),
                k < layout@.len(),
                binding == layout@[k as int].binding,
                spec_missing_binding(layout@, entries@, k as int) is None,
                spec_entries_error(layout@, entries@, entries@.len() as int, min_uniform_align, min_storage_align) is None,
                present == (exists|jj: int| 0 <= jj < j && #[trigger] entries@[jj].binding == binding),
            decreases entries@.len() - j,
        {
            if entries[j].binding == binding {
                present = true;
            }
            j = j + 1;
        }
        if !present {
            proof {
                lemma_missing_binding_first(layout@, entries@, k as int, layout@.len() as int);
            }
            return Err(BindGroupError::MissingBinding(binding));
        }
        k = k + 1;
    }
    Ok(())
}

} // verus!

verus! {

/// Options of a texture bind group as a caller gives them.
#[derive(Clone, Debug, Default)]
pub struct BindGroupOptionsInput {
    pub group_index: Option<u32>,
    pub texture_binding: Option<u32>,
    pub sampler_binding: Option<u32>,
    pub label: Option<String>,
}

/// Options of a texture bind group with their defaults filled in.
#[derive(Clone, Debug)]
pub struct BindGroupOptions {
    pub group_index: u32,
    pub texture_binding: u32,
    pub sampler_binding: u32,
    pub label: String,
}

/// Options of a uniform bind group as a caller gives them.
#[derive(Clone, Debug, Default)]
pub struct UniformBindGroupOptionsInput {
    pub group_index: Option<u32>,
    pub binding: Option<u32>,
    pub label: Option<String>,
}

/// Options of a uniform bind group with their defaults filled in.
#[derive(Clone, Debug)]
pub struct UniformBindGroupOptions {
    pub group_index: u32,
    pub binding: u32,
    pub label: String,
}

/// A value, or `default` when it is absent.
pub open spec fn spec_or(value: Option<u32>, default: u32) -> u32 {
    match value {
        Some(v) => v,
        None => default,
    }
}

/// A label, or `default` when it is absent.
pub open spec fn spec_label_or(label: Option<String>, default: Seq<char>) -> Seq<char> {
    match label {
        Some(l) => l@,
        None => default,
    }
}

fn label_or(label: Option<String>, default: &str) -> (resolved: String)
    ensures
        resolved@ == spec_label_or(label, default@),
{
    match label {
        Some(l) => l,
        None => default.to_owned(),
    }
}

impl BindGroupOptionsInput {
    /// Fills in group 0, texture binding 0, sampler binding 1 and the given
    /// label where the caller gave none.
    pub fn resolve(self, default_label: &str) -> (options: BindGroupOptions)
        ensures
            options.group_index == spec_or(self.group_index, 0),
            options.texture_binding == spec_or(self.texture_binding, 0),
            options.sampler_binding == spec_or(self.sampler_binding, 1),
            options.label@ == spec_label_or(self.label, default_label@),
    {
        BindGroupOptions {
            group_index: match self.group_index {
                Some(v) => v,
                None => 0,
            },
            texture_binding: match self.texture_binding {
                Some(v) => v,
                None => 0,
            },
            sampler_binding: match self.sampler_binding {
                Some(v) => v,
                None => 1,
            },
            label: label_or(self.label, default_label),
        }
    }
}

impl UniformBindGroupOptionsInput {
    /// Fills in group 0, binding 0 and the label "UniformBindGroup" where the
    /// caller gave none.
    pub fn resolve(self) -> (options: UniformBindGroupOptions)
        ensures
            options.group_index == spec_or(self.group_index, 0),
            options.binding == spec_or(self.binding, 0),
            options.label@ == spec_label_or(self.label, "UniformBindGroup"@),
    {
        UniformBindGroupOptions {
            group_index: match self.group_index {
                Some(v) => v,
                None => 0,
            },
            binding: match self.binding {
                Some(v) => v,
                None => 0,
            },
            label: label_or(self.label, "UniformBindGroup"),
        }
    }
}

proof fn lemma_entries_error_prefix(
    layout: Seq<ComputeBindingLayout>,
    entries: Seq<BufferBindingSpec>,
    n: int,
    i: int,
    min_uniform_align: u64,
    min_storage_align: u64,
)
    requires
        0 <= i < n,
        spec_entries_error(layout, entries, n, min_uniform_align, min_storage_align) is None,
    ensures
        spec_entry_error(layout, entries, i, min_uniform_align, min_storage_align) is None,
    decreases n,
{
    if i < n - 1 {
        lemma_entries_error_prefix(layout, entries, n - 1, i, min_uniform_align, min_storage_align);
    }
}

proof fn lemma_missing_binding_prefix(
    layout: Seq<ComputeBindingLayout>,
    entries: Seq<BufferBindingSpec>,
    n: int,
    k: int,
)
    requires
        0 <= k < n,
        spec_missing_binding(layout, entries, n) is None,
    ensures
        spec_has_entry(entries, layout[k].binding),
    decreases n,
{
    if k < n - 1 {
        lemma_missing_binding_prefix(layout, entries, n - 1, k);
    }
}

proof fn lemma_find_layout_found(layout: Seq<ComputeBindingLayout>, binding: u32)
    requires
        spec_find_layout(layout, binding) is Some,
    ensures
        exists|k: int| 0 <= k < layout.len() && #[trigger] layout[k].binding == binding,
        spec_find_layout(layout, binding).unwrap().binding == binding,
    decreases layout.len(),
{
    if layout[0].binding != binding {
        lemma_find_layout_found(layout.drop_first(), binding);
        let k = choose|k: int| 0 <= k < layout.drop_first().len() && #[trigger] layout.drop_first()[k].binding == binding;
        assert(layout[k + 1].binding == binding);
    }
}

/// An accepted compute bind group binds each binding of the pipeline's
/// layout, binds no binding twice and binds nothing outside the layout.
pub proof fn law_accepted_bind_group_matches_layout(
    layout: Seq<ComputeBindingLayout>,
    entries: Seq<BufferBindingSpec>,
    min_uniform_align: u64,
    min_storage_align: u64,
)
    requires
        spec_compute_bindings_error(layout, entries, min_uniform_align, min_storage_align) is None,
    ensures
        forall|k: int| 0 <= k < layout.len() ==> spec_has_entry(entries, #[trigger] layout[k].binding),
        forall|i: int, j: int|
            0 <= i < j < entries.len() ==> #[trigger] entries[i].binding != #[trigger] entries[j].binding,
        forall|i: int|
            0 <= i < entries.len() ==> exists|k: int|
                0 <= k < layout.len() && #[trigger] layout[k].binding == #[trigger] entries[i].binding,
{
    let n = entries.len() as int;
    assert forall|k: int| 0 <= k < layout.len() implies spec_has_entry(entries, #[trigger] layout[k].binding) by {
        lemma_missing_binding_prefix(layout, entries, layout.len() as int, k);
    }
    assert forall|i: int, j: int| 0 <= i < j < entries.len() implies #[trigger] entries[i].binding
        != #[trigger] entries[j].binding by {
        lemma_entries_error_prefix(layout, entries, n, j, min_uniform_align, min_storage_align);
    }
    assert forall|i: int| 0 <= i < entries.len() implies exists|k: int|
        0 <= k < layout.len() && #[trigger] layout[k].binding == #[trigger] entries[i].binding by {
        lemma_entries_error_prefix(layout, entries, n, i, min_uniform_align, min_storage_align);
        lemma_find_layout_found(layout, entries[i].binding);
    }
}


/// Whether entry `e` binds an acceptable range for layout entry `l`: the
/// buffer has the usage the binding type needs, the offset is aligned for
/// that type and lies inside the buffer, and the bound size (the given size,
/// else the rest of the buffer) is non-zero, fits after the offset, reaches
/// the layout's minimum and, for a uniform binding, is a multiple of 16.
pub open spec fn spec_range_ok(
    l: ComputeBindingLayout,
    e: BufferBindingSpec,
    min_uniform_align: u64,
    min_storage_align: u64,
) -> bool {
    let required = spec_required_usage_bits(l.ty);
    let alignment = spec_offset_alignment(l.ty, min_uniform_align, min_storage_align);
    let bound: int = match e.size {
        Some(size) => size as int,
        None => e.buffer_size - e.offset,
    };
    &&& e.buffer_usage.bits & required == required
    &&& alignment > 0
    &&& e.offset % alignment == 0
    &&& e.offset <= e.buffer_size
    &&& 0 < bound <= e.buffer_size - e.offset
    &&& (l.min_binding_size matches Some(min) ==> bound >= min)
    &&& (l.ty == ComputeBufferType::Uniform ==> bound % 16 == 0)
}

/// Whether entry `e` binds a binding of the layout with an acceptable range.
pub open spec fn spec_entry_accepted(
    layout: Seq<ComputeBindingLayout>,
    e: BufferBindingSpec,
    min_uniform_align: u64,
    min_storage_align: u64,
) -> bool {
    match spec_find_layout(layout, e.binding) {
        Some(l) => spec_range_ok(l, e, min_uniform_align, min_storage_align),
        None => false,
    }
}

proof fn lemma_range_error_none(
    l: ComputeBindingLayout,
    e: BufferBindingSpec,
    min_uniform_align: u64,
    min_storage_align: u64,
)
    ensures
        spec_range_error(l, e, min_uniform_align, min_storage_align) is None <==> spec_range_ok(
            l,
            e,
            min_uniform_align,
            min_storage_align,
        ),
{
}

proof fn lemma_entries_error_none(
    layout: Seq<ComputeBindingLayout>,
    entries: Seq<BufferBindingSpec>,
    n: int,
    min_uniform_align: u64,
    min_storage_align: u64,
)
    requires
        forall|i: int|
            0 <= i < n ==> #[trigger] spec_entry_error(layout, entries, i, min_uniform_align, min_storage_align)
                is None,
    ensures
        spec_entries_error(layout, entries, n, min_uniform_align, min_storage_align) is None,
    decreases n,
{
    if n > 0 {
        lemma_entries_error_none(layout, entries, n - 1, min_uniform_align, min_storage_align);
    }
}

proof fn lemma_missing_binding_none(layout: Seq<ComputeBindingLayout>, entries: Seq<BufferBindingSpec>, n: int)
    requires
        n <= layout.len(),
        forall|k: int| 0 <= k < n ==> spec_has_entry(entries, #[trigger] layout[k].binding),
    ensures
        spec_missing_binding(layout, entries, n) is None,
    decreases n,
{
    if n > 0 {
        lemma_missing_binding_none(layout, entries, n - 1);
    }
}

/// A compute bind group is accepted exactly when the pipeline's layout has
/// buffer bindings, no two entries bind the same binding, every entry binds
/// a binding of the layout with an acceptable range, and every binding of
/// the layout gets an entry.
pub proof fn law_compute_bindings_accepted_iff(
    layout: Seq<ComputeBindingLayout>,
    entries: Seq<BufferBindingSpec>,
    min_uniform_align: u64,
    min_storage_align: u64,
)
    ensures
        spec_compute_bindings_error(layout, entries, min_uniform_align, min_storage_align) is None <==> {
            &&& layout.len() > 0
            &&& forall|i: int, j: int|
                0 <= i < j < entries.len() ==> #[trigger] entries[i].binding != #[trigger] entries[j].binding
            &&& forall|i: int|
                0 <= i < entries.len() ==> spec_entry_accepted(
                    layout,
                    #[trigger] entries[i],
                    min_uniform_align,
                    min_storage_align,
                )
            &&& forall|k: int| 0 <= k < layout.len() ==> spec_has_entry(entries, #[trigger] layout[k].binding)
        },
        spec_compute_bindings_error(layout, entries, min_uniform_align, min_storage_align) is None ==> entries.map_values(
            |e: BufferBindingSpec| e.binding,
        ).to_set() == layout.map_values(|l: ComputeBindingLayout| l.binding).to_set(),
{
    let n = entries.len() as int;
    if spec_compute_bindings_error(layout, entries, min_uniform_align, min_storage_align) is None {
        law_accepted_bind_group_matches_layout(layout, entries, min_uniform_align, min_storage_align);
        assert forall|i: int| 0 <= i < entries.len() implies spec_entry_accepted(
            layout,
            #[trigger] entries[i],
            min_uniform_align,
            min_storage_align,
        ) by {
            lemma_entries_error_prefix(layout, entries, n, i, min_uniform_align, min_storage_align);
            let l = spec_find_layout(layout, entries[i].binding).unwrap();
            lemma_range_error_none(l, entries[i], min_uniform_align, min_storage_align);
        }
    }
    if layout.len() > 0 && (forall|i: int, j: int|
        0 <= i < j < entries.len() ==> #[trigger] entries[i].binding != #[trigger] entries[j].binding)
        && (forall|i: int|
        0 <= i < entries.len() ==> spec_entry_accepted(
            layout,
            #[trigger] entries[i],
            min_uniform_align,
            min_storage_align,
        )) && (forall|k: int| 0 <= k < layout.len() ==> spec_has_entry(entries, #[trigger] layout[k].binding)) {
        assert forall|i: int| 0 <= i < n implies #[trigger] spec_entry_error(
            layout,
            entries,
            i,
            min_uniform_align,
            min_storage_align,
        ) is None by {
            assert(spec_entry_accepted(layout, entries[i], min_uniform_align, min_storage_align));
            let l = spec_find_layout(layout, entries[i].binding).unwrap();
            lemma_range_error_none(l, entries[i], min_uniform_align, min_storage_align);
        }
        lemma_entries_error_none(layout, entries, n, min_uniform_align, min_storage_align);
        lemma_missing_binding_none(layout, entries, layout.len() as int);
    }
    if spec_compute_bindings_error(layout, entries, min_uniform_align, min_storage_align) is None {
        let eb = entries.map_values(|e: BufferBindingSpec| e.binding);
        let lb = layout.map_values(|l: ComputeBindingLayout| l.binding);
        assert forall|b: u32| eb.to_set().contains(b) <==> lb.to_set().contains(b) by {
            if eb.to_set().contains(b) {
                let i = choose|i: int| 0 <= i < eb.len() && eb[i] == b;
                let k = choose|k: int| 0 <= k < layout.len() && #[trigger] layout[k].binding == entries[i].binding;
                assert(lb[k] == b);
            }
            if lb.to_set().contains(b) {
                let k = choose|k: int| 0 <= k < lb.len() && lb[k] == b;
                assert(spec_has_entry(entries, layout[k].binding));
                let i = choose|i: int| 0 <= i < entries.len() && #[trigger] entries[i].binding == layout[k].binding;
                assert(eb[i] == b);
            }
        }
        assert(eb.to_set() =~= lb.to_set());
    }
}


/// Why the devices of a compute bind group were refused.
#[derive(Clone, Copy, Debug, PartialEq, Eq, Structural)]
pub enum BindGroupDeviceError {
    /// The compute pipeline was created by another device.
    ComputeDeviceMismatch,
    /// A buffer was created by another device.
    BufferDeviceMismatch,
}

/// Checks that the compute pipeline and every buffer of a compute bind
/// group come from the device that creates the group; the pipeline is
/// checked first.
pub fn validate_bind_group_devices(device: &Device, compute: &Compute, buffer_devices: &[Device]) -> (checked:
    Result<(), BindGroupDeviceError>)
    ensures
        compute.spec_device().id != device.id ==> checked == Err::<(), BindGroupDeviceError>(
            BindGroupDeviceError::ComputeDeviceMismatch,
        ),
        compute.spec_device().id == device.id && (exists|i: int|
            0 <= i < buffer_devices@.len() && #[trigger] buffer_devices@[i].id != device.id) ==> checked
            == Err::<(), BindGroupDeviceError>(BindGroupDeviceError::BufferDeviceMismatch),
        compute.spec_device().id == device.id && (forall|i: int|
            0 <= i < buffer_devices@.len() ==> #[trigger] buffer_devices@[i].id == device.id) ==> checked
            is Ok,
{
    if compute.validate_for_dispatch(device).is_err() {
        return Err(BindGroupDeviceError::ComputeDeviceMismatch);
    }
    let mut i: usize = 0;
    while i < buffer_devices.len()
        invariant
            i <= buffer_devices@.len(),
            compute.spec_device().id == device.id,
            forall|k: int| 0 <= k < i ==> #[trigger] buffer_devices@[k].id == device.id,
        decreases buffer_devices@.len() - i,
    {
        if !buffer_devices[i].is_same(device) {
            return Err(BindGroupDeviceError::BufferDeviceMismatch);
        }
        i = i + 1;
    }
    Ok(())
}


/// The message a user is shown for a refused bind group.
pub open spec fn spec_bind_group_message(error: BindGroupError) -> Seq<char> {
    match error {
        BindGroupError::TextureBindingsMismatch { group, texture_binding, sampler_binding } => "bind group bindings must match draw shader layout @group("@ + spec_decimal(group as nat) + ") texture @binding("@ + spec_decimal(texture_binding as nat) + ") sampler @binding("@ + spec_decimal(sampler_binding as nat) + ")"@,
        BindGroupError::NoTextureSampler => "draw shader does not declare a sampled texture and sampler"@,
        BindGroupError::UniformBindingMismatch { group, binding } => "bind group bindings must match draw shader layout @group("@ + spec_decimal(group as nat) + ") uniform @binding("@ + spec_decimal(binding as nat) + ")"@,
        BindGroupError::NoUniformBuffer => "draw shader does not declare a uniform buffer"@,
        BindGroupError::NoBufferBindings => "compute does not declare buffer bindings"@,
        BindGroupError::DuplicateBinding(binding) => "duplicate bind group binding "@ + spec_decimal(binding as nat),
        BindGroupError::UnexpectedBinding(binding) => "bind group has unexpected binding "@ + spec_decimal(binding as nat),
        BindGroupError::MissingUsage { binding, ty } => "buffer at binding "@ + spec_decimal(binding as nat) + " must have "@ + spec_buffer_type_name(ty) + " usage"@,
        BindGroupError::MisalignedOffset { binding, alignment } => "buffer offset at binding "@ + spec_decimal(binding as nat) + " must be a multiple of "@ + spec_decimal(alignment as nat),
        BindGroupError::OffsetExceedsBuffer(binding) => "buffer offset at binding "@ + spec_decimal(binding as nat) + " exceeds buffer size"@,
        BindGroupError::ZeroBindingSize(binding) => "buffer size at binding "@ + spec_decimal(binding as nat) + " must be greater than 0"@,
        BindGroupError::BindingExceedsBuffer(binding) => "buffer binding at binding "@ + spec_decimal(binding as nat) + " exceeds buffer size"@,
        BindGroupError::EmptyBinding(binding) => "buffer binding at binding "@ + spec_decimal(binding as nat) + " is empty"@,
        BindGroupError::BelowMinBindingSize { binding, min_binding_size } => "buffer at binding "@ + spec_decimal(binding as nat) + " is smaller than minBindingSize "@ + spec_decimal(min_binding_size as nat),
        BindGroupError::UniformSizeNotMultipleOf16(binding) => "uniform buffer size at binding "@ + spec_decimal(binding as nat) + " must be a multiple of 16"@,
        BindGroupError::MissingBinding(binding) => "bind group is missing binding "@ + spec_decimal(binding as nat),
    }
}

impl BindGroupError {
    /// The message a user is shown for this error.
    pub fn message(&self) -> (text: String)
        ensures
            text@ == spec_bind_group_message(*self),
    {
        match self {
            BindGroupError::TextureBindingsMismatch { group, texture_binding, sampler_binding } => {
                let mut text = String::from_str("bind group bindings must match draw shader layout @group(");
                text.append(decimal_text(*group as u64).as_str());
                text.append(") texture @binding(");
                text.append(decimal_text(*texture_binding as u64).as_str());
                text.append(") sampler @binding(");
                text.append(decimal_text(*sampler_binding as u64).as_str());
                text.append(")");
                text
            },
            BindGroupError::NoTextureSampler => String::from_str("draw shader does not declare a sampled texture and sampler"),
            BindGroupError::UniformBindingMismatch { group, binding } => {
                let mut text = String::from_str("bind group bindings must match draw shader layout @group(");
                text.append(decimal_text(*group as u64).as_str());
                text.append(") uniform @binding(");
                text.append(decimal_text(*binding as u64).as_str());
                text.append(")");
                text
            },
            BindGroupError::NoUniformBuffer => String::from_str("draw shader does not declare a uniform buffer"),
            BindGroupError::NoBufferBindings => String::from_str("compute does not declare buffer bindings"),
            BindGroupError::DuplicateBinding(binding) => {
                let mut text = String::from_str("duplicate bind group binding ");
                text.append(decimal_text(*binding as u64).as_str());
                text
            },
            BindGroupError::UnexpectedBinding(binding) => {
                let mut text = String::from_str("bind group has unexpected binding ");
                text.append(decimal_text(*binding as u64).as_str());
                text
            },
            BindGroupError::MissingUsage { binding, ty } => {
                let mut text = String::from_str("buffer at binding ");
                text.append(decimal_text(*binding as u64).as_str());
                text.append(" must have ");
                text.append(ty.as_str());
                text.append(" usage");
                text
            },
            BindGroupError::MisalignedOffset { binding, alignment } => {
                let mut text = String::from_str("buffer offset at binding ");
                text.append(decimal_text(*binding as u64).as_str());
                text.append(" must be a multiple of ");
                text.append(decimal_text(*alignment as u64).as_str());
                text
            },
            BindGroupError::OffsetExceedsBuffer(binding) => {
                let mut text = String::from_str("buffer offset at binding ");
                text.append(decimal_text(*binding as u64).as_str());
                text.append(" exceeds buffer size");
                text
            },
            BindGroupError::ZeroBindingSize(binding) => {
                let mut text = String::from_str("buffer size at binding ");
                text.append(decimal_text(*binding as u64).as_str());
                text.append(" must be greater than 0");
                text
            },
            BindGroupError::BindingExceedsBuffer(binding) => {
                let mut text = String::from_str("buffer binding at binding ");
                text.append(decimal_text(*binding as u64).as_str());
                text.append(" exceeds buffer size");
                text
            },
            BindGroupError::EmptyBinding(binding) => {
                let mut text = String::from_str("buffer binding at binding ");
                text.append(decimal_text(*binding as u64).as_str());
                text.append(" is empty");
                text
            },
            BindGroupError::BelowMinBindingSize { binding, min_binding_size } => {
                let mut text = String::from_str("buffer at binding ");
                text.append(decimal_text(*binding as u64).as_str());
                text.append(" is smaller than minBindingSize ");
                text.append(decimal_text(*min_binding_size as u64).as_str());
                text
            },
            BindGroupError::UniformSizeNotMultipleOf16(binding) => {
                let mut text = String::from_str("uniform buffer size at binding ");
                text.append(decimal_text(*binding as u64).as_str());
                text.append(" must be a multiple of 16");
                text
            },
            BindGroupError::MissingBinding(binding) => {
                let mut text = String::from_str("bind group is missing binding ");
                text.append(decimal_text(*binding as u64).as_str());
                text
            },
        }
    }
}


/// The offset alignment of a binding follows the same split as the usage
/// it requires: where the device's two alignments differ, a binding takes
/// the uniform-buffer alignment exactly when it requires the uniform usage,
/// and the storage-buffer alignment otherwise.
pub proof fn law_offset_alignment_follows_usage(ty: ComputeBufferType, min_uniform_align: u64, min_storage_align: u64)
    requires
        min_uniform_align != min_storage_align,
    ensures
        (spec_offset_alignment(ty, min_uniform_align, min_storage_align) == min_uniform_align)
            <==> spec_required_usage_bits(ty) == crate::gpu::BUFFER_USAGE_UNIFORM,
        (spec_offset_alignment(ty, min_uniform_align, min_storage_align) == min_storage_align)
            <==> spec_required_usage_bits(ty) == crate::gpu::BUFFER_USAGE_STORAGE,
{
}
} // verus!
