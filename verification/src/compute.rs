use vstd::prelude::*;

use crate::bindings::spec_buffer_usage_named;
use crate::gpu::{BufferUsages, BUFFER_USAGE_COPY_DST, BUFFER_USAGE_STORAGE, BUFFER_USAGE_UNIFORM};
use crate::text::str_equals;

verus! {

/// How a compute shader reads or writes a buffer binding.
#[derive(Clone, Copy, Debug, PartialEq, Eq, Structural)]
pub enum ComputeBufferType {
    Uniform,
    ReadOnlyStorage,
    Storage,
}

/// Why a compute layout was refused.
#[derive(Debug)]
pub enum ComputeLayoutError {
    /// The binding type is none of "uniform", "readOnlyStorage", "storage".
    UnsupportedBindingType(String),
    /// A layout entry asked for a minimum binding size of zero.
    ZeroMinBindingSize(u32),
    /// Two layout entries share a binding.
    DuplicateBinding(u32),
}

/// The binding type a layout entry names, if any.
pub open spec fn spec_parse_buffer_type(value: Seq<char>) -> Option<ComputeBufferType> {
    if value == "uniform"@ {
        Some(ComputeBufferType::Uniform)
    } else if value == "readOnlyStorage"@ {
        Some(ComputeBufferType::ReadOnlyStorage)
    } else if value == "storage"@ {
        Some(ComputeBufferType::Storage)
    } else {
        None
    }
}

/// The name error messages use for a binding type.
pub open spec fn spec_buffer_type_name(ty: ComputeBufferType) -> Seq<char> {
    match ty {
        ComputeBufferType::Uniform => "uniform"@,
        ComputeBufferType::ReadOnlyStorage => "read-only storage"@,
        ComputeBufferType::Storage => "storage"@,
    }
}

/// The usage bit a buffer needs to be bound with the given type.
pub open spec fn spec_required_usage_bits(ty: ComputeBufferType) -> u32 {
    match ty {
        ComputeBufferType::Uniform => BUFFER_USAGE_UNIFORM,
        _ => BUFFER_USAGE_STORAGE,
    }
}

impl ComputeBufferType {
    /// Reads a binding type from its name in compute options.
    pub fn parse(value: &str) -> (parsed: Result<ComputeBufferType, ComputeLayoutError>)
        ensures
            match spec_parse_buffer_type(value@) {
                Some(ty) => parsed matches Ok(t) && t == ty,
                None => parsed matches Err(ComputeLayoutError::UnsupportedBindingType(name))
                    && name@ == value@,
            },
    {
        if str_equals(value, "uniform") {
            Ok(ComputeBufferType::Uniform)
        } else if str_equals(value, "readOnlyStorage") {
            Ok(ComputeBufferType::ReadOnlyStorage)
        } else if str_equals(value, "storage") {
            Ok(ComputeBufferType::Storage)
        } else {
            Err(ComputeLayoutError::UnsupportedBindingType(value.to_owned()))
        }
    }

    /// The name error messages use for the type.
    pub fn as_str(self) -> (name: &'static str)
        ensures
            name@ == spec_buffer_type_name(self),
    {
        match self {
            ComputeBufferType::Uniform => "uniform",
            ComputeBufferType::ReadOnlyStorage => "read-only storage",
            ComputeBufferType::Storage => "storage",
        }
    }

    /// The usage a buffer needs to be bound with this type.
    pub fn required_usage(self) -> (usage: BufferUsages)
        ensures
            usage.bits == spec_required_usage_bits(self),
    {
        match self {
            ComputeBufferType::Uniform => BufferUsages { bits: BUFFER_USAGE_UNIFORM },
            _ => BufferUsages { bits: BUFFER_USAGE_STORAGE },
        }
    }
}

/// A layout entry as compute options give it.
#[derive(Clone, Debug)]
pub struct ComputeLayoutEntryInput {
    pub binding: u32,
    pub ty: String,
    pub min_binding_size: Option<u64>,
}

/// A buffer binding of a compute pipeline's bind group.
#[derive(Clone, Copy, Debug, PartialEq, Eq, Structural)]
pub struct ComputeBindingLayout {
    pub binding: u32,
    pub ty: ComputeBufferType,
    pub min_binding_size: Option<u64>,
}

/// Whether a layout entry is refused on its own.
pub open spec fn spec_entry_invalid(input: ComputeLayoutEntryInput) -> bool {
    input.min_binding_size == Some(0u64) || spec_parse_buffer_type(input.ty@) is None
}

/// The binding a valid layout entry describes.
pub open spec fn spec_entry_layout(input: ComputeLayoutEntryInput) -> ComputeBindingLayout {
    ComputeBindingLayout {
        binding: input.binding,
        ty: spec_parse_buffer_type(input.ty@).unwrap(),
        min_binding_size: input.min_binding_size,
    }
}

/// Whether the error `error` is the one layout entry `input` raises on its own.
pub open spec fn spec_entry_error_is(input: ComputeLayoutEntryInput, error: ComputeLayoutError) -> bool {
    if input.min_binding_size == Some(0u64) {
        error == ComputeLayoutError::ZeroMinBindingSize(input.binding)
    } else {
        error matches ComputeLayoutError::UnsupportedBindingType(name) && name@ == input.ty@
    }
}

impl ComputeBindingLayout {
    /// Reads one layout entry of compute options.
    pub fn from_input(input: ComputeLayoutEntryInput) -> (layout: Result<
        ComputeBindingLayout,
        ComputeLayoutError,
    >)
        ensures
            spec_entry_invalid(input) ==> (layout matches Err(e) && spec_entry_error_is(input, e)),
            !spec_entry_invalid(input) ==> layout == Ok::<ComputeBindingLayout, ComputeLayoutError>(
                spec_entry_layout(input),
            ),
    {
        if input.min_binding_size == Some(0u64) {
            return Err(ComputeLayoutError::ZeroMinBindingSize(input.binding));
        }
        let ty = match ComputeBufferType::parse(input.ty.as_str()) {
            Ok(ty) => ty,
            Err(error) => return Err(error),
        };
        Ok(ComputeBindingLayout { binding: input.binding, ty, min_binding_size: input.min_binding_size })
    }
}

/// Whether entry `i` of the options is refused: on its own, or because an
/// earlier entry has its binding.
pub open spec fn spec_layout_entry_fails(entries: Seq<ComputeLayoutEntryInput>, i: int) -> bool {
    spec_entry_invalid(entries[i]) || exists|j: int|
        0 <= j < i && #[trigger] entries[j].binding == entries[i].binding
}

/// Bindings in strictly increasing order.
pub open spec fn spec_sorted_by_binding(layout: Seq<ComputeBindingLayout>) -> bool {
    forall|i: int, j: int| 0 <= i < j < layout.len() ==> #[trigger] layout[i].binding < #[trigger] layout[j].binding
}

/// Inserts `entry` before the first binding greater than its own.
fn insert_by_binding(layout: &mut Vec<ComputeBindingLayout>, entry: ComputeBindingLayout)
    requires
        spec_sorted_by_binding(old(layout)@),
        forall|i: int| 0 <= i < old(layout)@.len() ==> #[trigger] old(layout)@[i].binding != entry.binding,
    ensures
        spec_sorted_by_binding(final(layout)@),
        final(layout)@.len() == old(layout)@.len() + 1,
        final(layout)@.to_multiset() == old(layout)@.to_multiset().insert(entry),
{
    let mut position: usize = 0;
    while position < layout.len() && layout[position].binding < entry.binding
        invariant
            position <= layout@.len(),
            layout@ == old(layout)@,
            forall|i: int| 0 <= i < position ==> #[trigger] layout@[i].binding < entry.binding,
        decreases layout@.len() - position,
    {
        position = position + 1;
    }
    let ghost before = layout@;
    proof {
        assert forall|i: int| position <= i < before.len() implies #[trigger] before[i].binding > entry.binding by {
            assert(before[position as int].binding >= entry.binding);
            assert(before[position as int].binding != entry.binding);
            if i > position {
                assert(before[position as int].binding < before[i].binding);
            }
        }
        before.insert_ensures(position as int, entry);
        vstd::seq_lib::to_multiset_insert(before, position as int, entry);
    }
    layout.insert(position, entry);
    proof {
        let after = layout@;
        assert forall|i: int, j: int| 0 <= i < j < after.len() implies #[trigger] after[i].binding < #[trigger] after[j].binding by {
            if j < position {
            } else if j == position {
            } else if i < position {
                assert(after[j] == before[j - 1]);
            } else if i == position {
                assert(after[j] == before[j - 1]);
            } else {
                assert(after[i] == before[i - 1]);
                assert(after[j] == before[j - 1]);
            }
        }
    }
}


/// Reads the buffer layout of compute options: every entry must be valid
/// and name its own binding; the layout comes out ordered by binding.
#[verifier::rlimit(40)]
pub fn parse_compute_layout(entries: Vec<ComputeLayoutEntryInput>) -> (layout: Result<
    Vec<ComputeBindingLayout>,
    ComputeLayoutError,
>)
    ensures
        (forall|i: int| 0 <= i < entries@.len() ==> !spec_layout_entry_fails(entries@, i)) ==> (
        layout matches Ok(l) && spec_sorted_by_binding(l@) && l@.to_multiset() == entries@.map_values(
            |e: ComputeLayoutEntryInput| spec_entry_layout(e),
        ).to_multiset()),
        forall|i: int|
            0 <= i < entries@.len() && spec_layout_entry_fails(entries@, i) && (forall|j: int|
                0 <= j < i ==> !spec_layout_entry_fails(entries@, j)) ==> (layout matches Err(e)
                && if spec_entry_invalid(entries@[i]) {
                spec_entry_error_is(entries@[i], e)
            } else {
                e == ComputeLayoutError::DuplicateBinding(entries@[i].binding)
            }),
{
    let ghost all = entries@;
    assert(all.len() == entries.len());
    let ghost parsed = all.map_values(|e: ComputeLayoutEntryInput| spec_entry_layout(e));
    let mut rest = entries;
    let mut layout: Vec<ComputeBindingLayout> = Vec::new();
    let mut i: usize = 0;
    proof {
        assert(all.subrange(0, all.len() as int) =~= all);
        assert(parsed.take(0) =~= Seq::<ComputeBindingLayout>::empty());
    }
    while rest.len() > 0
        invariant
            i <= all.len(),
            all.len() <= usize::MAX,
            all == entries@,
            rest@ == all.subrange(i as int, all.len() as int),
            parsed == all.map_values(|e: ComputeLayoutEntryInput| spec_entry_layout(e)),
            forall|j: int| 0 <= j < i ==> !spec_layout_entry_fails(all, j),
            spec_sorted_by_binding(layout@),
            layout@.to_multiset() == parsed.take(i as int).to_multiset(),
        decreases rest@.len(),
    {
        let input = rest.remove(0);
        proof {
            assert(input == all[i as int]);
            assert(rest@ =~= all.subrange(i as int + 1, all.len() as int));
        }
        let entry = match ComputeBindingLayout::from_input(input) {
            Ok(entry) => entry,
            Err(error) => {
                proof {
                    assert(spec_layout_entry_fails(all, i as int));
                }
                return Err(error);
            },
        };
        let mut k: usize = 0;
        while k < layout.len()
            invariant
                k <= layout@.len(),
                i < all.len(),
                all == entries@,
                parsed == all.map_values(|e: ComputeLayoutEntryInput| spec_entry_layout(e)),
                layout@.to_multiset() == parsed.take(i as int).to_multiset(),
                entry.binding == all[i as int].binding,
                !spec_entry_invalid(all[i as int]),
                forall|j: int| 0 <= j < i ==> !spec_layout_entry_fails(all, j),
                forall|kk: int| 0 <= kk < k ==> #[trigger] layout@[kk].binding != entry.binding,
            decreases layout@.len() - k,
        {
            if layout[k].binding == entry.binding {
                proof {
                    lemma_layout_binding_seen(all, parsed, i as int, layout@, k as int);
                    assert(spec_layout_entry_fails(all, i as int));
                }
                return Err(ComputeLayoutError::DuplicateBinding(entry.binding));
            }
            k = k + 1;
        }
        proof {
            lemma_binding_unseen(all, parsed, i as int, layout@, entry.binding);
            assert(!spec_layout_entry_fails(all, i as int));
            assert(parsed.take(i as int + 1) =~= parsed.take(i as int).push(entry));
            vstd::seq_lib::to_multiset_build(parsed.take(i as int), entry);
        }
        insert_by_binding(&mut layout, entry);
        i = i + 1;
    }
    proof {
        assert(parsed.take(all.len() as int) =~= parsed);
    }
    Ok(layout)
}

/// A binding already in the layout came from an earlier entry.
proof fn lemma_layout_binding_seen(
    all: Seq<ComputeLayoutEntryInput>,
    parsed: Seq<ComputeBindingLayout>,
    i: int,
    layout: Seq<ComputeBindingLayout>,
    k: int,
)
    requires
        0 <= i <= all.len(),
        parsed == all.map_values(|e: ComputeLayoutEntryInput| spec_entry_layout(e)),
        layout.to_multiset() == parsed.take(i).to_multiset(),
        0 <= k < layout.len(),
    ensures
        exists|j: int| 0 <= j < i && #[trigger] all[j].binding == layout[k].binding,
{
    broadcast use vstd::seq_lib::group_to_multiset_ensures;

    vstd::seq_lib::to_multiset_contains(layout, layout[k]);
    vstd::seq_lib::to_multiset_contains(parsed.take(i), layout[k]);
    assert(layout.contains(layout[k]));
    assert(parsed.take(i).contains(layout[k]));
    let j = choose|j: int| 0 <= j < i && parsed.take(i)[j] == layout[k];
    assert(all[j].binding == layout[k].binding);
}

/// A binding the layout does not hold came from no earlier entry.
proof fn lemma_binding_unseen(
    all: Seq<ComputeLayoutEntryInput>,
    parsed: Seq<ComputeBindingLayout>,
    i: int,
    layout: Seq<ComputeBindingLayout>,
    binding: u32,
)
    requires
        0 <= i <= all.len(),
        parsed == all.map_values(|e: ComputeLayoutEntryInput| spec_entry_layout(e)),
        layout.to_multiset() == parsed.take(i).to_multiset(),
        forall|k: int| 0 <= k < layout.len() ==> #[trigger] layout[k].binding != binding,
    ensures
        forall|j: int| 0 <= j < i ==> #[trigger] all[j].binding != binding,
{
    broadcast use vstd::seq_lib::group_to_multiset_ensures;

    assert forall|j: int| 0 <= j < i implies #[trigger] all[j].binding != binding by {
        assert(parsed.take(i)[j] == parsed[j]);
        assert(parsed.take(i).contains(parsed[j]));
        vstd::seq_lib::to_multiset_contains(layout, parsed[j]);
        vstd::seq_lib::to_multiset_contains(parsed.take(i), parsed[j]);
        assert(layout.contains(parsed[j]));
        let k = choose|k: int| 0 <= k < layout.len() && layout[k] == parsed[j];
        assert(layout[k].binding != binding);
    }
}


/// A layout ordered by binding is fixed by the entries it holds: two
/// layouts sorted by binding with the same entries are equal, so the
/// layout that a successful parse gives is the one sorted arrangement of
/// the parsed entries.
pub proof fn law_sorted_layout_is_unique(a: Seq<ComputeBindingLayout>, b: Seq<ComputeBindingLayout>)
    requires
        spec_sorted_by_binding(a),
        spec_sorted_by_binding(b),
        a.to_multiset() == b.to_multiset(),
    ensures
        a == b,
    decreases a.len(),
{
    vstd::seq_lib::to_multiset_len(a);
    vstd::seq_lib::to_multiset_len(b);
    if a.len() > 0 {
        vstd::seq_lib::to_multiset_contains(a, a[0]);
        vstd::seq_lib::to_multiset_contains(b, a[0]);
        assert(a.contains(a[0]));
        let k = choose|k: int| 0 <= k < b.len() && b[k] == a[0];
        vstd::seq_lib::to_multiset_contains(b, b[0]);
        vstd::seq_lib::to_multiset_contains(a, b[0]);
        assert(b.contains(b[0]));
        let m = choose|m: int| 0 <= m < a.len() && a[m] == b[0];
        if m > 0 {
            assert(a[0].binding < a[m].binding);
            if k > 0 {
                assert(b[0].binding < b[k].binding);
            }
        }
        if k > 0 {
            assert(b[0].binding < b[k].binding);
        }
        assert(a[0] == b[0]);
        vstd::seq_lib::to_multiset_remove(a, 0);
        vstd::seq_lib::to_multiset_remove(b, 0);
        assert(a.remove(0) =~= a.drop_first());
        assert(b.remove(0) =~= b.drop_first());
        let a1 = a.drop_first();
        let b1 = b.drop_first();
        assert forall|i: int, j: int| 0 <= i < j < a1.len() implies #[trigger] a1[i].binding
            < #[trigger] a1[j].binding by {
            assert(a[i + 1].binding < a[j + 1].binding);
        }
        assert forall|i: int, j: int| 0 <= i < j < b1.len() implies #[trigger] b1[i].binding
            < #[trigger] b1[j].binding by {
            assert(b[i + 1].binding < b[j + 1].binding);
        }
        law_sorted_layout_is_unique(a1, b1);
        assert forall|i: int| 0 <= i < a.len() implies a[i] == b[i] by {
            if i > 0 {
                assert(a[i] == a1[i - 1]);
                assert(b[i] == b1[i - 1]);
            }
        }
        assert(a =~= b);
    } else {
        assert(a =~= b);
    }
}


/// A buffer's usage suits a binding type exactly as the type says: a buffer
/// created for `storage` use suits both storage types (read-only and
/// read-write) and not a uniform binding, and one created for `uniform` use
/// suits a uniform binding only. The usage a type requires is the uniform
/// usage exactly for the uniform type.
pub proof fn law_required_usage_matches_buffer_use(ty: ComputeBufferType)
    ensures
        ({
            let storage = spec_buffer_usage_named("storage"@).unwrap();
            let uniform = spec_buffer_usage_named("uniform"@).unwrap();
            let required = spec_required_usage_bits(ty);
            &&& spec_buffer_usage_named("storage"@) is Some
            &&& spec_buffer_usage_named("uniform"@) is Some
            &&& (storage & required == required) <==> ty != ComputeBufferType::Uniform
            &&& (uniform & required == required) <==> ty == ComputeBufferType::Uniform
            &&& (required == BUFFER_USAGE_UNIFORM) <==> ty == ComputeBufferType::Uniform
            &&& required != 0
        }),
{
    reveal_strlit("storage");
    reveal_strlit("uniform");
    reveal_strlit("vertex");
    assert("storage"@[0] != "uniform"@[0]);
    assert((BUFFER_USAGE_STORAGE | BUFFER_USAGE_COPY_DST) & BUFFER_USAGE_STORAGE == BUFFER_USAGE_STORAGE)
        by (bit_vector);
    assert((BUFFER_USAGE_STORAGE | BUFFER_USAGE_COPY_DST) & BUFFER_USAGE_UNIFORM != BUFFER_USAGE_UNIFORM)
        by (bit_vector);
    assert((BUFFER_USAGE_UNIFORM | BUFFER_USAGE_COPY_DST) & BUFFER_USAGE_UNIFORM == BUFFER_USAGE_UNIFORM)
        by (bit_vector);
    assert((BUFFER_USAGE_UNIFORM | BUFFER_USAGE_COPY_DST) & BUFFER_USAGE_STORAGE != BUFFER_USAGE_STORAGE)
        by (bit_vector);
}
} // verus!
