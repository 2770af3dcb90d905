use std::collections::hash_map::RandomState;
use std::collections::HashSet;
use vstd::prelude::*;

use crate::gpu::{
    BufferUsage, BufferUsages, BUFFER_USAGE_COPY_DST, BUFFER_USAGE_STORAGE, BUFFER_USAGE_UNIFORM,
    BUFFER_USAGE_VERTEX,
};
use crate::text::str_equals;
use crate::vertex::{VertexAttributeDescriptor, VertexFormat, VertexStepMode};

verus! {

/// A vertex attribute as a caller describes it.
#[derive(Clone, Debug)]
pub struct VertexAttributeInput {
    pub shader_location: u32,
    pub format: String,
    pub offset: u64,
}

/// A vertex buffer layout as a caller describes it.
#[derive(Clone, Debug)]
pub struct VertexBufferDescriptorInput {
    pub array_stride: u64,
    pub attributes: Vec<VertexAttributeInput>,
    pub slot: Option<u32>,
    pub step_mode: Option<String>,
}

/// A vertex buffer layout with its names resolved.
#[derive(Clone, Debug)]
pub struct ConvertedVertexBinding {
    pub array_stride: u64,
    pub attributes: Vec<VertexAttributeDescriptor>,
    pub slot: Option<u32>,
    pub step_mode: Option<VertexStepMode>,
}

/// Why a caller's buffer description was refused.
#[derive(Clone, Debug)]
pub enum BindingInputError {
    ZeroArrayStride,
    NoAttributes,
    UnsupportedStepMode(String),
    DuplicateLocation(u32),
    UnsupportedFormat(String),
    ExceedsStride { shader_location: u32, array_stride: u64 },
    UnsupportedBufferUsage(String),
}

/// The usage set a buffer usage name selects.
pub open spec fn spec_buffer_usage_named(usage: Seq<char>) -> Option<u32> {
    if usage == "vertex"@ {
        Some(BUFFER_USAGE_VERTEX | BUFFER_USAGE_COPY_DST)
    } else if usage == "uniform"@ {
        Some(BUFFER_USAGE_UNIFORM | BUFFER_USAGE_COPY_DST)
    } else if usage == "storage"@ {
        Some(BUFFER_USAGE_STORAGE | BUFFER_USAGE_COPY_DST)
    } else if usage == "vertexStorage"@ {
        Some(BUFFER_USAGE_VERTEX | BUFFER_USAGE_STORAGE | BUFFER_USAGE_COPY_DST)
    } else {
        None
    }
}

/// Reads a buffer usage name: "vertex", "uniform", "storage" or
/// "vertexStorage".
pub fn parse_buffer_usage(usage: &str) -> (parsed: Result<BufferUsages, BindingInputError>)
    ensures
        match spec_buffer_usage_named(usage@) {
            Some(bits) => parsed matches Ok(u) && u.bits == bits,
            None => parsed matches Err(BindingInputError::UnsupportedBufferUsage(s)) && s@ == usage@,
        },
{
    if str_equals(usage, "vertex") {
        Ok(BufferUsage::vertex())
    } else if str_equals(usage, "uniform") {
        Ok(BufferUsage::uniform())
    } else if str_equals(usage, "storage") {
        Ok(BufferUsage::storage())
    } else if str_equals(usage, "vertexStorage") {
        Ok(BufferUsage::vertex_storage())
    } else {
        Err(BindingInputError::UnsupportedBufferUsage(usage.to_owned()))
    }
}

/// The format and byte size a vertex format name selects; the shader's
/// vector names and WebGPU's names are both accepted.
pub open spec fn spec_vertex_format_named(format: Seq<char>) -> Option<(VertexFormat, u64)> {
    if format == "vec2"@ || format == "float32x2"@ {
        Some((VertexFormat::Float32x2, 8))
    } else if format == "vec3"@ || format == "float32x3"@ {
        Some((VertexFormat::Float32x3, 12))
    } else if format == "vec4"@ || format == "float32x4"@ {
        Some((VertexFormat::Float32x4, 16))
    } else {
        None
    }
}

/// Reads a vertex format name and gives the format with its byte size.
pub fn parse_vertex_format(format: &str) -> (parsed: Result<(VertexFormat, u64), BindingInputError>)
    ensures
        match spec_vertex_format_named(format@) {
            Some(f) => parsed matches Ok(p) && p == f,
            None => parsed matches Err(BindingInputError::UnsupportedFormat(s)) && s@ == format@,
        },
{
    if str_equals(format, "vec2") || str_equals(format, "float32x2") {
        Ok((VertexFormat::Float32x2, 8))
    } else if str_equals(format, "vec3") || str_equals(format, "float32x3") {
        Ok((VertexFormat::Float32x3, 12))
    } else if str_equals(format, "vec4") || str_equals(format, "float32x4") {
        Ok((VertexFormat::Float32x4, 16))
    } else {
        Err(BindingInputError::UnsupportedFormat(format.to_owned()))
    }
}

/// The step mode a step mode name selects.
pub open spec fn spec_step_mode_named(step_mode: Seq<char>) -> Option<VertexStepMode> {
    if step_mode == "vertex"@ {
        Some(VertexStepMode::Vertex)
    } else if step_mode == "instance"@ {
        Some(VertexStepMode::Instance)
    } else {
        None
    }
}

/// Reads a step mode name: "vertex" or "instance".
pub fn parse_vertex_step_mode(step_mode: String) -> (parsed: Result<VertexStepMode, BindingInputError>)
    ensures
        match spec_step_mode_named(step_mode@) {
            Some(m) => parsed matches Ok(p) && p == m,
            None => parsed matches Err(BindingInputError::UnsupportedStepMode(s)) && s@ == step_mode@,
        },
{
    if str_equals(step_mode.as_str(), "vertex") {
        Ok(VertexStepMode::Vertex)
    } else if str_equals(step_mode.as_str(), "instance") {
        Ok(VertexStepMode::Instance)
    } else {
        Err(BindingInputError::UnsupportedStepMode(step_mode))
    }
}

/// Whether attribute `i` is refused: its location repeats an earlier one,
/// its format is unknown, or it runs past the array stride.
pub open spec fn spec_attribute_input_fails(
    attributes: Seq<VertexAttributeInput>,
    array_stride: u64,
    i: int,
) -> bool {
    let a = attributes[i];
    ||| exists|j: int| 0 <= j < i && #[trigger] attributes[j].shader_location == a.shader_location
    ||| spec_vertex_format_named(a.format@) is None
    ||| a.offset + spec_vertex_format_named(a.format@).unwrap().1 > array_stride
}

/// Whether `error` is the one attribute `i` raises.
pub open spec fn spec_attribute_input_error_is(
    attributes: Seq<VertexAttributeInput>,
    array_stride: u64,
    i: int,
    error: BindingInputError,
) -> bool {
    let a = attributes[i];
    if exists|j: int| 0 <= j < i && #[trigger] attributes[j].shader_location == a.shader_location {
        error == BindingInputError::DuplicateLocation(a.shader_location)
    } else if spec_vertex_format_named(a.format@) is None {
        error matches BindingInputError::UnsupportedFormat(s) && s@ == a.format@
    } else {
        error == (BindingInputError::ExceedsStride {
            shader_location: a.shader_location,
            array_stride,
        })
    }
}

/// The attribute descriptor an accepted attribute becomes.
pub open spec fn spec_converted_attribute(a: VertexAttributeInput) -> VertexAttributeDescriptor {
    VertexAttributeDescriptor {
        shader_location: a.shader_location,
        format: spec_vertex_format_named(a.format@).unwrap().0,
        offset: a.offset,
    }
}

proof fn lemma_first_failure(attributes: Seq<VertexAttributeInput>, array_stride: u64, i: int)
    requires
        0 <= i < attributes.len(),
        spec_attribute_input_fails(attributes, array_stride, i),
        forall|j: int| 0 <= j < i ==> !spec_attribute_input_fails(attributes, array_stride, j),
    ensures
        forall|k: int|
            0 <= k < attributes.len() && spec_attribute_input_fails(attributes, array_stride, k) && (
            forall|j: int| 0 <= j < k ==> !spec_attribute_input_fails(attributes, array_stride, j))
                ==> k == i,
{
}

/// The shader locations of the first `n` attributes.
pub open spec fn spec_locations_before(attributes: Seq<VertexAttributeInput>, n: int) -> Set<u32> {
    Set::new(|l: u32| exists|j: int| 0 <= j < n && #[trigger] attributes[j].shader_location == l)
}

/// A step mode name that selects no step mode.
pub open spec fn spec_bad_step_mode(step_mode: Option<String>) -> bool {
    step_mode matches Some(s) && spec_step_mode_named(s@) is None
}

impl VertexBufferDescriptorInput {
    /// Resolves a caller's vertex buffer description: the stride must be
    /// positive, there must be attributes, the step mode name must be known,
    /// and each attribute must have its own location, a known format and fit
    /// in the stride.
    pub fn try_into_binding(self) -> (converted: Result<ConvertedVertexBinding, BindingInputError>)
        ensures
            self.array_stride == 0 ==> (converted matches Err(e) && e is ZeroArrayStride),
            self.array_stride > 0 && self.attributes@.len() == 0 ==> (converted matches Err(e)
                && e is NoAttributes),
            self.array_stride > 0 && self.attributes@.len() > 0 && spec_bad_step_mode(self.step_mode) ==> (converted matches Err(
                BindingInputError::UnsupportedStepMode(m),
            ) && m@ == self.step_mode.unwrap()@),
            self.array_stride > 0 && self.attributes@.len() > 0 && !spec_bad_step_mode(self.step_mode) ==> {
                &&& forall|i: int|
                    0 <= i < self.attributes@.len() && spec_attribute_input_fails(
                        self.attributes@,
                        self.array_stride,
                        i,
                    ) && (forall|j: int|
                        0 <= j < i ==> !spec_attribute_input_fails(
                            self.attributes@,
                            self.array_stride,
                            j,
                        )) ==> (converted matches Err(e) && spec_attribute_input_error_is(
                        self.attributes@,
                        self.array_stride,
                        i,
                        e,
                    ))
                &&& (forall|i: int|
                    0 <= i < self.attributes@.len() ==> !spec_attribute_input_fails(
                        self.attributes@,
                        self.array_stride,
                        i,
                    )) ==> (converted matches Ok(c) && c.array_stride == self.array_stride
                    && c.slot == self.slot && c.step_mode == (match self.step_mode {
                    Some(s) => spec_step_mode_named(s@),
                    None => None,
                }) && c.attributes@ == self.attributes@.map_values(
                    |a: VertexAttributeInput| spec_converted_attribute(a),
                ))
            },
    {
        if self.array_stride == 0 {
            return Err(BindingInputError::ZeroArrayStride);
        }
        if self.attributes.len() == 0 {
            return Err(BindingInputError::NoAttributes);
        }
        let ghost given_step_mode = self.step_mode;
        let step_mode = match self.step_mode {
            Some(s) => match parse_vertex_step_mode(s) {
                Ok(m) => Some(m),
                Err(e) => return Err(e),
            },
            None => None,
        };
        let inputs = &self.attributes;
        let mut attributes: Vec<VertexAttributeDescriptor> = Vec::new();
        let mut shader_locations: HashSet<u32> = HashSet::new();
        proof {
            broadcast use vstd::std_specs::hash::group_hash_axioms;

            assert(vstd::std_specs::hash::obeys_key_model::<u32>());
            assert(vstd::std_specs::hash::builds_valid_hashers::<RandomState>());
            assert(shader_locations@ =~= spec_locations_before(inputs@, 0));
        }
        let mut i: usize = 0;
        while i < inputs.len()
            invariant
                i <= inputs@.len(),
                vstd::std_specs::hash::obeys_key_model::<u32>(),
                vstd::std_specs::hash::builds_valid_hashers::<RandomState>(),
                shader_locations@ == spec_locations_before(inputs@, i as int),
                inputs@ == self.attributes@,
                self.array_stride > 0,
                inputs@.len() > 0,
                !spec_bad_step_mode(given_step_mode),
                given_step_mode == self.step_mode,
                step_mode == (match given_step_mode {
                    Some(s) => spec_step_mode_named(s@),
                    None => None,
                }),
                attributes@ == inputs@.take(i as int).map_values(
                    |a: VertexAttributeInput| spec_converted_attribute(a),
                ),
                forall|j: int| 0 <= j < i ==> !spec_attribute_input_fails(inputs@, self.array_stride, j),
            decreases inputs@.len() - i,
        {
            let attribute = &inputs[i];
            if !shader_locations.insert(attribute.shader_location) {
                proof {
                    let jj = choose|jj: int|
                        0 <= jj < i && #[trigger] inputs@[jj].shader_location == attribute.shader_location;
                    assert(inputs@[jj].shader_location == inputs@[i as int].shader_location);
                    assert(spec_attribute_input_fails(inputs@, self.array_stride, i as int));
                    lemma_first_failure(inputs@, self.array_stride, i as int);
                    assert(spec_attribute_input_error_is(
                        inputs@,
                        self.array_stride,
                        i as int,
                        BindingInputError::DuplicateLocation(attribute.shader_location),
                    ));
                }
                return Err(BindingInputError::DuplicateLocation(attribute.shader_location));
            }
            proof {
                assert(!(exists|jj: int|
                    0 <= jj < i && #[trigger] inputs@[jj].shader_location == inputs@[i as int].shader_location));
                assert(shader_locations@ =~= spec_locations_before(inputs@, i + 1));
            }
            let (format, size) = match parse_vertex_format(attribute.format.as_str()) {
                Ok(p) => p,
                Err(e) => {
                    proof {
                        assert(spec_vertex_format_named(inputs@[i as int].format@) is None);
                        assert(spec_attribute_input_fails(inputs@, self.array_stride, i as int));
                        lemma_first_failure(inputs@, self.array_stride, i as int);
                        assert(spec_attribute_input_error_is(inputs@, self.array_stride, i as int, e));
                    }
                    return Err(e);
                },
            };
            let exceeds = match attribute.offset.checked_add(size) {
                Some(end) => end > self.array_stride,
                None => true,
            };
            if exceeds {
                proof {
                    assert(spec_vertex_format_named(inputs@[i as int].format@) == Some((format, size)));
                    assert(spec_attribute_input_fails(inputs@, self.array_stride, i as int));
                    lemma_first_failure(inputs@, self.array_stride, i as int);
                    assert(spec_attribute_input_error_is(
                        inputs@,
                        self.array_stride,
                        i as int,
                        BindingInputError::ExceedsStride {
                            shader_location: attribute.shader_location,
                            array_stride: self.array_stride,
                        },
                    ));
                }
                return Err(
                    BindingInputError::ExceedsStride {
                        shader_location: attribute.shader_location,
                        array_stride: self.array_stride,
                    },
                );
            }
            let ghost before = attributes@;
            attributes.push(
                VertexAttributeDescriptor {
                    shader_location: attribute.shader_location,
                    format,
                    offset: attribute.offset,
                },
            );
            proof {
                assert(inputs@.take(i as int + 1) =~= inputs@.take(i as int).push(inputs@[i as int]));
                assert(attributes@ =~= inputs@.take(i as int + 1).map_values(
                    |a: VertexAttributeInput| spec_converted_attribute(a),
                ));
            }
            i = i + 1;
        }
        proof {
            assert(inputs@.take(inputs@.len() as int) =~= inputs@);
        }
        Ok(ConvertedVertexBinding { array_stride: self.array_stride, attributes, slot: self.slot, step_mode })
    }
}


proof fn lemma_first_failure_exists(attributes: Seq<VertexAttributeInput>, array_stride: u64, n: int)
    requires
        0 <= n <= attributes.len(),
        exists|i: int| 0 <= i < n && #[trigger] spec_attribute_input_fails(attributes, array_stride, i),
    ensures
        exists|i: int|
            0 <= i < n && #[trigger] spec_attribute_input_fails(attributes, array_stride, i) && forall|j: int|
                0 <= j < i ==> !spec_attribute_input_fails(attributes, array_stride, j),
    decreases n,
{
    if exists|i: int| 0 <= i < n - 1 && #[trigger] spec_attribute_input_fails(attributes, array_stride, i) {
        lemma_first_failure_exists(attributes, array_stride, n - 1);
    } else {
        assert(spec_attribute_input_fails(attributes, array_stride, n - 1));
    }
}

/// When some attribute of a description is refused, exactly one attribute
/// is the first refused one, so the error of the conversion (the one that
/// attribute raises) is determined by the description alone.
pub proof fn law_first_attribute_failure(attributes: Seq<VertexAttributeInput>, array_stride: u64)
    ensures
        (exists|i: int|
            0 <= i < attributes.len() && #[trigger] spec_attribute_input_fails(attributes, array_stride, i))
            ==> exists|i: int|
            0 <= i < attributes.len() && #[trigger] spec_attribute_input_fails(attributes, array_stride, i)
                && forall|j: int| 0 <= j < i ==> !spec_attribute_input_fails(attributes, array_stride, j),
        forall|i: int, k: int|
            0 <= i < attributes.len() && 0 <= k < attributes.len() && #[trigger] spec_attribute_input_fails(
                attributes,
                array_stride,
                i,
            ) && #[trigger] spec_attribute_input_fails(attributes, array_stride, k) && (forall|j: int|
                0 <= j < i ==> !spec_attribute_input_fails(attributes, array_stride, j)) && (forall|j: int|
                0 <= j < k ==> !spec_attribute_input_fails(attributes, array_stride, j)) ==> i == k,
{
    if exists|i: int|
        0 <= i < attributes.len() && #[trigger] spec_attribute_input_fails(attributes, array_stride, i) {
        lemma_first_failure_exists(attributes, array_stride, attributes.len() as int);
    }
    assert forall|i: int, k: int|
        0 <= i < attributes.len() && 0 <= k < attributes.len() && #[trigger] spec_attribute_input_fails(
            attributes,
            array_stride,
            i,
        ) && #[trigger] spec_attribute_input_fails(attributes, array_stride, k) && (forall|j: int|
            0 <= j < i ==> !spec_attribute_input_fails(attributes, array_stride, j)) && (forall|j: int|
            0 <= j < k ==> !spec_attribute_input_fails(attributes, array_stride, j)) implies i == k by {
        lemma_first_failure(attributes, array_stride, i);
    }
}

} // verus!
