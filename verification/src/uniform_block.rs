use vstd::prelude::*;

use crate::error::BelfastError;

verus! {

/// Scalar, vector and matrix types that a uniform block field can hold.
#[derive(Clone, Copy, Debug, PartialEq, Eq, Structural)]
pub enum UniformFieldType {
    F32,
    U32,
    Vec2F,
    Vec3F,
    Vec4F,
    Mat3x3F,
    Mat4x4F,
}

/// WGSL uniform-address-space layout facts of one field type.
#[derive(Clone, Copy, Debug)]
pub struct TypeSpec {
    pub alignment: usize,
    pub storage_byte_size: usize,
    pub value_float_count: usize,
    pub name: &'static str,
}

/// Byte alignment of a field type in a WGSL uniform struct.
pub open spec fn spec_alignment(field_type: UniformFieldType) -> nat {
    match field_type {
        UniformFieldType::F32 | UniformFieldType::U32 => 4,
        UniformFieldType::Vec2F => 8,
        _ => 16,
    }
}

/// Bytes that a field of this type occupies, padding included.
pub open spec fn spec_storage_byte_size(field_type: UniformFieldType) -> nat {
    match field_type {
        UniformFieldType::F32 | UniformFieldType::U32 => 4,
        UniformFieldType::Vec2F => 8,
        UniformFieldType::Vec3F | UniformFieldType::Vec4F => 16,
        UniformFieldType::Mat3x3F => 48,
        UniformFieldType::Mat4x4F => 64,
    }
}

/// Number of scalar values a caller supplies for a field of this type.
pub open spec fn spec_value_float_count(field_type: UniformFieldType) -> nat {
    match field_type {
        UniformFieldType::F32 | UniformFieldType::U32 => 1,
        UniformFieldType::Vec2F => 2,
        UniformFieldType::Vec3F => 3,
        UniformFieldType::Vec4F => 4,
        UniformFieldType::Mat3x3F => 9,
        UniformFieldType::Mat4x4F => 16,
    }
}

/// WGSL spelling of a field type.
pub open spec fn spec_type_name(field_type: UniformFieldType) -> Seq<char> {
    match field_type {
        UniformFieldType::F32 => "f32"@,
        UniformFieldType::U32 => "u32"@,
        UniformFieldType::Vec2F => "vec2f"@,
        UniformFieldType::Vec3F => "vec3f"@,
        UniformFieldType::Vec4F => "vec4f"@,
        UniformFieldType::Mat3x3F => "mat3x3f"@,
        UniformFieldType::Mat4x4F => "mat4x4f"@,
    }
}

/// Rounds `value` up to the next multiple of `alignment`.
pub open spec fn spec_align_to(value: int, alignment: int) -> int {
    if value % alignment == 0 {
        value
    } else {
        value + alignment - value % alignment
    }
}

/// Rounds `value` up to the next multiple of `alignment`.
pub fn align_to(value: usize, alignment: usize) -> (aligned: usize)
    requires
        alignment > 0,
        value % alignment == 0 || value + alignment <= usize::MAX,
    ensures
        aligned == spec_align_to(value as int, alignment as int),
        aligned >= value,
        aligned % alignment == 0,
        aligned < value + alignment,
{
    let remainder = value % alignment;
    if remainder == 0 {
        value
    } else {
        proof {
            lemma_align_up_is_multiple(value as int, alignment as int);
        }
        value + alignment - remainder
    }
}

proof fn lemma_align_up_is_multiple(value: int, alignment: int)
    requires
        alignment > 0,
        value >= 0,
    ensures
        (value + alignment - value % alignment) % alignment == 0,
{
    let q = value / alignment;
    let r = value % alignment;
    vstd::arithmetic::div_mod::lemma_fundamental_div_mod(value, alignment);
    assert(value + alignment - r == alignment * (q + 1)) by (nonlinear_arith)
        requires
            value == alignment * q + r,
    ;
    vstd::arithmetic::div_mod::lemma_mod_multiples_basic(q + 1, alignment);
}

/// Layout facts of a field type.
pub fn type_spec(field_type: UniformFieldType) -> (spec: TypeSpec)
    ensures
        spec.alignment == spec_alignment(field_type),
        spec.storage_byte_size == spec_storage_byte_size(field_type),
        spec.value_float_count == spec_value_float_count(field_type),
        spec.name@ == spec_type_name(field_type),
{
    proof {
        reveal_strlit("f32");
        reveal_strlit("u32");
        reveal_strlit("vec2f");
        reveal_strlit("vec3f");
        reveal_strlit("vec4f");
        reveal_strlit("mat3x3f");
        reveal_strlit("mat4x4f");
    }
    match field_type {
        UniformFieldType::F32 => TypeSpec {
            alignment: 4,
            storage_byte_size: 4,
            value_float_count: 1,
            name: "f32",
        },
        UniformFieldType::U32 => TypeSpec {
            alignment: 4,
            storage_byte_size: 4,
            value_float_count: 1,
            name: "u32",
        },
        UniformFieldType::Vec2F => TypeSpec {
            alignment: 8,
            storage_byte_size: 8,
            value_float_count: 2,
            name: "vec2f",
        },
        UniformFieldType::Vec3F => TypeSpec {
            alignment: 16,
            storage_byte_size: 16,
            value_float_count: 3,
            name: "vec3f",
        },
        UniformFieldType::Vec4F => TypeSpec {
            alignment: 16,
            storage_byte_size: 16,
            value_float_count: 4,
            name: "vec4f",
        },
        UniformFieldType::Mat3x3F => TypeSpec {
            alignment: 16,
            storage_byte_size: 48,
            value_float_count: 9,
            name: "mat3x3f",
        },
        UniformFieldType::Mat4x4F => TypeSpec {
            alignment: 16,
            storage_byte_size: 64,
            value_float_count: 16,
            name: "mat4x4f",
        },
    }
}

} // verus!

verus! {

/// End offset, in bytes, of the last field when `types` are packed in order
/// with WGSL uniform alignment.
pub open spec fn spec_layout_end(types: Seq<UniformFieldType>) -> nat
    decreases types.len(),
{
    if types.len() == 0 {
        0
    } else {
        let previous = spec_layout_end(types.drop_last());
        (spec_align_to(previous as int, spec_alignment(types.last()) as int)
            + spec_storage_byte_size(types.last())) as nat
    }
}

/// Byte offset of field `index` when `types` are packed in order.
pub open spec fn spec_field_byte_offset(types: Seq<UniformFieldType>, index: int) -> int {
    spec_align_to(spec_layout_end(types.take(index)) as int, spec_alignment(types[index]) as int)
}

/// The largest alignment among `types`; four when there are none.
pub open spec fn spec_max_alignment(types: Seq<UniformFieldType>) -> nat
    decreases types.len(),
{
    if types.len() == 0 {
        4
    } else {
        let previous = spec_max_alignment(types.drop_last());
        let alignment = spec_alignment(types.last());
        if alignment > previous {
            alignment
        } else {
            previous
        }
    }
}

/// Byte size of the whole block: the packed fields, padded to the largest
/// alignment of its fields, as WGSL sizes a struct.
pub open spec fn spec_block_byte_size(types: Seq<UniformFieldType>) -> int {
    spec_align_to(spec_layout_end(types) as int, spec_max_alignment(types) as int)
}

/// The field types of a schema, in order.
pub open spec fn spec_schema_types(schema: Seq<(String, UniformFieldType)>) -> Seq<UniformFieldType> {
    schema.map_values(|entry: (String, UniformFieldType)| entry.1)
}

/// A field as seen by contracts.
pub struct UniformFieldView {
    pub name: Seq<char>,
    pub field_type: UniformFieldType,
    pub float_offset: nat,
}

/// A uniform block as seen by contracts: its byte size, its 32-bit words
/// (each `f32` held by its bit pattern) and its fields in schema order.
pub struct UniformBlockView {
    pub byte_size: nat,
    pub words: Seq<u32>,
    pub fields: Seq<UniformFieldView>,
}

/// The field a name refers to: the last one declared under that name.
pub open spec fn spec_lookup(fields: Seq<UniformFieldView>, name: Seq<char>) -> Option<UniformFieldView>
    decreases fields.len(),
{
    if fields.len() == 0 {
        None
    } else if fields.last().name == name {
        Some(fields.last())
    } else {
        spec_lookup(fields.drop_last(), name)
    }
}

/// What every uniform block keeps: its byte size is four bytes per word,
/// and each field's words lie inside the block.
pub open spec fn spec_block_well_formed(block: UniformBlockView) -> bool {
    &&& block.byte_size == 4 * block.words.len()
    &&& forall|i: int|
        0 <= i < block.fields.len() ==> #[trigger] block.fields[i].float_offset + spec_storage_byte_size(
            block.fields[i].field_type,
        ) / 4 <= block.words.len()
}

/// The block that `UniformBlock::create` builds from a schema.
pub open spec fn spec_created_block(schema: Seq<(String, UniformFieldType)>) -> UniformBlockView {
    let types = spec_schema_types(schema);
    let byte_size = spec_block_byte_size(types);
    UniformBlockView {
        byte_size: byte_size as nat,
        words: Seq::new((byte_size / 4) as nat, |i: int| 0u32),
        fields: Seq::new(
            schema.len(),
            |i: int|
                UniformFieldView {
                    name: schema[i].0@,
                    field_type: schema[i].1,
                    float_offset: (spec_field_byte_offset(types, i) / 4) as nat,
                },
        ),
    }
}

/// The words that a field of type `field_type` holds after it is written
/// from `values`: vectors of three and matrix columns get a zero pad word.
pub open spec fn spec_packed_word(field_type: UniformFieldType, values: Seq<u32>, index: int) -> u32 {
    match field_type {
        UniformFieldType::Vec3F => if index == 3 {
            0
        } else {
            values[index]
        },
        UniformFieldType::Mat3x3F => if index % 4 == 3 {
            0
        } else {
            values[(index / 4) * 3 + index % 4]
        },
        _ => values[index],
    }
}

/// All words a field of type `field_type` holds after it is written from `values`.
pub open spec fn spec_packed_values(field_type: UniformFieldType, values: Seq<u32>) -> Seq<u32> {
    Seq::new(
        spec_storage_byte_size(field_type) / 4,
        |index: int| spec_packed_word(field_type, values, index),
    )
}

/// `words` with the run starting at `offset` replaced by `run`.
pub open spec fn spec_overwrite(words: Seq<u32>, offset: int, run: Seq<u32>) -> Seq<u32> {
    Seq::new(
        words.len(),
        |index: int|
            if offset <= index < offset + run.len() {
                run[index - offset]
            } else {
                words[index]
            },
    )
}

struct UniformField {
    name: String,
    field_type: UniformFieldType,
    float_offset: usize,
}

/// A uniform buffer block laid out by name with WGSL alignment rules.
///
/// Values are kept as 32-bit words; an `f32` is stored as its bit pattern.
pub struct UniformBlock {
    byte_size: usize,
    float_count: usize,
    words: Vec<u32>,
    fields: Vec<UniformField>,
}

impl UniformField {
    spec fn view(self) -> UniformFieldView {
        UniformFieldView {
            name: self.name@,
            field_type: self.field_type,
            float_offset: self.float_offset as nat,
        }
    }
}

impl View for UniformBlock {
    type V = UniformBlockView;

    closed spec fn view(&self) -> UniformBlockView {
        UniformBlockView {
            byte_size: self.byte_size as nat,
            words: self.words@,
            fields: self.fields@.map_values(|field: UniformField| field.view()),
        }
    }
}

proof fn lemma_align_bounds(value: int, alignment: int)
    requires
        value >= 0,
        alignment > 0,
    ensures
        value <= spec_align_to(value, alignment) < value + alignment,
        spec_align_to(value, alignment) % alignment == 0,
{
    if value % alignment != 0 {
        lemma_align_up_is_multiple(value, alignment);
    }
}

proof fn lemma_aligned_is_word_aligned(value: int, alignment: int)
    requires
        value >= 0,
        alignment == 4 || alignment == 8 || alignment == 16,
        value % alignment == 0,
    ensures
        value % 4 == 0,
{
    let q = value / alignment;
    vstd::arithmetic::div_mod::lemma_fundamental_div_mod(value, alignment);
    assert(value == 4 * ((alignment / 4) * q)) by (nonlinear_arith)
        requires
            value == alignment * q,
            alignment == 4 || alignment == 8 || alignment == 16,
    ;
    vstd::arithmetic::div_mod::lemma_mod_multiples_basic((alignment / 4) * q, 4);
}

proof fn lemma_max_alignment_values(types: Seq<UniformFieldType>)
    ensures
        spec_max_alignment(types) == 4 || spec_max_alignment(types) == 8 || spec_max_alignment(types)
            == 16,
    decreases types.len(),
{
    if types.len() > 0 {
        lemma_max_alignment_values(types.drop_last());
    }
}

proof fn lemma_layout_end_bounds(types: Seq<UniformFieldType>)
    ensures
        spec_layout_end(types) <= 80 * types.len(),
        spec_layout_end(types) % 4 == 0,
    decreases types.len(),
{
    if types.len() > 0 {
        let previous = types.drop_last();
        lemma_layout_end_bounds(previous);
        let a = spec_alignment(types.last()) as int;
        let p = spec_layout_end(previous) as int;
        lemma_align_bounds(p, a);
        lemma_aligned_is_word_aligned(spec_align_to(p, a), a);
    }
}

impl UniformBlock {
    #[verifier::type_invariant]
    spec fn well_formed(self) -> bool {
        &&& self.words.len() == self.float_count
        &&& self.byte_size == 4 * self.float_count
        &&& forall|i: int|
            0 <= i < self.fields.len() ==> {
                let field = #[trigger] self.fields[i];
                field.float_offset + spec_storage_byte_size(field.field_type) / 4 <= self.float_count
            }
    }
}

proof fn lemma_view_well_formed(block: UniformBlock)
    requires
        block.well_formed(),
    ensures
        spec_block_well_formed(block@),
{
    assert forall|i: int| 0 <= i < block@.fields.len() implies #[trigger] block@.fields[i].float_offset
        + spec_storage_byte_size(block@.fields[i].field_type) / 4 <= block@.words.len() by {
        assert(block@.fields[i] == block.fields@[i].view());
        assert(block.fields@[i] == block.fields[i]);
    }
}

} // verus!

verus! {

impl UniformBlock {
    /// Packs the named fields of `schema` in order with WGSL uniform
    /// alignment and pads the block to the largest alignment of its fields. Every word starts at zero.
    /// A name declared twice refers to its last declaration.
    pub fn create(schema: Vec<(String, UniformFieldType)>) -> (block: Result<UniformBlock, BelfastError>)
        requires
            80 * schema@.len() + 16 <= usize::MAX,
        ensures
            block matches Ok(b) && b@ == spec_created_block(schema@) && spec_block_well_formed(b@),
    {
        let ghost types = spec_schema_types(schema@);
        let mut byte_offset: usize = 0;
        let mut max_alignment: usize = 4;
        let mut fields: Vec<UniformField> = Vec::new();
        let mut i: usize = 0;
        while i < schema.len()
            invariant
                i <= schema@.len(),
                80 * schema@.len() + 16 <= usize::MAX,
                types == spec_schema_types(schema@),
                byte_offset == spec_layout_end(types.take(i as int)),
                max_alignment == spec_max_alignment(types.take(i as int)),
                fields@.len() == i,
                forall|k: int|
                    0 <= k < i ==> {
                        let field = #[trigger] fields@[k];
                        &&& field.name@ == schema@[k].0@
                        &&& field.field_type == schema@[k].1
                        &&& field.float_offset * 4 == spec_field_byte_offset(types, k)
                        &&& spec_field_byte_offset(types, k) + spec_storage_byte_size(field.field_type)
                            <= spec_layout_end(types.take(i as int))
                    },
            decreases schema@.len() - i,
        {
            let field_type = schema[i].1;
            let name = schema[i].0.clone();
            let spec = type_spec(field_type);
            proof {
                lemma_layout_end_bounds(types.take(i as int));
                assert(types.take(i as int + 1).drop_last() =~= types.take(i as int));
                assert(types[i as int] == field_type);
            }
            let offset = align_to(byte_offset, spec.alignment);
            proof {
                lemma_align_bounds(byte_offset as int, spec.alignment as int);
                lemma_aligned_is_word_aligned(offset as int, spec.alignment as int);
            }
            fields.push(UniformField { name, field_type, float_offset: offset / 4 });
            byte_offset = offset + spec.storage_byte_size;
            if spec.alignment > max_alignment {
                max_alignment = spec.alignment;
            }
            proof {
                assert forall|k: int| 0 <= k < i + 1 implies {
                    let field = #[trigger] fields@[k];
                    &&& field.name@ == schema@[k].0@
                    &&& field.field_type == schema@[k].1
                    &&& field.float_offset * 4 == spec_field_byte_offset(types, k)
                    &&& spec_field_byte_offset(types, k) + spec_storage_byte_size(field.field_type)
                        <= spec_layout_end(types.take(i as int + 1))
                } by {
                    if k < i {
                        lemma_align_bounds(
                            spec_layout_end(types.take(i as int)) as int,
                            spec_alignment(types[i as int]) as int,
                        );
                    }
                }
            }
            i = i + 1;
        }
        proof {
            assert(types.take(i as int) =~= types);
            lemma_layout_end_bounds(types);
            lemma_max_alignment_values(types);
        }
        let byte_size = align_to(byte_offset, max_alignment);
        proof {
            lemma_align_bounds(byte_offset as int, max_alignment as int);
            lemma_aligned_is_word_aligned(byte_size as int, max_alignment as int);
        }
        let float_count = byte_size / 4;
        let words: Vec<u32> = vec![0u32; float_count];
        proof {
            assert forall|k: int| 0 <= k < fields@.len() implies {
                let field = #[trigger] fields@[k];
                field.float_offset + spec_storage_byte_size(field.field_type) / 4 <= float_count
            } by {
                let field = fields@[k];
                assert(spec_storage_byte_size(field.field_type) % 4 == 0);
            }
        }
        let block = UniformBlock { byte_size, float_count, words, fields };
        proof {
            let expected = spec_created_block(schema@);
            assert(block@.words =~= expected.words);
            assert(block@.fields =~= expected.fields);
            lemma_view_well_formed(block);
        }
        Ok(block)
    }
}

} // verus!

verus! {

/// The bytes of `words`, each word in little-endian order.
pub open spec fn spec_le_bytes(words: Seq<u32>) -> Seq<u8> {
    Seq::new(
        4 * words.len(),
        |index: int| ((words[index / 4] >> (8 * (index % 4)) as u32) & 0xff) as u8,
    )
}

/// The error that names an unknown field.
pub open spec fn is_unknown_field_error(error: BelfastError, name: Seq<char>) -> bool {
    error matches BelfastError::UnknownUniformField(n) && n@ == name
}

/// The error raised when a field is written with a value of another type.
pub open spec fn is_type_mismatch_error(
    error: BelfastError,
    name: Seq<char>,
    expected: Seq<char>,
    actual: Seq<char>,
) -> bool {
    error matches BelfastError::UniformTypeMismatch { name: n, expected: e, actual: a } && n@ == name
        && e@ == expected && a@ == actual
}

/// The error raised when a slice holds fewer values than the field needs.
pub open spec fn is_too_short_error(error: BelfastError, name: Seq<char>, expected: nat, actual: nat) -> bool {
    error matches BelfastError::UniformValueTooShort { name: n, expected: e, actual: a } && n@ == name
        && e == expected && a == actual
}

impl UniformBlock {
    /// Byte size of the block.
    pub fn byte_size(&self) -> (size: usize)
        ensures
            spec_block_well_formed(self@),
            size == self@.byte_size,
    {
        proof {
            use_type_invariant(&*self);
            lemma_view_well_formed(*self);
        }
        self.byte_size
    }

    /// Number of 32-bit words in the block.
    pub fn float_count(&self) -> (count: usize)
        ensures
            spec_block_well_formed(self@),
            4 * count == self@.byte_size,
            count == self@.words.len(),
    {
        proof {
            use_type_invariant(self);
            lemma_view_well_formed(*self);
        }
        self.float_count
    }

    /// The block's words; an `f32` is held by its bit pattern.
    pub fn u32_data(&self) -> (data: &[u32])
        ensures
            spec_block_well_formed(self@),
            data@ == self@.words,
    {
        proof {
            use_type_invariant(&*self);
            lemma_view_well_formed(*self);
        }
        self.words.as_slice()
    }

    /// The block's bytes as they are uploaded to the GPU.
    pub fn bytes(&self) -> (bytes: Vec<u8>)
        ensures
            spec_block_well_formed(self@),
            bytes@ == spec_le_bytes(self@.words),
    {
        proof {
            use_type_invariant(self);
            lemma_view_well_formed(*self);
        }
        let mut bytes: Vec<u8> = Vec::new();
        let mut i: usize = 0;
        while i < self.words.len()
            invariant
                i <= self.words@.len(),
                self.byte_size == 4 * self.words@.len(),
                bytes@ =~= spec_le_bytes(self.words@.take(i as int)),
            decreases self.words@.len() - i,
        {
            let word = self.words[i];
            proof {
                assert(word & 0xff <= 0xff && (word >> 8u32) & 0xff <= 0xff && (word >> 16u32) & 0xff
                    <= 0xff && (word >> 24u32) & 0xff <= 0xff && word >> 0u32 == word) by (bit_vector);
            }
            let b0 = (word & 0xff) as u8;
            let b1 = ((word >> 8u32) & 0xff) as u8;
            let b2 = ((word >> 16u32) & 0xff) as u8;
            let b3 = ((word >> 24u32) & 0xff) as u8;
            bytes.push(b0);
            bytes.push(b1);
            bytes.push(b2);
            bytes.push(b3);
            proof {
                let next = self.words@.take(i as int + 1);
                assert forall|index: int| 0 <= index < 4 * (i + 1) implies #[trigger] bytes@[index]
                    == spec_le_bytes(next)[index] by {
                    if index < 4 * i {
                        assert(index / 4 < i) by (nonlinear_arith)
                            requires
                                0 <= index < 4 * i,
                        ;
                        assert(self.words@.take(i as int)[index / 4] == next[index / 4]);
                    } else {
                        let k = index - 4 * i;
                        assert(index / 4 == i && index % 4 == k) by (nonlinear_arith)
                            requires
                                4 * i <= index < 4 * (i + 1),
                                k == index - 4 * i,
                        ;
                        assert(next[index / 4] == word);
                    }
                }
                assert(bytes@ =~= spec_le_bytes(next));
            }
            i = i + 1;
        }
        proof {
            assert(self.words@.take(i as int) =~= self.words@);
        }
        bytes
    }

    fn find_field(&self, name: &str) -> (index: Option<usize>)
        ensures
            match index {
                Some(i) => i < self.fields@.len() && spec_lookup(self@.fields, name@) == Some(
                    self@.fields[i as int],
                ),
                None => spec_lookup(self@.fields, name@) is None,
            },
    {
        let key = name.to_owned();
        let ghost fields = self@.fields;
        let mut i = self.fields.len();
        proof {
            assert(fields.take(i as int) =~= fields);
        }
        while i > 0
            invariant
                i <= self.fields@.len(),
                key@ == name@,
                fields == self@.fields,
                fields.len() == self.fields@.len(),
                spec_lookup(fields, name@) == spec_lookup(fields.take(i as int), name@),
            decreases i,
        {
            let ghost prefix = fields.take(i as int);
            proof {
                assert(prefix.drop_last() =~= fields.take(i as int - 1));
                assert(prefix.last() == fields[i as int - 1]);
                assert(fields[i as int - 1] == self.fields@[i as int - 1].view());
            }
            if self.fields[i - 1].name == key {
                return Some(i - 1);
            }
            i = i - 1;
        }
        proof {
            assert(fields.take(0) =~= Seq::<UniformFieldView>::empty());
        }
        None
    }

    /// Word offset of the named field.
    pub fn get_offset(&self, name: &str) -> (offset: Result<usize, BelfastError>)
        ensures
            spec_block_well_formed(self@),
            match spec_lookup(self@.fields, name@) {
                Some(field) => offset == Ok::<usize, BelfastError>(field.float_offset as usize),
                None => offset matches Err(e) && is_unknown_field_error(e, name@),
            },
    {
        proof {
            use_type_invariant(&*self);
            lemma_view_well_formed(*self);
        }
        match self.find_field(name) {
            Some(i) => Ok(self.fields[i].float_offset),
            None => Err(BelfastError::UnknownUniformField(name.to_owned())),
        }
    }

    /// Declared type of the named field.
    pub fn field_type(&self, name: &str) -> (field_type: Result<UniformFieldType, BelfastError>)
        ensures
            spec_block_well_formed(self@),
            match spec_lookup(self@.fields, name@) {
                Some(field) => field_type == Ok::<UniformFieldType, BelfastError>(field.field_type),
                None => field_type matches Err(e) && is_unknown_field_error(e, name@),
            },
    {
        proof {
            use_type_invariant(&*self);
            lemma_view_well_formed(*self);
        }
        match self.find_field(name) {
            Some(i) => Ok(self.fields[i].field_type),
            None => Err(BelfastError::UnknownUniformField(name.to_owned())),
        }
    }
}

} // verus!

verus! {

/// `block` with its words replaced by `words`.
pub open spec fn spec_with_words(block: UniformBlockView, words: Seq<u32>) -> UniformBlockView {
    UniformBlockView { words, ..block }
}

impl UniformBlock {
    /// Writes the bit pattern of an `f32` into an `f32` field.
    pub fn set_f32(&mut self, name: &str, value: u32) -> (result: Result<(), BelfastError>)
        ensures
            spec_block_well_formed(old(self)@),
            spec_block_well_formed(final(self)@),
            match spec_lookup(old(self)@.fields, name@) {
                None => result matches Err(e) && is_unknown_field_error(e, name@) && final(self)@
                    == old(self)@,
                Some(field) => if field.field_type == UniformFieldType::F32 {
                    result is Ok && final(self)@ == spec_with_words(
                        old(self)@,
                        old(self)@.words.update(field.float_offset as int, value),
                    )
                } else {
                    result matches Err(e) && is_type_mismatch_error(
                        e,
                        name@,
                        spec_type_name(field.field_type),
                        "f32"@,
                    ) && final(self)@ == old(self)@
                },
            },
    {
        self.set_word(name, value, UniformFieldType::F32, "f32")
    }

    /// Writes a `u32` into a `u32` field.
    pub fn set_u32(&mut self, name: &str, value: u32) -> (result: Result<(), BelfastError>)
        ensures
            spec_block_well_formed(old(self)@),
            spec_block_well_formed(final(self)@),
            match spec_lookup(old(self)@.fields, name@) {
                None => result matches Err(e) && is_unknown_field_error(e, name@) && final(self)@
                    == old(self)@,
                Some(field) => if field.field_type == UniformFieldType::U32 {
                    result is Ok && final(self)@ == spec_with_words(
                        old(self)@,
                        old(self)@.words.update(field.float_offset as int, value),
                    )
                } else {
                    result matches Err(e) && is_type_mismatch_error(
                        e,
                        name@,
                        spec_type_name(field.field_type),
                        "u32"@,
                    ) && final(self)@ == old(self)@
                },
            },
    {
        self.set_word(name, value, UniformFieldType::U32, "u32")
    }

    fn set_word(&mut self, name: &str, value: u32, expected: UniformFieldType, actual: &'static str) -> (result:
        Result<(), BelfastError>)
        ensures
            spec_block_well_formed(old(self)@),
            spec_block_well_formed(final(self)@),
            match spec_lookup(old(self)@.fields, name@) {
                None => result matches Err(e) && is_unknown_field_error(e, name@) && final(self)@
                    == old(self)@,
                Some(field) => if field.field_type == expected {
                    result is Ok && final(self)@ == spec_with_words(
                        old(self)@,
                        old(self)@.words.update(field.float_offset as int, value),
                    )
                } else {
                    result matches Err(e) && is_type_mismatch_error(
                        e,
                        name@,
                        spec_type_name(field.field_type),
                        actual@,
                    ) && final(self)@ == old(self)@
                },
            },
    {
        proof {
            use_type_invariant(&*self);
            lemma_view_well_formed(*self);
        }
        let index = match self.find_field(name) {
            Some(i) => i,
            None => {
                return Err(BelfastError::UnknownUniformField(name.to_owned()));
            },
        };
        let field_type = self.fields[index].field_type;
        let offset = self.fields[index].float_offset;
        if field_type != expected {
            return Err(
                BelfastError::UniformTypeMismatch {
                    name: name.to_owned(),
                    expected: type_spec(field_type).name,
                    actual,
                },
            );
        }
        self.write_word(offset, value);
        proof {
            assert(self@.fields =~= old(self)@.fields);
        }
        Ok(())
    }

    fn write_word(&mut self, offset: usize, value: u32)
        requires
            offset < old(self).words@.len(),
        ensures
            final(self)@ == spec_with_words(old(self)@, old(self)@.words.update(offset as int, value)),
        no_unwind
    {
        proof {
            use_type_invariant(&*self);
        }
        self.words[offset] = value;
        proof {
            assert(self@.fields =~= old(self)@.fields);
        }
    }
}

} // verus!

verus! {

impl UniformBlock {
    /// Writes the bit patterns of `values` into a float field.
    ///
    /// A `u32` field refuses a slice; an `f32` field takes the first value;
    /// wider fields take as many values as they hold, and a `vec3f` or the
    /// columns of a `mat3x3f` get a zero pad word.
    pub fn set_f32_slice(&mut self, name: &str, values: &[u32]) -> (result: Result<(), BelfastError>)
        ensures
            spec_block_well_formed(old(self)@),
            spec_block_well_formed(final(self)@),
            match spec_lookup(old(self)@.fields, name@) {
                None => result matches Err(e) && is_unknown_field_error(e, name@) && final(self)@
                    == old(self)@,
                Some(field) => if field.field_type == UniformFieldType::U32 {
                    result matches Err(e) && is_type_mismatch_error(
                        e,
                        name@,
                        "u32"@,
                        "float slice"@,
                    ) && final(self)@ == old(self)@
                } else if values@.len() < spec_value_float_count(field.field_type) {
                    result matches Err(e) && is_too_short_error(
                        e,
                        name@,
                        spec_value_float_count(field.field_type),
                        values@.len(),
                    ) && final(self)@ == old(self)@
                } else {
                    result is Ok && final(self)@ == spec_with_words(
                        old(self)@,
                        spec_overwrite(
                            old(self)@.words,
                            field.float_offset as int,
                            spec_packed_values(field.field_type, values@),
                        ),
                    )
                },
            },
    {
        proof {
            use_type_invariant(&*self);
            lemma_view_well_formed(*self);
        }
        let index = match self.find_field(name) {
            Some(i) => i,
            None => {
                return Err(BelfastError::UnknownUniformField(name.to_owned()));
            },
        };
        let field_type = self.fields[index].field_type;
        let offset = self.fields[index].float_offset;
        if field_type == UniformFieldType::U32 {
            return Err(
                BelfastError::UniformTypeMismatch {
                    name: name.to_owned(),
                    expected: "u32",
                    actual: "float slice",
                },
            );
        }
        let spec = type_spec(field_type);
        if values.len() < spec.value_float_count {
            return Err(
                BelfastError::UniformValueTooShort {
                    name: name.to_owned(),
                    expected: spec.value_float_count,
                    actual: values.len(),
                },
            );
        }
        let run_len = spec.storage_byte_size / 4;
        let total = self.words.len();
        let ghost packed = spec_packed_values(field_type, values@);
        let ghost before = self@;
        let mut j: usize = 0;
        while j < run_len
            invariant
                j <= run_len,
                run_len == packed.len(),
                packed == spec_packed_values(field_type, values@),
                values@.len() >= spec_value_float_count(field_type),
                offset + run_len <= self.words@.len(),
                self.words@.len() == total,
                self@.byte_size == before.byte_size,
                self@.fields == before.fields,
                self@.words.len() == before.words.len(),
                forall|k: int|
                    0 <= k < self@.words.len() ==> #[trigger] self@.words[k] == if offset <= k < offset
                        + j {
                        packed[k - offset]
                    } else {
                        before.words[k]
                    },
            decreases run_len - j,
        {
            let word = match field_type {
                UniformFieldType::Vec3F => if j == 3 {
                    0
                } else {
                    values[j]
                },
                UniformFieldType::Mat3x3F => if j % 4 == 3 {
                    0
                } else {
                    proof {
                        assert((j / 4) * 3 + j % 4 < 9) by (nonlinear_arith)
                            requires
                                j < 12,
                                j % 4 != 3,
                        ;
                    }
                    values[(j / 4) * 3 + j % 4]
                },
                _ => values[j],
            };
            assert(word == packed[j as int]);
            self.write_word(offset + j, word);
            j = j + 1;
        }
        proof {
            assert(self@.words =~= spec_overwrite(before.words, offset as int, packed));
        }
        Ok(())
    }
}

} // verus!

verus! {

proof fn lemma_layout_end_monotonic(types: Seq<UniformFieldType>, i: int, j: int)
    requires
        0 <= i <= j <= types.len(),
    ensures
        spec_layout_end(types.take(i)) <= spec_layout_end(types.take(j)),
    decreases j - i,
{
    if i < j {
        lemma_layout_end_monotonic(types, i, j - 1);
        let prefix = types.take(j);
        assert(prefix.drop_last() =~= types.take(j - 1));
        lemma_align_bounds(
            spec_layout_end(types.take(j - 1)) as int,
            spec_alignment(types[j - 1]) as int,
        );
    }
}

/// Packing law: each field starts at an offset aligned to its type, and the
/// block, whose size is a multiple of the largest field alignment and of
/// four bytes, covers the whole field.
pub proof fn law_uniform_field_placement(types: Seq<UniformFieldType>, i: int)
    requires
        0 <= i < types.len(),
    ensures
        spec_field_byte_offset(types, i) % spec_alignment(types[i]) as int == 0,
        spec_field_byte_offset(types, i) + spec_storage_byte_size(types[i]) <= spec_block_byte_size(
            types,
        ),
        spec_block_byte_size(types) % spec_max_alignment(types) as int == 0,
        spec_block_byte_size(types) % 4 == 0,
{
    lemma_align_bounds(spec_layout_end(types.take(i)) as int, spec_alignment(types[i]) as int);
    assert(types.take(i + 1).drop_last() =~= types.take(i));
    lemma_layout_end_monotonic(types, i + 1, types.len() as int);
    assert(types.take(types.len() as int) =~= types);
    lemma_max_alignment_values(types);
    lemma_align_bounds(spec_layout_end(types) as int, spec_max_alignment(types) as int);
    lemma_aligned_is_word_aligned(spec_block_byte_size(types), spec_max_alignment(types) as int);
}

/// Packing law: fields keep schema order and never overlap; a later field
/// starts no earlier than the end of an earlier one.
pub proof fn law_uniform_fields_disjoint(types: Seq<UniformFieldType>, i: int, j: int)
    requires
        0 <= i < j < types.len(),
    ensures
        spec_field_byte_offset(types, i) + spec_storage_byte_size(types[i]) <= spec_field_byte_offset(
            types,
            j,
        ),
{
    lemma_align_bounds(spec_layout_end(types.take(j)) as int, spec_alignment(types[j]) as int);
    assert(types.take(i + 1).drop_last() =~= types.take(i));
    lemma_layout_end_monotonic(types, i + 1, j);
}

} // verus!

verus! {

/// Why a uniform schema from a caller was refused.
#[derive(Clone, Debug)]
pub enum UniformSchemaError {
    /// The type name of field `name` is none of the known names.
    UnsupportedFieldType { field_type: String, name: String },
}

/// The field type a type name selects; WGSL's spellings and shorter
/// vector and matrix names are both accepted.
pub open spec fn spec_field_type_named(field_type: Seq<char>) -> Option<UniformFieldType> {
    if field_type == "f32"@ {
        Some(UniformFieldType::F32)
    } else if field_type == "u32"@ {
        Some(UniformFieldType::U32)
    } else if field_type == "vec2"@ || field_type == "vec2f"@ {
        Some(UniformFieldType::Vec2F)
    } else if field_type == "vec3"@ || field_type == "vec3f"@ {
        Some(UniformFieldType::Vec3F)
    } else if field_type == "vec4"@ || field_type == "vec4f"@ {
        Some(UniformFieldType::Vec4F)
    } else if field_type == "mat3"@ {
        Some(UniformFieldType::Mat3x3F)
    } else if field_type == "mat4"@ || field_type == "mat4x4f"@ {
        Some(UniformFieldType::Mat4x4F)
    } else {
        None
    }
}

/// Reads the type name of uniform field `name`.
pub fn parse_field_type(name: &str, field_type: &str) -> (parsed: Result<UniformFieldType, UniformSchemaError>)
    ensures
        match spec_field_type_named(field_type@) {
            Some(t) => parsed matches Ok(p) && p == t,
            None => parsed matches Err(UniformSchemaError::UnsupportedFieldType { field_type: f, name: n })
                && f@ == field_type@ && n@ == name@,
        },
{
    if crate::text::str_equals(field_type, "f32") {
        Ok(UniformFieldType::F32)
    } else if crate::text::str_equals(field_type, "u32") {
        Ok(UniformFieldType::U32)
    } else if crate::text::str_equals(field_type, "vec2") || crate::text::str_equals(field_type, "vec2f") {
        Ok(UniformFieldType::Vec2F)
    } else if crate::text::str_equals(field_type, "vec3") || crate::text::str_equals(field_type, "vec3f") {
        Ok(UniformFieldType::Vec3F)
    } else if crate::text::str_equals(field_type, "vec4") || crate::text::str_equals(field_type, "vec4f") {
        Ok(UniformFieldType::Vec4F)
    } else if crate::text::str_equals(field_type, "mat3") {
        Ok(UniformFieldType::Mat3x3F)
    } else if crate::text::str_equals(field_type, "mat4") || crate::text::str_equals(field_type, "mat4x4f") {
        Ok(UniformFieldType::Mat4x4F)
    } else {
        Err(
            UniformSchemaError::UnsupportedFieldType {
                field_type: field_type.to_owned(),
                name: name.to_owned(),
            },
        )
    }
}

/// Number of scalar values a caller supplies for a field of this type.
pub fn value_float_count(field_type: UniformFieldType) -> (count: usize)
    ensures
        count == spec_value_float_count(field_type),
{
    match field_type {
        UniformFieldType::F32 | UniformFieldType::U32 => 1,
        UniformFieldType::Vec2F => 2,
        UniformFieldType::Vec3F => 3,
        UniformFieldType::Vec4F => 4,
        UniformFieldType::Mat3x3F => 9,
        UniformFieldType::Mat4x4F => 16,
    }
}

} // verus!

verus! {

proof fn lemma_word_aligned(types: Seq<UniformFieldType>, i: int)
    requires
        0 <= i < types.len(),
    ensures
        spec_field_byte_offset(types, i) % 4 == 0,
        spec_field_byte_offset(types, i) >= 0,
        spec_storage_byte_size(types[i]) % 4 == 0,
{
    law_uniform_field_placement(types, i);
    let b = spec_field_byte_offset(types, i);
    let a = spec_alignment(types[i]) as int;
    lemma_align_bounds(spec_layout_end(types.take(i)) as int, a);
    assert(b % 4 == 0) by (nonlinear_arith)
        requires
            b % a == 0,
            a == 4 || a == 8 || a == 16,
    ;
}

/// Read-back law of a uniform block: writing a field's values puts exactly
/// their packed words at the field's offset and leaves every other field's
/// words as they were.
pub proof fn law_uniform_write_reads_back(
    schema: Seq<(String, UniformFieldType)>,
    words: Seq<u32>,
    i: int,
    values: Seq<u32>,
)
    requires
        0 <= i < schema.len(),
        words.len() == spec_created_block(schema).words.len(),
    ensures
        ({
            let block = spec_created_block(schema);
            let field = block.fields[i];
            let run = spec_packed_values(field.field_type, values);
            let written = spec_overwrite(words, field.float_offset as int, run);
            &&& written.len() == words.len()
            &&& forall|k: int| 0 <= k < run.len() ==> #[trigger] written[field.float_offset + k] == run[k]
            &&& forall|j: int, k: int|
                0 <= j < schema.len() && j != i && 0 <= k < spec_storage_byte_size(
                    block.fields[j].field_type,
                ) / 4 ==> #[trigger] written[block.fields[j].float_offset + k] == words[block.fields[j].float_offset + k]
        }),
{
    let types = spec_schema_types(schema);
    let block = spec_created_block(schema);
    let field = block.fields[i];
    let run = spec_packed_values(field.field_type, values);
    let written = spec_overwrite(words, field.float_offset as int, run);
    assert(types[i] == field.field_type);
    lemma_word_aligned(types, i);
    law_uniform_field_placement(types, i);
    let bi = spec_field_byte_offset(types, i);
    let si = spec_storage_byte_size(types[i]) as int;
    let total = spec_block_byte_size(types);
    assert(total % 4 == 0);
    assert(bi / 4 + si / 4 <= total / 4) by (nonlinear_arith)
        requires
            bi % 4 == 0,
            si % 4 == 0,
            total % 4 == 0,
            bi + si <= total,
            bi >= 0,
            si >= 0,
    ;
    assert forall|k: int| 0 <= k < run.len() implies #[trigger] written[field.float_offset + k] == run[k] by {
    }
    assert forall|j: int, k: int|
        0 <= j < schema.len() && j != i && 0 <= k < spec_storage_byte_size(block.fields[j].field_type) / 4
            implies #[trigger] written[block.fields[j].float_offset + k] == words[block.fields[j].float_offset + k] by {
        assert(types[j] == block.fields[j].field_type);
        lemma_word_aligned(types, j);
        law_uniform_field_placement(types, j);
        let bj = spec_field_byte_offset(types, j);
        let sj = spec_storage_byte_size(types[j]) as int;
        if j < i {
            law_uniform_fields_disjoint(types, j, i);
            assert(bj / 4 + sj / 4 <= bi / 4) by (nonlinear_arith)
                requires
                    bi % 4 == 0,
                    bj % 4 == 0,
                    sj % 4 == 0,
                    bj + sj <= bi,
                    bj >= 0,
                    sj >= 0,
            ;
        } else {
            law_uniform_fields_disjoint(types, i, j);
            assert(bi / 4 + si / 4 <= bj / 4) by (nonlinear_arith)
                requires
                    bi % 4 == 0,
                    bj % 4 == 0,
                    si % 4 == 0,
                    bi + si <= bj,
                    bi >= 0,
                    si >= 0,
            ;
        }
        assert(bj / 4 + sj / 4 <= total / 4) by (nonlinear_arith)
            requires
                bj % 4 == 0,
                sj % 4 == 0,
                total % 4 == 0,
                bj + sj <= total,
                bj >= 0,
                sj >= 0,
        ;
    }
}


/// Writing a float field from `values` changes only the field's own words:
/// its values land in order from the field's offset, a `vec3f` leaves its
/// fourth word zero, a `mat3x3f` puts each three-value column into a
/// four-word column whose last word is zero, and every other word keeps its
/// value.
pub proof fn law_float_write_is_indexwise(
    words: Seq<u32>,
    offset: int,
    field_type: UniformFieldType,
    values: Seq<u32>,
)
    requires
        field_type != UniformFieldType::U32,
        values.len() >= spec_value_float_count(field_type),
        0 <= offset,
        offset + spec_storage_byte_size(field_type) / 4 <= words.len(),
    ensures
        ({
            let written = spec_overwrite(words, offset, spec_packed_values(field_type, values));
            let width = spec_storage_byte_size(field_type) / 4;
            let count = spec_value_float_count(field_type);
            &&& written.len() == words.len()
            &&& forall|k: int|
                0 <= k < words.len() && !(offset <= k < offset + width) ==> #[trigger] written[k] == words[k]
            &&& field_type != UniformFieldType::Mat3x3F ==> forall|k: int|
                offset <= k < offset + count ==> #[trigger] written[k] == values[k - offset]
            &&& field_type == UniformFieldType::Vec3F ==> written[offset + 3] == 0
            &&& field_type == UniformFieldType::Mat3x3F ==> forall|k: int|
                offset <= k < offset + width ==> #[trigger] written[k] == if (k - offset) % 4 == 3 {
                    0
                } else {
                    values[((k - offset) / 4) * 3 + (k - offset) % 4]
                }
        }),
{
}


/// A field looked up by name in a well-formed block lies inside the
/// block's words, so a write to it changes only words of the block.
pub proof fn law_looked_up_field_fits(block: UniformBlockView, name: Seq<char>)
    requires
        spec_block_well_formed(block),
    ensures
        spec_lookup(block.fields, name) matches Some(field) ==> field.float_offset
            + spec_storage_byte_size(field.field_type) / 4 <= block.words.len(),
    decreases block.fields.len(),
{
    if block.fields.len() > 0 && block.fields.last().name != name {
        let rest = UniformBlockView { fields: block.fields.drop_last(), ..block };
        assert forall|i: int| 0 <= i < rest.fields.len() implies #[trigger] rest.fields[i].float_offset
            + spec_storage_byte_size(rest.fields[i].field_type) / 4 <= rest.words.len() by {
            assert(rest.fields[i] == block.fields[i]);
        }
        law_looked_up_field_fits(rest, name);
    } else if block.fields.len() > 0 {
        assert(block.fields.last() == block.fields[block.fields.len() - 1]);
    }
}

proof fn lemma_max_alignment_is_max(types: Seq<UniformFieldType>)
    ensures
        forall|i: int| 0 <= i < types.len() ==> spec_alignment(#[trigger] types[i]) <= spec_max_alignment(types),
        types.len() > 0 ==> exists|i: int|
            0 <= i < types.len() && spec_alignment(#[trigger] types[i]) == spec_max_alignment(types),
        types.len() == 0 ==> spec_max_alignment(types) == 4,
    decreases types.len(),
{
    if types.len() > 0 {
        let previous = types.drop_last();
        lemma_max_alignment_is_max(previous);
        assert forall|i: int| 0 <= i < types.len() implies spec_alignment(#[trigger] types[i])
            <= spec_max_alignment(types) by {
            if i < types.len() - 1 {
                assert(types[i] == previous[i]);
            }
        }
        if spec_alignment(types.last()) > spec_max_alignment(previous) || previous.len() == 0 {
            assert(spec_alignment(types[types.len() - 1]) == spec_max_alignment(types));
        } else {
            let k = choose|k: int|
                0 <= k < previous.len() && spec_alignment(#[trigger] previous[k]) == spec_max_alignment(previous);
            assert(types[k] == previous[k]);
            assert(spec_alignment(types[k]) == spec_max_alignment(types));
        }
    }
}

/// The packing of a schema step by step: the first field starts at byte 0,
/// each next field starts at the end of the one before rounded up to its own
/// alignment, and the block ends at the end of the last field rounded up to
/// the largest field alignment (four bytes when there is none).
pub proof fn law_uniform_offsets_recurrence(types: Seq<UniformFieldType>)
    ensures
        types.len() > 0 ==> spec_field_byte_offset(types, 0) == 0,
        forall|i: int|
            1 <= i < types.len() ==> #[trigger] spec_field_byte_offset(types, i) == spec_align_to(
                spec_field_byte_offset(types, i - 1) + spec_storage_byte_size(types[i - 1]),
                spec_alignment(types[i]) as int,
            ),
        types.len() > 0 ==> spec_block_byte_size(types) == spec_align_to(
            spec_field_byte_offset(types, types.len() - 1) + spec_storage_byte_size(types.last()),
            spec_max_alignment(types) as int,
        ),
        types.len() == 0 ==> spec_block_byte_size(types) == 0,
        forall|i: int| 0 <= i < types.len() ==> spec_alignment(#[trigger] types[i]) <= spec_max_alignment(types),
        types.len() > 0 ==> exists|i: int|
            0 <= i < types.len() && spec_alignment(#[trigger] types[i]) == spec_max_alignment(types),
{
    lemma_max_alignment_is_max(types);
    if types.len() > 0 {
        assert(types.take(0) =~= Seq::<UniformFieldType>::empty());
        assert(spec_layout_end(types.take(0)) == 0);
        assert(0int % (spec_alignment(types[0]) as int) == 0);
        assert(types.take(types.len() - 1) =~= types.drop_last());
    }
    assert forall|i: int| 1 <= i < types.len() implies #[trigger] spec_field_byte_offset(types, i)
        == spec_align_to(
        spec_field_byte_offset(types, i - 1) + spec_storage_byte_size(types[i - 1]),
        spec_alignment(types[i]) as int,
    ) by {
        assert(types.take(i).drop_last() =~= types.take(i - 1));
        assert(types.take(i).last() == types[i - 1]);
    }
}


/// Every type name the schema parser accepts spells the type it gives: it
/// is the type's WGSL name, or a short alias that the WGSL name extends
/// (`vec2` for `vec2f`, `mat3` for `mat3x3f`, `mat4` for `mat4x4f`). And
/// every type is given for its WGSL name, except `mat3x3f`, which is
/// written by its alias `mat3` only.
pub proof fn law_field_type_names_spell_their_type(name: Seq<char>, field_type: UniformFieldType)
    ensures
        spec_field_type_named(name) matches Some(t) ==> {
            ||| spec_type_name(t) == name
            ||| spec_type_name(t) == name + "f"@
            ||| spec_type_name(t) == name + "x3f"@
            ||| spec_type_name(t) == name + "x4f"@
        },
        field_type != UniformFieldType::Mat3x3F ==> spec_field_type_named(spec_type_name(field_type))
            == Some(field_type),
        spec_field_type_named("mat3"@) == Some(UniformFieldType::Mat3x3F),
{
    reveal_strlit("f32");
    reveal_strlit("u32");
    reveal_strlit("vec2");
    reveal_strlit("vec2f");
    reveal_strlit("vec3");
    reveal_strlit("vec3f");
    reveal_strlit("vec4");
    reveal_strlit("vec4f");
    reveal_strlit("mat3");
    reveal_strlit("mat3x3f");
    reveal_strlit("mat4");
    reveal_strlit("mat4x4f");
    reveal_strlit("f");
    reveal_strlit("x3f");
    reveal_strlit("x4f");
    assert("f32"@[0] != "u32"@[0]);
    assert("vec2"@[3] != "vec3"@[3]);
    assert("vec2"@[3] != "vec4"@[3]);
    assert("vec2"@[0] != "mat3"@[0]);
    assert("vec2"@[0] != "mat4"@[0]);
    assert("vec2f"@[3] != "vec3f"@[3]);
    assert("vec2f"@[3] != "vec4f"@[3]);
    assert("vec3"@[3] != "vec4"@[3]);
    assert("vec3"@[0] != "mat3"@[0]);
    assert("vec3"@[0] != "mat4"@[0]);
    assert("vec3f"@[3] != "vec4f"@[3]);
    assert("vec4"@[0] != "mat3"@[0]);
    assert("vec4"@[0] != "mat4"@[0]);
    assert("mat3"@[3] != "mat4"@[3]);
    assert("mat4x4f"@[3] != "mat3x3f"@[3]);
    if spec_field_type_named(name) is Some {
        assert("vec2"@ + "f"@ =~= "vec2f"@);
        assert("vec3"@ + "f"@ =~= "vec3f"@);
        assert("vec4"@ + "f"@ =~= "vec4f"@);
        assert("mat3"@ + "x3f"@ =~= "mat3x3f"@);
        assert("mat4"@ + "x4f"@ =~= "mat4x4f"@);
    }
}

/// The shape of a field type: its number of columns and of 32-bit
/// components per column (a scalar is one column of one component).
pub open spec fn spec_shape(field_type: UniformFieldType) -> (nat, nat) {
    match field_type {
        UniformFieldType::F32 | UniformFieldType::U32 => (1, 1),
        UniformFieldType::Vec2F => (1, 2),
        UniformFieldType::Vec3F => (1, 3),
        UniformFieldType::Vec4F => (1, 4),
        UniformFieldType::Mat3x3F => (3, 3),
        UniformFieldType::Mat4x4F => (4, 4),
    }
}

/// WGSL's alignment of a vector of `n` 32-bit components: four bytes for a
/// scalar, eight for two components, sixteen for three or four.
pub open spec fn spec_vector_alignment(n: nat) -> nat {
    if n == 1 {
        4
    } else if n == 2 {
        8
    } else {
        16
    }
}

/// The layout of every field type follows WGSL's rules from its shape: a
/// type is aligned as one of its columns, occupies one column stride (the
/// column's bytes rounded up to that alignment) per column, and takes one
/// value per component.
pub proof fn law_field_layout_follows_shape(field_type: UniformFieldType)
    ensures
        ({
            let (columns, rows) = spec_shape(field_type);
            let alignment = spec_vector_alignment(rows);
            &&& spec_alignment(field_type) == alignment
            &&& spec_storage_byte_size(field_type) == columns * spec_align_to((4 * rows) as int, alignment as int)
            &&& spec_value_float_count(field_type) == columns * rows
        }),
{
    match field_type {
        UniformFieldType::F32 | UniformFieldType::U32 => {
            assert(spec_align_to(4, 4) == 4);
        },
        UniformFieldType::Vec2F => {
            assert(spec_align_to(8, 8) == 8);
        },
        UniformFieldType::Vec3F => {
            assert(12int % 16 == 12);
            assert(spec_align_to(12, 16) == 16);
        },
        UniformFieldType::Vec4F => {
            assert(spec_align_to(16, 16) == 16);
        },
        UniformFieldType::Mat3x3F => {
            assert(12int % 16 == 12);
            assert(spec_align_to(12, 16) == 16);
        },
        UniformFieldType::Mat4x4F => {
            assert(spec_align_to(16, 16) == 16);
        },
    }
}
} // verus!
