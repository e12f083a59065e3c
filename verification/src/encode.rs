//! The encoder: how a module is written as words and bytes, and the proof
//! that a module which was read from bytes is read again from what is
//! written.

use crate::literal::{
    lemma_literal_len, lemma_literal_roundtrip, lemma_string_bytes, literal_words, no_zero,
    spec_literal_words, spec_no_zero, spec_parse_string, spec_string_bytes,
};
use crate::parse::{
    min_operands, spec_decode_entry_point, spec_decode_image, spec_decode_instruction,
    spec_is_known_opcode, spec_opcode, spec_parse_instructions, spec_parse_spirv,
    spec_read_depth, spec_read_sampled, spec_version, spec_word_count, Instruction,
    InstructionView, ParseError, Spirv, SpirvView,
};
use crate::words::{
    byte, lemma_word_bytes, spec_byte, spec_byte_order, spec_word_at, spec_words, ByteOrder,
    HEADER_WORDS, MAGIC,
};
use vstd::prelude::*;
use vstd::utf8::{
    decode_utf8_encode_utf8, encode_utf8, encode_utf8_decode_utf8, encode_utf8_valid_utf8,
};

verus! {

/// The word that stands for a truth value: 1 for true and 0 for false.
pub open spec fn spec_bool_word(b: bool) -> u32 {
    if b {
        1
    } else {
        0
    }
}

/// The word that stands for the depth marker of an image type.
pub open spec fn spec_depth_word(depth: Option<bool>) -> u32 {
    match depth {
        Some(false) => 0,
        Some(true) => 1,
        None => 2,
    }
}

/// The word that stands for the sampling marker of an image type.
pub open spec fn spec_sampled_word(sampled: Option<bool>) -> u32 {
    match sampled {
        None => 0,
        Some(true) => 1,
        Some(false) => 2,
    }
}

/// The words that hold a text as a literal string.
pub open spec fn spec_text_words(text: Seq<char>) -> Seq<u32> {
    spec_literal_words(encode_utf8(text), 0)
}

/// The opcode under which an instruction is written.
pub open spec fn spec_opcode_of(i: InstructionView) -> u16 {
    match i {
        InstructionView::Unknown(opcode, _) => opcode,
        InstructionView::Nop => 0,
        InstructionView::Name { .. } => 5,
        InstructionView::MemberName { .. } => 6,
        InstructionView::ExtInstImport { .. } => 11,
        InstructionView::MemoryModel(_, _) => 14,
        InstructionView::EntryPoint { .. } => 15,
        InstructionView::Capability(_) => 17,
        InstructionView::TypeVoid { .. } => 19,
        InstructionView::TypeBool { .. } => 20,
        InstructionView::TypeInt { .. } => 21,
        InstructionView::TypeFloat { .. } => 22,
        InstructionView::TypeVector { .. } => 23,
        InstructionView::TypeMatrix { .. } => 24,
        InstructionView::TypeImage { .. } => 25,
        InstructionView::TypeSampler { .. } => 26,
        InstructionView::TypeSampledImage { .. } => 27,
        InstructionView::TypeArray { .. } => 28,
        InstructionView::TypeRuntimeArray { .. } => 29,
        InstructionView::TypeStruct { .. } => 30,
        InstructionView::TypeOpaque { .. } => 31,
        InstructionView::TypePointer { .. } => 32,
        InstructionView::Constant { .. } => 43,
        InstructionView::FunctionEnd => 56,
        InstructionView::Variable { .. } => 59,
        InstructionView::Decorate { .. } => 71,
        InstructionView::MemberDecorate { .. } => 72,
        InstructionView::Label { .. } => 248,
        InstructionView::Branch { .. } => 249,
        InstructionView::Kill => 252,
        InstructionView::Return => 253,
    }
}

/// The operands with which an instruction is written.
pub open spec fn spec_operands(i: InstructionView) -> Seq<u32> {
    match i {
        InstructionView::Unknown(_, ops) => ops,
        InstructionView::Nop => Seq::empty(),
        InstructionView::Name { target_id, name } => seq![target_id] + spec_text_words(name),
        InstructionView::MemberName { target_id, member, name } => seq![target_id, member]
            + spec_text_words(name),
        InstructionView::ExtInstImport { result_id, name } => seq![result_id] + spec_text_words(
            name,
        ),
        InstructionView::MemoryModel(addressing, memory) => seq![
            addressing.spec_num(),
            memory.spec_num(),
        ],
        InstructionView::EntryPoint { execution, id, name, interface } => seq![
            execution.spec_num(),
            id,
        ] + spec_text_words(name) + interface,
        InstructionView::Capability(cap) => seq![cap.spec_num()],
        InstructionView::TypeVoid { result_id } => seq![result_id],
        InstructionView::TypeBool { result_id } => seq![result_id],
        InstructionView::TypeInt { result_id, width, signedness } => seq![
            result_id,
            width,
            spec_bool_word(signedness),
        ],
        InstructionView::TypeFloat { result_id, width } => seq![result_id, width],
        InstructionView::TypeVector { result_id, component_id, count } => seq![
            result_id,
            component_id,
            count,
        ],
        InstructionView::TypeMatrix { result_id, column_type_id, column_count } => seq![
            result_id,
            column_type_id,
            column_count,
        ],
        InstructionView::TypeImage {
            result_id,
            sampled_type_id,
            dim,
            depth,
            arrayed,
            ms,
            sampled,
            format,
            access,
        } => seq![
            result_id,
            sampled_type_id,
            dim.spec_num(),
            spec_depth_word(depth),
            spec_bool_word(arrayed),
            spec_bool_word(ms),
            spec_sampled_word(sampled),
            format.spec_num(),
        ] + (match access {
            Some(a) => seq![a.spec_num()],
            None => Seq::empty(),
        }),
        InstructionView::TypeSampler { result_id } => seq![result_id],
        InstructionView::TypeSampledImage { result_id, image_type_id } => seq![
            result_id,
            image_type_id,
        ],
        InstructionView::TypeArray { result_id, type_id, length_id } => seq![
            result_id,
            type_id,
            length_id,
        ],
        InstructionView::TypeRuntimeArray { result_id, type_id } => seq![result_id, type_id],
        InstructionView::TypeStruct { result_id, member_types } => seq![result_id] + member_types,
        InstructionView::TypeOpaque { result_id, name } => seq![result_id] + spec_text_words(name),
        InstructionView::TypePointer { result_id, storage_class, type_id } => seq![
            result_id,
            storage_class.spec_num(),
            type_id,
        ],
        InstructionView::Constant { result_type_id, result_id, data } => seq![
            result_type_id,
            result_id,
        ] + data,
        InstructionView::FunctionEnd => Seq::empty(),
        InstructionView::Variable { result_type_id, result_id, storage_class, initializer } => seq![
            result_type_id,
            result_id,
            storage_class.spec_num(),
        ] + (match initializer {
            Some(x) => seq![x],
            None => Seq::empty(),
        }),
        InstructionView::Decorate { target_id, decoration, params } => seq![
            target_id,
            decoration.spec_num(),
        ] + params,
        InstructionView::MemberDecorate { target_id, member, decoration, params } => seq![
            target_id,
            member,
            decoration.spec_num(),
        ] + params,
        InstructionView::Label { result_id } => seq![result_id],
        InstructionView::Branch { result_id } => seq![result_id],
        InstructionView::Kill => Seq::empty(),
        InstructionView::Return => Seq::empty(),
    }
}

/// The text that an instruction holds, if it holds one.
pub open spec fn spec_text_of(i: InstructionView) -> Option<Seq<char>> {
    match i {
        InstructionView::Name { name, .. } => Some(name),
        InstructionView::MemberName { name, .. } => Some(name),
        InstructionView::ExtInstImport { name, .. } => Some(name),
        InstructionView::EntryPoint { name, .. } => Some(name),
        InstructionView::TypeOpaque { name, .. } => Some(name),
        _ => None,
    }
}

/// Whether an instruction can be written so that it is read back as it is:
/// with its first word it takes fewer than 65536 words, which is what the
/// first word can say; its text, if it holds one, has no zero byte in its
/// UTF-8 encoding; and if it is kept as not interpreted, its opcode is not
/// one that is interpreted.
pub open spec fn spec_encodable_instruction(i: InstructionView) -> bool {
    &&& spec_operands(i).len() < 0xffff
    &&& spec_text_of(i) matches Some(text) ==> spec_no_zero(encode_utf8(text))
    &&& i matches InstructionView::Unknown(opcode, _) ==> !spec_is_known_opcode(opcode)
}

/// A text without a zero byte, written between operands, is read back with
/// the index of the first operand behind it.
pub proof fn lemma_text_roundtrip(prefix: Seq<u32>, text: Seq<char>, tail: Seq<u32>)
    requires
        spec_no_zero(encode_utf8(text)),
    ensures
        spec_parse_string(prefix + spec_text_words(text) + tail, prefix.len()) == Ok::<
            (Seq<char>, nat),
            ParseError,
        >((text, (prefix.len() + spec_text_words(text).len()) as nat)),
{
    let bytes = encode_utf8(text);
    lemma_literal_roundtrip(prefix, bytes, 0, tail);
    lemma_literal_len(bytes, 0);
    assert(bytes.skip(0) =~= bytes);
    encode_utf8_valid_utf8(text);
    encode_utf8_decode_utf8(text);
}

/// What [`lemma_instruction_roundtrip`] says, of an instruction that holds
/// a text.
proof fn lemma_text_instruction_roundtrip(i: InstructionView)
    requires
        spec_encodable_instruction(i),
        spec_text_of(i) is Some,
    ensures
        spec_decode_instruction(spec_opcode_of(i), spec_operands(i)) == Ok::<
            InstructionView,
            ParseError,
        >(i),
{
    let ops = spec_operands(i);
    let empty = Seq::<u32>::empty();
    match i {
        InstructionView::Name { target_id, name } => {
            lemma_text_roundtrip(seq![target_id], name, empty);
            assert(seq![target_id] + spec_text_words(name) + empty =~= ops);
        },
        InstructionView::MemberName { target_id, member, name } => {
            lemma_text_roundtrip(seq![target_id, member], name, empty);
            assert(seq![target_id, member] + spec_text_words(name) + empty =~= ops);
        },
        InstructionView::ExtInstImport { result_id, name } => {
            lemma_text_roundtrip(seq![result_id], name, empty);
            assert(seq![result_id] + spec_text_words(name) + empty =~= ops);
        },
        InstructionView::TypeOpaque { result_id, name } => {
            lemma_text_roundtrip(seq![result_id], name, empty);
            assert(seq![result_id] + spec_text_words(name) + empty =~= ops);
        },
        InstructionView::EntryPoint { execution, id, name, interface } => {
            lemma_text_roundtrip(seq![execution.spec_num(), id], name, interface);
            execution.lemma_num_roundtrip();
            assert(ops.skip((2 + spec_text_words(name).len()) as int) =~= interface);
            assert(spec_decode_entry_point(ops) == Ok::<InstructionView, ParseError>(i));
        },
        _ => {},
    }
}

/// What [`lemma_instruction_roundtrip`] says, of an image type.
proof fn lemma_image_roundtrip(i: InstructionView)
    requires
        i is TypeImage,
    ensures
        spec_decode_instruction(spec_opcode_of(i), spec_operands(i)) == Ok::<
            InstructionView,
            ParseError,
        >(i),
{
    let ops = spec_operands(i);
    match i {
        InstructionView::TypeImage { dim, format, access, depth, sampled, .. } => {
            dim.lemma_num_roundtrip();
            format.lemma_num_roundtrip();
            if let Some(a) = access {
                a.lemma_num_roundtrip();
            }
            assert(spec_read_depth(spec_depth_word(depth)) == Ok::<Option<bool>, ParseError>(depth));
            assert(spec_read_sampled(spec_sampled_word(sampled)) == Ok::<
                Option<bool>,
                ParseError,
            >(sampled));
            assert(spec_decode_image(ops) == Ok::<InstructionView, ParseError>(i));
        },
        _ => {},
    }
}

/// What [`lemma_instruction_roundtrip`] says, of an instruction that holds
/// a value of an enumeration and no text.
proof fn lemma_enum_instruction_roundtrip(i: InstructionView)
    requires
        i is MemoryModel || i is Capability || i is TypePointer || i is Variable || i is Decorate
            || i is MemberDecorate,
    ensures
        spec_decode_instruction(spec_opcode_of(i), spec_operands(i)) == Ok::<
            InstructionView,
            ParseError,
        >(i),
{
    let ops = spec_operands(i);
    match i {
        InstructionView::MemoryModel(addressing, memory) => {
            addressing.lemma_num_roundtrip();
            memory.lemma_num_roundtrip();
        },
        InstructionView::Capability(cap) => {
            cap.lemma_num_roundtrip();
        },
        InstructionView::TypePointer { storage_class, .. } => {
            storage_class.lemma_num_roundtrip();
        },
        InstructionView::Variable { storage_class, .. } => {
            storage_class.lemma_num_roundtrip();
        },
        InstructionView::Decorate { decoration, params, .. } => {
            decoration.lemma_num_roundtrip();
            assert(ops.skip(2) =~= params);
        },
        InstructionView::MemberDecorate { decoration, params, .. } => {
            decoration.lemma_num_roundtrip();
            assert(ops.skip(3) =~= params);
        },
        _ => {},
    }
}

/// What [`lemma_instruction_roundtrip`] says, of the other instructions.
proof fn lemma_plain_instruction_roundtrip(i: InstructionView)
    requires
        spec_encodable_instruction(i),
        spec_text_of(i) is None,
        !(i is TypeImage || i is MemoryModel || i is Capability || i is TypePointer
            || i is Variable || i is Decorate || i is MemberDecorate),
    ensures
        spec_decode_instruction(spec_opcode_of(i), spec_operands(i)) == Ok::<
            InstructionView,
            ParseError,
        >(i),
{
    let ops = spec_operands(i);
    match i {
        InstructionView::TypeStruct { result_id, member_types } => {
            assert(ops.skip(1) =~= member_types);
        },
        InstructionView::Constant { data, .. } => {
            assert(ops.skip(2) =~= data);
        },
        _ => {},
    }
}

/// An instruction that can be written is read back, from its opcode and its
/// operands, as it is.
pub proof fn lemma_instruction_roundtrip(i: InstructionView)
    requires
        spec_encodable_instruction(i),
    ensures
        spec_decode_instruction(spec_opcode_of(i), spec_operands(i)) == Ok::<
            InstructionView,
            ParseError,
        >(i),
{
    if spec_text_of(i) is Some {
        lemma_text_instruction_roundtrip(i);
    } else if i is TypeImage {
        lemma_image_roundtrip(i);
    } else if i is MemoryModel || i is Capability || i is TypePointer || i is Variable
        || i is Decorate || i is MemberDecorate {
        lemma_enum_instruction_roundtrip(i);
    } else {
        lemma_plain_instruction_roundtrip(i);
    }
}

/// A text that was read from operands can be written, and takes no more
/// words than it was read from.
pub proof fn lemma_parsed_text(ops: Seq<u32>, from: nat)
    ensures
        spec_parse_string(ops, from) matches Ok((text, next)) ==> {
            &&& spec_no_zero(encode_utf8(text))
            &&& next == from + spec_text_words(text).len()
            &&& next <= ops.len()
        },
{
    if let Ok((text, next)) = spec_parse_string(ops, from) {
        let bytes = spec_string_bytes(ops, from)->0;
        lemma_string_bytes(ops, from);
        decode_utf8_encode_utf8(bytes);
        lemma_literal_len(bytes, 0);
    }
}

/// What [`lemma_decoded_is_encodable`] says, of the instructions that hold a
/// text.
proof fn lemma_decoded_text_is_encodable(opcode: u16, ops: Seq<u32>)
    requires
        ops.len() < 0xffff,
        opcode == 5 || opcode == 6 || opcode == 11 || opcode == 15 || opcode == 31,
    ensures
        spec_decode_instruction(opcode, ops) matches Ok(i) ==> spec_encodable_instruction(i),
{
    lemma_parsed_text(ops, 1);
    lemma_parsed_text(ops, 2);
}

/// What [`lemma_decoded_is_encodable`] says, of the image type.
proof fn lemma_decoded_image_is_encodable(ops: Seq<u32>)
    requires
        ops.len() < 0xffff,
    ensures
        spec_decode_instruction(25, ops) matches Ok(i) ==> spec_encodable_instruction(i),
{
}

/// What [`lemma_decoded_is_encodable`] says, of the other instructions.
proof fn lemma_decoded_plain_is_encodable(opcode: u16, ops: Seq<u32>)
    requires
        ops.len() < 0xffff,
        !(opcode == 5 || opcode == 6 || opcode == 11 || opcode == 15 || opcode == 31 || opcode
            == 25),
    ensures
        spec_decode_instruction(opcode, ops) matches Ok(i) ==> spec_encodable_instruction(i),
{
}

/// An instruction that was read from an opcode and fewer than 65535
/// operands can be written.
pub proof fn lemma_decoded_is_encodable(opcode: u16, ops: Seq<u32>)
    requires
        ops.len() < 0xffff,
    ensures
        spec_decode_instruction(opcode, ops) matches Ok(i) ==> spec_encodable_instruction(i),
{
    if opcode == 5 || opcode == 6 || opcode == 11 || opcode == 15 || opcode == 31 {
        lemma_decoded_text_is_encodable(opcode, ops);
    } else if opcode == 25 {
        lemma_decoded_image_is_encodable(ops);
    } else {
        lemma_decoded_plain_is_encodable(opcode, ops);
    }
}

/// The first word of an instruction: the number of its words in the upper
/// half, and its opcode in the lower.
pub open spec fn spec_first_word(i: InstructionView) -> u32 {
    ((spec_operands(i).len() + 1) * 0x1_0000 + spec_opcode_of(i)) as u32
}

/// The words of an instruction: its first word and its operands.
pub open spec fn spec_encode_instruction(i: InstructionView) -> Seq<u32> {
    seq![spec_first_word(i)] + spec_operands(i)
}

/// The words of the instructions from index `from` on, one instruction
/// after the other.
pub open spec fn spec_encode_instructions(instructions: Seq<InstructionView>, from: nat) -> Seq<
    u32,
>
    decreases instructions.len() - from,
{
    if from >= instructions.len() {
        Seq::empty()
    } else {
        spec_encode_instruction(instructions[from as int]) + spec_encode_instructions(
            instructions,
            from + 1,
        )
    }
}

/// Whether every instruction from index `from` on can be written.
pub open spec fn spec_encodable_instructions(
    instructions: Seq<InstructionView>,
    from: nat,
) -> bool {
    forall|k: int|
        from <= k < instructions.len() ==> spec_encodable_instruction(#[trigger] instructions[k])
}

/// Instructions that can be written are read back, behind any words, as
/// they are.
pub proof fn lemma_instructions_roundtrip(
    prefix: Seq<u32>,
    instructions: Seq<InstructionView>,
    from: nat,
)
    requires
        spec_encodable_instructions(instructions, from),
        from <= instructions.len(),
    ensures
        spec_parse_instructions(
            prefix + spec_encode_instructions(instructions, from),
            prefix.len(),
        ) == Ok::<Seq<InstructionView>, ParseError>(instructions.skip(from as int)),
    decreases instructions.len() - from,
{
    let words = prefix + spec_encode_instructions(instructions, from);
    if from >= instructions.len() {
        assert(words =~= prefix);
        assert(instructions.skip(from as int) =~= Seq::<InstructionView>::empty());
    } else {
        let i = instructions[from as int];
        let ops = spec_operands(i);
        let first = spec_first_word(i);
        let rest = spec_encode_instructions(instructions, from + 1);
        assert(spec_encodable_instruction(i));
        let count = ops.len() + 1;
        let opcode = spec_opcode_of(i);
        assert(first == count * 0x1_0000 + opcode);
        assert(spec_word_count(first) == count);
        assert(spec_opcode(first) == opcode);
        assert(words[prefix.len() as int] == first);
        assert(words.subrange((prefix.len() + 1) as int, (prefix.len() + count) as int) =~= ops);
        lemma_instruction_roundtrip(i);
        let next = prefix + spec_encode_instruction(i);
        lemma_instructions_roundtrip(next, instructions, from + 1);
        assert(next + rest =~= words);
        assert(seq![i] + instructions.skip((from + 1) as int) =~= instructions.skip(from as int));
    }
}

/// Instructions that were read from words can be written.
pub proof fn lemma_parsed_is_encodable(words: Seq<u32>, from: nat)
    ensures
        spec_parse_instructions(words, from) matches Ok(instructions)
            ==> spec_encodable_instructions(instructions, 0),
    decreases words.len() - from,
{
    if from < words.len() {
        let first = words[from as int];
        let count = spec_word_count(first);
        if count != 0 && from + count <= words.len() {
            let ops = words.subrange((from + 1) as int, (from + count) as int);
            assert(first / 0x1_0000 <= 0xffff) by (bit_vector);
            lemma_decoded_is_encodable(spec_opcode(first), ops);
            lemma_parsed_is_encodable(words, from + count);
            if let Ok(instructions) = spec_parse_instructions(words, from) {
                let i = spec_decode_instruction(spec_opcode(first), ops)->Ok_0;
                let rest = spec_parse_instructions(words, from + count)->Ok_0;
                assert(instructions == seq![i] + rest);
                assert forall|k: int| 0 <= k < instructions.len() implies spec_encodable_instruction(
                    #[trigger] instructions[k],
                ) by {
                    if k > 0 {
                        assert(instructions[k] == rest[k - 1]);
                    }
                }
            }
        }
    }
}

/// The second word of the header for a version: the major version in its
/// third byte and the minor version in its second.
pub open spec fn spec_version_word(version: (u8, u8)) -> u32 {
    (version.0 * 0x1_0000 + version.1 * 0x100) as u32
}

/// The words of a module: the header, with nothing said of the generator
/// and of the schema, and the instructions.
pub open spec fn spec_encode_words(doc: SpirvView) -> Seq<u32> {
    seq![MAGIC, spec_version_word(doc.version), 0, doc.bound, 0] + spec_encode_instructions(
        doc.instructions,
        0,
    )
}

/// The bytes of the words, those of each word from the lowest value up.
pub open spec fn spec_word_bytes(words: Seq<u32>) -> Seq<u8> {
    Seq::new(4 * words.len(), |k: int| spec_byte(words[k / 4], (k % 4) as nat))
}

/// The bytes of a module.
pub open spec fn spec_encode(doc: SpirvView) -> Seq<u8> {
    spec_word_bytes(spec_encode_words(doc))
}

/// Whether a module can be written so that it is read back as it is: each
/// of its instructions can.
pub open spec fn spec_encodable(doc: SpirvView) -> bool {
    spec_encodable_instructions(doc.instructions, 0)
}

/// Words that begin with a header are read back from their bytes.
pub proof fn lemma_words_roundtrip(words: Seq<u32>)
    requires
        words.len() >= HEADER_WORDS,
        words[0] == MAGIC,
    ensures
        spec_words(spec_word_bytes(words)) == Ok::<Seq<u32>, ParseError>(words),
{
    let data = spec_word_bytes(words);
    let m: u32 = MAGIC;
    assert(m % 0x100 == 0x03 && (m / 0x100) % 0x100 == 0x02 && (m / 0x1_0000) % 0x100 == 0x23
        && (m / 0x100_0000) % 0x100 == 0x07) by (bit_vector)
        requires
            m == 0x0723_0203u32,
    ;
    assert(data[0] == spec_byte(words[0], 0));
    assert(data[1] == spec_byte(words[0], 1));
    assert(data[2] == spec_byte(words[0], 2));
    assert(data[3] == spec_byte(words[0], 3));
    assert(spec_byte_order(data) == Some(ByteOrder::Little));
    let back = Seq::new((data.len() / 4) as nat, |i: int| spec_word_at(data, ByteOrder::Little, i));
    assert forall|i: int| 0 <= i < words.len() implies back[i] == words[i] by {
        lemma_word_bytes(words[i], 0, 0, 0, 0);
        assert(data[4 * i] == spec_byte(words[i], 0));
        assert(data[4 * i + 1] == spec_byte(words[i], 1));
        assert(data[4 * i + 2] == spec_byte(words[i], 2));
        assert(data[4 * i + 3] == spec_byte(words[i], 3));
    }
    assert(back =~= words);
}

/// A module that can be written is read back from its bytes as it is.
pub proof fn lemma_encode_decode(doc: SpirvView)
    requires
        spec_encodable(doc),
    ensures
        spec_parse_spirv(spec_encode(doc)) == Ok::<SpirvView, ParseError>(doc),
{
    let header = seq![MAGIC, spec_version_word(doc.version), 0, doc.bound, 0];
    let words = spec_encode_words(doc);
    lemma_words_roundtrip(words);
    lemma_instructions_roundtrip(header, doc.instructions, 0);
    assert(doc.instructions.skip(0) =~= doc.instructions);
    let v = spec_version_word(doc.version);
    let major = doc.version.0;
    let minor = doc.version.1;
    assert(v == major * 0x1_0000 + minor * 0x100);
    assert((v / 0x1_0000) % 0x100 == major && (v / 0x100) % 0x100 == minor) by (bit_vector)
        requires
            v == major * 0x1_0000 + minor * 0x100,
    ;
    assert(spec_version(v) == doc.version);
    assert(words[1] == v);
    assert(words[3] == doc.bound);
}

/// Decoding is undone by encoding and done again by decoding: a module that
/// was read from bytes, written and read once more is the same module, with
/// the same instructions in the same order.
pub proof fn lemma_decode_encode_decode(data: Seq<u8>)
    ensures
        spec_parse_spirv(data) matches Ok(doc) ==> spec_parse_spirv(spec_encode(doc)) == Ok::<
            SpirvView,
            ParseError,
        >(doc),
{
    if let Ok(doc) = spec_parse_spirv(data) {
        let words = spec_words(data)->Ok_0;
        lemma_parsed_is_encodable(words, HEADER_WORDS as nat);
        lemma_encode_decode(doc);
    }
}

/// Appends the items to `out`.
fn push_all(out: &mut Vec<u32>, items: &[u32])
    ensures
        final(out)@ == old(out)@ + items@,
{
    let ghost start = out@;
    let mut k: usize = 0;
    while k < items.len()
        invariant
            k <= items.len(),
            out@ == start + items@.take(k as int),
        decreases items.len() - k,
    {
        out.push(items[k]);
        assert(out@ =~= start + items@.take(k + 1));
        k += 1;
    }
    assert(items@.take(items@.len() as int) =~= items@);
}

/// Returns the words that hold a text as a literal string.
pub fn text_words(text: &String) -> (words: Vec<u32>)
    ensures
        words@ == spec_text_words(text@),
{
    literal_words(text.as_str().as_bytes())
}

/// Returns whether the UTF-8 encoding of a text has no zero byte.
pub fn text_encodable(text: &String) -> (b: bool)
    ensures
        b == spec_no_zero(encode_utf8(text@)),
{
    no_zero(text.as_str().as_bytes())
}

/// Returns the word that stands for a truth value.
fn bool_word(b: bool) -> (w: u32)
    ensures
        w == spec_bool_word(b),
{
    if b {
        1
    } else {
        0
    }
}

/// Returns the opcode under which an instruction is written.
pub fn opcode_of(i: &Instruction) -> (opcode: u16)
    ensures
        opcode == spec_opcode_of(i@),
{
    match i {
        Instruction::Unknown(opcode, _) => *opcode,
        Instruction::Nop => 0,
        Instruction::Name { .. } => 5,
        Instruction::MemberName { .. } => 6,
        Instruction::ExtInstImport { .. } => 11,
        Instruction::MemoryModel(_, _) => 14,
        Instruction::EntryPoint { .. } => 15,
        Instruction::Capability(_) => 17,
        Instruction::TypeVoid { .. } => 19,
        Instruction::TypeBool { .. } => 20,
        Instruction::TypeInt { .. } => 21,
        Instruction::TypeFloat { .. } => 22,
        Instruction::TypeVector { .. } => 23,
        Instruction::TypeMatrix { .. } => 24,
        Instruction::TypeImage { .. } => 25,
        Instruction::TypeSampler { .. } => 26,
        Instruction::TypeSampledImage { .. } => 27,
        Instruction::TypeArray { .. } => 28,
        Instruction::TypeRuntimeArray { .. } => 29,
        Instruction::TypeStruct { .. } => 30,
        Instruction::TypeOpaque { .. } => 31,
        Instruction::TypePointer { .. } => 32,
        Instruction::Constant { .. } => 43,
        Instruction::FunctionEnd => 56,
        Instruction::Variable { .. } => 59,
        Instruction::Decorate { .. } => 71,
        Instruction::MemberDecorate { .. } => 72,
        Instruction::Label { .. } => 248,
        Instruction::Branch { .. } => 249,
        Instruction::Kill => 252,
        Instruction::Return => 253,
    }
}

/// Returns the words of an image type behind its first word.
fn image_operands(i: &Instruction) -> (ops: Vec<u32>)
    requires
        i@ is TypeImage,
    ensures
        ops@ == spec_operands(i@),
{
    let mut out: Vec<u32> = Vec::new();
    match i {
        Instruction::TypeImage {
            result_id,
            sampled_type_id,
            dim,
            depth,
            arrayed,
            ms,
            sampled,
            format,
            access,
        } => {
            out.push(*result_id);
            out.push(*sampled_type_id);
            out.push(dim.to_num());
            out.push(
                match depth {
                    Some(false) => 0,
                    Some(true) => 1,
                    None => 2,
                },
            );
            out.push(bool_word(*arrayed));
            out.push(bool_word(*ms));
            out.push(
                match sampled {
                    None => 0,
                    Some(true) => 1,
                    Some(false) => 2,
                },
            );
            out.push(format.to_num());
            match access {
                Some(a) => {
                    out.push(a.to_num());
                },
                None => {},
            }
        },
        _ => {},
    }
    assert(out@ =~= spec_operands(i@));
    out
}

/// Returns the operands with which an instruction is written.
pub fn operands_of(i: &Instruction) -> (ops: Vec<u32>)
    ensures
        ops@ == spec_operands(i@),
{
    let mut out: Vec<u32> = Vec::new();
    match i {
        Instruction::Unknown(_, ops) => {
            push_all(&mut out, ops.as_slice());
        },
        Instruction::Nop => {},
        Instruction::Name { target_id, name } => {
            out.push(*target_id);
            push_all(&mut out, text_words(name).as_slice());
        },
        Instruction::MemberName { target_id, member, name } => {
            out.push(*target_id);
            out.push(*member);
            push_all(&mut out, text_words(name).as_slice());
        },
        Instruction::ExtInstImport { result_id, name } => {
            out.push(*result_id);
            push_all(&mut out, text_words(name).as_slice());
        },
        Instruction::MemoryModel(addressing, memory) => {
            out.push(addressing.to_num());
            out.push(memory.to_num());
        },
        Instruction::EntryPoint { execution, id, name, interface } => {
            out.push(execution.to_num());
            out.push(*id);
            push_all(&mut out, text_words(name).as_slice());
            push_all(&mut out, interface.as_slice());
        },
        Instruction::Capability(cap) => {
            out.push(cap.to_num());
        },
        Instruction::TypeVoid { result_id } => {
            out.push(*result_id);
        },
        Instruction::TypeBool { result_id } => {
            out.push(*result_id);
        },
        Instruction::TypeInt { result_id, width, signedness } => {
            out.push(*result_id);
            out.push(*width);
            out.push(bool_word(*signedness));
        },
        Instruction::TypeFloat { result_id, width } => {
            out.push(*result_id);
            out.push(*width);
        },
        Instruction::TypeVector { result_id, component_id, count } => {
            out.push(*result_id);
            out.push(*component_id);
            out.push(*count);
        },
        Instruction::TypeMatrix { result_id, column_type_id, column_count } => {
            out.push(*result_id);
            out.push(*column_type_id);
            out.push(*column_count);
        },
        Instruction::TypeImage { .. } => {
            return image_operands(i);
        },
        Instruction::TypeSampler { result_id } => {
            out.push(*result_id);
        },
        Instruction::TypeSampledImage { result_id, image_type_id } => {
            out.push(*result_id);
            out.push(*image_type_id);
        },
        Instruction::TypeArray { result_id, type_id, length_id } => {
            out.push(*result_id);
            out.push(*type_id);
            out.push(*length_id);
        },
        Instruction::TypeRuntimeArray { result_id, type_id } => {
            out.push(*result_id);
            out.push(*type_id);
        },
        Instruction::TypeStruct { result_id, member_types } => {
            out.push(*result_id);
            push_all(&mut out, member_types.as_slice());
        },
        Instruction::TypeOpaque { result_id, name } => {
            out.push(*result_id);
            push_all(&mut out, text_words(name).as_slice());
        },
        Instruction::TypePointer { result_id, storage_class, type_id } => {
            out.push(*result_id);
            out.push(storage_class.to_num());
            out.push(*type_id);
        },
        Instruction::Constant { result_type_id, result_id, data } => {
            out.push(*result_type_id);
            out.push(*result_id);
            push_all(&mut out, data.as_slice());
        },
        Instruction::FunctionEnd => {},
        Instruction::Variable { result_type_id, result_id, storage_class, initializer } => {
            out.push(*result_type_id);
            out.push(*result_id);
            out.push(storage_class.to_num());
            match initializer {
                Some(x) => {
                    out.push(*x);
                },
                None => {},
            }
        },
        Instruction::Decorate { target_id, decoration, params } => {
            out.push(*target_id);
            out.push(decoration.to_num());
            push_all(&mut out, params.as_slice());
        },
        Instruction::MemberDecorate { target_id, member, decoration, params } => {
            out.push(*target_id);
            out.push(*member);
            out.push(decoration.to_num());
            push_all(&mut out, params.as_slice());
        },
        Instruction::Label { result_id } => {
            out.push(*result_id);
        },
        Instruction::Branch { result_id } => {
            out.push(*result_id);
        },
        Instruction::Kill => {},
        Instruction::Return => {},
    }
    assert(out@ =~= spec_operands(i@));
    out
}

/// Returns whether the text that an instruction holds, if it holds one, has
/// no zero byte in its UTF-8 encoding.
fn text_of_encodable(i: &Instruction) -> (b: bool)
    ensures
        b == (spec_text_of(i@) matches Some(text) ==> spec_no_zero(encode_utf8(text))),
{
    match i {
        Instruction::Name { name, .. } => text_encodable(name),
        Instruction::MemberName { name, .. } => text_encodable(name),
        Instruction::ExtInstImport { name, .. } => text_encodable(name),
        Instruction::EntryPoint { name, .. } => text_encodable(name),
        Instruction::TypeOpaque { name, .. } => text_encodable(name),
        _ => true,
    }
}

/// Returns whether the model interprets instructions of the opcode.
pub fn is_known_opcode(opcode: u16) -> (b: bool)
    ensures
        b == spec_is_known_opcode(opcode),
{
    opcode == 0 || opcode == 56 || opcode == 252 || opcode == 253 || min_operands(opcode) > 0
}

/// Writes an instruction as words: its first word, which holds the number
/// of its words and its opcode, and its operands. Returns `None` for an
/// instruction that cannot be written so that it is read back as it is.
pub fn encode_instruction(i: &Instruction) -> (r: Option<Vec<u32>>)
    ensures
        match r {
            Some(words) => spec_encodable_instruction(i@) && words@ == spec_encode_instruction(i@),
            None => !spec_encodable_instruction(i@),
        },
{
    let ops = operands_of(i);
    if ops.len() >= 0xffff {
        return None;
    }
    if !text_of_encodable(i) {
        return None;
    }
    match i {
        Instruction::Unknown(opcode, _) => {
            if is_known_opcode(*opcode) {
                return None;
            }
        },
        _ => {},
    }
    let count: u32 = (ops.len() + 1) as u32;
    let opcode: u16 = opcode_of(i);
    assert(count << 16 == count * 0x1_0000 && (count << 16) | (opcode as u32) == count * 0x1_0000
        + opcode) by (bit_vector)
        requires
            count <= 0xffff,
    ;
    let first: u32 = (count << 16) | (opcode as u32);
    let mut out: Vec<u32> = Vec::new();
    out.push(first);
    push_all(&mut out, ops.as_slice());
    assert(out@ =~= spec_encode_instruction(i@));
    Some(out)
}

/// Writes a module as words: the header, with zero for the generator and
/// for the schema, and the instructions in their order. Returns `None` for a
/// module with an instruction that cannot be written.
pub fn encode_words(doc: &Spirv) -> (r: Option<Vec<u32>>)
    ensures
        match r {
            Some(words) => spec_encodable(doc@) && words@ == spec_encode_words(doc@),
            None => !spec_encodable(doc@),
        },
{
    let major = doc.version.0;
    let minor = doc.version.1;
    assert(((major as u32) << 16) | ((minor as u32) << 8) == major * 0x1_0000 + minor * 0x100)
        by (bit_vector);
    let mut out: Vec<u32> = Vec::new();
    out.push(MAGIC);
    out.push(((major as u32) << 16) | ((minor as u32) << 8));
    out.push(0);
    out.push(doc.bound);
    out.push(0);
    let ghost header = out@;
    let ghost target = header + spec_encode_instructions(doc@.instructions, 0);
    let mut k: usize = 0;
    while k < doc.instructions.len()
        invariant
            k <= doc.instructions.len(),
            target == header + spec_encode_instructions(doc@.instructions, 0),
            out@ + spec_encode_instructions(doc@.instructions, k as nat) == target,
            forall|j: int| 0 <= j < k ==> spec_encodable_instruction(#[trigger] doc@.instructions[j]),
        decreases doc.instructions.len() - k,
    {
        let ghost before = out@;
        match encode_instruction(&doc.instructions[k]) {
            None => {
                assert(!spec_encodable_instruction(doc@.instructions[k as int]));
                return None;
            },
            Some(words) => {
                push_all(&mut out, words.as_slice());
                proof {
                    let rest = spec_encode_instructions(doc@.instructions, (k + 1) as nat);
                    assert((before + words@) + rest =~= before + (words@ + rest));
                }
            },
        }
        k += 1;
    }
    assert(out@ + Seq::<u32>::empty() =~= out@);
    assert(header =~= seq![MAGIC, spec_version_word(doc@.version), 0, doc@.bound, 0]);
    Some(out)
}

/// Returns the bytes of the words, those of each word from the lowest value
/// up.
pub fn word_bytes(words: &[u32]) -> (bytes: Vec<u8>)
    ensures
        bytes@ == spec_word_bytes(words@),
{
    let mut out: Vec<u8> = Vec::new();
    let mut i: usize = 0;
    while i < words.len()
        invariant
            i <= words.len(),
            out@.len() == 4 * i,
            forall|k: int|
                0 <= k < 4 * i ==> out@[k] == spec_byte(#[trigger] words@[k / 4], (k % 4) as nat),
        decreases words.len() - i,
    {
        let w = words[i];
        out.push(byte(w, 0));
        out.push(byte(w, 1));
        out.push(byte(w, 2));
        out.push(byte(w, 3));
        i += 1;
    }
    assert(out@ =~= spec_word_bytes(words@));
    out
}

/// Writes a module as bytes, the bytes of each word from the lowest value
/// up. Returns `None` for a module with an instruction that cannot be
/// written so that it is read back as it is: one of 65535 or more operands,
/// one whose text holds a zero byte, or one that is kept as not interpreted
/// under an opcode that is interpreted. What is returned is read back by
/// [`crate::parse::parse_spirv`] as the module that was written.
pub fn encode_spirv(doc: &Spirv) -> (r: Option<Vec<u8>>)
    ensures
        match r {
            Some(bytes) => {
                &&& spec_encodable(doc@)
                &&& bytes@ == spec_encode(doc@)
                &&& spec_parse_spirv(bytes@) == Ok::<SpirvView, ParseError>(doc@)
            },
            None => !spec_encodable(doc@),
        },
{
    match encode_words(doc) {
        None => None,
        Some(words) => {
            proof {
                lemma_encode_decode(doc@);
            }
            Some(word_bytes(words.as_slice()))
        },
    }
}

} // verus!
