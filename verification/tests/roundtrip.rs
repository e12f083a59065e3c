use vulkano_shaders::encode::{encode_instruction, encode_spirv, encode_words, operands_of};
use vulkano_shaders::enums::{
    AccessQualifier, AddressingModel, Capability, Decoration, Dim, ExecutionModel, ImageFormat,
    MemoryModel, StorageClass,
};
use vulkano_shaders::literal::{literal_words, parse_string};
use vulkano_shaders::parse::{parse_spirv, Instruction, ParseError, Spirv};

fn every_kind() -> Vec<Instruction> {
    vec![
        Instruction::Capability(Capability::CapabilityShader),
        Instruction::ExtInstImport { result_id: 1, name: "GLSL.std.450".to_string() },
        Instruction::MemoryModel(
            AddressingModel::AddressingModelLogical,
            MemoryModel::MemoryModelGLSL450,
        ),
        Instruction::EntryPoint {
            execution: ExecutionModel::ExecutionModelVertex,
            id: 4,
            name: "main".to_string(),
            interface: vec![20, 21],
        },
        Instruction::Name { target_id: 20, name: "position".to_string() },
        Instruction::Name { target_id: 21, name: String::new() },
        Instruction::Name { target_id: 22, name: "abc".to_string() },
        Instruction::Name { target_id: 23, name: "abcd".to_string() },
        Instruction::Name { target_id: 24, name: "\u{fc}ber \u{1f600}".to_string() },
        Instruction::MemberName { target_id: 30, member: 0, name: "mvp".to_string() },
        Instruction::Decorate {
            target_id: 20,
            decoration: Decoration::DecorationLocation,
            params: vec![0],
        },
        Instruction::MemberDecorate {
            target_id: 30,
            member: 0,
            decoration: Decoration::DecorationOffset,
            params: vec![0],
        },
        Instruction::TypeVoid { result_id: 2 },
        Instruction::TypeBool { result_id: 3 },
        Instruction::TypeInt { result_id: 5, width: 32, signedness: true },
        Instruction::TypeInt { result_id: 6, width: 32, signedness: false },
        Instruction::TypeFloat { result_id: 7, width: 32 },
        Instruction::TypeVector { result_id: 8, component_id: 7, count: 4 },
        Instruction::TypeMatrix { result_id: 9, column_type_id: 8, column_count: 4 },
        Instruction::TypeImage {
            result_id: 10,
            sampled_type_id: 7,
            dim: Dim::Dim2D,
            depth: Some(false),
            arrayed: true,
            ms: false,
            sampled: Some(true),
            format: ImageFormat::ImageFormatRgba32f,
            access: None,
        },
        Instruction::TypeImage {
            result_id: 11,
            sampled_type_id: 7,
            dim: Dim::DimBuffer,
            depth: None,
            arrayed: false,
            ms: true,
            sampled: None,
            format: ImageFormat::ImageFormatR8ui,
            access: Some(AccessQualifier::AccessQualifierWriteOnly),
        },
        Instruction::TypeSampler { result_id: 12 },
        Instruction::TypeSampledImage { result_id: 13, image_type_id: 10 },
        Instruction::Constant { result_type_id: 6, result_id: 14, data: vec![3] },
        Instruction::TypeArray { result_id: 15, type_id: 7, length_id: 14 },
        Instruction::TypeRuntimeArray { result_id: 16, type_id: 7 },
        Instruction::TypeStruct { result_id: 30, member_types: vec![9, 8] },
        Instruction::TypeOpaque { result_id: 17, name: "opaque".to_string() },
        Instruction::TypePointer {
            result_id: 18,
            storage_class: StorageClass::StorageClassInput,
            type_id: 8,
        },
        Instruction::Variable {
            result_type_id: 18,
            result_id: 20,
            storage_class: StorageClass::StorageClassInput,
            initializer: None,
        },
        Instruction::Variable {
            result_type_id: 18,
            result_id: 21,
            storage_class: StorageClass::StorageClassPrivate,
            initializer: Some(14),
        },
        Instruction::Unknown(54, vec![2, 4, 0, 19]),
        Instruction::Label { result_id: 40 },
        Instruction::Nop,
        Instruction::Branch { result_id: 40 },
        Instruction::Kill,
        Instruction::Return,
        Instruction::FunctionEnd,
    ]
}

#[test]
fn module_is_read_back_as_it_was_written() {
    let doc = Spirv { version: (1, 0), bound: 50, instructions: every_kind() };
    let bytes = encode_spirv(&doc).unwrap();
    assert_eq!(bytes.len() % 4, 0);
    assert_eq!(&bytes[..4], &[0x03, 0x02, 0x23, 0x07]);
    assert_eq!(parse_spirv(&bytes), Ok(doc));
}

#[test]
fn decoding_encoding_and_decoding_again_changes_nothing() {
    let doc = Spirv { version: (1, 3), bound: 9, instructions: every_kind() };
    let first = parse_spirv(&encode_spirv(&doc).unwrap()).unwrap();
    let again = encode_spirv(&first).unwrap();
    let second = parse_spirv(&again).unwrap();
    assert_eq!(first, second);
    assert_eq!(first.instructions, doc.instructions);
    assert_eq!(again, encode_spirv(&doc).unwrap());
}

#[test]
fn padding_behind_a_name_is_lost_and_the_name_is_not() {
    let garbage = u32::from_le_bytes([b'x', 0, 0xaa, 0xbb]);
    let mut words: Vec<u32> = vec![0x0723_0203, 0x0001_0000, 0, 5, 0];
    words.extend([(4 << 16) | 5, 1, garbage, 0xcccc_cccc]);
    let bytes: Vec<u8> = words.iter().flat_map(|w| w.to_le_bytes()).collect();
    let doc = parse_spirv(&bytes).unwrap();
    assert_eq!(doc.instructions, vec![Instruction::Name { target_id: 1, name: "x".to_string() }]);
    let written = encode_spirv(&doc).unwrap();
    assert_ne!(written, bytes);
    assert_eq!(parse_spirv(&written), Ok(doc));
}

#[test]
fn empty_module_is_its_header() {
    let doc = Spirv { version: (1, 2), bound: 7, instructions: vec![] };
    assert_eq!(encode_words(&doc), Some(vec![0x0723_0203, 0x0001_0200, 0, 7, 0]));
    let bytes = encode_spirv(&doc).unwrap();
    assert_eq!(bytes.len(), 20);
    assert_eq!(parse_spirv(&bytes), Ok(doc));
}

#[test]
fn first_word_holds_the_count_and_the_opcode() {
    let words = encode_instruction(&Instruction::TypeVector {
        result_id: 8,
        component_id: 7,
        count: 4,
    });
    assert_eq!(words, Some(vec![(4 << 16) | 23, 8, 7, 4]));
    assert_eq!(encode_instruction(&Instruction::Return), Some(vec![(1 << 16) | 253]));
    let name = encode_instruction(&Instruction::Name { target_id: 2, name: "main".to_string() });
    assert_eq!(name, Some(vec![(4 << 16) | 5, 2, 0x6e69_616d, 0]));
}

#[test]
fn literal_string_fills_whole_words() {
    assert_eq!(literal_words(b""), vec![0]);
    assert_eq!(literal_words(b"a"), vec![0x61]);
    assert_eq!(literal_words(b"abc"), vec![0x0063_6261]);
    assert_eq!(literal_words(b"abcd"), vec![0x6463_6261, 0]);
    assert_eq!(literal_words(b"abcde"), vec![0x6463_6261, 0x65]);
    for text in ["", "a", "ab", "abc", "abcd", "abcde", "abcdefgh", "gr\u{fc}n"] {
        let words = literal_words(text.as_bytes());
        assert_eq!(words.len(), text.len() / 4 + 1);
        assert_eq!(parse_string(&words, 0), Ok((text.to_string(), words.len())));
    }
}

#[test]
fn string_is_read_from_where_it_starts() {
    let mut words = vec![1, 2];
    words.extend(literal_words(b"hello"));
    words.push(99);
    assert_eq!(parse_string(&words, 2), Ok(("hello".to_string(), 4)));
    assert_eq!(parse_string(&words, 3), Ok(("o".to_string(), 4)));
    assert_eq!(parse_string(&words, 5), Err(ParseError::InvalidString));
    assert_eq!(parse_string(&words, 9), Err(ParseError::InvalidString));
}

#[test]
fn what_cannot_be_read_back_is_not_written() {
    let zero = Instruction::Name { target_id: 1, name: "a\0b".to_string() };
    assert_eq!(encode_instruction(&zero), None);
    let known = Instruction::Unknown(19, vec![1]);
    assert_eq!(encode_instruction(&known), None);
    let known_without_operands = Instruction::Unknown(253, vec![]);
    assert_eq!(encode_instruction(&known_without_operands), None);
    let long = Instruction::Constant { result_type_id: 1, result_id: 2, data: vec![0; 65533] };
    assert_eq!(encode_instruction(&long), None);
    let longest = Instruction::Constant { result_type_id: 1, result_id: 2, data: vec![0; 65532] };
    let words = encode_instruction(&longest).unwrap();
    assert_eq!(words.len(), 65535);
    assert_eq!(words[0], (65535 << 16) | 43);
    let doc = Spirv { version: (1, 0), bound: 1, instructions: vec![Instruction::Nop, zero] };
    assert_eq!(encode_spirv(&doc), None);
}

#[test]
fn operands_are_written_in_the_order_in_which_they_are_read() {
    let image = Instruction::TypeImage {
        result_id: 10,
        sampled_type_id: 7,
        dim: Dim::Dim3D,
        depth: None,
        arrayed: false,
        ms: true,
        sampled: Some(false),
        format: ImageFormat::ImageFormatRgba8,
        access: Some(AccessQualifier::AccessQualifierReadOnly),
    };
    assert_eq!(operands_of(&image), vec![10, 7, 2, 2, 0, 1, 2, 4, 0]);
    let ep = Instruction::EntryPoint {
        execution: ExecutionModel::ExecutionModelGLCompute,
        id: 3,
        name: "cs".to_string(),
        interface: vec![8, 9],
    };
    assert_eq!(operands_of(&ep), vec![5, 3, 0x7363, 8, 9]);
}
