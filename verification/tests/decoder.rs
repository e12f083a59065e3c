use vulkano_shaders::enums::{
    AccessQualifier, AddressingModel, Capability, ConstantKind, Decoration, Dim, ExecutionModel,
    ImageFormat, MemoryModel, StorageClass,
};
use vulkano_shaders::parse::{
    decode_instruction, parse_spirv, parse_u32s, Instruction, ParseError, Spirv,
};
use vulkano_shaders::words::{words_of, MAGIC};

fn header(bound: u32) -> Vec<u32> {
    vec![MAGIC, 0x0001_0200, 7, bound, 0]
}

fn inst(opcode: u16, operands: &[u32]) -> Vec<u32> {
    let mut words = vec![((operands.len() as u32 + 1) << 16) | opcode as u32];
    words.extend_from_slice(operands);
    words
}

fn lit(text: &str) -> Vec<u32> {
    let mut bytes = text.as_bytes().to_vec();
    bytes.push(0);
    while bytes.len() % 4 != 0 {
        bytes.push(0);
    }
    bytes.chunks(4).map(|c| u32::from_le_bytes([c[0], c[1], c[2], c[3]])).collect()
}

fn little(words: &[u32]) -> Vec<u8> {
    words.iter().flat_map(|w| w.to_le_bytes()).collect()
}

fn big(words: &[u32]) -> Vec<u8> {
    words.iter().flat_map(|w| w.to_be_bytes()).collect()
}

fn module(instructions: &[Vec<u32>]) -> Vec<u32> {
    let mut words = header(100);
    for i in instructions {
        words.extend_from_slice(i);
    }
    words
}

#[test]
fn fewer_bytes_than_the_header_are_refused() {
    assert_eq!(parse_spirv(&[]), Err(ParseError::MissingHeader));
    assert_eq!(parse_spirv(&little(&header(1))[..19]), Err(ParseError::MissingHeader));
    assert_eq!(parse_spirv(&[0x03, 0x02, 0x23, 0x07]), Err(ParseError::MissingHeader));
}

#[test]
fn header_alone_is_an_empty_module() {
    let doc = parse_spirv(&little(&header(42))).unwrap();
    assert_eq!(doc, Spirv { version: (1, 2), bound: 42, instructions: vec![] });
}

#[test]
fn wrong_magic_is_refused() {
    let mut words = header(1);
    words[0] = 0x0723_0204;
    assert_eq!(parse_spirv(&little(&words)), Err(ParseError::WrongHeader));
    assert_eq!(parse_spirv(&[0u8; 20]), Err(ParseError::WrongHeader));
    assert_eq!(parse_u32s(&words), Err(ParseError::WrongHeader));
}

#[test]
fn words_without_a_whole_header_are_refused() {
    assert_eq!(parse_u32s(&[MAGIC, 0, 0, 0]), Err(ParseError::MissingHeader));
}

#[test]
fn both_byte_orders_give_the_same_module() {
    let words = module(&[inst(17, &[1]), inst(19, &[2])]);
    let a = parse_spirv(&little(&words)).unwrap();
    let b = parse_spirv(&big(&words)).unwrap();
    assert_eq!(a, b);
    assert_eq!(
        a.instructions,
        vec![
            Instruction::Capability(Capability::CapabilityShader),
            Instruction::TypeVoid { result_id: 2 },
        ]
    );
}

#[test]
fn words_are_read_in_the_order_of_the_magic_number() {
    let words = vec![MAGIC, 0x1122_3344, 0, 0xdead_beef, 0];
    assert_eq!(words_of(&little(&words)), Ok(words.clone()));
    assert_eq!(words_of(&big(&words)), Ok(words));
}

#[test]
fn bytes_that_end_inside_a_word_are_refused() {
    let mut data = little(&header(1));
    data.push(0);
    assert_eq!(parse_spirv(&data), Err(ParseError::IncompleteInstruction));
}

#[test]
fn word_count_of_zero_is_refused() {
    let words = module(&[vec![0x0000_0013]]);
    assert_eq!(parse_spirv(&little(&words)), Err(ParseError::InvalidWordCount));
}

#[test]
fn instruction_past_the_end_is_refused() {
    let words = module(&[vec![(3 << 16) | 19, 1]]);
    assert_eq!(parse_spirv(&little(&words)), Err(ParseError::IncompleteInstruction));
}

#[test]
fn instruction_with_too_few_operands_is_refused() {
    assert_eq!(decode_instruction(19, &[]), Err(ParseError::IncompleteInstruction));
    assert_eq!(decode_instruction(21, &[1, 32]), Err(ParseError::IncompleteInstruction));
    assert_eq!(decode_instruction(25, &[1, 2, 1, 0, 0, 0, 1]), Err(ParseError::IncompleteInstruction));
    assert_eq!(decode_instruction(15, &[0]), Err(ParseError::IncompleteInstruction));
    let words = module(&[inst(23, &[1, 2])]);
    assert_eq!(parse_spirv(&little(&words)), Err(ParseError::IncompleteInstruction));
}

#[test]
fn first_failing_instruction_decides() {
    let words = module(&[inst(19, &[1]), inst(17, &[16]), vec![0]]);
    assert_eq!(
        parse_spirv(&little(&words)),
        Err(ParseError::UnknownConstant(ConstantKind::Capability, 16))
    );
}

#[test]
fn unknown_opcode_is_kept() {
    let words = module(&[inst(54, &[1, 2, 3, 4]), inst(400, &[])]);
    let doc = parse_spirv(&little(&words)).unwrap();
    assert_eq!(
        doc.instructions,
        vec![Instruction::Unknown(54, vec![1, 2, 3, 4]), Instruction::Unknown(400, vec![])]
    );
}

#[test]
fn instructions_without_operands() {
    assert_eq!(decode_instruction(0, &[]), Ok(Instruction::Nop));
    assert_eq!(decode_instruction(56, &[]), Ok(Instruction::FunctionEnd));
    assert_eq!(decode_instruction(252, &[]), Ok(Instruction::Kill));
    assert_eq!(decode_instruction(253, &[]), Ok(Instruction::Return));
}

#[test]
fn names_are_read_from_literal_strings() {
    let mut ops = vec![9];
    ops.extend(lit("main"));
    assert_eq!(
        decode_instruction(5, &ops),
        Ok(Instruction::Name { target_id: 9, name: "main".to_string() })
    );
    let mut ops = vec![9, 2];
    ops.extend(lit("position"));
    assert_eq!(
        decode_instruction(6, &ops),
        Ok(Instruction::MemberName { target_id: 9, member: 2, name: "position".to_string() })
    );
    let mut ops = vec![1];
    ops.extend(lit("GLSL.std.450"));
    assert_eq!(
        decode_instruction(11, &ops),
        Ok(Instruction::ExtInstImport { result_id: 1, name: "GLSL.std.450".to_string() })
    );
    let mut ops = vec![4];
    ops.extend(lit(""));
    assert_eq!(
        decode_instruction(31, &ops),
        Ok(Instruction::TypeOpaque { result_id: 4, name: String::new() })
    );
}

#[test]
fn name_stops_at_the_first_zero_byte() {
    let ops = vec![3, u32::from_le_bytes([b'a', b'b', 0, b'c']), 0x6464_6464];
    assert_eq!(
        decode_instruction(5, &ops),
        Ok(Instruction::Name { target_id: 3, name: "ab".to_string() })
    );
}

#[test]
fn name_holds_text_of_several_bytes_to_a_character() {
    let mut ops = vec![3];
    ops.extend(lit("h\u{e9}llo \u{4e16}\u{754c}"));
    assert_eq!(
        decode_instruction(5, &ops),
        Ok(Instruction::Name { target_id: 3, name: "h\u{e9}llo \u{4e16}\u{754c}".to_string() })
    );
}

#[test]
fn name_without_terminator_is_refused() {
    let ops = vec![3, u32::from_le_bytes([b'a', b'b', b'c', b'd'])];
    assert_eq!(decode_instruction(5, &ops), Err(ParseError::InvalidString));
    assert_eq!(decode_instruction(5, &[3]), Err(ParseError::InvalidString));
}

#[test]
fn name_that_is_not_utf8_is_refused() {
    let ops = vec![3, u32::from_le_bytes([0xff, 0xfe, 0, 0])];
    assert_eq!(decode_instruction(5, &ops), Err(ParseError::InvalidString));
    let ops = vec![3, u32::from_le_bytes([0xc3, 0, 0, 0])];
    assert_eq!(decode_instruction(5, &ops), Err(ParseError::InvalidString));
}

#[test]
fn entry_point_has_its_interface_behind_its_name() {
    let mut ops = vec![4, 2];
    ops.extend(lit("main"));
    ops.extend([10, 11, 12]);
    assert_eq!(
        decode_instruction(15, &ops),
        Ok(Instruction::EntryPoint {
            execution: ExecutionModel::ExecutionModelFragment,
            id: 2,
            name: "main".to_string(),
            interface: vec![10, 11, 12],
        })
    );
    let mut ops = vec![0, 2];
    ops.extend(lit("abc"));
    assert_eq!(
        decode_instruction(15, &ops),
        Ok(Instruction::EntryPoint {
            execution: ExecutionModel::ExecutionModelVertex,
            id: 2,
            name: "abc".to_string(),
            interface: vec![],
        })
    );
}

#[test]
fn entry_point_of_unknown_execution_model_is_refused() {
    let mut ops = vec![7, 2];
    ops.extend(lit("main"));
    assert_eq!(
        decode_instruction(15, &ops),
        Err(ParseError::UnknownConstant(ConstantKind::ExecutionModel, 7))
    );
}

#[test]
fn types_are_read_from_their_operands() {
    assert_eq!(decode_instruction(20, &[5]), Ok(Instruction::TypeBool { result_id: 5 }));
    assert_eq!(
        decode_instruction(21, &[5, 32, 1]),
        Ok(Instruction::TypeInt { result_id: 5, width: 32, signedness: true })
    );
    assert_eq!(
        decode_instruction(21, &[5, 16, 0]),
        Ok(Instruction::TypeInt { result_id: 5, width: 16, signedness: false })
    );
    assert_eq!(
        decode_instruction(22, &[6, 64]),
        Ok(Instruction::TypeFloat { result_id: 6, width: 64 })
    );
    assert_eq!(
        decode_instruction(23, &[7, 6, 4]),
        Ok(Instruction::TypeVector { result_id: 7, component_id: 6, count: 4 })
    );
    assert_eq!(
        decode_instruction(24, &[8, 7, 3]),
        Ok(Instruction::TypeMatrix { result_id: 8, column_type_id: 7, column_count: 3 })
    );
    assert_eq!(decode_instruction(26, &[9]), Ok(Instruction::TypeSampler { result_id: 9 }));
    assert_eq!(
        decode_instruction(27, &[10, 9]),
        Ok(Instruction::TypeSampledImage { result_id: 10, image_type_id: 9 })
    );
    assert_eq!(
        decode_instruction(28, &[11, 6, 12]),
        Ok(Instruction::TypeArray { result_id: 11, type_id: 6, length_id: 12 })
    );
    assert_eq!(
        decode_instruction(29, &[13, 6]),
        Ok(Instruction::TypeRuntimeArray { result_id: 13, type_id: 6 })
    );
    assert_eq!(
        decode_instruction(30, &[14, 6, 7, 8]),
        Ok(Instruction::TypeStruct { result_id: 14, member_types: vec![6, 7, 8] })
    );
    assert_eq!(
        decode_instruction(30, &[14]),
        Ok(Instruction::TypeStruct { result_id: 14, member_types: vec![] })
    );
    assert_eq!(
        decode_instruction(32, &[15, 2, 14]),
        Ok(Instruction::TypePointer {
            result_id: 15,
            storage_class: StorageClass::StorageClassUniform,
            type_id: 14,
        })
    );
}

#[test]
fn image_type_is_read_with_and_without_access() {
    assert_eq!(
        decode_instruction(25, &[1, 2, 1, 0, 0, 0, 1, 0]),
        Ok(Instruction::TypeImage {
            result_id: 1,
            sampled_type_id: 2,
            dim: Dim::Dim2D,
            depth: Some(false),
            arrayed: false,
            ms: false,
            sampled: Some(true),
            format: ImageFormat::ImageFormatUnknown,
            access: None,
        })
    );
    assert_eq!(
        decode_instruction(25, &[1, 2, 3, 2, 7, 1, 2, 4, 2]),
        Ok(Instruction::TypeImage {
            result_id: 1,
            sampled_type_id: 2,
            dim: Dim::DimCube,
            depth: None,
            arrayed: true,
            ms: true,
            sampled: Some(false),
            format: ImageFormat::ImageFormatRgba8,
            access: Some(AccessQualifier::AccessQualifierReadWrite),
        })
    );
    assert_eq!(
        decode_instruction(25, &[1, 2, 6, 1, 0, 0, 0, 39]),
        Ok(Instruction::TypeImage {
            result_id: 1,
            sampled_type_id: 2,
            dim: Dim::DimSubpassData,
            depth: Some(true),
            arrayed: false,
            ms: false,
            sampled: None,
            format: ImageFormat::ImageFormatR8ui,
            access: None,
        })
    );
}

#[test]
fn image_type_with_unknown_numbers_is_refused() {
    assert_eq!(
        decode_instruction(25, &[1, 2, 7, 0, 0, 0, 1, 0]),
        Err(ParseError::UnknownConstant(ConstantKind::Dim, 7))
    );
    assert_eq!(
        decode_instruction(25, &[1, 2, 1, 3, 0, 0, 1, 0]),
        Err(ParseError::UnknownConstant(ConstantKind::ImageDepth, 3))
    );
    assert_eq!(
        decode_instruction(25, &[1, 2, 1, 0, 0, 0, 3, 0]),
        Err(ParseError::UnknownConstant(ConstantKind::ImageSampled, 3))
    );
    assert_eq!(
        decode_instruction(25, &[1, 2, 1, 0, 0, 0, 1, 40]),
        Err(ParseError::UnknownConstant(ConstantKind::ImageFormat, 40))
    );
    assert_eq!(
        decode_instruction(25, &[1, 2, 1, 0, 0, 0, 1, 0, 3]),
        Err(ParseError::UnknownConstant(ConstantKind::AccessQualifier, 3))
    );
    assert_eq!(
        decode_instruction(25, &[1, 2, 9, 9, 0, 0, 9, 99]),
        Err(ParseError::UnknownConstant(ConstantKind::Dim, 9))
    );
}

#[test]
fn memory_model_and_capability() {
    assert_eq!(
        decode_instruction(14, &[0, 1]),
        Ok(Instruction::MemoryModel(
            AddressingModel::AddressingModelLogical,
            MemoryModel::MemoryModelGLSL450
        ))
    );
    assert_eq!(
        decode_instruction(14, &[3, 1]),
        Err(ParseError::UnknownConstant(ConstantKind::AddressingModel, 3))
    );
    assert_eq!(
        decode_instruction(14, &[0, 3]),
        Err(ParseError::UnknownConstant(ConstantKind::MemoryModel, 3))
    );
    assert_eq!(
        decode_instruction(17, &[57]),
        Ok(Instruction::Capability(Capability::CapabilityMultiViewport))
    );
    assert_eq!(
        decode_instruction(17, &[26]),
        Err(ParseError::UnknownConstant(ConstantKind::Capability, 26))
    );
}

#[test]
fn constants_variables_and_decorations() {
    assert_eq!(
        decode_instruction(43, &[1, 2, 3, 4]),
        Ok(Instruction::Constant { result_type_id: 1, result_id: 2, data: vec![3, 4] })
    );
    assert_eq!(
        decode_instruction(43, &[1, 2]),
        Ok(Instruction::Constant { result_type_id: 1, result_id: 2, data: vec![] })
    );
    assert_eq!(
        decode_instruction(59, &[1, 2, 1]),
        Ok(Instruction::Variable {
            result_type_id: 1,
            result_id: 2,
            storage_class: StorageClass::StorageClassInput,
            initializer: None,
        })
    );
    assert_eq!(
        decode_instruction(59, &[1, 2, 9, 8]),
        Ok(Instruction::Variable {
            result_type_id: 1,
            result_id: 2,
            storage_class: StorageClass::StorageClassPushConstant,
            initializer: Some(8),
        })
    );
    assert_eq!(
        decode_instruction(59, &[1, 2, 12]),
        Err(ParseError::UnknownConstant(ConstantKind::StorageClass, 12))
    );
    assert_eq!(
        decode_instruction(71, &[5, 30, 2]),
        Ok(Instruction::Decorate {
            target_id: 5,
            decoration: Decoration::DecorationLocation,
            params: vec![2],
        })
    );
    assert_eq!(
        decode_instruction(71, &[5, 2]),
        Ok(Instruction::Decorate {
            target_id: 5,
            decoration: Decoration::DecorationBlock,
            params: vec![],
        })
    );
    assert_eq!(
        decode_instruction(71, &[5, 12]),
        Err(ParseError::UnknownConstant(ConstantKind::Decoration, 12))
    );
    assert_eq!(
        decode_instruction(72, &[5, 1, 35, 16]),
        Ok(Instruction::MemberDecorate {
            target_id: 5,
            member: 1,
            decoration: Decoration::DecorationOffset,
            params: vec![16],
        })
    );
    assert_eq!(decode_instruction(248, &[5]), Ok(Instruction::Label { result_id: 5 }));
    assert_eq!(decode_instruction(249, &[5]), Ok(Instruction::Branch { result_id: 5 }));
}

#[test]
fn version_and_bound_are_taken_from_the_header() {
    let words = vec![MAGIC, 0xaa01_05bb, 0, 77, 0];
    let doc = parse_u32s(&words).unwrap();
    assert_eq!(doc.version, (1, 5));
    assert_eq!(doc.bound, 77);
}

#[test]
fn every_number_of_an_enumeration_reads_back() {
    for n in 0..64u32 {
        if let Ok(c) = Capability::from_num(n) {
            assert_eq!(c.to_num(), n);
        } else {
            assert!(n == 16 || n == 26 || n > 57);
        }
        if let Ok(d) = Decoration::from_num(n) {
            assert_eq!(d.to_num(), n);
        } else {
            assert!(n == 12 || n == 27 || n > 44);
        }
        if let Ok(f) = ImageFormat::from_num(n) {
            assert_eq!(f.to_num(), n);
        } else {
            assert!(n > 39);
        }
        if let Ok(s) = StorageClass::from_num(n) {
            assert_eq!(s.to_num(), n);
        } else {
            assert!(n > 11);
        }
        if let Ok(d) = Dim::from_num(n) {
            assert_eq!(d.to_num(), n);
        } else {
            assert!(n > 6);
        }
        if let Ok(e) = ExecutionModel::from_num(n) {
            assert_eq!(e.to_num(), n);
        } else {
            assert!(n > 6);
        }
    }
    assert_eq!(Capability::from_num(2), Ok(Capability::CapabilityGeometry));
    assert_eq!(Decoration::from_num(33), Ok(Decoration::DecorationBinding));
    assert_eq!(Decoration::from_num(34), Ok(Decoration::DecorationDescriptorSet));
    assert_eq!(Decoration::from_num(11), Ok(Decoration::DecorationBuiltIn));
    assert_eq!(StorageClass::from_num(0), Ok(StorageClass::StorageClassUniformConstant));
    assert_eq!(ExecutionModel::from_num(5), Ok(ExecutionModel::ExecutionModelGLCompute));
    assert_eq!(
        ExecutionModel::from_num(9),
        Err(ParseError::UnknownConstant(ConstantKind::ExecutionModel, 9))
    );
}
