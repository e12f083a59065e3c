use vulkano_shaders::enums::{Decoration, Dim, ImageFormat, StorageClass};
use vulkano_shaders::error::{Error, ErrorKind};
use vulkano_shaders::parse::{Instruction, Spirv};
use vulkano_shaders::resolve::{
    decoration_value, find, has_decoration, member_decoration_value, Query,
};
use vulkano_shaders::types::{array_length, constant_value, type_from_id_within, TypeDesc};
use vulkano_shaders::{
    is_builtin, location_decoration, member_name_from_id, name_from_id, type_from_id,
};

fn doc(instructions: Vec<Instruction>) -> Spirv {
    Spirv { version: (1, 0), bound: 100, instructions }
}

fn name(target_id: u32, name: &str) -> Instruction {
    Instruction::Name { target_id, name: name.to_string() }
}

fn decorate(target_id: u32, decoration: Decoration, params: Vec<u32>) -> Instruction {
    Instruction::Decorate { target_id, decoration, params }
}

fn float_types() -> Vec<Instruction> {
    vec![
        Instruction::TypeFloat { result_id: 1, width: 32 },
        Instruction::TypeVector { result_id: 2, component_id: 1, count: 4 },
        Instruction::TypeMatrix { result_id: 3, column_type_id: 2, column_count: 4 },
    ]
}

#[test]
fn name_of_a_named_identifier_is_its_name() {
    let d = doc(vec![name(1, "one"), name(2, "two")]);
    assert_eq!(name_from_id(&d, 1), "one");
    assert_eq!(name_from_id(&d, 2), "two");
}

#[test]
fn name_of_an_unnamed_identifier_is_the_placeholder() {
    let d = doc(vec![name(1, "one"), Instruction::TypeVoid { result_id: 3 }]);
    assert_eq!(name_from_id(&d, 3), "__unnamed");
    assert_eq!(name_from_id(&d, 99), "__unnamed");
    assert_eq!(name_from_id(&doc(vec![]), 0), "__unnamed");
}

#[test]
fn empty_name_is_the_placeholder_even_before_another_name() {
    let d = doc(vec![name(1, ""), name(1, "later")]);
    assert_eq!(name_from_id(&d, 1), "__unnamed");
}

#[test]
fn first_name_wins() {
    let d = doc(vec![name(1, "first"), name(1, "second")]);
    assert_eq!(name_from_id(&d, 1), "first");
}

#[test]
fn member_names_are_found_by_struct_and_index() {
    let d = doc(vec![
        Instruction::MemberName { target_id: 5, member: 0, name: "a".to_string() },
        Instruction::MemberName { target_id: 5, member: 2, name: "c".to_string() },
        Instruction::MemberName { target_id: 6, member: 1, name: "other".to_string() },
        Instruction::MemberName { target_id: 5, member: 3, name: String::new() },
        name(5, "S"),
    ]);
    assert_eq!(member_name_from_id(&d, 5, 0), "a");
    assert_eq!(member_name_from_id(&d, 5, 1), "__unnamed");
    assert_eq!(member_name_from_id(&d, 5, 2), "c");
    assert_eq!(member_name_from_id(&d, 5, 3), "__unnamed");
    assert_eq!(member_name_from_id(&d, 6, 1), "other");
    assert_eq!(member_name_from_id(&d, 7, 0), "__unnamed");
}

#[test]
fn location_is_the_operand_of_the_first_location_decoration() {
    let d = doc(vec![
        decorate(1, Decoration::DecorationBinding, vec![9]),
        decorate(1, Decoration::DecorationLocation, vec![3]),
        decorate(1, Decoration::DecorationLocation, vec![4]),
        decorate(2, Decoration::DecorationLocation, vec![0, 7]),
    ]);
    assert_eq!(location_decoration(&d, 1), Some(3));
    assert_eq!(location_decoration(&d, 2), Some(0));
    assert_eq!(location_decoration(&d, 3), None);
}

#[test]
fn location_without_operand_does_not_count() {
    let d = doc(vec![
        decorate(1, Decoration::DecorationLocation, vec![]),
        decorate(1, Decoration::DecorationLocation, vec![5]),
    ]);
    assert_eq!(location_decoration(&d, 1), Some(5));
    let d = doc(vec![decorate(1, Decoration::DecorationLocation, vec![])]);
    assert_eq!(location_decoration(&d, 1), None);
}

#[test]
fn decoration_values_are_found_by_kind() {
    let d = doc(vec![
        decorate(1, Decoration::DecorationDescriptorSet, vec![2]),
        decorate(1, Decoration::DecorationBinding, vec![7]),
        Instruction::MemberDecorate {
            target_id: 4,
            member: 1,
            decoration: Decoration::DecorationOffset,
            params: vec![16],
        },
    ]);
    assert_eq!(decoration_value(&d, 1, Decoration::DecorationDescriptorSet), Some(2));
    assert_eq!(decoration_value(&d, 1, Decoration::DecorationBinding), Some(7));
    assert_eq!(decoration_value(&d, 1, Decoration::DecorationLocation), None);
    assert_eq!(member_decoration_value(&d, 4, 1, Decoration::DecorationOffset), Some(16));
    assert_eq!(member_decoration_value(&d, 4, 0, Decoration::DecorationOffset), None);
    assert_eq!(member_decoration_value(&d, 4, 1, Decoration::DecorationArrayStride), None);
}

#[test]
fn builtin_is_told_by_the_decoration() {
    let d = doc(vec![
        decorate(1, Decoration::DecorationLocation, vec![0]),
        decorate(2, Decoration::DecorationBuiltIn, vec![0]),
        decorate(3, Decoration::DecorationBuiltIn, vec![]),
        Instruction::MemberDecorate {
            target_id: 4,
            member: 0,
            decoration: Decoration::DecorationBuiltIn,
            params: vec![0],
        },
    ]);
    assert!(!is_builtin(&d, 1));
    assert!(is_builtin(&d, 2));
    assert!(is_builtin(&d, 3));
    assert!(!is_builtin(&d, 4));
    assert!(!is_builtin(&d, 5));
    assert!(has_decoration(&d, 1, Decoration::DecorationLocation));
    assert!(!has_decoration(&d, 2, Decoration::DecorationLocation));
}

#[test]
fn find_returns_the_first_match_from_where_it_starts() {
    let d = doc(vec![name(1, "a"), name(2, "b"), name(1, "c")]);
    let q = Query::Name { target: 1 };
    assert_eq!(find(&d, q, 0), Some(0));
    assert_eq!(find(&d, q, 1), Some(2));
    assert_eq!(find(&d, q, 2), Some(2));
    assert_eq!(find(&d, q, 3), None);
    assert_eq!(find(&d, q, 100), None);
    assert_eq!(find(&d, Query::Name { target: 3 }, 0), None);
    assert!(q.matches(&d.instructions[0]));
    assert!(!q.matches(&d.instructions[1]));
}

#[test]
fn scalar_types_are_described() {
    let d = doc(vec![
        Instruction::TypeVoid { result_id: 1 },
        Instruction::TypeBool { result_id: 2 },
        Instruction::TypeInt { result_id: 3, width: 32, signedness: true },
        Instruction::TypeInt { result_id: 4, width: 16, signedness: false },
        Instruction::TypeFloat { result_id: 5, width: 64 },
        Instruction::TypeOpaque { result_id: 6, name: "x".to_string() },
    ]);
    assert_eq!(type_from_id(&d, 1), Ok(TypeDesc::Void));
    assert_eq!(type_from_id(&d, 2), Ok(TypeDesc::Bool));
    assert_eq!(type_from_id(&d, 3), Ok(TypeDesc::Int { width: 32, signed: true }));
    assert_eq!(type_from_id(&d, 4), Ok(TypeDesc::Int { width: 16, signed: false }));
    assert_eq!(type_from_id(&d, 5), Ok(TypeDesc::Float { width: 64 }));
    assert_eq!(type_from_id(&d, 6), Ok(TypeDesc::Opaque));
}

#[test]
fn vectors_and_matrices_are_described_with_what_they_are_made_of() {
    let d = doc(float_types());
    let float = TypeDesc::Float { width: 32 };
    let vec4 = TypeDesc::Vector { component: Box::new(float), count: 4 };
    assert_eq!(type_from_id(&d, 2).as_ref(), Ok(&vec4));
    assert_eq!(type_from_id(&d, 3), Ok(TypeDesc::Matrix { column: Box::new(vec4), columns: 4 }));
}

#[test]
fn arrays_take_their_length_from_a_constant() {
    let mut i = float_types();
    i.push(Instruction::Constant { result_type_id: 9, result_id: 10, data: vec![3] });
    i.push(Instruction::Constant { result_type_id: 9, result_id: 11, data: vec![5, 2] });
    i.push(Instruction::TypeArray { result_id: 20, type_id: 1, length_id: 10 });
    i.push(Instruction::TypeArray { result_id: 21, type_id: 2, length_id: 11 });
    i.push(Instruction::TypeArray { result_id: 22, type_id: 1, length_id: 12 });
    i.push(Instruction::TypeRuntimeArray { result_id: 23, type_id: 1 });
    let d = doc(i);
    let float = || Box::new(TypeDesc::Float { width: 32 });
    assert_eq!(type_from_id(&d, 20), Ok(TypeDesc::Array { element: float(), length: 3 }));
    assert_eq!(
        type_from_id(&d, 21),
        Ok(TypeDesc::Array {
            element: Box::new(TypeDesc::Vector { component: float(), count: 4 }),
            length: 0x2_0000_0005,
        })
    );
    assert_eq!(type_from_id(&d, 22), Err(Error::MissingArrayLength { id: 12 }));
    assert_eq!(type_from_id(&d, 23), Ok(TypeDesc::RuntimeArray { element: float() }));
    assert_eq!(array_length(&d, 10), Some(3));
    assert_eq!(array_length(&d, 12), None);
}

#[test]
fn constant_words_are_read_low_word_first() {
    assert_eq!(constant_value(&vec![]), 0);
    assert_eq!(constant_value(&vec![7]), 7);
    assert_eq!(constant_value(&vec![0xffff_ffff]), 0xffff_ffff);
    assert_eq!(constant_value(&vec![1, 2]), 0x2_0000_0001);
    assert_eq!(constant_value(&vec![0xffff_ffff, 0xffff_ffff]), u64::MAX);
    assert_eq!(constant_value(&vec![4, 0, 9]), 4);
    assert_eq!(constant_value(&vec![4, 1, 9, 9]), 0x1_0000_0004);
}

#[test]
fn pointers_and_sampled_images_are_seen_through() {
    let mut i = float_types();
    i.push(Instruction::TypePointer {
        result_id: 30,
        storage_class: StorageClass::StorageClassInput,
        type_id: 2,
    });
    i.push(Instruction::TypeImage {
        result_id: 31,
        sampled_type_id: 1,
        dim: Dim::DimCube,
        depth: Some(true),
        arrayed: true,
        ms: false,
        sampled: Some(true),
        format: ImageFormat::ImageFormatUnknown,
        access: None,
    });
    i.push(Instruction::TypeSampledImage { result_id: 32, image_type_id: 31 });
    i.push(Instruction::TypePointer {
        result_id: 33,
        storage_class: StorageClass::StorageClassUniformConstant,
        type_id: 32,
    });
    let d = doc(i);
    assert_eq!(type_from_id(&d, 30), type_from_id(&d, 2));
    let image = TypeDesc::Image {
        sampled_type_id: 1,
        dim: Dim::DimCube,
        depth: Some(true),
        arrayed: true,
        multisampled: false,
        sampled: Some(true),
        format: ImageFormat::ImageFormatUnknown,
        access: None,
    };
    assert_eq!(type_from_id(&d, 31).as_ref(), Ok(&image));
    assert_eq!(type_from_id(&d, 32).as_ref(), Ok(&image));
    assert_eq!(type_from_id(&d, 33).as_ref(), Ok(&image));
}

#[test]
fn structs_are_described_by_name() {
    let d = doc(vec![
        name(5, "Light"),
        Instruction::TypeStruct { result_id: 5, member_types: vec![77] },
        Instruction::TypeStruct { result_id: 6, member_types: vec![] },
    ]);
    assert_eq!(type_from_id(&d, 5), Ok(TypeDesc::Struct { name: "Light".to_string() }));
    assert_eq!(type_from_id(&d, 6), Ok(TypeDesc::Struct { name: "__unnamed".to_string() }));
}

#[test]
fn identifier_of_no_type_is_unknown() {
    let mut i = float_types();
    i.push(Instruction::Constant { result_type_id: 1, result_id: 41, data: vec![1] });
    i.push(Instruction::TypeVector { result_id: 42, component_id: 50, count: 2 });
    i.push(name(43, "n"));
    let d = doc(i);
    assert_eq!(type_from_id(&d, 99), Err(Error::UnknownType { id: 99 }));
    assert_eq!(type_from_id(&d, 41), Err(Error::UnknownType { id: 41 }));
    assert_eq!(type_from_id(&d, 43), Err(Error::UnknownType { id: 43 }));
    assert_eq!(type_from_id(&d, 42), Err(Error::UnknownType { id: 50 }));
    assert_eq!(type_from_id(&doc(vec![]), 1), Err(Error::UnknownType { id: 1 }));
    assert_eq!(Error::UnknownType { id: 1 }.kind(), ErrorKind::MalformedModule);
}

#[test]
fn a_sampler_is_described_as_a_sampler() {
    let d = doc(vec![
        Instruction::TypeSampler { result_id: 1 },
        Instruction::TypePointer {
            result_id: 2,
            storage_class: StorageClass::StorageClassUniformConstant,
            type_id: 1,
        },
        Instruction::TypeRuntimeArray { result_id: 3, type_id: 1 },
    ]);
    assert_eq!(type_from_id(&d, 1), Ok(TypeDesc::Sampler));
    assert_eq!(type_from_id(&d, 2), Ok(TypeDesc::Sampler));
    assert_eq!(
        type_from_id(&d, 3),
        Ok(TypeDesc::RuntimeArray { element: Box::new(TypeDesc::Sampler) })
    );
    assert_eq!(type_from_id_within(&d, 1, 0), Ok(TypeDesc::Sampler));
}

#[test]
fn every_kind_of_type_declaration_resolves() {
    let d = doc(vec![
        Instruction::TypeVoid { result_id: 1 },
        Instruction::TypeBool { result_id: 2 },
        Instruction::TypeInt { result_id: 3, width: 32, signedness: false },
        Instruction::TypeFloat { result_id: 4, width: 32 },
        Instruction::TypeVector { result_id: 5, component_id: 4, count: 3 },
        Instruction::TypeMatrix { result_id: 6, column_type_id: 5, column_count: 3 },
        Instruction::TypeImage {
            result_id: 7,
            sampled_type_id: 4,
            dim: Dim::Dim2D,
            depth: None,
            arrayed: false,
            ms: false,
            sampled: Some(true),
            format: ImageFormat::ImageFormatUnknown,
            access: None,
        },
        Instruction::TypeSampler { result_id: 8 },
        Instruction::TypeSampledImage { result_id: 9, image_type_id: 7 },
        Instruction::Constant { result_type_id: 3, result_id: 20, data: vec![5] },
        Instruction::TypeArray { result_id: 10, type_id: 4, length_id: 20 },
        Instruction::TypeRuntimeArray { result_id: 11, type_id: 8 },
        Instruction::TypeStruct { result_id: 12, member_types: vec![4, 10] },
        Instruction::TypeOpaque { result_id: 13, name: "handle".to_string() },
        Instruction::TypePointer {
            result_id: 14,
            storage_class: StorageClass::StorageClassUniformConstant,
            type_id: 9,
        },
    ]);
    for id in 1..=14 {
        assert!(type_from_id(&d, id).is_ok(), "type {}", id);
    }
    assert_eq!(type_from_id(&d, 14), type_from_id(&d, 7));
    assert_eq!(type_from_id(&d, 9), type_from_id(&d, 7));
    for id in [0, 15, 20, 21] {
        assert_eq!(type_from_id(&d, id), Err(Error::UnknownType { id }));
    }
}

#[test]
fn every_declared_type_of_a_well_formed_module_resolves() {
    let mut i = float_types();
    i.push(Instruction::Constant { result_type_id: 1, result_id: 10, data: vec![2] });
    i.push(Instruction::TypeArray { result_id: 4, type_id: 3, length_id: 10 });
    i.push(Instruction::TypeRuntimeArray { result_id: 5, type_id: 4 });
    i.push(Instruction::TypeStruct { result_id: 6, member_types: vec![5] });
    i.push(Instruction::TypePointer {
        result_id: 7,
        storage_class: StorageClass::StorageClassUniform,
        type_id: 5,
    });
    let d = doc(i);
    for id in 1..=7 {
        assert!(type_from_id(&d, id).is_ok());
    }
    for id in [0, 8, 10, 11] {
        assert_eq!(type_from_id(&d, id), Err(Error::UnknownType { id }));
    }
}

#[test]
fn type_that_contains_itself_is_refused() {
    let d = doc(vec![
        Instruction::TypePointer {
            result_id: 1,
            storage_class: StorageClass::StorageClassFunction,
            type_id: 2,
        },
        Instruction::TypeRuntimeArray { result_id: 2, type_id: 1 },
    ]);
    assert_eq!(type_from_id(&d, 1), Err(Error::RecursiveType { id: 1 }));
    assert_eq!(type_from_id(&d, 2), Err(Error::RecursiveType { id: 2 }));
    let own = doc(vec![Instruction::TypeVector { result_id: 1, component_id: 1, count: 2 }]);
    assert_eq!(type_from_id(&own, 1), Err(Error::RecursiveType { id: 1 }));
}

#[test]
fn nesting_is_followed_as_deep_as_asked() {
    let d = doc(float_types());
    assert_eq!(type_from_id_within(&d, 1, 0), Ok(TypeDesc::Float { width: 32 }));
    assert_eq!(type_from_id_within(&d, 2, 0), Err(Error::RecursiveType { id: 2 }));
    assert!(type_from_id_within(&d, 2, 1).is_ok());
    assert_eq!(type_from_id_within(&d, 3, 1), Err(Error::RecursiveType { id: 2 }));
    assert!(type_from_id_within(&d, 3, 2).is_ok());
    assert_eq!(type_from_id_within(&d, 3, 2), type_from_id(&d, 3));
}

#[test]
fn types_may_be_declared_behind_their_use() {
    let d = doc(vec![
        Instruction::TypeVector { result_id: 2, component_id: 1, count: 3 },
        Instruction::TypeFloat { result_id: 1, width: 32 },
    ]);
    assert_eq!(
        type_from_id(&d, 2),
        Ok(TypeDesc::Vector { component: Box::new(TypeDesc::Float { width: 32 }), count: 3 })
    );
}
