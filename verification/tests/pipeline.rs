use vulkano_shaders::descriptor_sets::DescriptorSet;
use vulkano_shaders::encode::encode_spirv;
use vulkano_shaders::entry_point::{EntryPointInterface, StageInterface, VertexAttribute};
use vulkano_shaders::enums::{
    AddressingModel, Capability, ConstantKind, Decoration, ExecutionModel, MemoryModel,
    StorageClass,
};
use vulkano_shaders::error::{Error, ErrorKind};
use vulkano_shaders::layout_def::{DescriptorDesc, DescriptorType, ShaderStages};
use vulkano_shaders::parse::{Instruction, ParseError, Spirv};
use vulkano_shaders::reflect;
use vulkano_shaders::reflect::{reflect_module, Reflection};
use vulkano_shaders::structs::{StructLayout, StructMember};
use vulkano_shaders::types::TypeDesc;

fn name(target_id: u32, name: &str) -> Instruction {
    Instruction::Name { target_id, name: name.to_string() }
}

fn decorate(target_id: u32, decoration: Decoration, params: Vec<u32>) -> Instruction {
    Instruction::Decorate { target_id, decoration, params }
}

fn shader() -> Spirv {
    let instructions = vec![
        Instruction::Capability(Capability::CapabilityShader),
        Instruction::Capability(Capability::CapabilityClipDistance),
        Instruction::ExtInstImport { result_id: 1, name: "GLSL.std.450".to_string() },
        Instruction::MemoryModel(
            AddressingModel::AddressingModelLogical,
            MemoryModel::MemoryModelGLSL450,
        ),
        Instruction::EntryPoint {
            execution: ExecutionModel::ExecutionModelVertex,
            id: 4,
            name: "main".to_string(),
            interface: vec![20, 21, 22],
        },
        name(20, "position"),
        name(21, "gl_Position"),
        name(30, "Transform"),
        Instruction::MemberName { target_id: 30, member: 0, name: "matrix".to_string() },
        decorate(20, Decoration::DecorationLocation, vec![0]),
        decorate(21, Decoration::DecorationBuiltIn, vec![0]),
        decorate(30, Decoration::DecorationBlock, vec![]),
        decorate(40, Decoration::DecorationDescriptorSet, vec![0]),
        decorate(40, Decoration::DecorationBinding, vec![0]),
        Instruction::MemberDecorate {
            target_id: 30,
            member: 0,
            decoration: Decoration::DecorationOffset,
            params: vec![0],
        },
        Instruction::TypeVoid { result_id: 2 },
        Instruction::TypeFloat { result_id: 6, width: 32 },
        Instruction::TypeVector { result_id: 7, component_id: 6, count: 4 },
        Instruction::TypeMatrix { result_id: 8, column_type_id: 7, column_count: 4 },
        Instruction::TypeStruct { result_id: 30, member_types: vec![8] },
        Instruction::TypePointer {
            result_id: 9,
            storage_class: StorageClass::StorageClassInput,
            type_id: 7,
        },
        Instruction::TypePointer {
            result_id: 10,
            storage_class: StorageClass::StorageClassOutput,
            type_id: 7,
        },
        Instruction::TypePointer {
            result_id: 11,
            storage_class: StorageClass::StorageClassUniform,
            type_id: 30,
        },
        Instruction::Variable {
            result_type_id: 9,
            result_id: 20,
            storage_class: StorageClass::StorageClassInput,
            initializer: None,
        },
        Instruction::Variable {
            result_type_id: 10,
            result_id: 21,
            storage_class: StorageClass::StorageClassOutput,
            initializer: None,
        },
        Instruction::Variable {
            result_type_id: 11,
            result_id: 40,
            storage_class: StorageClass::StorageClassUniform,
            initializer: None,
        },
        Instruction::Unknown(54, vec![2, 4, 0, 3]),
        Instruction::Label { result_id: 5 },
        Instruction::Return,
        Instruction::FunctionEnd,
    ];
    Spirv { version: (1, 0), bound: 41, instructions }
}

fn expected() -> Reflection {
    let float = || Box::new(TypeDesc::Float { width: 32 });
    let vec4 = || TypeDesc::Vector { component: float(), count: 4 };
    Reflection {
        capabilities: vec![Capability::CapabilityShader, Capability::CapabilityClipDistance],
        features: vec!["shader_clip_distance"],
        entry_points: vec![EntryPointInterface {
            name: "main".to_string(),
            stage: StageInterface::Vertex {
                attributes: vec![VertexAttribute {
                    location: 0,
                    name: "position".to_string(),
                    ty: vec4(),
                }],
            },
        }],
        structs: vec![StructLayout {
            id: 30,
            name: "Transform".to_string(),
            members: vec![StructMember {
                name: "matrix".to_string(),
                ty: TypeDesc::Matrix { column: Box::new(vec4()), columns: 4 },
                offset: Some(0),
            }],
        }],
        descriptor_sets: vec![DescriptorSet {
            set: 0,
            bindings: vec![DescriptorDesc {
                binding: 0,
                ty: DescriptorType::UniformBuffer,
                array_count: 1,
                stages: ShaderStages::none(),
            }],
        }],
    }
}

#[test]
fn module_is_reflected_from_its_bytes() {
    let bytes = encode_spirv(&shader()).unwrap();
    assert_eq!(reflect(&bytes), Ok(expected()));
    assert_eq!(reflect_module(&shader()), Ok(expected()));
}

#[test]
fn reflecting_twice_gives_the_same_description() {
    let bytes = encode_spirv(&shader()).unwrap();
    let first = reflect(&bytes);
    let second = reflect(&bytes);
    assert_eq!(first, second);
    assert_eq!(format!("{:?}", first), format!("{:?}", second));
    let bad = &bytes[..bytes.len() - 2];
    assert_eq!(reflect(bad), reflect(bad));
}

#[test]
fn empty_module_has_an_empty_description() {
    let doc = Spirv { version: (1, 0), bound: 1, instructions: vec![] };
    let empty = Reflection {
        capabilities: vec![],
        features: vec![],
        entry_points: vec![],
        structs: vec![],
        descriptor_sets: vec![],
    };
    assert_eq!(reflect_module(&doc).as_ref(), Ok(&empty));
    assert_eq!(reflect(&encode_spirv(&doc).unwrap()), Ok(empty));
}

#[test]
fn bytes_that_are_no_module_are_a_format_error() {
    let err = reflect(&[1, 2, 3]).unwrap_err();
    assert_eq!(err, Error::ParseError(ParseError::MissingHeader));
    assert_eq!(err.kind(), ErrorKind::Format);
    assert_eq!(Error::from(ParseError::WrongHeader), Error::ParseError(ParseError::WrongHeader));
    let mut bytes = encode_spirv(&shader()).unwrap();
    bytes[0] = 0;
    assert_eq!(reflect(&bytes), Err(Error::ParseError(ParseError::WrongHeader)));
    let mut bytes = encode_spirv(&shader()).unwrap();
    bytes[24] = 200;
    assert_eq!(
        reflect(&bytes),
        Err(Error::ParseError(ParseError::UnknownConstant(ConstantKind::Capability, 200)))
    );
}

#[test]
fn unsupported_capability_fails_before_anything_else() {
    let mut doc = shader();
    doc.instructions.push(Instruction::Capability(Capability::CapabilityKernel));
    doc.instructions.push(Instruction::EntryPoint {
        execution: ExecutionModel::ExecutionModelKernel,
        id: 4,
        name: "k".to_string(),
        interface: vec![],
    });
    assert_eq!(
        reflect_module(&doc),
        Err(Error::UnsupportedCapability(Capability::CapabilityKernel))
    );
}

#[test]
fn failing_entry_point_fails_before_structs_and_descriptors() {
    let mut doc = shader();
    doc.instructions.retain(|i| {
        !matches!(i, Instruction::Decorate { decoration: Decoration::DecorationLocation, .. })
    });
    doc.instructions.push(Instruction::TypeStruct { result_id: 31, member_types: vec![99] });
    assert_eq!(reflect_module(&doc), Err(Error::MissingLocation { variable: 20 }));
}

#[test]
fn structs_of_one_name_fail_the_pass() {
    let mut doc = shader();
    doc.instructions.push(Instruction::TypeStruct { result_id: 31, member_types: vec![] });
    doc.instructions.push(name(31, "Transform"));
    let err = reflect_module(&doc).unwrap_err();
    assert_eq!(err, Error::DuplicateStructName { first: 30, second: 31 });
    assert_eq!(err.kind(), ErrorKind::MalformedModule);
}

#[test]
fn resource_without_binding_fails_the_pass() {
    let mut doc = shader();
    doc.instructions.retain(|i| {
        !matches!(i, Instruction::Decorate { decoration: Decoration::DecorationBinding, .. })
    });
    assert_eq!(reflect_module(&doc), Err(Error::MissingBinding { variable: 40 }));
}
