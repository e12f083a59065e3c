use vulkano_shaders::entry_point::{
    attribute_of, interface_variables, EntryPointInterface, InterfaceVariable, StageInterface,
    VertexAttribute,
};
use vulkano_shaders::enums::{Decoration, ExecutionModel, StorageClass};
use vulkano_shaders::error::{Error, ErrorKind};
use vulkano_shaders::parse::{Instruction, Spirv};
use vulkano_shaders::reflect::entry_points;
use vulkano_shaders::types::TypeDesc;
use vulkano_shaders::write_entry_point;

fn doc(instructions: Vec<Instruction>) -> Spirv {
    Spirv { version: (1, 0), bound: 100, instructions }
}

fn entry(execution: ExecutionModel, name: &str, interface: Vec<u32>) -> Instruction {
    Instruction::EntryPoint { execution, id: 1, name: name.to_string(), interface }
}

fn name(target_id: u32, name: &str) -> Instruction {
    Instruction::Name { target_id, name: name.to_string() }
}

fn location(target_id: u32, at: u32) -> Instruction {
    Instruction::Decorate { target_id, decoration: Decoration::DecorationLocation, params: vec![at] }
}

fn builtin(target_id: u32) -> Instruction {
    Instruction::Decorate { target_id, decoration: Decoration::DecorationBuiltIn, params: vec![0] }
}

fn variable(result_id: u32, result_type_id: u32, storage_class: StorageClass) -> Instruction {
    Instruction::Variable { result_type_id, result_id, storage_class, initializer: None }
}

fn types() -> Vec<Instruction> {
    vec![
        Instruction::TypeFloat { result_id: 2, width: 32 },
        Instruction::TypeVector { result_id: 3, component_id: 2, count: 4 },
        Instruction::TypeVector { result_id: 4, component_id: 2, count: 2 },
        Instruction::TypePointer {
            result_id: 5,
            storage_class: StorageClass::StorageClassInput,
            type_id: 3,
        },
        Instruction::TypePointer {
            result_id: 6,
            storage_class: StorageClass::StorageClassInput,
            type_id: 4,
        },
        Instruction::TypePointer {
            result_id: 7,
            storage_class: StorageClass::StorageClassOutput,
            type_id: 3,
        },
    ]
}

fn float() -> Box<TypeDesc> {
    Box::new(TypeDesc::Float { width: 32 })
}

fn vec4() -> TypeDesc {
    TypeDesc::Vector { component: float(), count: 4 }
}

fn vec2() -> TypeDesc {
    TypeDesc::Vector { component: float(), count: 2 }
}

#[test]
fn vertex_inputs_with_locations_all_become_attributes() {
    let mut i = types();
    let ep = entry(ExecutionModel::ExecutionModelVertex, "main", vec![12, 10, 11]);
    i.push(ep.clone());
    i.extend([name(10, "position"), name(11, "uv")]);
    i.extend([location(10, 0), location(11, 1), location(12, 7)]);
    i.push(variable(10, 5, StorageClass::StorageClassInput));
    i.push(variable(11, 6, StorageClass::StorageClassInput));
    i.push(variable(12, 5, StorageClass::StorageClassInput));
    let d = doc(i);
    let got = write_entry_point(&d, &ep).unwrap();
    assert_eq!(
        got,
        EntryPointInterface {
            name: "main".to_string(),
            stage: StageInterface::Vertex {
                attributes: vec![
                    VertexAttribute { location: 7, name: "__unnamed".to_string(), ty: vec4() },
                    VertexAttribute { location: 0, name: "position".to_string(), ty: vec4() },
                    VertexAttribute { location: 1, name: "uv".to_string(), ty: vec2() },
                ],
            },
        }
    );
}

#[test]
fn vertex_attributes_keep_the_order_of_the_interface_list() {
    let mut i = types();
    let ep = entry(ExecutionModel::ExecutionModelVertex, "main", vec![11, 10]);
    i.extend([location(10, 0), location(11, 1)]);
    i.push(variable(10, 5, StorageClass::StorageClassInput));
    i.push(variable(11, 6, StorageClass::StorageClassInput));
    let d = doc(i);
    match write_entry_point(&d, &ep).unwrap().stage {
        StageInterface::Vertex { attributes } => {
            let locations: Vec<u32> = attributes.iter().map(|a| a.location).collect();
            assert_eq!(locations, vec![1, 0]);
        },
        other => panic!("{:?}", other),
    }
}

#[test]
fn builtin_and_output_variables_are_no_vertex_inputs() {
    let mut i = types();
    let ep = entry(ExecutionModel::ExecutionModelVertex, "main", vec![10, 11, 12, 13]);
    i.extend([location(10, 0), builtin(11), location(12, 2)]);
    i.push(variable(10, 5, StorageClass::StorageClassInput));
    i.push(variable(11, 5, StorageClass::StorageClassInput));
    i.push(variable(12, 7, StorageClass::StorageClassOutput));
    let d = doc(i);
    assert_eq!(
        interface_variables(&d, &vec![10, 11, 12, 13], StorageClass::StorageClassInput, true),
        vec![InterfaceVariable { id: 10, type_id: 5 }]
    );
    assert_eq!(
        interface_variables(&d, &vec![10, 11, 12, 13], StorageClass::StorageClassInput, false),
        vec![InterfaceVariable { id: 10, type_id: 5 }, InterfaceVariable { id: 11, type_id: 5 }]
    );
    match write_entry_point(&d, &ep).unwrap().stage {
        StageInterface::Vertex { attributes } => assert_eq!(attributes.len(), 1),
        other => panic!("{:?}", other),
    }
}

#[test]
fn vertex_input_without_location_fails_and_is_named() {
    let mut i = types();
    let ep = entry(ExecutionModel::ExecutionModelVertex, "main", vec![10, 11, 12]);
    i.extend([location(10, 0), name(11, "normal")]);
    i.push(variable(10, 5, StorageClass::StorageClassInput));
    i.push(variable(11, 5, StorageClass::StorageClassInput));
    i.push(variable(12, 5, StorageClass::StorageClassInput));
    let d = doc(i);
    let err = write_entry_point(&d, &ep).unwrap_err();
    assert_eq!(err, Error::MissingLocation { variable: 11 });
    assert_eq!(err.kind(), ErrorKind::MalformedModule);
    assert_eq!(
        attribute_of(&d, InterfaceVariable { id: 12, type_id: 5 }),
        Err(Error::MissingLocation { variable: 12 })
    );
}

#[test]
fn vertex_input_of_unknown_type_fails_before_its_location_is_missed() {
    let mut i = types();
    let ep = entry(ExecutionModel::ExecutionModelVertex, "main", vec![10]);
    i.push(variable(10, 50, StorageClass::StorageClassInput));
    let d = doc(i);
    assert_eq!(write_entry_point(&d, &ep), Err(Error::UnknownType { id: 50 }));
}

#[test]
fn vertex_entry_point_without_inputs_has_no_attributes() {
    let ep = entry(ExecutionModel::ExecutionModelVertex, "empty", vec![]);
    let d = doc(vec![ep.clone()]);
    assert_eq!(
        write_entry_point(&d, &ep),
        Ok(EntryPointInterface {
            name: "empty".to_string(),
            stage: StageInterface::Vertex { attributes: vec![] },
        })
    );
    let dangling = entry(ExecutionModel::ExecutionModelVertex, "dangling", vec![90, 91]);
    assert_eq!(
        write_entry_point(&d, &dangling).unwrap().stage,
        StageInterface::Vertex { attributes: vec![] }
    );
}

#[test]
fn fragment_outputs_are_described_by_type_builtin_ones_too() {
    let mut i = types();
    let ep = entry(ExecutionModel::ExecutionModelFragment, "frag", vec![20, 10, 21]);
    i.push(builtin(21));
    i.push(variable(10, 5, StorageClass::StorageClassInput));
    i.push(variable(20, 7, StorageClass::StorageClassOutput));
    i.push(variable(21, 7, StorageClass::StorageClassOutput));
    let d = doc(i);
    assert_eq!(
        write_entry_point(&d, &ep),
        Ok(EntryPointInterface {
            name: "frag".to_string(),
            stage: StageInterface::Fragment { outputs: vec![vec4(), vec4()] },
        })
    );
}

#[test]
fn fragment_output_of_unknown_type_fails() {
    let ep = entry(ExecutionModel::ExecutionModelFragment, "frag", vec![20]);
    let d = doc(vec![variable(20, 70, StorageClass::StorageClassOutput)]);
    assert_eq!(write_entry_point(&d, &ep), Err(Error::UnknownType { id: 70 }));
}

#[test]
fn other_stages_are_described_by_stage_and_name() {
    let d = doc(types());
    let cases = [
        (ExecutionModel::ExecutionModelTessellationControl, StageInterface::TessellationControl),
        (
            ExecutionModel::ExecutionModelTessellationEvaluation,
            StageInterface::TessellationEvaluation,
        ),
        (ExecutionModel::ExecutionModelGeometry, StageInterface::Geometry),
        (ExecutionModel::ExecutionModelGLCompute, StageInterface::Compute),
    ];
    for (execution, stage) in cases {
        let ep = entry(execution, "stage", vec![10, 11]);
        assert_eq!(
            write_entry_point(&d, &ep),
            Ok(EntryPointInterface { name: "stage".to_string(), stage })
        );
    }
}

#[test]
fn kernel_is_not_supported() {
    let ep = entry(ExecutionModel::ExecutionModelKernel, "k", vec![]);
    let err = write_entry_point(&doc(vec![]), &ep).unwrap_err();
    assert_eq!(err, Error::UnsupportedExecutionModel(ExecutionModel::ExecutionModelKernel));
    assert_eq!(err.kind(), ErrorKind::UnsupportedFeature);
}

#[test]
fn every_entry_point_of_a_module_is_described_on_its_own() {
    let mut i = types();
    i.push(entry(ExecutionModel::ExecutionModelVertex, "vs", vec![10]));
    i.push(entry(ExecutionModel::ExecutionModelFragment, "fs", vec![20]));
    i.push(entry(ExecutionModel::ExecutionModelGLCompute, "cs", vec![]));
    i.push(location(10, 4));
    i.push(variable(10, 6, StorageClass::StorageClassInput));
    i.push(variable(20, 7, StorageClass::StorageClassOutput));
    let d = doc(i);
    let all = entry_points(&d).unwrap();
    assert_eq!(all.len(), 3);
    assert_eq!(all[0].name, "vs");
    assert_eq!(
        all[0].stage,
        StageInterface::Vertex {
            attributes: vec![VertexAttribute {
                location: 4,
                name: "__unnamed".to_string(),
                ty: vec2(),
            }],
        }
    );
    assert_eq!(all[1].stage, StageInterface::Fragment { outputs: vec![vec4()] });
    assert_eq!(all[2], EntryPointInterface { name: "cs".to_string(), stage: StageInterface::Compute });
    assert_eq!(entry_points(&doc(types())), Ok(vec![]));
}

#[test]
fn first_failing_entry_point_fails_the_module() {
    let d = doc(vec![
        entry(ExecutionModel::ExecutionModelGLCompute, "cs", vec![]),
        entry(ExecutionModel::ExecutionModelKernel, "k", vec![]),
        entry(ExecutionModel::ExecutionModelVertex, "vs", vec![10]),
        variable(10, 6, StorageClass::StorageClassInput),
    ]);
    assert_eq!(
        entry_points(&d),
        Err(Error::UnsupportedExecutionModel(ExecutionModel::ExecutionModelKernel))
    );
}
