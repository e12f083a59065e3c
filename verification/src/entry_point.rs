//! The interface of an entry point: what a stage takes in or gives out, read
//! from the variables that the entry point refers to.

use crate::enums::{ExecutionModel, StorageClass};
use crate::error::Error;
use crate::parse::{Instruction, InstructionView, Spirv};
use crate::resolve::{
    is_builtin, location_decoration, name_from_id, spec_is_builtin, spec_location_of,
    spec_name_of,
};
use crate::types::{spec_type_of, type_from_id, TypeDesc, TypeDescView};
use crate::views::{lemma_views_push, spec_followed_by, view_ok, views, views_ok};
use vstd::prelude::*;

verus! {

/// A variable of the module that an entry point refers to.
#[derive(Debug, Clone, Copy, PartialEq, Eq, Structural)]
pub struct InterfaceVariable {
    /// The identifier of the variable.
    pub id: u32,
    /// The identifier of its type.
    pub type_id: u32,
}

/// One input of a vertex stage.
#[derive(Debug, PartialEq, Eq)]
pub struct VertexAttribute {
    pub location: u32,
    pub name: String,
    pub ty: TypeDesc,
}

/// What a [`VertexAttribute`] holds, as mathematical values.
pub struct VertexAttributeView {
    pub location: u32,
    pub name: Seq<char>,
    pub ty: TypeDescView,
}

impl View for VertexAttribute {
    type V = VertexAttributeView;

    open spec fn view(&self) -> VertexAttributeView {
        VertexAttributeView { location: self.location, name: self.name@, ty: self.ty@ }
    }
}

/// The stage of an entry point, with what is known of its interface.
#[derive(Debug, PartialEq, Eq)]
pub enum StageInterface {
    /// The inputs that are not built in, in the order in which the entry
    /// point lists them. They are not sorted by location.
    Vertex { attributes: Vec<VertexAttribute> },
    TessellationControl,
    TessellationEvaluation,
    Geometry,
    /// The types of the outputs, built-in ones included, in the order in
    /// which the entry point lists them.
    Fragment { outputs: Vec<TypeDesc> },
    Compute,
}

/// What a [`StageInterface`] holds, as mathematical values.
pub enum StageInterfaceView {
    Vertex { attributes: Seq<VertexAttributeView> },
    TessellationControl,
    TessellationEvaluation,
    Geometry,
    Fragment { outputs: Seq<TypeDescView> },
    Compute,
}

impl View for StageInterface {
    type V = StageInterfaceView;

    open spec fn view(&self) -> StageInterfaceView {
        match self {
            StageInterface::Vertex { attributes } => StageInterfaceView::Vertex {
                attributes: views(attributes@),
            },
            StageInterface::TessellationControl => StageInterfaceView::TessellationControl,
            StageInterface::TessellationEvaluation => StageInterfaceView::TessellationEvaluation,
            StageInterface::Geometry => StageInterfaceView::Geometry,
            StageInterface::Fragment { outputs } => StageInterfaceView::Fragment {
                outputs: views(outputs@),
            },
            StageInterface::Compute => StageInterfaceView::Compute,
        }
    }
}

/// The description of one entry point.
#[derive(Debug, PartialEq, Eq)]
pub struct EntryPointInterface {
    /// The name under which the entry point is declared.
    pub name: String,
    pub stage: StageInterface,
}

/// What an [`EntryPointInterface`] holds, as mathematical values.
pub struct EntryPointInterfaceView {
    pub name: Seq<char>,
    pub stage: StageInterfaceView,
}

impl View for EntryPointInterface {
    type V = EntryPointInterfaceView;

    open spec fn view(&self) -> EntryPointInterfaceView {
        EntryPointInterfaceView { name: self.name@, stage: self.stage@ }
    }
}

/// The instruction as a variable of the given identifier and storage class,
/// if it is one.
pub open spec fn spec_variable_at(
    i: InstructionView,
    id: u32,
    storage_class: StorageClass,
) -> Seq<InterfaceVariable> {
    match i {
        InstructionView::Variable { result_type_id, result_id, storage_class: c, .. } => if result_id
            == id && c == storage_class {
            seq![InterfaceVariable { id: result_id, type_id: result_type_id }]
        } else {
            Seq::empty()
        },
        _ => Seq::empty(),
    }
}

/// The variables of the given identifier and storage class that the
/// instructions from index `from` on declare, in their order.
pub open spec fn spec_variables_of(
    instructions: Seq<InstructionView>,
    id: u32,
    storage_class: StorageClass,
    from: nat,
) -> Seq<InterfaceVariable>
    decreases instructions.len() - from,
{
    if from >= instructions.len() {
        Seq::empty()
    } else {
        spec_variable_at(instructions[from as int], id, storage_class) + spec_variables_of(
            instructions,
            id,
            storage_class,
            from + 1,
        )
    }
}

/// The variables that one identifier of an interface list stands for: those
/// of that identifier in the storage class, and none where built-in
/// variables are left out and the identifier is built in.
pub open spec fn spec_variables_for(
    instructions: Seq<InstructionView>,
    id: u32,
    storage_class: StorageClass,
    skip_builtin: bool,
) -> Seq<InterfaceVariable> {
    if skip_builtin && spec_is_builtin(instructions, id) {
        Seq::empty()
    } else {
        spec_variables_of(instructions, id, storage_class, 0)
    }
}

/// The variables that the identifiers of an interface list stand for, from
/// position `from` of the list on: identifier by identifier in the order of
/// the list, and for each identifier in the order of the instructions.
pub open spec fn spec_interface_variables(
    instructions: Seq<InstructionView>,
    interface: Seq<u32>,
    storage_class: StorageClass,
    skip_builtin: bool,
    from: nat,
) -> Seq<InterfaceVariable>
    decreases interface.len() - from,
{
    if from >= interface.len() {
        Seq::empty()
    } else {
        spec_variables_for(instructions, interface[from as int], storage_class, skip_builtin)
            + spec_interface_variables(
            instructions,
            interface,
            storage_class,
            skip_builtin,
            from + 1,
        )
    }
}

/// The vertex input that a variable is: its type, resolved, then its name
/// and its location. It fails as the type does, or with `MissingLocation`
/// for a variable that the module gives no location.
pub open spec fn spec_attribute(
    instructions: Seq<InstructionView>,
    variable: InterfaceVariable,
) -> Result<VertexAttributeView, Error> {
    match spec_type_of(instructions, variable.type_id, instructions.len()) {
        Err(e) => Err(e),
        Ok(ty) => match spec_location_of(instructions, variable.id) {
            None => Err(Error::MissingLocation { variable: variable.id }),
            Some(location) => Ok(
                VertexAttributeView {
                    location,
                    name: spec_name_of(instructions, variable.id),
                    ty,
                },
            ),
        },
    }
}

/// The vertex inputs that the variables from position `from` on are, or the
/// failure of the first of them that fails.
pub open spec fn spec_attributes(
    instructions: Seq<InstructionView>,
    variables: Seq<InterfaceVariable>,
    from: nat,
) -> Result<Seq<VertexAttributeView>, Error>
    decreases variables.len() - from,
{
    if from >= variables.len() {
        Ok(Seq::empty())
    } else {
        match spec_attribute(instructions, variables[from as int]) {
            Err(e) => Err(e),
            Ok(a) => match spec_attributes(instructions, variables, from + 1) {
                Err(e) => Err(e),
                Ok(rest) => Ok(seq![a] + rest),
            },
        }
    }
}

/// The types of the variables from position `from` on, or the failure of
/// the first of them that fails.
pub open spec fn spec_variable_types(
    instructions: Seq<InstructionView>,
    variables: Seq<InterfaceVariable>,
    from: nat,
) -> Result<Seq<TypeDescView>, Error>
    decreases variables.len() - from,
{
    if from >= variables.len() {
        Ok(Seq::empty())
    } else {
        match spec_type_of(instructions, variables[from as int].type_id, instructions.len()) {
            Err(e) => Err(e),
            Ok(t) => match spec_variable_types(instructions, variables, from + 1) {
                Err(e) => Err(e),
                Ok(rest) => Ok(seq![t] + rest),
            },
        }
    }
}

/// The interface of a stage, read from the interface list of its entry
/// point. A kernel has none.
pub open spec fn spec_stage_interface(
    instructions: Seq<InstructionView>,
    execution: ExecutionModel,
    interface: Seq<u32>,
) -> Result<StageInterfaceView, Error> {
    match execution {
        ExecutionModel::ExecutionModelVertex => match spec_attributes(
            instructions,
            spec_interface_variables(
                instructions,
                interface,
                StorageClass::StorageClassInput,
                true,
                0,
            ),
            0,
        ) {
            Ok(attributes) => Ok(StageInterfaceView::Vertex { attributes }),
            Err(e) => Err(e),
        },
        ExecutionModel::ExecutionModelTessellationControl => Ok(
            StageInterfaceView::TessellationControl,
        ),
        ExecutionModel::ExecutionModelTessellationEvaluation => Ok(
            StageInterfaceView::TessellationEvaluation,
        ),
        ExecutionModel::ExecutionModelGeometry => Ok(StageInterfaceView::Geometry),
        ExecutionModel::ExecutionModelFragment => match spec_variable_types(
            instructions,
            spec_interface_variables(
                instructions,
                interface,
                StorageClass::StorageClassOutput,
                false,
                0,
            ),
            0,
        ) {
            Ok(outputs) => Ok(StageInterfaceView::Fragment { outputs }),
            Err(e) => Err(e),
        },
        ExecutionModel::ExecutionModelGLCompute => Ok(StageInterfaceView::Compute),
        ExecutionModel::ExecutionModelKernel => Err(
            Error::UnsupportedExecutionModel(ExecutionModel::ExecutionModelKernel),
        ),
    }
}

/// The description of the entry point that `instruction` declares. Of an
/// instruction that declares none, nothing is said.
pub open spec fn spec_entry_point(
    instructions: Seq<InstructionView>,
    instruction: InstructionView,
) -> Result<EntryPointInterfaceView, Error> {
    match instruction {
        InstructionView::EntryPoint { execution, name, interface, .. } => match spec_stage_interface(
            instructions,
            execution,
            interface,
        ) {
            Ok(stage) => Ok(EntryPointInterfaceView { name, stage }),
            Err(e) => Err(e),
        },
        _ => arbitrary(),
    }
}

/// Appends to `out` the variables of the given identifier and storage class
/// that the module declares.
fn push_variables_of(
    doc: &Spirv,
    id: u32,
    storage_class: StorageClass,
    out: &mut Vec<InterfaceVariable>,
)
    ensures
        final(out)@ == old(out)@ + spec_variables_of(doc@.instructions, id, storage_class, 0),
{
    let ghost target = out@ + spec_variables_of(doc@.instructions, id, storage_class, 0);
    let mut j: usize = 0;
    while j < doc.instructions.len()
        invariant
            out@ + spec_variables_of(doc@.instructions, id, storage_class, j as nat) == target,
        decreases doc.instructions.len() - j,
    {
        let ghost before = out@;
        match &doc.instructions[j] {
            Instruction::Variable { result_type_id, result_id, storage_class: c, .. } => {
                if *result_id == id && *c == storage_class {
                    out.push(InterfaceVariable { id: *result_id, type_id: *result_type_id });
                }
            },
            _ => {},
        }
        proof {
            let head = spec_variable_at(doc@.instructions[j as int], id, storage_class);
            let rest = spec_variables_of(doc@.instructions, id, storage_class, (j + 1) as nat);
            assert(out@ =~= before + head);
            assert((before + head) + rest =~= before + (head + rest));
        }
        j += 1;
    }
    assert(out@ + Seq::<InterfaceVariable>::empty() =~= out@);
}

/// Returns the variables that the identifiers of an interface list stand
/// for: for each identifier in the order of the list, the variables of that
/// identifier in `storage_class`, in the order of the instructions. With
/// `skip_builtin`, identifiers that are built in stand for none.
pub fn interface_variables(
    doc: &Spirv,
    interface: &Vec<u32>,
    storage_class: StorageClass,
    skip_builtin: bool,
) -> (variables: Vec<InterfaceVariable>)
    ensures
        variables@ == spec_interface_variables(
            doc@.instructions,
            interface@,
            storage_class,
            skip_builtin,
            0,
        ),
{
    let mut out: Vec<InterfaceVariable> = Vec::new();
    let ghost target = spec_interface_variables(
        doc@.instructions,
        interface@,
        storage_class,
        skip_builtin,
        0,
    );
    assert(out@ + target =~= target);
    let mut k: usize = 0;
    while k < interface.len()
        invariant
            out@ + spec_interface_variables(
                doc@.instructions,
                interface@,
                storage_class,
                skip_builtin,
                k as nat,
            ) == target,
        decreases interface.len() - k,
    {
        let ghost before = out@;
        let id = interface[k];
        if !(skip_builtin && is_builtin(doc, id)) {
            push_variables_of(doc, id, storage_class, &mut out);
        }
        proof {
            let head = spec_variables_for(doc@.instructions, id, storage_class, skip_builtin);
            let rest = spec_interface_variables(
                doc@.instructions,
                interface@,
                storage_class,
                skip_builtin,
                (k + 1) as nat,
            );
            assert(out@ =~= before + head);
            assert((before + head) + rest =~= before + (head + rest));
        }
        k += 1;
    }
    assert(out@ + Seq::<InterfaceVariable>::empty() =~= out@);
    out
}

/// Returns the vertex input that a variable is: its resolved type, its name
/// and its location.
pub fn attribute_of(doc: &Spirv, variable: InterfaceVariable) -> (r: Result<VertexAttribute, Error>)
    ensures
        view_ok(r) == spec_attribute(doc@.instructions, variable),
{
    let ty = match type_from_id(doc, variable.type_id) {
        Ok(ty) => ty,
        Err(e) => {
            return Err(e);
        },
    };
    let name = name_from_id(doc, variable.id);
    match location_decoration(doc, variable.id) {
        Some(location) => Ok(VertexAttribute { location, name, ty }),
        None => Err(Error::MissingLocation { variable: variable.id }),
    }
}

/// Returns the vertex inputs that the variables are, in their order, or the
/// failure of the first variable that fails.
pub fn attributes_of(doc: &Spirv, variables: &Vec<InterfaceVariable>) -> (r: Result<
    Vec<VertexAttribute>,
    Error,
>)
    ensures
        views_ok(r) == spec_attributes(doc@.instructions, variables@, 0),
{
    let mut out: Vec<VertexAttribute> = Vec::new();
    let ghost target = spec_attributes(doc@.instructions, variables@, 0);
    assert(views(out@) + target->Ok_0 =~= target->Ok_0);
    let mut k: usize = 0;
    while k < variables.len()
        invariant
            target == spec_attributes(doc@.instructions, variables@, 0),
            spec_followed_by(
                views(out@),
                spec_attributes(doc@.instructions, variables@, k as nat),
            ) == target,
        decreases variables.len() - k,
    {
        let ghost before = views(out@);
        match attribute_of(doc, variables[k]) {
            Err(e) => {
                return Err(e);
            },
            Ok(a) => {
                proof {
                    lemma_views_push(out@, a);
                    let rest = spec_attributes(doc@.instructions, variables@, (k + 1) as nat);
                    if let Ok(r) = rest {
                        assert((before + seq![a@]) + r =~= before + (seq![a@] + r));
                    }
                    assert(before.push(a@) =~= before + seq![a@]);
                }
                out.push(a);
            },
        }
        k += 1;
    }
    assert(views(out@) + Seq::<VertexAttributeView>::empty() =~= views(out@));
    Ok(out)
}

/// Returns the resolved types of the variables, in their order, or the
/// failure of the first variable whose type fails.
pub fn variable_types(doc: &Spirv, variables: &Vec<InterfaceVariable>) -> (r: Result<
    Vec<TypeDesc>,
    Error,
>)
    ensures
        views_ok(r) == spec_variable_types(doc@.instructions, variables@, 0),
{
    let mut out: Vec<TypeDesc> = Vec::new();
    let ghost target = spec_variable_types(doc@.instructions, variables@, 0);
    assert(views(out@) + target->Ok_0 =~= target->Ok_0);
    let mut k: usize = 0;
    while k < variables.len()
        invariant
            target == spec_variable_types(doc@.instructions, variables@, 0),
            spec_followed_by(
                views(out@),
                spec_variable_types(doc@.instructions, variables@, k as nat),
            ) == target,
        decreases variables.len() - k,
    {
        let ghost before = views(out@);
        match type_from_id(doc, variables[k].type_id) {
            Err(e) => {
                return Err(e);
            },
            Ok(t) => {
                proof {
                    lemma_views_push(out@, t);
                    let rest = spec_variable_types(doc@.instructions, variables@, (k + 1) as nat);
                    if let Ok(r) = rest {
                        assert((before + seq![t@]) + r =~= before + (seq![t@] + r));
                    }
                    assert(before.push(t@) =~= before + seq![t@]);
                }
                out.push(t);
            },
        }
        k += 1;
    }
    assert(views(out@) + Seq::<TypeDescView>::empty() =~= views(out@));
    Ok(out)
}

/// Describes the entry point that `instruction` declares.
///
/// For a vertex stage these are the inputs among the variables of its
/// interface list that are not built in, each with its location, name and
/// type; for a fragment stage the types of the outputs among them. The other
/// graphics stages and the compute stage are described by stage and name
/// alone. The pass fails for a kernel, for a vertex input without a location,
/// and where a type does not resolve.
pub fn write_entry_point(doc: &Spirv, instruction: &Instruction) -> (r: Result<
    EntryPointInterface,
    Error,
>)
    requires
        instruction@ is EntryPoint,
    ensures
        view_ok(r) == spec_entry_point(doc@.instructions, instruction@),
{
    match instruction {
        Instruction::EntryPoint { execution, name, interface, .. } => {
            let stage = match execution {
                ExecutionModel::ExecutionModelVertex => {
                    let variables = interface_variables(
                        doc,
                        interface,
                        StorageClass::StorageClassInput,
                        true,
                    );
                    match attributes_of(doc, &variables) {
                        Ok(attributes) => StageInterface::Vertex { attributes },
                        Err(e) => {
                            return Err(e);
                        },
                    }
                },
                ExecutionModel::ExecutionModelTessellationControl => {
                    StageInterface::TessellationControl
                },
                ExecutionModel::ExecutionModelTessellationEvaluation => {
                    StageInterface::TessellationEvaluation
                },
                ExecutionModel::ExecutionModelGeometry => StageInterface::Geometry,
                ExecutionModel::ExecutionModelFragment => {
                    let variables = interface_variables(
                        doc,
                        interface,
                        StorageClass::StorageClassOutput,
                        false,
                    );
                    match variable_types(doc, &variables) {
                        Ok(outputs) => StageInterface::Fragment { outputs },
                        Err(e) => {
                            return Err(e);
                        },
                    }
                },
                ExecutionModel::ExecutionModelGLCompute => StageInterface::Compute,
                ExecutionModel::ExecutionModelKernel => {
                    return Err(
                        Error::UnsupportedExecutionModel(ExecutionModel::ExecutionModelKernel),
                    );
                },
            };
            Ok(EntryPointInterface { name: name.clone(), stage })
        },
        _ => unreached(),
    }
}

/// What [`lemma_attributes_all_or_first`] says, of the variables from
/// position `from` on.
proof fn lemma_attributes_from(
    instructions: Seq<InstructionView>,
    variables: Seq<InterfaceVariable>,
    from: nat,
)
    requires
        from <= variables.len(),
    ensures
        match spec_attributes(instructions, variables, from) {
            Ok(attributes) => {
                &&& attributes.len() == variables.len() - from
                &&& forall|k: int|
                    from <= k < variables.len() ==> spec_attribute(
                        instructions,
                        #[trigger] variables[k],
                    ) == Ok::<VertexAttributeView, Error>(attributes[k - from])
            },
            Err(e) => exists|k: int|
                {
                    &&& from <= k < variables.len()
                    &&& spec_attribute(instructions, #[trigger] variables[k]) == Err::<
                        VertexAttributeView,
                        Error,
                    >(e)
                    &&& forall|j: int|
                        from <= j < k ==> spec_attribute(instructions, #[trigger] variables[j])
                            is Ok
                },
        },
    decreases variables.len() - from,
{
    if from < variables.len() {
        lemma_attributes_from(instructions, variables, from + 1);
        let first = spec_attribute(instructions, variables[from as int]);
        match first {
            Err(e) => {
                assert(spec_attribute(instructions, variables[from as int]) == first);
            },
            Ok(a) => match spec_attributes(instructions, variables, from + 1) {
                Ok(rest) => {
                    let attributes = seq![a] + rest;
                    assert(spec_attributes(instructions, variables, from) == Ok::<
                        Seq<VertexAttributeView>,
                        Error,
                    >(attributes));
                    assert forall|k: int| from <= k < variables.len() implies spec_attribute(
                        instructions,
                        #[trigger] variables[k],
                    ) == Ok::<VertexAttributeView, Error>(attributes[k - from]) by {
                        if k > from {
                            assert(attributes[k - from] == rest[k - (from + 1)]);
                        }
                    }
                },
                Err(e) => {
                    let k = choose|k: int|
                        {
                            &&& from + 1 <= k < variables.len()
                            &&& spec_attribute(instructions, #[trigger] variables[k]) == Err::<
                                VertexAttributeView,
                                Error,
                            >(e)
                            &&& forall|j: int|
                                from + 1 <= j < k ==> spec_attribute(
                                    instructions,
                                    #[trigger] variables[j],
                                ) is Ok
                        };
                    assert(spec_attributes(instructions, variables, from) == Err::<
                        Seq<VertexAttributeView>,
                        Error,
                    >(e));
                    assert forall|j: int| from <= j < k implies spec_attribute(
                        instructions,
                        #[trigger] variables[j],
                    ) is Ok by {
                        if j == from {
                            assert(spec_attribute(instructions, variables[j]) == first);
                        }
                    }
                },
            },
        }
    }
}

/// The inputs of a vertex stage are all there or the first failure is
/// reported: where every variable gives an input, there is one input for
/// each variable, in the order of the variables, with that variable's
/// location, name and type; and where some variable fails, the failure is
/// that of the first one that does.
pub proof fn lemma_attributes_all_or_first(
    instructions: Seq<InstructionView>,
    variables: Seq<InterfaceVariable>,
)
    ensures
        match spec_attributes(instructions, variables, 0) {
            Ok(attributes) => {
                &&& attributes.len() == variables.len()
                &&& forall|k: int|
                    0 <= k < variables.len() ==> spec_attribute(
                        instructions,
                        #[trigger] variables[k],
                    ) == Ok::<VertexAttributeView, Error>(attributes[k])
            },
            Err(e) => exists|k: int|
                {
                    &&& 0 <= k < variables.len()
                    &&& spec_attribute(instructions, #[trigger] variables[k]) == Err::<
                        VertexAttributeView,
                        Error,
                    >(e)
                    &&& forall|j: int|
                        0 <= j < k ==> spec_attribute(instructions, #[trigger] variables[j])
                            is Ok
                },
        },
{
    lemma_attributes_from(instructions, variables, 0);
}

/// The variables that a vertex entry point with this interface list takes
/// its inputs from: those in the input storage class that are not built in.
pub open spec fn spec_vertex_inputs(
    instructions: Seq<InstructionView>,
    interface: Seq<u32>,
) -> Seq<InterfaceVariable> {
    spec_interface_variables(instructions, interface, StorageClass::StorageClassInput, true, 0)
}

/// A vertex entry point whose inputs all have a location and a type that
/// resolves is described with exactly one attribute for each input, in
/// order, and each attribute carries the location, the name and the type of
/// its input.
pub proof fn lemma_vertex_inputs_complete(instructions: Seq<InstructionView>, interface: Seq<u32>)
    requires
        forall|k: int|
            #![trigger spec_vertex_inputs(instructions, interface)[k]]
            0 <= k < spec_vertex_inputs(instructions, interface).len() ==> {
                let v = spec_vertex_inputs(instructions, interface)[k];
                &&& spec_location_of(instructions, v.id) is Some
                &&& spec_type_of(instructions, v.type_id, instructions.len()) is Ok
            },
    ensures
        spec_stage_interface(instructions, ExecutionModel::ExecutionModelVertex, interface)
            matches Ok(StageInterfaceView::Vertex { attributes }) && {
            let inputs = spec_vertex_inputs(instructions, interface);
            &&& attributes.len() == inputs.len()
            &&& forall|k: int|
                #![trigger attributes[k]]
                0 <= k < inputs.len() ==> {
                    &&& Some(attributes[k].location) == spec_location_of(instructions, inputs[k].id)
                    &&& attributes[k].name == spec_name_of(instructions, inputs[k].id)
                    &&& Ok::<TypeDescView, Error>(attributes[k].ty) == spec_type_of(
                        instructions,
                        inputs[k].type_id,
                        instructions.len(),
                    )
                }
        },
{
    let inputs = spec_vertex_inputs(instructions, interface);
    lemma_attributes_all_or_first(instructions, inputs);
    match spec_attributes(instructions, inputs, 0) {
        Ok(attributes) => {
            assert forall|k: int| #![trigger attributes[k]] 0 <= k < inputs.len() implies {
                &&& Some(attributes[k].location) == spec_location_of(instructions, inputs[k].id)
                &&& attributes[k].name == spec_name_of(instructions, inputs[k].id)
                &&& Ok::<TypeDescView, Error>(attributes[k].ty) == spec_type_of(
                    instructions,
                    inputs[k].type_id,
                    instructions.len(),
                )
            } by {
                assert(spec_attribute(instructions, inputs[k]) == Ok::<
                    VertexAttributeView,
                    Error,
                >(attributes[k]));
            }
        },
        Err(e) => {
            let k = choose|k: int|
                0 <= k < inputs.len() && spec_attribute(instructions, #[trigger] inputs[k]) == Err::<
                    VertexAttributeView,
                    Error,
                >(e);
            assert(spec_location_of(instructions, inputs[k].id) is Some);
        },
    }
}

/// A vertex entry point with an input that has no location is not described:
/// the pass fails. Where that input's type resolves and every input before
/// it gives an attribute, the failure names that input. Where the types of
/// all inputs resolve, the failure names the first input without a location.
pub proof fn lemma_vertex_input_without_location(
    instructions: Seq<InstructionView>,
    interface: Seq<u32>,
    at: int,
)
    requires
        0 <= at < spec_vertex_inputs(instructions, interface).len(),
        spec_location_of(instructions, spec_vertex_inputs(instructions, interface)[at].id)
            is None,
    ensures
        spec_stage_interface(instructions, ExecutionModel::ExecutionModelVertex, interface)
            is Err,
        ({
            let inputs = spec_vertex_inputs(instructions, interface);
            &&& spec_type_of(instructions, inputs[at].type_id, instructions.len()) is Ok
            &&& forall|j: int|
                0 <= j < at ==> spec_attribute(instructions, #[trigger] inputs[j]) is Ok
        }) ==> spec_stage_interface(
            instructions,
            ExecutionModel::ExecutionModelVertex,
            interface,
        ) == Err::<StageInterfaceView, Error>(
            Error::MissingLocation {
                variable: spec_vertex_inputs(instructions, interface)[at].id,
            },
        ),
        (forall|k: int|
            #![trigger spec_vertex_inputs(instructions, interface)[k]]
            0 <= k < spec_vertex_inputs(instructions, interface).len() ==> spec_type_of(
                instructions,
                spec_vertex_inputs(instructions, interface)[k].type_id,
                instructions.len(),
            ) is Ok) ==> exists|k: int|
            {
                &&& 0 <= k <= at
                &&& spec_stage_interface(
                    instructions,
                    ExecutionModel::ExecutionModelVertex,
                    interface,
                ) == Err::<StageInterfaceView, Error>(
                    Error::MissingLocation {
                        variable: (#[trigger] spec_vertex_inputs(instructions, interface)[k]).id,
                    },
                )
                &&& forall|j: int|
                    #![trigger spec_vertex_inputs(instructions, interface)[j]]
                    0 <= j < k ==> spec_location_of(
                        instructions,
                        spec_vertex_inputs(instructions, interface)[j].id,
                    ) is Some
            },
{
    let inputs = spec_vertex_inputs(instructions, interface);
    lemma_attributes_all_or_first(instructions, inputs);
    assert(spec_attribute(instructions, inputs[at]) is Err);
    match spec_attributes(instructions, inputs, 0) {
        Ok(attributes) => {
            assert(spec_attribute(instructions, inputs[at]) == Ok::<VertexAttributeView, Error>(
                attributes[at],
            ));
        },
        Err(e) => {
            let k = choose|k: int|
                {
                    &&& 0 <= k < inputs.len()
                    &&& spec_attribute(instructions, #[trigger] inputs[k]) == Err::<
                        VertexAttributeView,
                        Error,
                    >(e)
                    &&& forall|j: int|
                        0 <= j < k ==> spec_attribute(instructions, #[trigger] inputs[j]) is Ok
                };
            if k > at {
                assert(spec_attribute(instructions, inputs[at]) is Ok);
            }
            if spec_type_of(instructions, inputs[at].type_id, instructions.len()) is Ok
                && forall|j: int|
                0 <= j < at ==> spec_attribute(instructions, #[trigger] inputs[j]) is Ok {
                assert(k == at);
                assert(e == Error::MissingLocation { variable: inputs[at].id });
            }
            if forall|k: int|
                #![trigger inputs[k]]
                0 <= k < inputs.len() ==> spec_type_of(
                    instructions,
                    inputs[k].type_id,
                    instructions.len(),
                ) is Ok {
                assert(spec_type_of(instructions, inputs[k].type_id, instructions.len()) is Ok);
                assert(e == Error::MissingLocation { variable: inputs[k].id });
                assert forall|j: int| #![trigger inputs[j]] 0 <= j < k implies spec_location_of(
                    instructions,
                    inputs[j].id,
                ) is Some by {
                    assert(spec_attribute(instructions, inputs[j]) is Ok);
                }
            }
        },
    }
}

} // verus!
