//! The descriptors of a module: the resources that its variables stand for,
//! each with its set, its binding, its kind, its array length and the stages
//! that see it, gathered by set and ordered by binding.

use crate::entry_point::InterfaceVariable;
use crate::enums::{Decoration, Dim, ExecutionModel, StorageClass};
use crate::error::Error;
use crate::layout_def::{
    DescriptorDesc, DescriptorType, SetLayout, SetLayoutPossibleSuperset, ShaderStages,
};
use crate::parse::{Instruction, InstructionView, Spirv};
use crate::resolve::{
    decoration_value, find, has_decoration, spec_decoration_value, spec_find,
    spec_has_decoration, Query,
};
use crate::types::{array_length, spec_array_length};
use crate::views::{views, views_ok};
use vstd::prelude::*;

verus! {

/// A descriptor together with the set that it belongs to.
#[derive(Debug, Clone, Copy, PartialEq, Eq, Structural)]
pub struct DescriptorBinding {
    /// The index of the descriptor set.
    pub set: u32,
    pub desc: DescriptorDesc,
}

/// The type behind a resource variable: the type of one element, and how
/// many elements there are.
#[derive(Debug, Clone, Copy, PartialEq, Eq, Structural)]
pub struct ResourceShape {
    /// The identifier of the type of one element.
    pub element: u32,
    /// The number of elements: 1 for a resource that is no array, and 0 for
    /// an array whose length is known only when the shader runs.
    pub count: u32,
}

/// The stage that an entry point of the given execution model runs in. A
/// kernel runs in none of them.
pub open spec fn spec_stage_of(execution: ExecutionModel) -> ShaderStages {
    let none = ShaderStages::spec_none();
    match execution {
        ExecutionModel::ExecutionModelVertex => ShaderStages { vertex: true, ..none },
        ExecutionModel::ExecutionModelTessellationControl => ShaderStages {
            tessellation_control: true,
            ..none
        },
        ExecutionModel::ExecutionModelTessellationEvaluation => ShaderStages {
            tessellation_evaluation: true,
            ..none
        },
        ExecutionModel::ExecutionModelGeometry => ShaderStages { geometry: true, ..none },
        ExecutionModel::ExecutionModelFragment => ShaderStages { fragment: true, ..none },
        ExecutionModel::ExecutionModelGLCompute => ShaderStages { compute: true, ..none },
        ExecutionModel::ExecutionModelKernel => none,
    }
}

/// Returns the stage that an entry point of the given execution model runs
/// in, and no stage for a kernel.
pub fn stage_of(execution: ExecutionModel) -> (stages: ShaderStages)
    ensures
        stages == spec_stage_of(execution),
{
    let mut stages = ShaderStages::none();
    match execution {
        ExecutionModel::ExecutionModelVertex => {
            stages.vertex = true;
        },
        ExecutionModel::ExecutionModelTessellationControl => {
            stages.tessellation_control = true;
        },
        ExecutionModel::ExecutionModelTessellationEvaluation => {
            stages.tessellation_evaluation = true;
        },
        ExecutionModel::ExecutionModelGeometry => {
            stages.geometry = true;
        },
        ExecutionModel::ExecutionModelFragment => {
            stages.fragment = true;
        },
        ExecutionModel::ExecutionModelGLCompute => {
            stages.compute = true;
        },
        ExecutionModel::ExecutionModelKernel => {},
    }
    stages
}

/// The stage of the entry point that the instruction declares, if it
/// declares one whose interface list names `id`; else no stage.
pub open spec fn spec_stages_at(i: InstructionView, id: u32) -> ShaderStages {
    match i {
        InstructionView::EntryPoint { execution, interface, .. } => if interface.contains(id) {
            spec_stage_of(execution)
        } else {
            ShaderStages::spec_none()
        },
        _ => ShaderStages::spec_none(),
    }
}

/// The stages of all entry points, among the instructions from index `from`
/// on, whose interface list names `id`.
pub open spec fn spec_stages_of(instructions: Seq<InstructionView>, id: u32, from: nat) -> ShaderStages
    decreases instructions.len() - from,
{
    if from >= instructions.len() {
        ShaderStages::spec_none()
    } else {
        spec_stages_at(instructions[from as int], id).spec_union(
            spec_stages_of(instructions, id, from + 1),
        )
    }
}

/// Returns whether `x` is one of the numbers.
pub fn contains(numbers: &Vec<u32>, x: u32) -> (b: bool)
    ensures
        b == numbers@.contains(x),
{
    let mut i: usize = 0;
    while i < numbers.len()
        invariant
            i <= numbers.len(),
            forall|j: int| 0 <= j < i ==> numbers@[j] != x,
        decreases numbers.len() - i,
    {
        if numbers[i] == x {
            return true;
        }
        i += 1;
    }
    false
}

/// Returns the stages that see the variable `id`: those of every entry point
/// whose interface list names it. Where several entry points name it, their
/// stages are all set; where none does, no stage is.
pub fn stages_of(doc: &Spirv, id: u32) -> (stages: ShaderStages)
    ensures
        stages == spec_stages_of(doc@.instructions, id, 0),
{
    let mut stages = ShaderStages::none();
    let mut i: usize = 0;
    while i < doc.instructions.len()
        invariant
            stages.spec_union(spec_stages_of(doc@.instructions, id, i as nat)) == spec_stages_of(
                doc@.instructions,
                id,
                0,
            ),
        decreases doc.instructions.len() - i,
    {
        match &doc.instructions[i] {
            Instruction::EntryPoint { execution, interface, .. } => {
                if contains(interface, id) {
                    stages = stages.union(stage_of(*execution));
                }
            },
            _ => {},
        }
        i += 1;
    }
    stages
}

/// The kind of descriptor that an image of the given dimensionality and
/// sampling is, if the module says how the image is used.
pub open spec fn spec_image_kind(dim: Dim, sampled: Option<bool>) -> Option<DescriptorType> {
    if dim == Dim::DimSubpassData {
        Some(DescriptorType::InputAttachment)
    } else {
        match sampled {
            Some(true) => Some(
                if dim == Dim::DimBuffer {
                    DescriptorType::UniformTexelBuffer
                } else {
                    DescriptorType::SampledImage
                },
            ),
            Some(false) => Some(
                if dim == Dim::DimBuffer {
                    DescriptorType::StorageTexelBuffer
                } else {
                    DescriptorType::StorageImage
                },
            ),
            None => None,
        }
    }
}

/// Returns the kind of descriptor that an image of the given dimensionality
/// and sampling is. An image for subpass data is an input attachment; else a
/// sampled image is a sampled image, or a uniform texel buffer where it is a
/// buffer, and an image that is not sampled is a storage image, or a storage
/// texel buffer where it is a buffer. `None` stands for an image of which
/// the module does not say whether it is sampled.
pub fn image_kind(dim: Dim, sampled: Option<bool>) -> (kind: Option<DescriptorType>)
    ensures
        kind == spec_image_kind(dim, sampled),
{
    if dim == Dim::DimSubpassData {
        Some(DescriptorType::InputAttachment)
    } else {
        match sampled {
            Some(true) => Some(
                if dim == Dim::DimBuffer {
                    DescriptorType::UniformTexelBuffer
                } else {
                    DescriptorType::SampledImage
                },
            ),
            Some(false) => Some(
                if dim == Dim::DimBuffer {
                    DescriptorType::StorageTexelBuffer
                } else {
                    DescriptorType::StorageImage
                },
            ),
            None => None,
        }
    }
}

/// The kind of descriptor behind the variable `variable` whose elements have
/// the type `type_id`: a struct is a uniform buffer, or a storage buffer
/// where it is decorated as a buffer block; an image is what
/// [`spec_image_kind`] says; a sampled image is a combined image and
/// sampler; a sampler is a sampler. It fails with `UnknownType` where the
/// type is not declared, and with `UnsupportedDescriptor` for any other type.
pub open spec fn spec_resource_kind(
    instructions: Seq<InstructionView>,
    variable: u32,
    type_id: u32,
) -> Result<DescriptorType, Error> {
    match spec_find(instructions, Query::TypeDeclaration { id: type_id }, 0) {
        Some(i) => match instructions[i as int] {
            InstructionView::TypeStruct { result_id, .. } => Ok(
                if spec_has_decoration(instructions, result_id, Decoration::DecorationBufferBlock) {
                    DescriptorType::StorageBuffer
                } else {
                    DescriptorType::UniformBuffer
                },
            ),
            InstructionView::TypeImage { dim, sampled, .. } => match spec_image_kind(
                dim,
                sampled,
            ) {
                Some(kind) => Ok(kind),
                None => Err(Error::UnsupportedDescriptor { variable }),
            },
            InstructionView::TypeSampledImage { .. } => Ok(DescriptorType::CombinedImageSampler),
            InstructionView::TypeSampler { .. } => Ok(DescriptorType::Sampler),
            _ => Err(Error::UnsupportedDescriptor { variable }),
        },
        None => Err(Error::UnknownType { id: type_id }),
    }
}

/// Returns the kind of descriptor behind a variable whose elements have the
/// type `type_id`.
pub fn resource_kind(doc: &Spirv, variable: u32, type_id: u32) -> (r: Result<
    DescriptorType,
    Error,
>)
    ensures
        r == spec_resource_kind(doc@.instructions, variable, type_id),
{
    match find(doc, Query::TypeDeclaration { id: type_id }, 0) {
        Some(i) => match &doc.instructions[i] {
            Instruction::TypeStruct { result_id, .. } => Ok(
                if has_decoration(doc, *result_id, Decoration::DecorationBufferBlock) {
                    DescriptorType::StorageBuffer
                } else {
                    DescriptorType::UniformBuffer
                },
            ),
            Instruction::TypeImage { dim, sampled, .. } => match image_kind(*dim, *sampled) {
                Some(kind) => Ok(kind),
                None => Err(Error::UnsupportedDescriptor { variable }),
            },
            Instruction::TypeSampledImage { .. } => Ok(DescriptorType::CombinedImageSampler),
            Instruction::TypeSampler { .. } => Ok(DescriptorType::Sampler),
            _ => Err(Error::UnsupportedDescriptor { variable }),
        },
        None => Err(Error::UnknownType { id: type_id }),
    }
}

/// The shape of what a pointer to the type `pointee` points to: for an array
/// its element type and its length, for a runtime array its element type
/// and a count of 0, and for anything else the type itself, once. It fails
/// with `MissingArrayLength` where the length of an array is no constant of
/// the module, and with `UnsupportedDescriptor` where the length does not
/// fit in 32 bits.
pub open spec fn spec_pointee_shape(
    instructions: Seq<InstructionView>,
    variable: u32,
    pointee: u32,
) -> Result<ResourceShape, Error> {
    match spec_find(instructions, Query::TypeDeclaration { id: pointee }, 0) {
        Some(j) => match instructions[j as int] {
            InstructionView::TypeArray { type_id, length_id, .. } => match spec_array_length(
                instructions,
                length_id,
            ) {
                None => Err(Error::MissingArrayLength { id: length_id }),
                Some(n) => if n > u32::MAX {
                    Err(Error::UnsupportedDescriptor { variable })
                } else {
                    Ok(ResourceShape { element: type_id, count: n as u32 })
                },
            },
            InstructionView::TypeRuntimeArray { type_id, .. } => Ok(
                ResourceShape { element: type_id, count: 0 },
            ),
            _ => Ok(ResourceShape { element: pointee, count: 1 }),
        },
        None => Ok(ResourceShape { element: pointee, count: 1 }),
    }
}

/// The shape of the resource behind the variable `variable` of type
/// `type_id`, which is to be a pointer. It fails with `UnknownType` where
/// the type is not declared, with `UnsupportedDescriptor` where it is no
/// pointer, and as [`spec_pointee_shape`] does.
pub open spec fn spec_resource_shape(
    instructions: Seq<InstructionView>,
    variable: u32,
    type_id: u32,
) -> Result<ResourceShape, Error> {
    match spec_find(instructions, Query::TypeDeclaration { id: type_id }, 0) {
        None => Err(Error::UnknownType { id: type_id }),
        Some(i) => match instructions[i as int] {
            InstructionView::TypePointer { type_id: pointee, .. } => spec_pointee_shape(
                instructions,
                variable,
                pointee,
            ),
            _ => Err(Error::UnsupportedDescriptor { variable }),
        },
    }
}

/// Returns the shape of what a pointer to the type `pointee` points to.
pub fn pointee_shape(doc: &Spirv, variable: u32, pointee: u32) -> (r: Result<ResourceShape, Error>)
    ensures
        r == spec_pointee_shape(doc@.instructions, variable, pointee),
{
    match find(doc, Query::TypeDeclaration { id: pointee }, 0) {
        Some(j) => match &doc.instructions[j] {
            Instruction::TypeArray { type_id, length_id, .. } => match array_length(
                doc,
                *length_id,
            ) {
                None => Err(Error::MissingArrayLength { id: *length_id }),
                Some(n) => if n > 0xffff_ffff {
                    Err(Error::UnsupportedDescriptor { variable })
                } else {
                    Ok(ResourceShape { element: *type_id, count: n as u32 })
                },
            },
            Instruction::TypeRuntimeArray { type_id, .. } => Ok(
                ResourceShape { element: *type_id, count: 0 },
            ),
            _ => Ok(ResourceShape { element: pointee, count: 1 }),
        },
        None => Ok(ResourceShape { element: pointee, count: 1 }),
    }
}

/// Returns the shape of the resource behind a variable of type `type_id`.
pub fn resource_shape(doc: &Spirv, variable: u32, type_id: u32) -> (r: Result<
    ResourceShape,
    Error,
>)
    ensures
        r == spec_resource_shape(doc@.instructions, variable, type_id),
{
    match find(doc, Query::TypeDeclaration { id: type_id }, 0) {
        None => Err(Error::UnknownType { id: type_id }),
        Some(i) => match &doc.instructions[i] {
            Instruction::TypePointer { type_id: pointee, .. } => pointee_shape(
                doc,
                variable,
                *pointee,
            ),
            _ => Err(Error::UnsupportedDescriptor { variable }),
        },
    }
}

/// The descriptor that a resource variable stands for: its set and its
/// binding, both of which it must have; the kind and the array length of
/// what its type points to; and the stages of the entry points that name it.
pub open spec fn spec_descriptor(
    instructions: Seq<InstructionView>,
    variable: InterfaceVariable,
) -> Result<DescriptorBinding, Error> {
    match spec_decoration_value(instructions, variable.id, Decoration::DecorationDescriptorSet) {
        None => Err(Error::MissingDescriptorSet { variable: variable.id }),
        Some(set) => match spec_decoration_value(
            instructions,
            variable.id,
            Decoration::DecorationBinding,
        ) {
            None => Err(Error::MissingBinding { variable: variable.id }),
            Some(binding) => match spec_resource_shape(
                instructions,
                variable.id,
                variable.type_id,
            ) {
                Err(e) => Err(e),
                Ok(shape) => match spec_resource_kind(
                    instructions,
                    variable.id,
                    shape.element,
                ) {
                    Err(e) => Err(e),
                    Ok(ty) => Ok(
                        DescriptorBinding {
                            set,
                            desc: DescriptorDesc {
                                binding,
                                ty,
                                array_count: shape.count,
                                stages: spec_stages_of(instructions, variable.id, 0),
                            },
                        },
                    ),
                },
            },
        },
    }
}

/// Returns the descriptor that a resource variable stands for.
pub fn descriptor_of(doc: &Spirv, variable: InterfaceVariable) -> (r: Result<
    DescriptorBinding,
    Error,
>)
    ensures
        r == spec_descriptor(doc@.instructions, variable),
{
    let set = match decoration_value(doc, variable.id, Decoration::DecorationDescriptorSet) {
        Some(set) => set,
        None => {
            return Err(Error::MissingDescriptorSet { variable: variable.id });
        },
    };
    let binding = match decoration_value(doc, variable.id, Decoration::DecorationBinding) {
        Some(binding) => binding,
        None => {
            return Err(Error::MissingBinding { variable: variable.id });
        },
    };
    let shape = match resource_shape(doc, variable.id, variable.type_id) {
        Ok(shape) => shape,
        Err(e) => {
            return Err(e);
        },
    };
    let ty = match resource_kind(doc, variable.id, shape.element) {
        Ok(ty) => ty,
        Err(e) => {
            return Err(e);
        },
    };
    Ok(
        DescriptorBinding {
            set,
            desc: DescriptorDesc {
                binding,
                ty,
                array_count: shape.count,
                stages: stages_of(doc, variable.id),
            },
        },
    )
}

/// Whether variables of the storage class stand for resources that are
/// bound through descriptors: uniform constants, which images and samplers
/// are, and uniforms, which buffers are.
pub open spec fn spec_is_resource_class(storage_class: StorageClass) -> bool {
    storage_class == StorageClass::StorageClassUniformConstant || storage_class
        == StorageClass::StorageClassUniform
}

/// The instruction as a resource variable, if it is one.
pub open spec fn spec_resource_at(i: InstructionView) -> Seq<InterfaceVariable> {
    match i {
        InstructionView::Variable { result_type_id, result_id, storage_class, .. } => {
            if spec_is_resource_class(storage_class) {
                seq![InterfaceVariable { id: result_id, type_id: result_type_id }]
            } else {
                Seq::empty()
            }
        },
        _ => Seq::empty(),
    }
}

/// The resource variables that the instructions from index `from` on
/// declare, in their order.
pub open spec fn spec_resource_variables(instructions: Seq<InstructionView>, from: nat) -> Seq<
    InterfaceVariable,
>
    decreases instructions.len() - from,
{
    if from >= instructions.len() {
        Seq::empty()
    } else {
        spec_resource_at(instructions[from as int]) + spec_resource_variables(
            instructions,
            from + 1,
        )
    }
}

/// Returns the resource variables of the module, in the order of their
/// declarations.
pub fn resource_variables(doc: &Spirv) -> (variables: Vec<InterfaceVariable>)
    ensures
        variables@ == spec_resource_variables(doc@.instructions, 0),
{
    let mut out: Vec<InterfaceVariable> = Vec::new();
    let ghost target = spec_resource_variables(doc@.instructions, 0);
    assert(out@ + target =~= target);
    let mut i: usize = 0;
    while i < doc.instructions.len()
        invariant
            out@ + spec_resource_variables(doc@.instructions, i as nat) == target,
        decreases doc.instructions.len() - i,
    {
        let ghost before = out@;
        match &doc.instructions[i] {
            Instruction::Variable { result_type_id, result_id, storage_class, .. } => {
                if *storage_class == StorageClass::StorageClassUniformConstant || *storage_class
                    == StorageClass::StorageClassUniform {
                    out.push(InterfaceVariable { id: *result_id, type_id: *result_type_id });
                }
            },
            _ => {},
        }
        proof {
            let head = spec_resource_at(doc@.instructions[i as int]);
            let rest = spec_resource_variables(doc@.instructions, (i + 1) as nat);
            assert(out@ =~= before + head);
            assert((before + head) + rest =~= before + (head + rest));
        }
        i += 1;
    }
    assert(out@ + Seq::<InterfaceVariable>::empty() =~= out@);
    out
}

/// The descriptors that the variables from position `from` on stand for, or
/// the failure of the first of them that fails.
pub open spec fn spec_descriptors(
    instructions: Seq<InstructionView>,
    variables: Seq<InterfaceVariable>,
    from: nat,
) -> Result<Seq<DescriptorBinding>, Error>
    decreases variables.len() - from,
{
    if from >= variables.len() {
        Ok(Seq::empty())
    } else {
        match spec_descriptor(instructions, variables[from as int]) {
            Err(e) => Err(e),
            Ok(d) => match spec_descriptors(instructions, variables, from + 1) {
                Err(e) => Err(e),
                Ok(rest) => Ok(seq![d] + rest),
            },
        }
    }
}

/// What the result holds: the descriptors, or the error.
pub open spec fn spec_bindings_result(r: Result<Vec<DescriptorBinding>, Error>) -> Result<
    Seq<DescriptorBinding>,
    Error,
> {
    match r {
        Ok(bindings) => Ok(bindings@),
        Err(e) => Err(e),
    }
}

/// Returns the descriptors that the variables stand for, in their order, or
/// the failure of the first variable that fails.
pub fn descriptors_of(doc: &Spirv, variables: &Vec<InterfaceVariable>) -> (r: Result<
    Vec<DescriptorBinding>,
    Error,
>)
    ensures
        spec_bindings_result(r) == spec_descriptors(doc@.instructions, variables@, 0),
{
    let mut out: Vec<DescriptorBinding> = Vec::new();
    let ghost target = spec_descriptors(doc@.instructions, variables@, 0);
    assert(out@ + target->Ok_0 =~= target->Ok_0);
    let mut k: usize = 0;
    while k < variables.len()
        invariant
            target == spec_descriptors(doc@.instructions, variables@, 0),
            (match spec_descriptors(doc@.instructions, variables@, k as nat) {
                Ok(rest) => Ok::<Seq<DescriptorBinding>, Error>(out@ + rest),
                Err(e) => Err(e),
            }) == target,
        decreases variables.len() - k,
    {
        let ghost before = out@;
        match descriptor_of(doc, variables[k]) {
            Err(e) => {
                return Err(e);
            },
            Ok(d) => {
                proof {
                    if let Ok(r) = spec_descriptors(doc@.instructions, variables@, (k + 1) as nat) {
                        assert((before + seq![d]) + r =~= before + (seq![d] + r));
                    }
                    assert(before.push(d) =~= before + seq![d]);
                }
                out.push(d);
            },
        }
        k += 1;
    }
    assert(out@ + Seq::<DescriptorBinding>::empty() =~= out@);
    Ok(out)
}

/// The descriptors of one set.
#[derive(Debug, PartialEq, Eq)]
pub struct DescriptorSet {
    /// The index of the set.
    pub set: u32,
    /// The descriptors of the set, ordered by binding.
    pub bindings: Vec<DescriptorDesc>,
}

/// What a [`DescriptorSet`] holds, as mathematical values.
pub struct DescriptorSetView {
    pub set: u32,
    pub bindings: Seq<DescriptorDesc>,
}

impl View for DescriptorSet {
    type V = DescriptorSetView;

    open spec fn view(&self) -> DescriptorSetView {
        DescriptorSetView { set: self.set, bindings: self.bindings@ }
    }
}

impl SetLayout for DescriptorSet {
    /// Returns the descriptors of the set, ordered by binding.
    fn descriptors(&self) -> (descs: Vec<DescriptorDesc>)
        ensures
            descs@ == self.bindings@,
    {
        let mut out: Vec<DescriptorDesc> = Vec::new();
        let mut i: usize = 0;
        while i < self.bindings.len()
            invariant
                i <= self.bindings.len(),
                out@ == self.bindings@.take(i as int),
            decreases self.bindings.len() - i,
        {
            out.push(self.bindings[i]);
            assert(out@ =~= self.bindings@.take(i + 1));
            i += 1;
        }
        assert(self.bindings@.take(self.bindings@.len() as int) =~= self.bindings@);
        out
    }
}

/// Returns whether `d` is one of the descriptors.
pub fn contains_desc(descs: &Vec<DescriptorDesc>, d: DescriptorDesc) -> (b: bool)
    ensures
        b == descs@.contains(d),
{
    let mut i: usize = 0;
    while i < descs.len()
        invariant
            i <= descs.len(),
            forall|j: int| 0 <= j < i ==> descs@[j] != d,
        decreases descs.len() - i,
    {
        if descs[i] == d {
            return true;
        }
        i += 1;
    }
    false
}

impl SetLayoutPossibleSuperset<DescriptorSet> for DescriptorSet {
    /// Returns true if every descriptor of `other` is also a descriptor of
    /// `self`, with the same binding, kind, array length and stages.
    fn is_superset_of(&self, other: &DescriptorSet) -> (b: bool)
        ensures
            b == (forall|k: int|
                0 <= k < other.bindings@.len() ==> self.bindings@.contains(
                    #[trigger] other.bindings@[k],
                )),
    {
        let mut k: usize = 0;
        while k < other.bindings.len()
            invariant
                k <= other.bindings.len(),
                forall|j: int|
                    0 <= j < k ==> self.bindings@.contains(#[trigger] other.bindings@[j]),
            decreases other.bindings.len() - k,
        {
            if !contains_desc(&self.bindings, other.bindings[k]) {
                return false;
            }
            k += 1;
        }
        true
    }
}

/// Where a set index goes among others: the position, from `from` on, of
/// the first index that is greater, and the end where none is.
pub open spec fn spec_set_position(sets: Seq<u32>, set: u32, from: nat) -> nat
    decreases sets.len() - from,
{
    if from >= sets.len() {
        sets.len()
    } else if sets[from as int] > set {
        from
    } else {
        spec_set_position(sets, set, from + 1)
    }
}

/// The set indices with one more: unchanged where the index is among them,
/// and else with the index put before the first greater one.
pub open spec fn spec_insert_set(sets: Seq<u32>, set: u32) -> Seq<u32> {
    if sets.contains(set) {
        sets
    } else {
        sets.insert(spec_set_position(sets, set, 0) as int, set)
    }
}

/// The indices of the sets that the first `upto` descriptors belong to, each
/// of them once, in ascending order.
pub open spec fn spec_set_indices(input: Seq<DescriptorBinding>, upto: nat) -> Seq<u32>
    decreases upto,
{
    if upto == 0 || upto > input.len() {
        Seq::empty()
    } else {
        spec_insert_set(spec_set_indices(input, (upto - 1) as nat), input[upto - 1].set)
    }
}

/// Where a descriptor of the given binding goes among others: the position,
/// from `from` on, of the first descriptor with a greater binding, and the
/// end where there is none.
pub open spec fn spec_binding_position(descs: Seq<DescriptorDesc>, binding: u32, from: nat) -> nat
    decreases descs.len() - from,
{
    if from >= descs.len() {
        descs.len()
    } else if descs[from as int].binding > binding {
        from
    } else {
        spec_binding_position(descs, binding, from + 1)
    }
}

/// The descriptors with one more, put before the first one with a greater
/// binding, and so behind those that have its binding.
pub open spec fn spec_insert_desc(descs: Seq<DescriptorDesc>, d: DescriptorDesc) -> Seq<
    DescriptorDesc,
> {
    descs.insert(spec_binding_position(descs, d.binding, 0) as int, d)
}

/// Those of the first `upto` descriptors that belong to the set `set`,
/// ordered by binding. Descriptors of the same binding keep the order in
/// which they come.
pub open spec fn spec_set_bindings(input: Seq<DescriptorBinding>, set: u32, upto: nat) -> Seq<
    DescriptorDesc,
>
    decreases upto,
{
    if upto == 0 || upto > input.len() {
        Seq::empty()
    } else {
        let before = spec_set_bindings(input, set, (upto - 1) as nat);
        if input[upto - 1].set == set {
            spec_insert_desc(before, input[upto - 1].desc)
        } else {
            before
        }
    }
}

/// The descriptors gathered by set: one entry for each set that some
/// descriptor belongs to, in ascending order of the sets, each with the
/// descriptors of that set ordered by binding.
pub open spec fn spec_group(input: Seq<DescriptorBinding>) -> Seq<DescriptorSetView> {
    let sets = spec_set_indices(input, input.len());
    Seq::new(
        sets.len(),
        |k: int|
            DescriptorSetView {
                set: sets[k],
                bindings: spec_set_bindings(input, sets[k], input.len()),
            },
    )
}

/// Puts a set index among the others, as [`spec_insert_set`] says.
fn insert_set(sets: &mut Vec<u32>, set: u32)
    ensures
        final(sets)@ == spec_insert_set(old(sets)@, set),
{
    if contains(sets, set) {
        return ;
    }
    let mut p: usize = 0;
    while p < sets.len() && sets[p] <= set
        invariant
            p <= sets.len(),
            sets@ == old(sets)@,
            spec_set_position(sets@, set, p as nat) == spec_set_position(sets@, set, 0),
        decreases sets.len() - p,
    {
        p += 1;
    }
    sets.insert(p, set);
}

/// Puts a descriptor among the others, as [`spec_insert_desc`] says.
fn insert_desc(descs: &mut Vec<DescriptorDesc>, d: DescriptorDesc)
    ensures
        final(descs)@ == spec_insert_desc(old(descs)@, d),
{
    let mut p: usize = 0;
    while p < descs.len() && descs[p].binding <= d.binding
        invariant
            p <= descs.len(),
            descs@ == old(descs)@,
            spec_binding_position(descs@, d.binding, p as nat) == spec_binding_position(
                descs@,
                d.binding,
                0,
            ),
        decreases descs.len() - p,
    {
        p += 1;
    }
    descs.insert(p, d);
}

/// Returns the indices of the sets that the descriptors belong to, each of
/// them once, in ascending order.
pub fn set_indices(input: &Vec<DescriptorBinding>) -> (sets: Vec<u32>)
    ensures
        sets@ == spec_set_indices(input@, input@.len()),
{
    let mut sets: Vec<u32> = Vec::new();
    let mut i: usize = 0;
    while i < input.len()
        invariant
            i <= input.len(),
            sets@ == spec_set_indices(input@, i as nat),
        decreases input.len() - i,
    {
        insert_set(&mut sets, input[i].set);
        i += 1;
    }
    sets
}

/// Returns the descriptors that belong to the set `set`, ordered by binding;
/// descriptors of the same binding keep the order in which they come.
pub fn set_bindings(input: &Vec<DescriptorBinding>, set: u32) -> (descs: Vec<DescriptorDesc>)
    ensures
        descs@ == spec_set_bindings(input@, set, input@.len()),
{
    let mut descs: Vec<DescriptorDesc> = Vec::new();
    let mut i: usize = 0;
    while i < input.len()
        invariant
            i <= input.len(),
            descs@ == spec_set_bindings(input@, set, i as nat),
        decreases input.len() - i,
    {
        if input[i].set == set {
            insert_desc(&mut descs, input[i].desc);
        }
        i += 1;
    }
    descs
}

/// Gathers descriptors by set. The result has one entry for each set that
/// some descriptor belongs to, in ascending order of the set indices; each
/// entry holds the descriptors of its set in ascending order of their
/// bindings. Two descriptors of one set and one binding both stay, in the
/// order in which they were given: nothing is merged.
pub fn group_descriptor_sets(input: &Vec<DescriptorBinding>) -> (r: Vec<DescriptorSet>)
    ensures
        views(r@) == spec_group(input@),
{
    let sets = set_indices(input);
    let mut out: Vec<DescriptorSet> = Vec::new();
    let mut k: usize = 0;
    while k < sets.len()
        invariant
            k <= sets.len(),
            sets@ == spec_set_indices(input@, input@.len()),
            out@.len() == k,
            forall|j: int|
                0 <= j < k ==> (#[trigger] out@[j])@ == (DescriptorSetView {
                    set: sets@[j],
                    bindings: spec_set_bindings(input@, sets@[j], input@.len()),
                }),
        decreases sets.len() - k,
    {
        let set = sets[k];
        let bindings = set_bindings(input, set);
        out.push(DescriptorSet { set, bindings });
        k += 1;
    }
    assert(views(out@) =~= spec_group(input@));
    out
}

/// What [`spec_set_position`] gives lies from `from` on, every index before
/// it is not greater than `set`, and the index at it, if there is one, is
/// greater.
pub proof fn lemma_set_position(sets: Seq<u32>, set: u32, from: nat)
    requires
        from <= sets.len(),
    ensures
        from <= spec_set_position(sets, set, from) <= sets.len(),
        forall|j: int| from <= j < spec_set_position(sets, set, from) ==> sets[j] <= set,
        spec_set_position(sets, set, from) < sets.len() ==> sets[spec_set_position(
            sets,
            set,
            from,
        ) as int] > set,
    decreases sets.len() - from,
{
    if from < sets.len() && sets[from as int] <= set {
        lemma_set_position(sets, set, from + 1);
    }
}

/// The same of [`spec_binding_position`].
pub proof fn lemma_binding_position(descs: Seq<DescriptorDesc>, binding: u32, from: nat)
    requires
        from <= descs.len(),
    ensures
        from <= spec_binding_position(descs, binding, from) <= descs.len(),
        forall|j: int|
            from <= j < spec_binding_position(descs, binding, from) ==> descs[j].binding
                <= binding,
        spec_binding_position(descs, binding, from) < descs.len() ==> descs[spec_binding_position(
            descs,
            binding,
            from,
        ) as int].binding > binding,
    decreases descs.len() - from,
{
    if from < descs.len() && descs[from as int].binding <= binding {
        lemma_binding_position(descs, binding, from + 1);
    }
}

/// Whether the set indices ascend, no two of them equal.
pub open spec fn spec_sets_ascend(sets: Seq<u32>) -> bool {
    forall|i: int, j: int| 0 <= i < j < sets.len() ==> sets[i] < sets[j]
}

/// Whether the bindings of the descriptors do not descend.
pub open spec fn spec_bindings_ascend(descs: Seq<DescriptorDesc>) -> bool {
    forall|i: int, j: int| 0 <= i <= j < descs.len() ==> descs[i].binding <= descs[j].binding
}

/// Whether one of the first `upto` descriptors belongs to the set `set`.
pub open spec fn spec_has_set(input: Seq<DescriptorBinding>, upto: nat, set: u32) -> bool {
    exists|i: int| 0 <= i < upto && i < input.len() && (#[trigger] input[i]).set == set
}

/// Whether one of the first `upto` descriptors belongs to the set `set` and
/// is `d`.
pub open spec fn spec_has_binding(
    input: Seq<DescriptorBinding>,
    upto: nat,
    set: u32,
    d: DescriptorDesc,
) -> bool {
    exists|i: int|
        0 <= i < upto && i < input.len() && #[trigger] input[i] == (DescriptorBinding {
            set,
            desc: d,
        })
}

/// The set indices of descriptors ascend, and they are the sets that the
/// descriptors belong to: every descriptor's set is among them, and each of
/// them is the set of some descriptor.
pub proof fn lemma_set_indices(input: Seq<DescriptorBinding>, upto: nat)
    requires
        upto <= input.len(),
    ensures
        spec_sets_ascend(spec_set_indices(input, upto)),
        forall|s: u32|
            spec_has_set(input, upto, s) <==> #[trigger] spec_set_indices(input, upto).contains(s),
    decreases upto,
{
    if upto > 0 {
        lemma_set_indices(input, (upto - 1) as nat);
        let before = spec_set_indices(input, (upto - 1) as nat);
        let set = input[upto - 1].set;
        let after = spec_set_indices(input, upto);
        assert(spec_has_set(input, upto, set));
        if !before.contains(set) {
            let p = spec_set_position(before, set, 0);
            lemma_set_position(before, set, 0);
            before.insert_ensures(p as int, set);
            assert forall|i: int, j: int| 0 <= i < j < after.len() implies after[i] < after[j] by {
                if i < p {
                    assert(after[i] == before[i]);
                    assert(before.contains(before[i]));
                }
                if j > p {
                    assert(after[j] == before[j - 1]);
                }
                if i > p {
                    assert(after[i] == before[i - 1]);
                }
                if j < p {
                    assert(after[j] == before[j]);
                }
            }
            assert(after[p as int] == set);
        }
        assert forall|s: u32| spec_has_set(input, upto, s) <==> #[trigger] after.contains(
            s,
        ) by {
            if spec_has_set(input, upto, s) {
                let i = choose|i: int|
                    0 <= i < upto && i < input.len() && (#[trigger] input[i]).set == s;
                if i < upto - 1 {
                    assert(spec_has_set(input, (upto - 1) as nat, s));
                    assert(before.contains(s));
                }
                if s != set {
                    assert(before.contains(s));
                    let k = choose|k: int| 0 <= k < before.len() && before[k] == s;
                    if !before.contains(set) {
                        let p = spec_set_position(before, set, 0);
                        if k < p {
                            assert(after[k] == before[k]);
                        } else {
                            assert(after[k + 1] == before[k]);
                        }
                    }
                } else {
                    if !before.contains(set) {
                        let p = spec_set_position(before, set, 0);
                        assert(after[p as int] == s);
                    }
                }
            }
            if after.contains(s) {
                if s != set {
                    let k = choose|k: int| 0 <= k < after.len() && after[k] == s;
                    if !before.contains(set) {
                        let p = spec_set_position(before, set, 0);
                        let kb = if k < p {
                            k
                        } else {
                            k - 1
                        };
                        assert(after[k] == before[kb]);
                    }
                    assert(before.contains(s));
                    assert(spec_has_set(input, (upto - 1) as nat, s));
                    let i = choose|i: int|
                        0 <= i < upto - 1 && i < input.len() && (#[trigger] input[i]).set == s;
                    assert(input[i].set == s);
                }
            }
        }
    } else {
        assert forall|s: u32| spec_has_set(input, upto, s) <==> #[trigger] spec_set_indices(
            input,
            upto,
        ).contains(s) by {}
    }
}

/// The descriptors of a set are ordered by binding, and they are the
/// descriptors that belong to the set: each of those is among them, and
/// each of them is one of those.
pub proof fn lemma_set_bindings(input: Seq<DescriptorBinding>, set: u32, upto: nat)
    requires
        upto <= input.len(),
    ensures
        spec_bindings_ascend(spec_set_bindings(input, set, upto)),
        forall|d: DescriptorDesc|
            spec_has_binding(input, upto, set, d) <==> #[trigger] spec_set_bindings(
                input,
                set,
                upto,
            ).contains(d),
    decreases upto,
{
    if upto > 0 {
        lemma_set_bindings(input, set, (upto - 1) as nat);
        let before = spec_set_bindings(input, set, (upto - 1) as nat);
        let after = spec_set_bindings(input, set, upto);
        let last = input[upto - 1];
        if last.set == set {
            let d = last.desc;
            let p = spec_binding_position(before, d.binding, 0);
            lemma_binding_position(before, d.binding, 0);
            before.insert_ensures(p as int, d);
            assert forall|i: int, j: int| 0 <= i <= j < after.len() implies after[i].binding
                <= after[j].binding by {
                if i < p {
                    assert(after[i] == before[i]);
                }
                if j > p {
                    assert(after[j] == before[j - 1]);
                }
                if i > p {
                    assert(after[i] == before[i - 1]);
                }
                if j < p {
                    assert(after[j] == before[j]);
                }
            }
            assert(after[p as int] == d);
        }
        assert forall|d: DescriptorDesc|
            spec_has_binding(input, upto, set, d) <==> #[trigger] after.contains(d) by {
            let here = last.set == set && last.desc == d;
            if spec_has_binding(input, upto, set, d) && !here {
                let i = choose|i: int|
                    0 <= i < upto && i < input.len() && #[trigger] input[i] == (DescriptorBinding {
                        set,
                        desc: d,
                    });
                assert(i < upto - 1);
                assert(spec_has_binding(input, (upto - 1) as nat, set, d));
                assert(before.contains(d));
                let k = choose|k: int| 0 <= k < before.len() && before[k] == d;
                if last.set == set {
                    let p = spec_binding_position(before, last.desc.binding, 0);
                    if k < p {
                        assert(after[k] == before[k]);
                    } else {
                        assert(after[k + 1] == before[k]);
                    }
                }
            }
            if here {
                let p = spec_binding_position(before, last.desc.binding, 0);
                assert(after[p as int] == d);
                assert(input[upto - 1] == (DescriptorBinding { set, desc: d }));
            }
            if after.contains(d) && !here {
                let k = choose|k: int| 0 <= k < after.len() && after[k] == d;
                if last.set == set {
                    let p = spec_binding_position(before, last.desc.binding, 0);
                    let kb = if k < p {
                        k
                    } else {
                        k - 1
                    };
                    assert(after[k] == before[kb]);
                }
                assert(before.contains(d));
                assert(spec_has_binding(input, (upto - 1) as nat, set, d));
                let i = choose|i: int|
                    0 <= i < upto - 1 && i < input.len() && #[trigger] input[i]
                        == (DescriptorBinding { set, desc: d });
                assert(input[i] == (DescriptorBinding { set, desc: d }));
            }
        }
    } else {
        assert forall|d: DescriptorDesc|
            spec_has_binding(input, upto, set, d) <==> #[trigger] spec_set_bindings(
                input,
                set,
                upto,
            ).contains(d) by {}
    }
}

/// Whether the descriptor is found in the entry of its set.
pub open spec fn spec_in_group(sets: Seq<DescriptorSetView>, b: DescriptorBinding) -> bool {
    exists|k: int|
        0 <= k < sets.len() && (#[trigger] sets[k]).set == b.set && sets[k].bindings.contains(
            b.desc,
        )
}

/// Descriptors gathered by set are in order and all there: the sets ascend,
/// no set comes twice, the descriptors of each set do not descend in their
/// bindings, every set has a descriptor, and every descriptor is found in
/// the entry of its set.
pub proof fn lemma_group_ordered_and_complete(input: Seq<DescriptorBinding>)
    ensures
        forall|a: int, b: int|
            0 <= a < b < spec_group(input).len() ==> spec_group(input)[a].set < spec_group(
                input,
            )[b].set,
        forall|k: int|
            0 <= k < spec_group(input).len() ==> spec_bindings_ascend(
                (#[trigger] spec_group(input)[k]).bindings,
            ) && spec_group(input)[k].bindings.len() > 0,
        forall|k: int, d: DescriptorDesc|
            0 <= k < spec_group(input).len() ==> ((#[trigger] spec_group(
                input,
            )[k]).bindings.contains(d) <==> #[trigger] spec_has_binding(
                input,
                input.len(),
                spec_group(input)[k].set,
                d,
            )),
        forall|i: int|
            0 <= i < input.len() ==> spec_in_group(spec_group(input), #[trigger] input[i]),
{
    let sets = spec_set_indices(input, input.len());
    let g = spec_group(input);
    lemma_set_indices(input, input.len());
    assert forall|k: int| 0 <= k < g.len() implies spec_bindings_ascend(
        (#[trigger] g[k]).bindings,
    ) && g[k].bindings.len() > 0 by {
        lemma_set_bindings(input, sets[k], input.len());
        assert(sets.contains(sets[k]));
        assert(spec_has_set(input, input.len(), sets[k]));
        let i = choose|i: int|
            0 <= i < input.len() && i < input.len() && (#[trigger] input[i]).set == sets[k];
        assert(input[i] == (DescriptorBinding { set: sets[k], desc: input[i].desc }));
        assert(spec_has_binding(input, input.len(), sets[k], input[i].desc));
        assert(g[k].bindings.contains(input[i].desc));
    }
    assert forall|k: int, d: DescriptorDesc| 0 <= k < g.len() implies ((#[trigger] g[k]).bindings.contains(
        d,
    ) <==> #[trigger] spec_has_binding(input, input.len(), g[k].set, d)) by {
        lemma_set_bindings(input, sets[k], input.len());
    }
    assert forall|i: int| 0 <= i < input.len() implies spec_in_group(g, #[trigger] input[i]) by {
        assert(spec_has_set(input, input.len(), input[i].set));
        assert(sets.contains(input[i].set));
        let k = choose|k: int| 0 <= k < sets.len() && sets[k] == input[i].set;
        lemma_set_bindings(input, sets[k], input.len());
        assert(input[i] == (DescriptorBinding { set: sets[k], desc: input[i].desc }));
        assert(spec_has_binding(input, input.len(), sets[k], input[i].desc));
        assert(g[k].set == input[i].set);
    }
}

/// The descriptor sets of a module: the descriptors of its resource
/// variables, gathered by set, or the failure of the first variable that
/// fails.
pub open spec fn spec_descriptor_sets(instructions: Seq<InstructionView>) -> Result<
    Seq<DescriptorSetView>,
    Error,
> {
    match spec_descriptors(instructions, spec_resource_variables(instructions, 0), 0) {
        Ok(bindings) => Ok(spec_group(bindings)),
        Err(e) => Err(e),
    }
}

/// Returns the descriptor sets of the module. Every variable in the uniform
/// or the uniform-constant storage class is one descriptor; each must carry
/// a descriptor set and a binding, and its type must point to a buffer
/// block, an image, a sampler or an array of one of these. The sets come in
/// ascending order, and in each the descriptors in ascending order of their
/// bindings.
pub fn descriptor_sets(doc: &Spirv) -> (r: Result<Vec<DescriptorSet>, Error>)
    ensures
        views_ok(r) == spec_descriptor_sets(doc@.instructions),
{
    let variables = resource_variables(doc);
    match descriptors_of(doc, &variables) {
        Ok(bindings) => Ok(group_descriptor_sets(&bindings)),
        Err(e) => Err(e),
    }
}

} // verus!
