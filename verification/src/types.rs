//! The description of a type, resolved from its identifier through the
//! declarations of a module.

use crate::enums::{AccessQualifier, Dim, ImageFormat};
use crate::error::Error;
use crate::views::view_ok;
use crate::parse::{Instruction, InstructionView, Spirv};
use crate::resolve::{
    find, lemma_find_finds, lemma_find_is_least, name_from_id, spec_find, spec_name_of, Query,
};
use vstd::prelude::*;

verus! {

/// What a type is, with every identifier in it resolved.
#[derive(Debug, PartialEq, Eq)]
pub enum TypeDesc {
    Void,
    Bool,
    /// An integer of `width` bits.
    Int { width: u32, signed: bool },
    /// A floating-point number of `width` bits.
    Float { width: u32 },
    /// `count` components of one scalar type.
    Vector { component: Box<TypeDesc>, count: u32 },
    /// `columns` column vectors, one after the other.
    Matrix { column: Box<TypeDesc>, columns: u32 },
    /// `length` elements, the length read from a constant of the module.
    Array { element: Box<TypeDesc>, length: u64 },
    /// Elements whose number is known only when the shader runs.
    RuntimeArray { element: Box<TypeDesc> },
    /// An image. A sampled image is described as the image that it samples.
    Image {
        sampled_type_id: u32,
        dim: Dim,
        depth: Option<bool>,
        arrayed: bool,
        multisampled: bool,
        sampled: Option<bool>,
        format: ImageFormat,
        access: Option<AccessQualifier>,
    },
    /// A sampler on its own, without an image.
    Sampler,
    /// A struct, referred to by its name.
    Struct { name: String },
    /// A type that the module only names.
    Opaque,
}

/// What a [`TypeDesc`] holds, as mathematical values.
pub enum TypeDescView {
    Void,
    Bool,
    Int { width: u32, signed: bool },
    Float { width: u32 },
    Vector { component: Box<TypeDescView>, count: u32 },
    Matrix { column: Box<TypeDescView>, columns: u32 },
    Array { element: Box<TypeDescView>, length: u64 },
    RuntimeArray { element: Box<TypeDescView> },
    Image {
        sampled_type_id: u32,
        dim: Dim,
        depth: Option<bool>,
        arrayed: bool,
        multisampled: bool,
        sampled: Option<bool>,
        format: ImageFormat,
        access: Option<AccessQualifier>,
    },
    Sampler,
    Struct { name: Seq<char> },
    Opaque,
}

impl View for TypeDesc {
    type V = TypeDescView;

    open spec fn view(&self) -> TypeDescView
        decreases self,
    {
        match self {
            TypeDesc::Void => TypeDescView::Void,
            TypeDesc::Bool => TypeDescView::Bool,
            TypeDesc::Int { width, signed } => TypeDescView::Int { width: *width, signed: *signed },
            TypeDesc::Float { width } => TypeDescView::Float { width: *width },
            TypeDesc::Vector { component, count } => TypeDescView::Vector {
                component: Box::new((**component).view()),
                count: *count,
            },
            TypeDesc::Matrix { column, columns } => TypeDescView::Matrix {
                column: Box::new((**column).view()),
                columns: *columns,
            },
            TypeDesc::Array { element, length } => TypeDescView::Array {
                element: Box::new((**element).view()),
                length: *length,
            },
            TypeDesc::RuntimeArray { element } => TypeDescView::RuntimeArray {
                element: Box::new((**element).view()),
            },
            TypeDesc::Image {
                sampled_type_id,
                dim,
                depth,
                arrayed,
                multisampled,
                sampled,
                format,
                access,
            } => TypeDescView::Image {
                sampled_type_id: *sampled_type_id,
                dim: *dim,
                depth: *depth,
                arrayed: *arrayed,
                multisampled: *multisampled,
                sampled: *sampled,
                format: *format,
                access: *access,
            },
            TypeDesc::Sampler => TypeDescView::Sampler,
            TypeDesc::Struct { name } => TypeDescView::Struct { name: name@ },
            TypeDesc::Opaque => TypeDescView::Opaque,
        }
    }
}

/// The number that the words of a constant stand for: the first word holds
/// the low 32 bits and the second, where there is one, the high 32 bits.
/// Words after the second do not count, and no word at all is zero.
pub open spec fn spec_constant_value(data: Seq<u32>) -> u64 {
    if data.len() == 0 {
        0
    } else if data.len() == 1 {
        data[0] as u64
    } else {
        (data[0] + data[1] * 0x1_0000_0000) as u64
    }
}

/// The length that the constant `id` gives to an array, if the module has
/// that constant.
pub open spec fn spec_array_length(instructions: Seq<InstructionView>, id: u32) -> Option<u64> {
    match spec_find(instructions, Query::Constant { id }, 0) {
        Some(i) => match instructions[i as int] {
            InstructionView::Constant { data, .. } => Some(spec_constant_value(data)),
            _ => None,
        },
        None => None,
    }
}

/// Returns the number that the words of a constant stand for.
pub fn constant_value(data: &Vec<u32>) -> (value: u64)
    ensures
        value == spec_constant_value(data@),
{
    if data.len() == 0 {
        0
    } else if data.len() == 1 {
        data[0] as u64
    } else {
        let low: u32 = data[0];
        let high: u32 = data[1];
        assert(((high as u64) << 32) | (low as u64) == low + high * 0x1_0000_0000) by (bit_vector);
        ((high as u64) << 32) | (low as u64)
    }
}

/// Returns the length that the constant `length_id` gives to an array, and
/// `None` where the module has no constant of that identifier.
pub fn array_length(doc: &Spirv, length_id: u32) -> (length: Option<u64>)
    ensures
        length == spec_array_length(doc@.instructions, length_id),
{
    match find(doc, Query::Constant { id: length_id }, 0) {
        Some(i) => match &doc.instructions[i] {
            Instruction::Constant { data, .. } => Some(constant_value(data)),
            _ => None,
        },
        None => None,
    }
}

/// The description of the type `id`, read from its first declaration in the
/// module. The types it is made of are resolved in turn, at most `depth`
/// deep below it.
///
/// It fails with `UnknownType` where `id`, or an identifier reached from it,
/// has no declaration; with `MissingArrayLength` where the length of an array
/// is no constant of the module; and with `RecursiveType` where `depth` is
/// used up.
pub open spec fn spec_type_of(instructions: Seq<InstructionView>, id: u32, depth: nat) -> Result<
    TypeDescView,
    Error,
>
    decreases depth,
{
    match spec_find(instructions, Query::TypeDeclaration { id }, 0) {
        None => Err(Error::UnknownType { id }),
        Some(i) => match instructions[i as int] {
            InstructionView::TypeVoid { .. } => Ok(TypeDescView::Void),
            InstructionView::TypeBool { .. } => Ok(TypeDescView::Bool),
            InstructionView::TypeInt { width, signedness, .. } => Ok(
                TypeDescView::Int { width, signed: signedness },
            ),
            InstructionView::TypeFloat { width, .. } => Ok(TypeDescView::Float { width }),
            InstructionView::TypeImage {
                sampled_type_id,
                dim,
                depth: image_depth,
                arrayed,
                ms,
                sampled,
                format,
                access,
                ..
            } => Ok(
                TypeDescView::Image {
                    sampled_type_id,
                    dim,
                    depth: image_depth,
                    arrayed,
                    multisampled: ms,
                    sampled,
                    format,
                    access,
                },
            ),
            InstructionView::TypeSampler { .. } => Ok(TypeDescView::Sampler),
            InstructionView::TypeStruct { result_id, .. } => Ok(
                TypeDescView::Struct { name: spec_name_of(instructions, result_id) },
            ),
            InstructionView::TypeOpaque { .. } => Ok(TypeDescView::Opaque),
            InstructionView::TypeVector { component_id, count, .. } => if depth == 0 {
                Err(Error::RecursiveType { id })
            } else {
                match spec_type_of(instructions, component_id, (depth - 1) as nat) {
                    Ok(t) => Ok(TypeDescView::Vector { component: Box::new(t), count }),
                    Err(e) => Err(e),
                }
            },
            InstructionView::TypeMatrix { column_type_id, column_count, .. } => if depth == 0 {
                Err(Error::RecursiveType { id })
            } else {
                match spec_type_of(instructions, column_type_id, (depth - 1) as nat) {
                    Ok(t) => Ok(TypeDescView::Matrix { column: Box::new(t), columns: column_count }),
                    Err(e) => Err(e),
                }
            },
            InstructionView::TypeArray { type_id, length_id, .. } => if depth == 0 {
                Err(Error::RecursiveType { id })
            } else {
                match spec_type_of(instructions, type_id, (depth - 1) as nat) {
                    Ok(t) => match spec_array_length(instructions, length_id) {
                        Some(length) => Ok(TypeDescView::Array { element: Box::new(t), length }),
                        None => Err(Error::MissingArrayLength { id: length_id }),
                    },
                    Err(e) => Err(e),
                }
            },
            InstructionView::TypeRuntimeArray { type_id, .. } => if depth == 0 {
                Err(Error::RecursiveType { id })
            } else {
                match spec_type_of(instructions, type_id, (depth - 1) as nat) {
                    Ok(t) => Ok(TypeDescView::RuntimeArray { element: Box::new(t) }),
                    Err(e) => Err(e),
                }
            },
            InstructionView::TypeSampledImage { image_type_id, .. } => if depth == 0 {
                Err(Error::RecursiveType { id })
            } else {
                spec_type_of(instructions, image_type_id, (depth - 1) as nat)
            },
            InstructionView::TypePointer { type_id, .. } => if depth == 0 {
                Err(Error::RecursiveType { id })
            } else {
                spec_type_of(instructions, type_id, (depth - 1) as nat)
            },
            _ => Err(Error::UnknownType { id }),
        },
    }
}

/// Resolves `searched` as [`spec_type_of`] says, at most `depth` deep.
pub fn type_from_id_within(doc: &Spirv, searched: u32, depth: usize) -> (r: Result<TypeDesc, Error>)
    ensures
        view_ok(r) == spec_type_of(doc@.instructions, searched, depth as nat),
    decreases depth,
{
    let found = find(doc, Query::TypeDeclaration { id: searched }, 0);
    let i = match found {
        Some(i) => i,
        None => {
            return Err(Error::UnknownType { id: searched });
        },
    };
    match &doc.instructions[i] {
        Instruction::TypeVoid { .. } => Ok(TypeDesc::Void),
        Instruction::TypeBool { .. } => Ok(TypeDesc::Bool),
        Instruction::TypeInt { width, signedness, .. } => Ok(
            TypeDesc::Int { width: *width, signed: *signedness },
        ),
        Instruction::TypeFloat { width, .. } => Ok(TypeDesc::Float { width: *width }),
        Instruction::TypeImage {
            sampled_type_id,
            dim,
            depth: image_depth,
            arrayed,
            ms,
            sampled,
            format,
            access,
            ..
        } => Ok(
            TypeDesc::Image {
                sampled_type_id: *sampled_type_id,
                dim: *dim,
                depth: *image_depth,
                arrayed: *arrayed,
                multisampled: *ms,
                sampled: *sampled,
                format: *format,
                access: *access,
            },
        ),
        Instruction::TypeSampler { .. } => Ok(TypeDesc::Sampler),
        Instruction::TypeStruct { result_id, .. } => Ok(
            TypeDesc::Struct { name: name_from_id(doc, *result_id) },
        ),
        Instruction::TypeOpaque { .. } => Ok(TypeDesc::Opaque),
        Instruction::TypeVector { component_id, count, .. } => {
            if depth == 0 {
                return Err(Error::RecursiveType { id: searched });
            }
            match type_from_id_within(doc, *component_id, depth - 1) {
                Ok(t) => Ok(TypeDesc::Vector { component: Box::new(t), count: *count }),
                Err(e) => Err(e),
            }
        },
        Instruction::TypeMatrix { column_type_id, column_count, .. } => {
            if depth == 0 {
                return Err(Error::RecursiveType { id: searched });
            }
            match type_from_id_within(doc, *column_type_id, depth - 1) {
                Ok(t) => Ok(TypeDesc::Matrix { column: Box::new(t), columns: *column_count }),
                Err(e) => Err(e),
            }
        },
        Instruction::TypeArray { type_id, length_id, .. } => {
            if depth == 0 {
                return Err(Error::RecursiveType { id: searched });
            }
            match type_from_id_within(doc, *type_id, depth - 1) {
                Ok(t) => match array_length(doc, *length_id) {
                    Some(length) => Ok(TypeDesc::Array { element: Box::new(t), length }),
                    None => Err(Error::MissingArrayLength { id: *length_id }),
                },
                Err(e) => Err(e),
            }
        },
        Instruction::TypeRuntimeArray { type_id, .. } => {
            if depth == 0 {
                return Err(Error::RecursiveType { id: searched });
            }
            match type_from_id_within(doc, *type_id, depth - 1) {
                Ok(t) => Ok(TypeDesc::RuntimeArray { element: Box::new(t) }),
                Err(e) => Err(e),
            }
        },
        Instruction::TypeSampledImage { image_type_id, .. } => {
            if depth == 0 {
                return Err(Error::RecursiveType { id: searched });
            }
            type_from_id_within(doc, *image_type_id, depth - 1)
        },
        Instruction::TypePointer { type_id, .. } => {
            if depth == 0 {
                return Err(Error::RecursiveType { id: searched });
            }
            type_from_id_within(doc, *type_id, depth - 1)
        },
        _ => Err(Error::UnknownType { id: searched }),
    }
}

/// Describes the type `searched`, whatever kind of type the module declares
/// it as: a pointer as what it points to, a sampled image as its image, a
/// sampler as a sampler, a struct by its name, an array with its length read
/// from the module's constants.
///
/// Nesting is followed as deep as the module has instructions, which every
/// module whose types are declared before they are used stays within (see
/// [`lemma_declared_type_resolves`]).
pub fn type_from_id(doc: &Spirv, searched: u32) -> (r: Result<TypeDesc, Error>)
    ensures
        view_ok(r) == spec_type_of(doc@.instructions, searched, doc@.instructions.len()),
        spec_find(doc@.instructions, Query::TypeDeclaration { id: searched }, 0) is None ==> r
            == Err::<TypeDesc, Error>(Error::UnknownType { id: searched }),
{
    type_from_id_within(doc, searched, doc.instructions.len())
}

/// Whether some instruction before index `before` declares the type `id`.
pub open spec fn spec_declared_before(
    instructions: Seq<InstructionView>,
    id: u32,
    before: int,
) -> bool {
    exists|j: int|
        0 <= j < before && j < instructions.len() && (Query::TypeDeclaration { id }).spec_matches(
            #[trigger] instructions[j],
        )
}

/// Whether the type declaration at index `i`, if it is one, is built only
/// from types declared before it, and, for an array, a length that is a
/// constant of the module.
pub open spec fn spec_declaration_well_formed(instructions: Seq<InstructionView>, i: int) -> bool {
    match instructions[i] {
        InstructionView::TypeVector { component_id, .. } => spec_declared_before(
            instructions,
            component_id,
            i,
        ),
        InstructionView::TypeMatrix { column_type_id, .. } => spec_declared_before(
            instructions,
            column_type_id,
            i,
        ),
        InstructionView::TypeArray { type_id, length_id, .. } => spec_declared_before(
            instructions,
            type_id,
            i,
        ) && spec_array_length(instructions, length_id) is Some,
        InstructionView::TypeRuntimeArray { type_id, .. } => spec_declared_before(
            instructions,
            type_id,
            i,
        ),
        InstructionView::TypeSampledImage { image_type_id, .. } => spec_declared_before(
            instructions,
            image_type_id,
            i,
        ),
        InstructionView::TypePointer { type_id, .. } => spec_declared_before(
            instructions,
            type_id,
            i,
        ),
        _ => true,
    }
}

/// Whether every type declaration of the module is well formed.
pub open spec fn spec_types_well_formed(instructions: Seq<InstructionView>) -> bool {
    forall|i: int|
        0 <= i < instructions.len() ==> #[trigger] spec_declaration_well_formed(instructions, i)
}

/// In a module whose type declarations are well formed, a type whose first
/// declaration stands at index `at` resolves within a depth of `at`.
pub proof fn lemma_resolves_within(
    instructions: Seq<InstructionView>,
    id: u32,
    at: nat,
    depth: nat,
)
    requires
        spec_types_well_formed(instructions),
        spec_find(instructions, Query::TypeDeclaration { id }, 0) == Some(at),
        at <= depth,
    ensures
        spec_type_of(instructions, id, depth) is Ok,
    decreases at,
{
    lemma_find_is_least(instructions, Query::TypeDeclaration { id }, 0);
    assert(spec_declaration_well_formed(instructions, at as int));
    let inner: Option<u32> = match instructions[at as int] {
        InstructionView::TypeVector { component_id, .. } => Some(component_id),
        InstructionView::TypeMatrix { column_type_id, .. } => Some(column_type_id),
        InstructionView::TypeArray { type_id, .. } => Some(type_id),
        InstructionView::TypeRuntimeArray { type_id, .. } => Some(type_id),
        InstructionView::TypeSampledImage { image_type_id, .. } => Some(image_type_id),
        InstructionView::TypePointer { type_id, .. } => Some(type_id),
        _ => None,
    };
    if let Some(inner_id) = inner {
        assert(spec_declared_before(instructions, inner_id, at as int));
        let j = choose|j: int|
            0 <= j < at && j < instructions.len() && (Query::TypeDeclaration {
                id: inner_id,
            }).spec_matches(#[trigger] instructions[j]);
        lemma_find_finds(instructions, Query::TypeDeclaration { id: inner_id }, 0, j as nat);
        let first = spec_find(instructions, Query::TypeDeclaration { id: inner_id }, 0)->0;
        lemma_resolves_within(instructions, inner_id, first, (depth - 1) as nat);
    }
}

/// A description that is reached within some depth is the same at every
/// greater depth.
pub proof fn lemma_deeper_is_same(
    instructions: Seq<InstructionView>,
    id: u32,
    depth: nat,
    deeper: nat,
)
    requires
        spec_type_of(instructions, id, depth) is Ok,
        depth <= deeper,
    ensures
        spec_type_of(instructions, id, deeper) == spec_type_of(instructions, id, depth),
    decreases depth,
{
    if let Some(at) = spec_find(instructions, Query::TypeDeclaration { id }, 0) {
        let inner: Option<u32> = match instructions[at as int] {
            InstructionView::TypeVector { component_id, .. } => Some(component_id),
            InstructionView::TypeMatrix { column_type_id, .. } => Some(column_type_id),
            InstructionView::TypeArray { type_id, .. } => Some(type_id),
            InstructionView::TypeRuntimeArray { type_id, .. } => Some(type_id),
            InstructionView::TypeSampledImage { image_type_id, .. } => Some(image_type_id),
            InstructionView::TypePointer { type_id, .. } => Some(type_id),
            _ => None,
        };
        if let Some(inner_id) = inner {
            lemma_deeper_is_same(instructions, inner_id, (depth - 1) as nat, (deeper - 1) as nat);
        }
    }
}

/// Where every type of a module is declared before it is used, a pointer is
/// described as what it points to, and a sampled image as its image.
pub proof fn lemma_pointer_is_its_target(instructions: Seq<InstructionView>, id: u32)
    requires
        spec_types_well_formed(instructions),
    ensures
        match spec_find(instructions, Query::TypeDeclaration { id }, 0) {
            Some(at) => match instructions[at as int] {
                InstructionView::TypePointer { type_id, .. } => spec_type_of(
                    instructions,
                    id,
                    instructions.len(),
                ) == spec_type_of(instructions, type_id, instructions.len()),
                InstructionView::TypeSampledImage { image_type_id, .. } => spec_type_of(
                    instructions,
                    id,
                    instructions.len(),
                ) == spec_type_of(instructions, image_type_id, instructions.len()),
                _ => true,
            },
            None => true,
        },
{
    if let Some(at) = spec_find(instructions, Query::TypeDeclaration { id }, 0) {
        lemma_find_is_least(instructions, Query::TypeDeclaration { id }, 0);
        assert(spec_declaration_well_formed(instructions, at as int));
        let target: Option<u32> = match instructions[at as int] {
            InstructionView::TypePointer { type_id, .. } => Some(type_id),
            InstructionView::TypeSampledImage { image_type_id, .. } => Some(image_type_id),
            _ => None,
        };
        if let Some(target_id) = target {
            assert(spec_declared_before(instructions, target_id, at as int));
            let j = choose|j: int|
                0 <= j < at && j < instructions.len() && (Query::TypeDeclaration {
                    id: target_id,
                }).spec_matches(#[trigger] instructions[j]);
            lemma_find_finds(instructions, Query::TypeDeclaration { id: target_id }, 0, j as nat);
            let first = spec_find(instructions, Query::TypeDeclaration { id: target_id }, 0)->0;
            let shallow = (instructions.len() - 1) as nat;
            lemma_resolves_within(instructions, target_id, first, shallow);
            lemma_deeper_is_same(instructions, target_id, shallow, instructions.len());
        }
    }
}

/// Where every type of a module is declared before it is used, each
/// identifier that some instruction declares as a type, whatever the kind of
/// type, is described, and each identifier that none declares is refused as
/// unknown.
pub proof fn lemma_declared_type_resolves(instructions: Seq<InstructionView>, id: u32)
    ensures
        spec_find(instructions, Query::TypeDeclaration { id }, 0) is None ==> spec_type_of(
            instructions,
            id,
            instructions.len(),
        ) == Err::<TypeDescView, Error>(Error::UnknownType { id }),
        spec_types_well_formed(instructions) && spec_find(
            instructions,
            Query::TypeDeclaration { id },
            0,
        ) is Some ==> spec_type_of(instructions, id, instructions.len()) is Ok,
{
    if spec_types_well_formed(instructions) {
        if let Some(at) = spec_find(instructions, Query::TypeDeclaration { id }, 0) {
            lemma_find_is_least(instructions, Query::TypeDeclaration { id }, 0);
            lemma_resolves_within(instructions, id, at, instructions.len());
        }
    }
}

} // verus!
