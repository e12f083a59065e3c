//! The instruction model of a module and the decoder that reads it from bytes.

use crate::enums::{
    AccessQualifier, AddressingModel, Capability, ConstantKind, Decoration, Dim, ExecutionModel,
    ImageFormat, MemoryModel, StorageClass,
};
use crate::literal::{parse_string, spec_parse_string};
use crate::views::{lemma_views_push, views};
use crate::words::{spec_words, words_of, HEADER_WORDS, MAGIC};
use vstd::prelude::*;
use vstd::slice::{slice_subrange, slice_to_vec};

verus! {

/// Why a byte sequence is not a module.
#[derive(Debug, Clone, Copy, PartialEq, Eq, Structural)]
pub enum ParseError {
    /// Fewer bytes than the five-word header.
    MissingHeader,
    /// The first word is not the magic number, in either byte order.
    WrongHeader,
    /// An instruction declares a length of zero words.
    InvalidWordCount,
    /// The bytes end inside a word or inside an instruction, or an instruction
    /// has fewer operands than its layout needs.
    IncompleteInstruction,
    /// A number that the named enumeration does not have.
    UnknownConstant(ConstantKind, u32),
    /// A literal string without its terminator, or not UTF-8.
    InvalidString,
}

/// One instruction of a module. Identifiers are the numbers by which
/// instructions refer to each other's results.
#[derive(Debug, Clone, PartialEq, Eq)]
pub enum Instruction {
    /// An instruction that the model does not interpret: its opcode and operands.
    Unknown(u16, Vec<u32>),
    Nop,
    Name { target_id: u32, name: String },
    MemberName { target_id: u32, member: u32, name: String },
    ExtInstImport { result_id: u32, name: String },
    MemoryModel(AddressingModel, MemoryModel),
    EntryPoint { execution: ExecutionModel, id: u32, name: String, interface: Vec<u32> },
    Capability(Capability),
    TypeVoid { result_id: u32 },
    TypeBool { result_id: u32 },
    TypeInt { result_id: u32, width: u32, signedness: bool },
    TypeFloat { result_id: u32, width: u32 },
    TypeVector { result_id: u32, component_id: u32, count: u32 },
    TypeMatrix { result_id: u32, column_type_id: u32, column_count: u32 },
    TypeImage {
        result_id: u32,
        sampled_type_id: u32,
        dim: Dim,
        depth: Option<bool>,
        arrayed: bool,
        ms: bool,
        sampled: Option<bool>,
        format: ImageFormat,
        access: Option<AccessQualifier>,
    },
    TypeSampler { result_id: u32 },
    TypeSampledImage { result_id: u32, image_type_id: u32 },
    TypeArray { result_id: u32, type_id: u32, length_id: u32 },
    TypeRuntimeArray { result_id: u32, type_id: u32 },
    TypeStruct { result_id: u32, member_types: Vec<u32> },
    TypeOpaque { result_id: u32, name: String },
    TypePointer { result_id: u32, storage_class: StorageClass, type_id: u32 },
    Constant { result_type_id: u32, result_id: u32, data: Vec<u32> },
    FunctionEnd,
    Variable {
        result_type_id: u32,
        result_id: u32,
        storage_class: StorageClass,
        initializer: Option<u32>,
    },
    Decorate { target_id: u32, decoration: Decoration, params: Vec<u32> },
    MemberDecorate { target_id: u32, member: u32, decoration: Decoration, params: Vec<u32> },
    Label { result_id: u32 },
    Branch { result_id: u32 },
    Kill,
    Return,
}

/// What an [`Instruction`] holds, as mathematical values.
pub enum InstructionView {
    Unknown(u16, Seq<u32>),
    Nop,
    Name { target_id: u32, name: Seq<char> },
    MemberName { target_id: u32, member: u32, name: Seq<char> },
    ExtInstImport { result_id: u32, name: Seq<char> },
    MemoryModel(AddressingModel, MemoryModel),
    EntryPoint { execution: ExecutionModel, id: u32, name: Seq<char>, interface: Seq<u32> },
    Capability(Capability),
    TypeVoid { result_id: u32 },
    TypeBool { result_id: u32 },
    TypeInt { result_id: u32, width: u32, signedness: bool },
    TypeFloat { result_id: u32, width: u32 },
    TypeVector { result_id: u32, component_id: u32, count: u32 },
    TypeMatrix { result_id: u32, column_type_id: u32, column_count: u32 },
    TypeImage {
        result_id: u32,
        sampled_type_id: u32,
        dim: Dim,
        depth: Option<bool>,
        arrayed: bool,
        ms: bool,
        sampled: Option<bool>,
        format: ImageFormat,
        access: Option<AccessQualifier>,
    },
    TypeSampler { result_id: u32 },
    TypeSampledImage { result_id: u32, image_type_id: u32 },
    TypeArray { result_id: u32, type_id: u32, length_id: u32 },
    TypeRuntimeArray { result_id: u32, type_id: u32 },
    TypeStruct { result_id: u32, member_types: Seq<u32> },
    TypeOpaque { result_id: u32, name: Seq<char> },
    TypePointer { result_id: u32, storage_class: StorageClass, type_id: u32 },
    Constant { result_type_id: u32, result_id: u32, data: Seq<u32> },
    FunctionEnd,
    Variable {
        result_type_id: u32,
        result_id: u32,
        storage_class: StorageClass,
        initializer: Option<u32>,
    },
    Decorate { target_id: u32, decoration: Decoration, params: Seq<u32> },
    MemberDecorate { target_id: u32, member: u32, decoration: Decoration, params: Seq<u32> },
    Label { result_id: u32 },
    Branch { result_id: u32 },
    Kill,
    Return,
}

impl View for Instruction {
    type V = InstructionView;

    open spec fn view(&self) -> InstructionView {
        match *self {
            Instruction::Unknown(a0, a1) => InstructionView::Unknown(a0, a1@),
            Instruction::Nop => InstructionView::Nop,
            Instruction::Name { target_id, name } => InstructionView::Name {
                target_id,
                name: name@,
            },
            Instruction::MemberName { target_id, member, name } => InstructionView::MemberName {
                target_id,
                member,
                name: name@,
            },
            Instruction::ExtInstImport { result_id, name } => InstructionView::ExtInstImport {
                result_id,
                name: name@,
            },
            Instruction::MemoryModel(a0, a1) => InstructionView::MemoryModel(a0, a1),
            Instruction::EntryPoint { execution, id, name, interface } => InstructionView::EntryPoint {
                execution,
                id,
                name: name@,
                interface: interface@,
            },
            Instruction::Capability(a0) => InstructionView::Capability(a0),
            Instruction::TypeVoid { result_id } => InstructionView::TypeVoid { result_id },
            Instruction::TypeBool { result_id } => InstructionView::TypeBool { result_id },
            Instruction::TypeInt { result_id, width, signedness } => InstructionView::TypeInt {
                result_id,
                width,
                signedness,
            },
            Instruction::TypeFloat { result_id, width } => InstructionView::TypeFloat {
                result_id,
                width,
            },
            Instruction::TypeVector { result_id, component_id, count } => InstructionView::TypeVector {
                result_id,
                component_id,
                count,
            },
            Instruction::TypeMatrix { result_id, column_type_id, column_count } => InstructionView::TypeMatrix {
                result_id,
                column_type_id,
                column_count,
            },
            Instruction::TypeImage { result_id, sampled_type_id, dim, depth, arrayed, ms, sampled, format, access } => InstructionView::TypeImage {
                result_id,
                sampled_type_id,
                dim,
                depth,
                arrayed,
                ms,
                sampled,
                format,
                access,
            },
            Instruction::TypeSampler { result_id } => InstructionView::TypeSampler { result_id },
            Instruction::TypeSampledImage { result_id, image_type_id } => InstructionView::TypeSampledImage {
                result_id,
                image_type_id,
            },
            Instruction::TypeArray { result_id, type_id, length_id } => InstructionView::TypeArray {
                result_id,
                type_id,
                length_id,
            },
            Instruction::TypeRuntimeArray { result_id, type_id } => InstructionView::TypeRuntimeArray {
                result_id,
                type_id,
            },
            Instruction::TypeStruct { result_id, member_types } => InstructionView::TypeStruct {
                result_id,
                member_types: member_types@,
            },
            Instruction::TypeOpaque { result_id, name } => InstructionView::TypeOpaque {
                result_id,
                name: name@,
            },
            Instruction::TypePointer { result_id, storage_class, type_id } => InstructionView::TypePointer {
                result_id,
                storage_class,
                type_id,
            },
            Instruction::Constant { result_type_id, result_id, data } => InstructionView::Constant {
                result_type_id,
                result_id,
                data: data@,
            },
            Instruction::FunctionEnd => InstructionView::FunctionEnd,
            Instruction::Variable { result_type_id, result_id, storage_class, initializer } => InstructionView::Variable {
                result_type_id,
                result_id,
                storage_class,
                initializer,
            },
            Instruction::Decorate { target_id, decoration, params } => InstructionView::Decorate {
                target_id,
                decoration,
                params: params@,
            },
            Instruction::MemberDecorate { target_id, member, decoration, params } => InstructionView::MemberDecorate {
                target_id,
                member,
                decoration,
                params: params@,
            },
            Instruction::Label { result_id } => InstructionView::Label { result_id },
            Instruction::Branch { result_id } => InstructionView::Branch { result_id },
            Instruction::Kill => InstructionView::Kill,
            Instruction::Return => InstructionView::Return,
        }
    }
}

/// A decoded module.
#[derive(Debug, PartialEq, Eq)]
pub struct Spirv {
    /// Major and minor version of the format.
    pub version: (u8, u8),
    /// A number greater than every identifier of the module.
    pub bound: u32,
    /// The instructions, in the order of the bytes.
    pub instructions: Vec<Instruction>,
}

/// What a [`Spirv`] holds, as mathematical values.
pub struct SpirvView {
    pub version: (u8, u8),
    pub bound: u32,
    pub instructions: Seq<InstructionView>,
}

impl View for Spirv {
    type V = SpirvView;

    open spec fn view(&self) -> SpirvView {
        SpirvView {
            version: self.version,
            bound: self.bound,
            instructions: views(self.instructions@),
        }
    }
}

/// The three-valued depth marker of an image type: 0 says that the image is
/// no depth image, 1 that it is one, and 2 says nothing.
pub open spec fn spec_read_depth(num: u32) -> Result<Option<bool>, ParseError> {
    if num == 0 {
        Ok(Some(false))
    } else if num == 1 {
        Ok(Some(true))
    } else if num == 2 {
        Ok(None)
    } else {
        Err(ParseError::UnknownConstant(ConstantKind::ImageDepth, num))
    }
}

/// The three-valued sampling marker of an image type: 0 says nothing, 1
/// that the image is used with a sampler, and 2 that it is used without.
pub open spec fn spec_read_sampled(num: u32) -> Result<Option<bool>, ParseError> {
    if num == 0 {
        Ok(None)
    } else if num == 1 {
        Ok(Some(true))
    } else if num == 2 {
        Ok(Some(false))
    } else {
        Err(ParseError::UnknownConstant(ConstantKind::ImageSampled, num))
    }
}

/// An image type read from its operands, of which there are at least eight.
pub open spec fn spec_decode_image(ops: Seq<u32>) -> Result<InstructionView, ParseError> {
    match Dim::spec_read(ops[2]) {
        Err(e) => Err(e),
        Ok(dim) => match spec_read_depth(ops[3]) {
            Err(e) => Err(e),
            Ok(depth) => match spec_read_sampled(ops[6]) {
                Err(e) => Err(e),
                Ok(sampled) => match ImageFormat::spec_read(ops[7]) {
                    Err(e) => Err(e),
                    Ok(format) => if ops.len() >= 9 {
                        match AccessQualifier::spec_read(ops[8]) {
                            Err(e) => Err(e),
                            Ok(access) => Ok(
                                InstructionView::TypeImage {
                                    result_id: ops[0],
                                    sampled_type_id: ops[1],
                                    dim,
                                    depth,
                                    arrayed: ops[4] != 0,
                                    ms: ops[5] != 0,
                                    sampled,
                                    format,
                                    access: Some(access),
                                },
                            ),
                        }
                    } else {
                        Ok(
                            InstructionView::TypeImage {
                                result_id: ops[0],
                                sampled_type_id: ops[1],
                                dim,
                                depth,
                                arrayed: ops[4] != 0,
                                ms: ops[5] != 0,
                                sampled,
                                format,
                                access: None,
                            },
                        )
                    },
                },
            },
        },
    }
}

/// An entry point read from its operands, of which there are at least two:
/// the execution model, the identifier, the name, and behind the name the
/// identifiers of the interface.
pub open spec fn spec_decode_entry_point(ops: Seq<u32>) -> Result<InstructionView, ParseError> {
    match ExecutionModel::spec_read(ops[0]) {
        Err(e) => Err(e),
        Ok(execution) => match spec_parse_string(ops, 2) {
            Err(e) => Err(e),
            Ok((name, next)) => Ok(
                InstructionView::EntryPoint {
                    execution,
                    id: ops[1],
                    name,
                    interface: ops.skip(next as int),
                },
            ),
        },
    }
}

/// The number of operands that an instruction of the given opcode has at
/// least. An opcode that the model does not interpret asks for none.
pub open spec fn spec_min_operands(opcode: u16) -> nat {
    match opcode {
        5 => 1,
        6 => 2,
        11 => 1,
        14 => 2,
        15 => 2,
        17 => 1,
        19 => 1,
        20 => 1,
        21 => 3,
        22 => 2,
        23 => 3,
        24 => 3,
        25 => 8,
        26 => 1,
        27 => 2,
        28 => 3,
        29 => 2,
        30 => 1,
        31 => 1,
        32 => 3,
        43 => 2,
        59 => 3,
        71 => 2,
        72 => 3,
        248 => 1,
        249 => 1,
        _ => 0,
    }
}

/// Whether the model interprets instructions of the opcode.
pub open spec fn spec_is_known_opcode(opcode: u16) -> bool {
    opcode == 0 || opcode == 56 || opcode == 252 || opcode == 253 || spec_min_operands(opcode) > 0
}

/// The instruction that an opcode and its operands stand for. With fewer
/// operands than the opcode asks for it is incomplete; a number that is to
/// name a value of an enumeration and names none is an unknown constant; an
/// opcode that the model does not interpret is kept as it is, with its
/// operands.
pub open spec fn spec_decode_instruction(opcode: u16, ops: Seq<u32>) -> Result<
    InstructionView,
    ParseError,
> {
    if ops.len() < spec_min_operands(opcode) {
        Err(ParseError::IncompleteInstruction)
    } else {
        match opcode {
            0 => Ok(InstructionView::Nop),
            5 => match spec_parse_string(ops, 1) {
                Err(e) => Err(e),
                Ok((name, _)) => Ok(InstructionView::Name { target_id: ops[0], name }),
            },
            6 => match spec_parse_string(ops, 2) {
                Err(e) => Err(e),
                Ok((name, _)) => Ok(
                    InstructionView::MemberName { target_id: ops[0], member: ops[1], name },
                ),
            },
            11 => match spec_parse_string(ops, 1) {
                Err(e) => Err(e),
                Ok((name, _)) => Ok(InstructionView::ExtInstImport { result_id: ops[0], name }),
            },
            14 => match AddressingModel::spec_read(ops[0]) {
                Err(e) => Err(e),
                Ok(addressing) => match MemoryModel::spec_read(ops[1]) {
                    Err(e) => Err(e),
                    Ok(memory) => Ok(InstructionView::MemoryModel(addressing, memory)),
                },
            },
            15 => spec_decode_entry_point(ops),
            17 => match Capability::spec_read(ops[0]) {
                Err(e) => Err(e),
                Ok(cap) => Ok(InstructionView::Capability(cap)),
            },
            19 => Ok(InstructionView::TypeVoid { result_id: ops[0] }),
            20 => Ok(InstructionView::TypeBool { result_id: ops[0] }),
            21 => Ok(
                InstructionView::TypeInt {
                    result_id: ops[0],
                    width: ops[1],
                    signedness: ops[2] != 0,
                },
            ),
            22 => Ok(InstructionView::TypeFloat { result_id: ops[0], width: ops[1] }),
            23 => Ok(
                InstructionView::TypeVector {
                    result_id: ops[0],
                    component_id: ops[1],
                    count: ops[2],
                },
            ),
            24 => Ok(
                InstructionView::TypeMatrix {
                    result_id: ops[0],
                    column_type_id: ops[1],
                    column_count: ops[2],
                },
            ),
            25 => spec_decode_image(ops),
            26 => Ok(InstructionView::TypeSampler { result_id: ops[0] }),
            27 => Ok(InstructionView::TypeSampledImage { result_id: ops[0], image_type_id: ops[1] }),
            28 => Ok(
                InstructionView::TypeArray { result_id: ops[0], type_id: ops[1], length_id: ops[2] },
            ),
            29 => Ok(InstructionView::TypeRuntimeArray { result_id: ops[0], type_id: ops[1] }),
            30 => Ok(InstructionView::TypeStruct { result_id: ops[0], member_types: ops.skip(1) }),
            31 => match spec_parse_string(ops, 1) {
                Err(e) => Err(e),
                Ok((name, _)) => Ok(InstructionView::TypeOpaque { result_id: ops[0], name }),
            },
            32 => match StorageClass::spec_read(ops[1]) {
                Err(e) => Err(e),
                Ok(storage_class) => Ok(
                    InstructionView::TypePointer { result_id: ops[0], storage_class, type_id: ops[2] },
                ),
            },
            43 => Ok(
                InstructionView::Constant {
                    result_type_id: ops[0],
                    result_id: ops[1],
                    data: ops.skip(2),
                },
            ),
            56 => Ok(InstructionView::FunctionEnd),
            59 => match StorageClass::spec_read(ops[2]) {
                Err(e) => Err(e),
                Ok(storage_class) => Ok(
                    InstructionView::Variable {
                        result_type_id: ops[0],
                        result_id: ops[1],
                        storage_class,
                        initializer: if ops.len() >= 4 {
                            Some(ops[3])
                        } else {
                            None
                        },
                    },
                ),
            },
            71 => match Decoration::spec_read(ops[1]) {
                Err(e) => Err(e),
                Ok(decoration) => Ok(
                    InstructionView::Decorate { target_id: ops[0], decoration, params: ops.skip(2) },
                ),
            },
            72 => match Decoration::spec_read(ops[2]) {
                Err(e) => Err(e),
                Ok(decoration) => Ok(
                    InstructionView::MemberDecorate {
                        target_id: ops[0],
                        member: ops[1],
                        decoration,
                        params: ops.skip(3),
                    },
                ),
            },
            248 => Ok(InstructionView::Label { result_id: ops[0] }),
            249 => Ok(InstructionView::Branch { result_id: ops[0] }),
            252 => Ok(InstructionView::Kill),
            253 => Ok(InstructionView::Return),
            _ => Ok(InstructionView::Unknown(opcode, ops)),
        }
    }
}

/// The view of the instruction, or the error as it is.
pub open spec fn spec_instruction_result(r: Result<Instruction, ParseError>) -> Result<
    InstructionView,
    ParseError,
> {
    match r {
        Ok(i) => Ok(i@),
        Err(e) => Err(e),
    }
}

/// Returns the operands from index `from` on.
fn operands_from(ops: &[u32], from: usize) -> (r: Vec<u32>)
    requires
        from <= ops@.len(),
    ensures
        r@ == ops@.skip(from as int),
{
    slice_to_vec(slice_subrange(ops, from, ops.len()))
}

/// Reads the depth marker of an image type.
fn read_depth(num: u32) -> (r: Result<Option<bool>, ParseError>)
    ensures
        r == spec_read_depth(num),
{
    if num == 0 {
        Ok(Some(false))
    } else if num == 1 {
        Ok(Some(true))
    } else if num == 2 {
        Ok(None)
    } else {
        Err(ParseError::UnknownConstant(ConstantKind::ImageDepth, num))
    }
}

/// Reads the sampling marker of an image type.
fn read_sampled(num: u32) -> (r: Result<Option<bool>, ParseError>)
    ensures
        r == spec_read_sampled(num),
{
    if num == 0 {
        Ok(None)
    } else if num == 1 {
        Ok(Some(true))
    } else if num == 2 {
        Ok(Some(false))
    } else {
        Err(ParseError::UnknownConstant(ConstantKind::ImageSampled, num))
    }
}

/// Reads an image type from its operands.
fn decode_image(ops: &[u32]) -> (r: Result<Instruction, ParseError>)
    requires
        ops@.len() >= 8,
    ensures
        spec_instruction_result(r) == spec_decode_image(ops@),
{
    let dim = match Dim::from_num(ops[2]) {
        Ok(v) => v,
        Err(e) => {
            return Err(e);
        },
    };
    let depth = match read_depth(ops[3]) {
        Ok(v) => v,
        Err(e) => {
            return Err(e);
        },
    };
    let sampled = match read_sampled(ops[6]) {
        Ok(v) => v,
        Err(e) => {
            return Err(e);
        },
    };
    let format = match ImageFormat::from_num(ops[7]) {
        Ok(v) => v,
        Err(e) => {
            return Err(e);
        },
    };
    let access = if ops.len() >= 9 {
        match AccessQualifier::from_num(ops[8]) {
            Ok(v) => Some(v),
            Err(e) => {
                return Err(e);
            },
        }
    } else {
        None
    };
    Ok(
        Instruction::TypeImage {
            result_id: ops[0],
            sampled_type_id: ops[1],
            dim,
            depth,
            arrayed: ops[4] != 0,
            ms: ops[5] != 0,
            sampled,
            format,
            access,
        },
    )
}

/// Reads an entry point from its operands.
fn decode_entry_point(ops: &[u32]) -> (r: Result<Instruction, ParseError>)
    requires
        ops@.len() >= 2,
    ensures
        spec_instruction_result(r) == spec_decode_entry_point(ops@),
{
    let execution = match ExecutionModel::from_num(ops[0]) {
        Ok(v) => v,
        Err(e) => {
            return Err(e);
        },
    };
    match parse_string(ops, 2) {
        Err(e) => Err(e),
        Ok((name, next)) => Ok(
            Instruction::EntryPoint {
                execution,
                id: ops[1],
                name,
                interface: operands_from(ops, next),
            },
        ),
    }
}

/// Returns the number of operands that an instruction of the given opcode
/// has at least.
pub fn min_operands(opcode: u16) -> (n: usize)
    ensures
        n == spec_min_operands(opcode),
{
    match opcode {
        5 => 1,
        6 => 2,
        11 => 1,
        14 => 2,
        15 => 2,
        17 => 1,
        19 => 1,
        20 => 1,
        21 => 3,
        22 => 2,
        23 => 3,
        24 => 3,
        25 => 8,
        26 => 1,
        27 => 2,
        28 => 3,
        29 => 2,
        30 => 1,
        31 => 1,
        32 => 3,
        43 => 2,
        59 => 3,
        71 => 2,
        72 => 3,
        248 => 1,
        249 => 1,
        _ => 0,
    }
}

/// Reads the text of a literal string that starts with operand `from`.
fn decode_name(ops: &[u32], from: usize) -> (r: Result<String, ParseError>)
    ensures
        match r {
            Ok(name) => spec_parse_string(ops@, from as nat) matches Ok((text, _)) && text == name@,
            Err(e) => spec_parse_string(ops@, from as nat) == Err::<(Seq<char>, nat), ParseError>(e),
        },
{
    match parse_string(ops, from) {
        Ok((name, _)) => Ok(name),
        Err(e) => Err(e),
    }
}

/// Decodes one instruction from its opcode and its operands.
///
/// An instruction with fewer operands than its opcode asks for fails as
/// incomplete; a number that names no value of the enumeration it is read
/// for fails as an unknown constant, and a name that is no string as an
/// invalid string. An opcode that is not interpreted does not fail: the
/// instruction is kept as `Unknown`, with the opcode and the operands.
pub fn decode_instruction(opcode: u16, ops: &[u32]) -> (r: Result<Instruction, ParseError>)
    ensures
        spec_instruction_result(r) == spec_decode_instruction(opcode, ops@),
{
    if ops.len() < min_operands(opcode) {
        return Err(ParseError::IncompleteInstruction);
    }
    match opcode {
        0 => Ok(Instruction::Nop),
        5 => match decode_name(ops, 1) {
            Err(e) => Err(e),
            Ok(name) => Ok(Instruction::Name { target_id: ops[0], name }),
        },
        6 => match decode_name(ops, 2) {
            Err(e) => Err(e),
            Ok(name) => Ok(Instruction::MemberName { target_id: ops[0], member: ops[1], name }),
        },
        11 => match decode_name(ops, 1) {
            Err(e) => Err(e),
            Ok(name) => Ok(Instruction::ExtInstImport { result_id: ops[0], name }),
        },
        14 => match AddressingModel::from_num(ops[0]) {
            Err(e) => Err(e),
            Ok(addressing) => match MemoryModel::from_num(ops[1]) {
                Err(e) => Err(e),
                Ok(memory) => Ok(Instruction::MemoryModel(addressing, memory)),
            },
        },
        15 => decode_entry_point(ops),
        17 => match Capability::from_num(ops[0]) {
            Err(e) => Err(e),
            Ok(cap) => Ok(Instruction::Capability(cap)),
        },
        19 => Ok(Instruction::TypeVoid { result_id: ops[0] }),
        20 => Ok(Instruction::TypeBool { result_id: ops[0] }),
        21 => Ok(
            Instruction::TypeInt { result_id: ops[0], width: ops[1], signedness: ops[2] != 0 },
        ),
        22 => Ok(Instruction::TypeFloat { result_id: ops[0], width: ops[1] }),
        23 => Ok(
            Instruction::TypeVector { result_id: ops[0], component_id: ops[1], count: ops[2] },
        ),
        24 => Ok(
            Instruction::TypeMatrix {
                result_id: ops[0],
                column_type_id: ops[1],
                column_count: ops[2],
            },
        ),
        25 => decode_image(ops),
        26 => Ok(Instruction::TypeSampler { result_id: ops[0] }),
        27 => Ok(Instruction::TypeSampledImage { result_id: ops[0], image_type_id: ops[1] }),
        28 => Ok(Instruction::TypeArray { result_id: ops[0], type_id: ops[1], length_id: ops[2] }),
        29 => Ok(Instruction::TypeRuntimeArray { result_id: ops[0], type_id: ops[1] }),
        30 => Ok(
            Instruction::TypeStruct { result_id: ops[0], member_types: operands_from(ops, 1) },
        ),
        31 => match decode_name(ops, 1) {
            Err(e) => Err(e),
            Ok(name) => Ok(Instruction::TypeOpaque { result_id: ops[0], name }),
        },
        32 => match StorageClass::from_num(ops[1]) {
            Err(e) => Err(e),
            Ok(storage_class) => Ok(
                Instruction::TypePointer { result_id: ops[0], storage_class, type_id: ops[2] },
            ),
        },
        43 => Ok(
            Instruction::Constant {
                result_type_id: ops[0],
                result_id: ops[1],
                data: operands_from(ops, 2),
            },
        ),
        56 => Ok(Instruction::FunctionEnd),
        59 => match StorageClass::from_num(ops[2]) {
            Err(e) => Err(e),
            Ok(storage_class) => Ok(
                Instruction::Variable {
                    result_type_id: ops[0],
                    result_id: ops[1],
                    storage_class,
                    initializer: if ops.len() >= 4 {
                        Some(ops[3])
                    } else {
                        None
                    },
                },
            ),
        },
        71 => match Decoration::from_num(ops[1]) {
            Err(e) => Err(e),
            Ok(decoration) => Ok(
                Instruction::Decorate {
                    target_id: ops[0],
                    decoration,
                    params: operands_from(ops, 2),
                },
            ),
        },
        72 => match Decoration::from_num(ops[2]) {
            Err(e) => Err(e),
            Ok(decoration) => Ok(
                Instruction::MemberDecorate {
                    target_id: ops[0],
                    member: ops[1],
                    decoration,
                    params: operands_from(ops, 3),
                },
            ),
        },
        248 => Ok(Instruction::Label { result_id: ops[0] }),
        249 => Ok(Instruction::Branch { result_id: ops[0] }),
        252 => Ok(Instruction::Kill),
        253 => Ok(Instruction::Return),
        _ => {
            assert(ops@.skip(0) =~= ops@);
            Ok(Instruction::Unknown(opcode, operands_from(ops, 0)))
        },
    }
}

/// The number of words of an instruction, which the upper half of its first
/// word holds.
pub open spec fn spec_word_count(w: u32) -> nat {
    (w / 0x1_0000) as nat
}

/// The opcode of an instruction, which the lower half of its first word
/// holds.
pub open spec fn spec_opcode(w: u32) -> u16 {
    (w % 0x1_0000) as u16
}

/// The major and the minor version, which the two middle bytes of the
/// second word of the header hold.
pub open spec fn spec_version(w: u32) -> (u8, u8) {
    (((w / 0x1_0000) % 0x100) as u8, ((w / 0x100) % 0x100) as u8)
}

/// The instructions that the words from index `from` on hold, one after the
/// other to the end of the words. An instruction takes as many words as its
/// first word says, that word included. A count of zero is refused, and so
/// is one that reaches past the end of the words. The first instruction
/// that fails is the failure of the whole.
pub open spec fn spec_parse_instructions(words: Seq<u32>, from: nat) -> Result<
    Seq<InstructionView>,
    ParseError,
>
    decreases words.len() - from,
{
    if from >= words.len() {
        Ok(Seq::empty())
    } else {
        let count = spec_word_count(words[from as int]);
        if count == 0 {
            Err(ParseError::InvalidWordCount)
        } else if from + count > words.len() {
            Err(ParseError::IncompleteInstruction)
        } else {
            match spec_decode_instruction(
                spec_opcode(words[from as int]),
                words.subrange((from + 1) as int, (from + count) as int),
            ) {
                Err(e) => Err(e),
                Ok(i) => match spec_parse_instructions(words, from + count) {
                    Err(e) => Err(e),
                    Ok(rest) => Ok(seq![i] + rest),
                },
            }
        }
    }
}

/// The module that the words hold: the header, of which the version and the
/// bound of the identifiers are kept, and behind it the instructions.
pub open spec fn spec_parse_words(words: Seq<u32>) -> Result<SpirvView, ParseError> {
    if words.len() < HEADER_WORDS {
        Err(ParseError::MissingHeader)
    } else if words[0] != MAGIC {
        Err(ParseError::WrongHeader)
    } else {
        match spec_parse_instructions(words, HEADER_WORDS as nat) {
            Err(e) => Err(e),
            Ok(instructions) => Ok(
                SpirvView { version: spec_version(words[1]), bound: words[3], instructions },
            ),
        }
    }
}

/// The module that the bytes hold.
pub open spec fn spec_parse_spirv(data: Seq<u8>) -> Result<SpirvView, ParseError> {
    match spec_words(data) {
        Err(e) => Err(e),
        Ok(words) => spec_parse_words(words),
    }
}

/// The view of the module, or the error as it is.
pub open spec fn spec_module_result(r: Result<Spirv, ParseError>) -> Result<
    SpirvView,
    ParseError,
> {
    match r {
        Ok(doc) => Ok(doc@),
        Err(e) => Err(e),
    }
}

/// Reads the instructions that the words from index `from` on hold.
pub fn parse_instructions(words: &[u32], from: usize) -> (r: Result<Vec<Instruction>, ParseError>)
    ensures
        match r {
            Ok(instructions) => spec_parse_instructions(words@, from as nat) == Ok::<
                Seq<InstructionView>,
                ParseError,
            >(views(instructions@)),
            Err(e) => spec_parse_instructions(words@, from as nat) == Err::<
                Seq<InstructionView>,
                ParseError,
            >(e),
        },
{
    let mut out: Vec<Instruction> = Vec::new();
    let ghost target = spec_parse_instructions(words@, from as nat);
    assert(views(out@) + target->Ok_0 =~= target->Ok_0);
    let mut pos: usize = from;
    while pos < words.len()
        invariant
            target == spec_parse_instructions(words@, from as nat),
            (match spec_parse_instructions(words@, pos as nat) {
                Ok(rest) => Ok::<Seq<InstructionView>, ParseError>(views(out@) + rest),
                Err(e) => Err(e),
            }) == target,
        decreases words.len() - pos,
    {
        let first = words[pos];
        assert(first >> 16 == first / 0x1_0000 && first & 0xffff == first % 0x1_0000
            && first >> 16 <= 0xffff) by (bit_vector);
        let count = (first >> 16) as usize;
        let opcode = (first & 0xffff) as u16;
        if count == 0 {
            return Err(ParseError::InvalidWordCount);
        }
        if count > words.len() - pos {
            return Err(ParseError::IncompleteInstruction);
        }
        let ghost before = views(out@);
        match decode_instruction(opcode, slice_subrange(words, pos + 1, pos + count)) {
            Err(e) => {
                return Err(e);
            },
            Ok(i) => {
                proof {
                    lemma_views_push(out@, i);
                    if let Ok(rest) = spec_parse_instructions(words@, (pos + count) as nat) {
                        assert((before + seq![i@]) + rest =~= before + (seq![i@] + rest));
                    }
                    assert(before.push(i@) =~= before + seq![i@]);
                }
                out.push(i);
            },
        }
        pos += count;
    }
    assert(views(out@) + Seq::<InstructionView>::empty() =~= views(out@));
    Ok(out)
}

/// Parses a module from its words, their byte order already dealt with.
///
/// It fails with `MissingHeader` on fewer words than the header has, with
/// `WrongHeader` where the first word is not the magic number, and as the
/// first instruction that fails: with `InvalidWordCount` for an instruction
/// of no words, with `IncompleteInstruction` for one that reaches past the
/// end or has too few operands, and with what its operands fail with.
pub fn parse_u32s(words: &[u32]) -> (r: Result<Spirv, ParseError>)
    ensures
        spec_module_result(r) == spec_parse_words(words@),
{
    if words.len() < HEADER_WORDS {
        return Err(ParseError::MissingHeader);
    }
    if words[0] != MAGIC {
        return Err(ParseError::WrongHeader);
    }
    let v = words[1];
    assert((v >> 16) & 0xff == (v / 0x1_0000) % 0x100 && (v >> 8) & 0xff == (v / 0x100) % 0x100)
        by (bit_vector);
    let version = (((v >> 16) & 0xff) as u8, ((v >> 8) & 0xff) as u8);
    match parse_instructions(words, HEADER_WORDS) {
        Err(e) => Err(e),
        Ok(instructions) => Ok(Spirv { version, bound: words[3], instructions }),
    }
}

/// Parses a module from its bytes, in whichever byte order they are.
///
/// The bytes must hold the five words of the header and begin with the
/// magic number; behind the header every instruction must be whole. A
/// module that decodes is returned with its instructions in the order of
/// the bytes; one that does not is refused with the reason, and nothing of
/// it is returned.
pub fn parse_spirv(data: &[u8]) -> (r: Result<Spirv, ParseError>)
    ensures
        spec_module_result(r) == spec_parse_spirv(data@),
{
    match words_of(data) {
        Err(e) => Err(e),
        Ok(words) => parse_u32s(words.as_slice()),
    }
}

} // verus!
