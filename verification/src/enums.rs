//! The enumerations of the binary format that instructions refer to, each with
//! its numbering in both directions.

use crate::parse::ParseError;
use vstd::prelude::*;

verus! {

/// Names the enumeration in which a number was not found.
#[derive(Debug, Clone, Copy, PartialEq, Eq, Structural)]
pub enum ConstantKind {
    ExecutionModel,
    AddressingModel,
    MemoryModel,
    StorageClass,
    Dim,
    ImageFormat,
    AccessQualifier,
    Decoration,
    Capability,
    /// The three-valued depth marker of an image type.
    ImageDepth,
    /// The three-valued sampling marker of an image type.
    ImageSampled,
}

/// The pipeline stage an entry point runs in.
#[derive(Debug, Clone, Copy, PartialEq, Eq, Structural)]
pub enum ExecutionModel {
    ExecutionModelVertex,
    ExecutionModelTessellationControl,
    ExecutionModelTessellationEvaluation,
    ExecutionModelGeometry,
    ExecutionModelFragment,
    ExecutionModelGLCompute,
    ExecutionModelKernel,
}

impl ExecutionModel {
    /// The number that stands for this value in a module.
    pub open spec fn spec_num(self) -> u32 {
        match self {
            ExecutionModel::ExecutionModelVertex => 0,
            ExecutionModel::ExecutionModelTessellationControl => 1,
            ExecutionModel::ExecutionModelTessellationEvaluation => 2,
            ExecutionModel::ExecutionModelGeometry => 3,
            ExecutionModel::ExecutionModelFragment => 4,
            ExecutionModel::ExecutionModelGLCompute => 5,
            ExecutionModel::ExecutionModelKernel => 6,
        }
    }

    /// The value that `num` stands for, if any.
    pub open spec fn spec_from_num(num: u32) -> Option<ExecutionModel> {
        match num {
            0 => Some(ExecutionModel::ExecutionModelVertex),
            1 => Some(ExecutionModel::ExecutionModelTessellationControl),
            2 => Some(ExecutionModel::ExecutionModelTessellationEvaluation),
            3 => Some(ExecutionModel::ExecutionModelGeometry),
            4 => Some(ExecutionModel::ExecutionModelFragment),
            5 => Some(ExecutionModel::ExecutionModelGLCompute),
            6 => Some(ExecutionModel::ExecutionModelKernel),
            _ => None,
        }
    }

    /// Numbering a value and reading the number back gives the value again.
    pub proof fn lemma_num_roundtrip(self)
        ensures
            ExecutionModel::spec_from_num(self.spec_num()) == Some(self),
    {
    }

    /// What reading `num` gives: the value it stands for, or the error that
    /// carries the number.
    pub open spec fn spec_read(num: u32) -> Result<ExecutionModel, ParseError> {
        match ExecutionModel::spec_from_num(num) {
            Some(v) => Ok(v),
            None => Err(ParseError::UnknownConstant(ConstantKind::ExecutionModel, num)),
        }
    }

    /// Returns the number that stands for this value in a module.
    pub fn to_num(&self) -> (num: u32)
        ensures
            num == self.spec_num(),
    {
        match self {
            ExecutionModel::ExecutionModelVertex => 0,
            ExecutionModel::ExecutionModelTessellationControl => 1,
            ExecutionModel::ExecutionModelTessellationEvaluation => 2,
            ExecutionModel::ExecutionModelGeometry => 3,
            ExecutionModel::ExecutionModelFragment => 4,
            ExecutionModel::ExecutionModelGLCompute => 5,
            ExecutionModel::ExecutionModelKernel => 6,
        }
    }

    /// Reads a value from its number; a number outside the enumeration is an
    /// `UnknownConstant` error that carries it.
    pub fn from_num(num: u32) -> (r: Result<ExecutionModel, ParseError>)
        ensures
            r == ExecutionModel::spec_read(num),
    {
        match num {
            0 => Ok(ExecutionModel::ExecutionModelVertex),
            1 => Ok(ExecutionModel::ExecutionModelTessellationControl),
            2 => Ok(ExecutionModel::ExecutionModelTessellationEvaluation),
            3 => Ok(ExecutionModel::ExecutionModelGeometry),
            4 => Ok(ExecutionModel::ExecutionModelFragment),
            5 => Ok(ExecutionModel::ExecutionModelGLCompute),
            6 => Ok(ExecutionModel::ExecutionModelKernel),
            _ => Err(ParseError::UnknownConstant(ConstantKind::ExecutionModel, num)),
        }
    }
}

/// How a module addresses memory.
#[derive(Debug, Clone, Copy, PartialEq, Eq, Structural)]
pub enum AddressingModel {
    AddressingModelLogical,
    AddressingModelPhysical32,
    AddressingModelPhysical64,
}

impl AddressingModel {
    /// The number that stands for this value in a module.
    pub open spec fn spec_num(self) -> u32 {
        match self {
            AddressingModel::AddressingModelLogical => 0,
            AddressingModel::AddressingModelPhysical32 => 1,
            AddressingModel::AddressingModelPhysical64 => 2,
        }
    }

    /// The value that `num` stands for, if any.
    pub open spec fn spec_from_num(num: u32) -> Option<AddressingModel> {
        match num {
            0 => Some(AddressingModel::AddressingModelLogical),
            1 => Some(AddressingModel::AddressingModelPhysical32),
            2 => Some(AddressingModel::AddressingModelPhysical64),
            _ => None,
        }
    }

    /// Numbering a value and reading the number back gives the value again.
    pub proof fn lemma_num_roundtrip(self)
        ensures
            AddressingModel::spec_from_num(self.spec_num()) == Some(self),
    {
    }

    /// What reading `num` gives: the value it stands for, or the error that
    /// carries the number.
    pub open spec fn spec_read(num: u32) -> Result<AddressingModel, ParseError> {
        match AddressingModel::spec_from_num(num) {
            Some(v) => Ok(v),
            None => Err(ParseError::UnknownConstant(ConstantKind::AddressingModel, num)),
        }
    }

    /// Returns the number that stands for this value in a module.
    pub fn to_num(&self) -> (num: u32)
        ensures
            num == self.spec_num(),
    {
        match self {
            AddressingModel::AddressingModelLogical => 0,
            AddressingModel::AddressingModelPhysical32 => 1,
            AddressingModel::AddressingModelPhysical64 => 2,
        }
    }

    /// Reads a value from its number; a number outside the enumeration is an
    /// `UnknownConstant` error that carries it.
    pub fn from_num(num: u32) -> (r: Result<AddressingModel, ParseError>)
        ensures
            r == AddressingModel::spec_read(num),
    {
        match num {
            0 => Ok(AddressingModel::AddressingModelLogical),
            1 => Ok(AddressingModel::AddressingModelPhysical32),
            2 => Ok(AddressingModel::AddressingModelPhysical64),
            _ => Err(ParseError::UnknownConstant(ConstantKind::AddressingModel, num)),
        }
    }
}

/// The memory consistency model a module declares.
#[derive(Debug, Clone, Copy, PartialEq, Eq, Structural)]
pub enum MemoryModel {
    MemoryModelSimple,
    MemoryModelGLSL450,
    MemoryModelOpenCL,
}

impl MemoryModel {
    /// The number that stands for this value in a module.
    pub open spec fn spec_num(self) -> u32 {
        match self {
            MemoryModel::MemoryModelSimple => 0,
            MemoryModel::MemoryModelGLSL450 => 1,
            MemoryModel::MemoryModelOpenCL => 2,
        }
    }

    /// The value that `num` stands for, if any.
    pub open spec fn spec_from_num(num: u32) -> Option<MemoryModel> {
        match num {
            0 => Some(MemoryModel::MemoryModelSimple),
            1 => Some(MemoryModel::MemoryModelGLSL450),
            2 => Some(MemoryModel::MemoryModelOpenCL),
            _ => None,
        }
    }

    /// Numbering a value and reading the number back gives the value again.
    pub proof fn lemma_num_roundtrip(self)
        ensures
            MemoryModel::spec_from_num(self.spec_num()) == Some(self),
    {
    }

    /// What reading `num` gives: the value it stands for, or the error that
    /// carries the number.
    pub open spec fn spec_read(num: u32) -> Result<MemoryModel, ParseError> {
        match MemoryModel::spec_from_num(num) {
            Some(v) => Ok(v),
            None => Err(ParseError::UnknownConstant(ConstantKind::MemoryModel, num)),
        }
    }

    /// Returns the number that stands for this value in a module.
    pub fn to_num(&self) -> (num: u32)
        ensures
            num == self.spec_num(),
    {
        match self {
            MemoryModel::MemoryModelSimple => 0,
            MemoryModel::MemoryModelGLSL450 => 1,
            MemoryModel::MemoryModelOpenCL => 2,
        }
    }

    /// Reads a value from its number; a number outside the enumeration is an
    /// `UnknownConstant` error that carries it.
    pub fn from_num(num: u32) -> (r: Result<MemoryModel, ParseError>)
        ensures
            r == MemoryModel::spec_read(num),
    {
        match num {
            0 => Ok(MemoryModel::MemoryModelSimple),
            1 => Ok(MemoryModel::MemoryModelGLSL450),
            2 => Ok(MemoryModel::MemoryModelOpenCL),
            _ => Err(ParseError::UnknownConstant(ConstantKind::MemoryModel, num)),
        }
    }
}

/// Where a variable or the target of a pointer lives.
#[derive(Debug, Clone, Copy, PartialEq, Eq, Structural)]
pub enum StorageClass {
    StorageClassUniformConstant,
    StorageClassInput,
    StorageClassUniform,
    StorageClassOutput,
    StorageClassWorkgroup,
    StorageClassCrossWorkgroup,
    StorageClassPrivate,
    StorageClassFunction,
    StorageClassGeneric,
    StorageClassPushConstant,
    StorageClassAtomicCounter,
    StorageClassImage,
}

impl StorageClass {
    /// The number that stands for this value in a module.
    pub open spec fn spec_num(self) -> u32 {
        match self {
            StorageClass::StorageClassUniformConstant => 0,
            StorageClass::StorageClassInput => 1,
            StorageClass::StorageClassUniform => 2,
            StorageClass::StorageClassOutput => 3,
            StorageClass::StorageClassWorkgroup => 4,
            StorageClass::StorageClassCrossWorkgroup => 5,
            StorageClass::StorageClassPrivate => 6,
            StorageClass::StorageClassFunction => 7,
            StorageClass::StorageClassGeneric => 8,
            StorageClass::StorageClassPushConstant => 9,
            StorageClass::StorageClassAtomicCounter => 10,
            StorageClass::StorageClassImage => 11,
        }
    }

    /// The value that `num` stands for, if any.
    pub open spec fn spec_from_num(num: u32) -> Option<StorageClass> {
        match num {
            0 => Some(StorageClass::StorageClassUniformConstant),
            1 => Some(StorageClass::StorageClassInput),
            2 => Some(StorageClass::StorageClassUniform),
            3 => Some(StorageClass::StorageClassOutput),
            4 => Some(StorageClass::StorageClassWorkgroup),
            5 => Some(StorageClass::StorageClassCrossWorkgroup),
            6 => Some(StorageClass::StorageClassPrivate),
            7 => Some(StorageClass::StorageClassFunction),
            8 => Some(StorageClass::StorageClassGeneric),
            9 => Some(StorageClass::StorageClassPushConstant),
            10 => Some(StorageClass::StorageClassAtomicCounter),
            11 => Some(StorageClass::StorageClassImage),
            _ => None,
        }
    }

    /// Numbering a value and reading the number back gives the value again.
    pub proof fn lemma_num_roundtrip(self)
        ensures
            StorageClass::spec_from_num(self.spec_num()) == Some(self),
    {
    }

    /// What reading `num` gives: the value it stands for, or the error that
    /// carries the number.
    pub open spec fn spec_read(num: u32) -> Result<StorageClass, ParseError> {
        match StorageClass::spec_from_num(num) {
            Some(v) => Ok(v),
            None => Err(ParseError::UnknownConstant(ConstantKind::StorageClass, num)),
        }
    }

    /// Returns the number that stands for this value in a module.
    pub fn to_num(&self) -> (num: u32)
        ensures
            num == self.spec_num(),
    {
        match self {
            StorageClass::StorageClassUniformConstant => 0,
            StorageClass::StorageClassInput => 1,
            StorageClass::StorageClassUniform => 2,
            StorageClass::StorageClassOutput => 3,
            StorageClass::StorageClassWorkgroup => 4,
            StorageClass::StorageClassCrossWorkgroup => 5,
            StorageClass::StorageClassPrivate => 6,
            StorageClass::StorageClassFunction => 7,
            StorageClass::StorageClassGeneric => 8,
            StorageClass::StorageClassPushConstant => 9,
            StorageClass::StorageClassAtomicCounter => 10,
            StorageClass::StorageClassImage => 11,
        }
    }

    /// Reads a value from its number; a number outside the enumeration is an
    /// `UnknownConstant` error that carries it.
    pub fn from_num(num: u32) -> (r: Result<StorageClass, ParseError>)
        ensures
            r == StorageClass::spec_read(num),
    {
        match num {
            0 => Ok(StorageClass::StorageClassUniformConstant),
            1 => Ok(StorageClass::StorageClassInput),
            2 => Ok(StorageClass::StorageClassUniform),
            3 => Ok(StorageClass::StorageClassOutput),
            4 => Ok(StorageClass::StorageClassWorkgroup),
            5 => Ok(StorageClass::StorageClassCrossWorkgroup),
            6 => Ok(StorageClass::StorageClassPrivate),
            7 => Ok(StorageClass::StorageClassFunction),
            8 => Ok(StorageClass::StorageClassGeneric),
            9 => Ok(StorageClass::StorageClassPushConstant),
            10 => Ok(StorageClass::StorageClassAtomicCounter),
            11 => Ok(StorageClass::StorageClassImage),
            _ => Err(ParseError::UnknownConstant(ConstantKind::StorageClass, num)),
        }
    }
}

/// Dimensionality of an image type.
#[derive(Debug, Clone, Copy, PartialEq, Eq, Structural)]
pub enum Dim {
    Dim1D,
    Dim2D,
    Dim3D,
    DimCube,
    DimRect,
    DimBuffer,
    DimSubpassData,
}

impl Dim {
    /// The number that stands for this value in a module.
    pub open spec fn spec_num(self) -> u32 {
        match self {
            Dim::Dim1D => 0,
            Dim::Dim2D => 1,
            Dim::Dim3D => 2,
            Dim::DimCube => 3,
            Dim::DimRect => 4,
            Dim::DimBuffer => 5,
            Dim::DimSubpassData => 6,
        }
    }

    /// The value that `num` stands for, if any.
    pub open spec fn spec_from_num(num: u32) -> Option<Dim> {
        match num {
            0 => Some(Dim::Dim1D),
            1 => Some(Dim::Dim2D),
            2 => Some(Dim::Dim3D),
            3 => Some(Dim::DimCube),
            4 => Some(Dim::DimRect),
            5 => Some(Dim::DimBuffer),
            6 => Some(Dim::DimSubpassData),
            _ => None,
        }
    }

    /// Numbering a value and reading the number back gives the value again.
    pub proof fn lemma_num_roundtrip(self)
        ensures
            Dim::spec_from_num(self.spec_num()) == Some(self),
    {
    }

    /// What reading `num` gives: the value it stands for, or the error that
    /// carries the number.
    pub open spec fn spec_read(num: u32) -> Result<Dim, ParseError> {
        match Dim::spec_from_num(num) {
            Some(v) => Ok(v),
            None => Err(ParseError::UnknownConstant(ConstantKind::Dim, num)),
        }
    }

    /// Returns the number that stands for this value in a module.
    pub fn to_num(&self) -> (num: u32)
        ensures
            num == self.spec_num(),
    {
        match self {
            Dim::Dim1D => 0,
            Dim::Dim2D => 1,
            Dim::Dim3D => 2,
            Dim::DimCube => 3,
            Dim::DimRect => 4,
            Dim::DimBuffer => 5,
            Dim::DimSubpassData => 6,
        }
    }

    /// Reads a value from its number; a number outside the enumeration is an
    /// `UnknownConstant` error that carries it.
    pub fn from_num(num: u32) -> (r: Result<Dim, ParseError>)
        ensures
            r == Dim::spec_read(num),
    {
        match num {
            0 => Ok(Dim::Dim1D),
            1 => Ok(Dim::Dim2D),
            2 => Ok(Dim::Dim3D),
            3 => Ok(Dim::DimCube),
            4 => Ok(Dim::DimRect),
            5 => Ok(Dim::DimBuffer),
            6 => Ok(Dim::DimSubpassData),
            _ => Err(ParseError::UnknownConstant(ConstantKind::Dim, num)),
        }
    }
}

/// Texel format declared by an image type.
#[derive(Debug, Clone, Copy, PartialEq, Eq, Structural)]
pub enum ImageFormat {
    ImageFormatUnknown,
    ImageFormatRgba32f,
    ImageFormatRgba16f,
    ImageFormatR32f,
    ImageFormatRgba8,
    ImageFormatRgba8Snorm,
    ImageFormatRg32f,
    ImageFormatRg16f,
    ImageFormatR11fG11fB10f,
    ImageFormatR16f,
    ImageFormatRgba16,
    ImageFormatRgb10A2,
    ImageFormatRg16,
    ImageFormatRg8,
    ImageFormatR16,
    ImageFormatR8,
    ImageFormatRgba16Snorm,
    ImageFormatRg16Snorm,
    ImageFormatRg8Snorm,
    ImageFormatR16Snorm,
    ImageFormatR8Snorm,
    ImageFormatRgba32i,
    ImageFormatRgba16i,
    ImageFormatRgba8i,
    ImageFormatR32i,
    ImageFormatRg32i,
    ImageFormatRg16i,
    ImageFormatRg8i,
    ImageFormatR16i,
    ImageFormatR8i,
    ImageFormatRgba32ui,
    ImageFormatRgba16ui,
    ImageFormatRgba8ui,
    ImageFormatR32ui,
    ImageFormatRgb10a2ui,
    ImageFormatRg32ui,
    ImageFormatRg16ui,
    ImageFormatRg8ui,
    ImageFormatR16ui,
    ImageFormatR8ui,
}

impl ImageFormat {
    /// The number that stands for this value in a module.
    pub open spec fn spec_num(self) -> u32 {
        match self {
            ImageFormat::ImageFormatUnknown => 0,
            ImageFormat::ImageFormatRgba32f => 1,
            ImageFormat::ImageFormatRgba16f => 2,
            ImageFormat::ImageFormatR32f => 3,
            ImageFormat::ImageFormatRgba8 => 4,
            ImageFormat::ImageFormatRgba8Snorm => 5,
            ImageFormat::ImageFormatRg32f => 6,
            ImageFormat::ImageFormatRg16f => 7,
            ImageFormat::ImageFormatR11fG11fB10f => 8,
            ImageFormat::ImageFormatR16f => 9,
            ImageFormat::ImageFormatRgba16 => 10,
            ImageFormat::ImageFormatRgb10A2 => 11,
            ImageFormat::ImageFormatRg16 => 12,
            ImageFormat::ImageFormatRg8 => 13,
            ImageFormat::ImageFormatR16 => 14,
            ImageFormat::ImageFormatR8 => 15,
            ImageFormat::ImageFormatRgba16Snorm => 16,
            ImageFormat::ImageFormatRg16Snorm => 17,
            ImageFormat::ImageFormatRg8Snorm => 18,
            ImageFormat::ImageFormatR16Snorm => 19,
            ImageFormat::ImageFormatR8Snorm => 20,
            ImageFormat::ImageFormatRgba32i => 21,
            ImageFormat::ImageFormatRgba16i => 22,
            ImageFormat::ImageFormatRgba8i => 23,
            ImageFormat::ImageFormatR32i => 24,
            ImageFormat::ImageFormatRg32i => 25,
            ImageFormat::ImageFormatRg16i => 26,
            ImageFormat::ImageFormatRg8i => 27,
            ImageFormat::ImageFormatR16i => 28,
            ImageFormat::ImageFormatR8i => 29,
            ImageFormat::ImageFormatRgba32ui => 30,
            ImageFormat::ImageFormatRgba16ui => 31,
            ImageFormat::ImageFormatRgba8ui => 32,
            ImageFormat::ImageFormatR32ui => 33,
            ImageFormat::ImageFormatRgb10a2ui => 34,
            ImageFormat::ImageFormatRg32ui => 35,
            ImageFormat::ImageFormatRg16ui => 36,
            ImageFormat::ImageFormatRg8ui => 37,
            ImageFormat::ImageFormatR16ui => 38,
            ImageFormat::ImageFormatR8ui => 39,
        }
    }

    /// The value that `num` stands for, if any.
    pub open spec fn spec_from_num(num: u32) -> Option<ImageFormat> {
        match num {
            0 => Some(ImageFormat::ImageFormatUnknown),
            1 => Some(ImageFormat::ImageFormatRgba32f),
            2 => Some(ImageFormat::ImageFormatRgba16f),
            3 => Some(ImageFormat::ImageFormatR32f),
            4 => Some(ImageFormat::ImageFormatRgba8),
            5 => Some(ImageFormat::ImageFormatRgba8Snorm),
            6 => Some(ImageFormat::ImageFormatRg32f),
            7 => Some(ImageFormat::ImageFormatRg16f),
            8 => Some(ImageFormat::ImageFormatR11fG11fB10f),
            9 => Some(ImageFormat::ImageFormatR16f),
            10 => Some(ImageFormat::ImageFormatRgba16),
            11 => Some(ImageFormat::ImageFormatRgb10A2),
            12 => Some(ImageFormat::ImageFormatRg16),
            13 => Some(ImageFormat::ImageFormatRg8),
            14 => Some(ImageFormat::ImageFormatR16),
            15 => Some(ImageFormat::ImageFormatR8),
            16 => Some(ImageFormat::ImageFormatRgba16Snorm),
            17 => Some(ImageFormat::ImageFormatRg16Snorm),
            18 => Some(ImageFormat::ImageFormatRg8Snorm),
            19 => Some(ImageFormat::ImageFormatR16Snorm),
            20 => Some(ImageFormat::ImageFormatR8Snorm),
            21 => Some(ImageFormat::ImageFormatRgba32i),
            22 => Some(ImageFormat::ImageFormatRgba16i),
            23 => Some(ImageFormat::ImageFormatRgba8i),
            24 => Some(ImageFormat::ImageFormatR32i),
            25 => Some(ImageFormat::ImageFormatRg32i),
            26 => Some(ImageFormat::ImageFormatRg16i),
            27 => Some(ImageFormat::ImageFormatRg8i),
            28 => Some(ImageFormat::ImageFormatR16i),
            29 => Some(ImageFormat::ImageFormatR8i),
            30 => Some(ImageFormat::ImageFormatRgba32ui),
            31 => Some(ImageFormat::ImageFormatRgba16ui),
            32 => Some(ImageFormat::ImageFormatRgba8ui),
            33 => Some(ImageFormat::ImageFormatR32ui),
            34 => Some(ImageFormat::ImageFormatRgb10a2ui),
            35 => Some(ImageFormat::ImageFormatRg32ui),
            36 => Some(ImageFormat::ImageFormatRg16ui),
            37 => Some(ImageFormat::ImageFormatRg8ui),
            38 => Some(ImageFormat::ImageFormatR16ui),
            39 => Some(ImageFormat::ImageFormatR8ui),
            _ => None,
        }
    }

    /// Numbering a value and reading the number back gives the value again.
    pub proof fn lemma_num_roundtrip(self)
        ensures
            ImageFormat::spec_from_num(self.spec_num()) == Some(self),
    {
    }

    /// What reading `num` gives: the value it stands for, or the error that
    /// carries the number.
    pub open spec fn spec_read(num: u32) -> Result<ImageFormat, ParseError> {
        match ImageFormat::spec_from_num(num) {
            Some(v) => Ok(v),
            None => Err(ParseError::UnknownConstant(ConstantKind::ImageFormat, num)),
        }
    }

    /// Returns the number that stands for this value in a module.
    pub fn to_num(&self) -> (num: u32)
        ensures
            num == self.spec_num(),
    {
        match self {
            ImageFormat::ImageFormatUnknown => 0,
            ImageFormat::ImageFormatRgba32f => 1,
            ImageFormat::ImageFormatRgba16f => 2,
            ImageFormat::ImageFormatR32f => 3,
            ImageFormat::ImageFormatRgba8 => 4,
            ImageFormat::ImageFormatRgba8Snorm => 5,
            ImageFormat::ImageFormatRg32f => 6,
            ImageFormat::ImageFormatRg16f => 7,
            ImageFormat::ImageFormatR11fG11fB10f => 8,
            ImageFormat::ImageFormatR16f => 9,
            ImageFormat::ImageFormatRgba16 => 10,
            ImageFormat::ImageFormatRgb10A2 => 11,
            ImageFormat::ImageFormatRg16 => 12,
            ImageFormat::ImageFormatRg8 => 13,
            ImageFormat::ImageFormatR16 => 14,
            ImageFormat::ImageFormatR8 => 15,
            ImageFormat::ImageFormatRgba16Snorm => 16,
            ImageFormat::ImageFormatRg16Snorm => 17,
            ImageFormat::ImageFormatRg8Snorm => 18,
            ImageFormat::ImageFormatR16Snorm => 19,
            ImageFormat::ImageFormatR8Snorm => 20,
            ImageFormat::ImageFormatRgba32i => 21,
            ImageFormat::ImageFormatRgba16i => 22,
            ImageFormat::ImageFormatRgba8i => 23,
            ImageFormat::ImageFormatR32i => 24,
            ImageFormat::ImageFormatRg32i => 25,
            ImageFormat::ImageFormatRg16i => 26,
            ImageFormat::ImageFormatRg8i => 27,
            ImageFormat::ImageFormatR16i => 28,
            ImageFormat::ImageFormatR8i => 29,
            ImageFormat::ImageFormatRgba32ui => 30,
            ImageFormat::ImageFormatRgba16ui => 31,
            ImageFormat::ImageFormatRgba8ui => 32,
            ImageFormat::ImageFormatR32ui => 33,
            ImageFormat::ImageFormatRgb10a2ui => 34,
            ImageFormat::ImageFormatRg32ui => 35,
            ImageFormat::ImageFormatRg16ui => 36,
            ImageFormat::ImageFormatRg8ui => 37,
            ImageFormat::ImageFormatR16ui => 38,
            ImageFormat::ImageFormatR8ui => 39,
        }
    }

    /// Reads a value from its number; a number outside the enumeration is an
    /// `UnknownConstant` error that carries it.
    pub fn from_num(num: u32) -> (r: Result<ImageFormat, ParseError>)
        ensures
            r == ImageFormat::spec_read(num),
    {
        match num {
            0 => Ok(ImageFormat::ImageFormatUnknown),
            1 => Ok(ImageFormat::ImageFormatRgba32f),
            2 => Ok(ImageFormat::ImageFormatRgba16f),
            3 => Ok(ImageFormat::ImageFormatR32f),
            4 => Ok(ImageFormat::ImageFormatRgba8),
            5 => Ok(ImageFormat::ImageFormatRgba8Snorm),
            6 => Ok(ImageFormat::ImageFormatRg32f),
            7 => Ok(ImageFormat::ImageFormatRg16f),
            8 => Ok(ImageFormat::ImageFormatR11fG11fB10f),
            9 => Ok(ImageFormat::ImageFormatR16f),
            10 => Ok(ImageFormat::ImageFormatRgba16),
            11 => Ok(ImageFormat::ImageFormatRgb10A2),
            12 => Ok(ImageFormat::ImageFormatRg16),
            13 => Ok(ImageFormat::ImageFormatRg8),
            14 => Ok(ImageFormat::ImageFormatR16),
            15 => Ok(ImageFormat::ImageFormatR8),
            16 => Ok(ImageFormat::ImageFormatRgba16Snorm),
            17 => Ok(ImageFormat::ImageFormatRg16Snorm),
            18 => Ok(ImageFormat::ImageFormatRg8Snorm),
            19 => Ok(ImageFormat::ImageFormatR16Snorm),
            20 => Ok(ImageFormat::ImageFormatR8Snorm),
            21 => Ok(ImageFormat::ImageFormatRgba32i),
            22 => Ok(ImageFormat::ImageFormatRgba16i),
            23 => Ok(ImageFormat::ImageFormatRgba8i),
            24 => Ok(ImageFormat::ImageFormatR32i),
            25 => Ok(ImageFormat::ImageFormatRg32i),
            26 => Ok(ImageFormat::ImageFormatRg16i),
            27 => Ok(ImageFormat::ImageFormatRg8i),
            28 => Ok(ImageFormat::ImageFormatR16i),
            29 => Ok(ImageFormat::ImageFormatR8i),
            30 => Ok(ImageFormat::ImageFormatRgba32ui),
            31 => Ok(ImageFormat::ImageFormatRgba16ui),
            32 => Ok(ImageFormat::ImageFormatRgba8ui),
            33 => Ok(ImageFormat::ImageFormatR32ui),
            34 => Ok(ImageFormat::ImageFormatRgb10a2ui),
            35 => Ok(ImageFormat::ImageFormatRg32ui),
            36 => Ok(ImageFormat::ImageFormatRg16ui),
            37 => Ok(ImageFormat::ImageFormatRg8ui),
            38 => Ok(ImageFormat::ImageFormatR16ui),
            39 => Ok(ImageFormat::ImageFormatR8ui),
            _ => Err(ParseError::UnknownConstant(ConstantKind::ImageFormat, num)),
        }
    }
}

/// Declared access to an image.
#[derive(Debug, Clone, Copy, PartialEq, Eq, Structural)]
pub enum AccessQualifier {
    AccessQualifierReadOnly,
    AccessQualifierWriteOnly,
    AccessQualifierReadWrite,
}

impl AccessQualifier {
    /// The number that stands for this value in a module.
    pub open spec fn spec_num(self) -> u32 {
        match self {
            AccessQualifier::AccessQualifierReadOnly => 0,
            AccessQualifier::AccessQualifierWriteOnly => 1,
            AccessQualifier::AccessQualifierReadWrite => 2,
        }
    }

    /// The value that `num` stands for, if any.
    pub open spec fn spec_from_num(num: u32) -> Option<AccessQualifier> {
        match num {
            0 => Some(AccessQualifier::AccessQualifierReadOnly),
            1 => Some(AccessQualifier::AccessQualifierWriteOnly),
            2 => Some(AccessQualifier::AccessQualifierReadWrite),
            _ => None,
        }
    }

    /// Numbering a value and reading the number back gives the value again.
    pub proof fn lemma_num_roundtrip(self)
        ensures
            AccessQualifier::spec_from_num(self.spec_num()) == Some(self),
    {
    }

    /// What reading `num` gives: the value it stands for, or the error that
    /// carries the number.
    pub open spec fn spec_read(num: u32) -> Result<AccessQualifier, ParseError> {
        match AccessQualifier::spec_from_num(num) {
            Some(v) => Ok(v),
            None => Err(ParseError::UnknownConstant(ConstantKind::AccessQualifier, num)),
        }
    }

    /// Returns the number that stands for this value in a module.
    pub fn to_num(&self) -> (num: u32)
        ensures
            num == self.spec_num(),
    {
        match self {
            AccessQualifier::AccessQualifierReadOnly => 0,
            AccessQualifier::AccessQualifierWriteOnly => 1,
            AccessQualifier::AccessQualifierReadWrite => 2,
        }
    }

    /// Reads a value from its number; a number outside the enumeration is an
    /// `UnknownConstant` error that carries it.
    pub fn from_num(num: u32) -> (r: Result<AccessQualifier, ParseError>)
        ensures
            r == AccessQualifier::spec_read(num),
    {
        match num {
            0 => Ok(AccessQualifier::AccessQualifierReadOnly),
            1 => Ok(AccessQualifier::AccessQualifierWriteOnly),
            2 => Ok(AccessQualifier::AccessQualifierReadWrite),
            _ => Err(ParseError::UnknownConstant(ConstantKind::AccessQualifier, num)),
        }
    }
}

/// Kind of metadata attached to an identifier or a struct member.
#[derive(Debug, Clone, Copy, PartialEq, Eq, Structural)]
pub enum Decoration {
    DecorationRelaxedPrecision,
    DecorationSpecId,
    DecorationBlock,
    DecorationBufferBlock,
    DecorationRowMajor,
    DecorationColMajor,
    DecorationArrayStride,
    DecorationMatrixStride,
    DecorationGLSLShared,
    DecorationGLSLPacked,
    DecorationCPacked,
    DecorationBuiltIn,
    DecorationNoPerspective,
    DecorationFlat,
    DecorationPatch,
    DecorationCentroid,
    DecorationSample,
    DecorationInvariant,
    DecorationRestrict,
    DecorationAliased,
    DecorationVolatile,
    DecorationConstant,
    DecorationCoherent,
    DecorationNonWritable,
    DecorationNonReadable,
    DecorationUniform,
    DecorationSaturatedConversion,
    DecorationStream,
    DecorationLocation,
    DecorationComponent,
    DecorationIndex,
    DecorationBinding,
    DecorationDescriptorSet,
    DecorationOffset,
    DecorationXfbBuffer,
    DecorationXfbStride,
    DecorationFuncParamAttr,
    DecorationFPRoundingMode,
    DecorationFPFastMathMode,
    DecorationLinkageAttributes,
    DecorationNoContraction,
    DecorationInputAttachmentIndex,
    DecorationAlignment,
}

impl Decoration {
    /// The number that stands for this value in a module.
    pub open spec fn spec_num(self) -> u32 {
        match self {
            Decoration::DecorationRelaxedPrecision => 0,
            Decoration::DecorationSpecId => 1,
            Decoration::DecorationBlock => 2,
            Decoration::DecorationBufferBlock => 3,
            Decoration::DecorationRowMajor => 4,
            Decoration::DecorationColMajor => 5,
            Decoration::DecorationArrayStride => 6,
            Decoration::DecorationMatrixStride => 7,
            Decoration::DecorationGLSLShared => 8,
            Decoration::DecorationGLSLPacked => 9,
            Decoration::DecorationCPacked => 10,
            Decoration::DecorationBuiltIn => 11,
            Decoration::DecorationNoPerspective => 13,
            Decoration::DecorationFlat => 14,
            Decoration::DecorationPatch => 15,
            Decoration::DecorationCentroid => 16,
            Decoration::DecorationSample => 17,
            Decoration::DecorationInvariant => 18,
            Decoration::DecorationRestrict => 19,
            Decoration::DecorationAliased => 20,
            Decoration::DecorationVolatile => 21,
            Decoration::DecorationConstant => 22,
            Decoration::DecorationCoherent => 23,
            Decoration::DecorationNonWritable => 24,
            Decoration::DecorationNonReadable => 25,
            Decoration::DecorationUniform => 26,
            Decoration::DecorationSaturatedConversion => 28,
            Decoration::DecorationStream => 29,
            Decoration::DecorationLocation => 30,
            Decoration::DecorationComponent => 31,
            Decoration::DecorationIndex => 32,
            Decoration::DecorationBinding => 33,
            Decoration::DecorationDescriptorSet => 34,
            Decoration::DecorationOffset => 35,
            Decoration::DecorationXfbBuffer => 36,
            Decoration::DecorationXfbStride => 37,
            Decoration::DecorationFuncParamAttr => 38,
            Decoration::DecorationFPRoundingMode => 39,
            Decoration::DecorationFPFastMathMode => 40,
            Decoration::DecorationLinkageAttributes => 41,
            Decoration::DecorationNoContraction => 42,
            Decoration::DecorationInputAttachmentIndex => 43,
            Decoration::DecorationAlignment => 44,
        }
    }

    /// The value that `num` stands for, if any.
    pub open spec fn spec_from_num(num: u32) -> Option<Decoration> {
        match num {
            0 => Some(Decoration::DecorationRelaxedPrecision),
            1 => Some(Decoration::DecorationSpecId),
            2 => Some(Decoration::DecorationBlock),
            3 => Some(Decoration::DecorationBufferBlock),
            4 => Some(Decoration::DecorationRowMajor),
            5 => Some(Decoration::DecorationColMajor),
            6 => Some(Decoration::DecorationArrayStride),
            7 => Some(Decoration::DecorationMatrixStride),
            8 => Some(Decoration::DecorationGLSLShared),
            9 => Some(Decoration::DecorationGLSLPacked),
            10 => Some(Decoration::DecorationCPacked),
            11 => Some(Decoration::DecorationBuiltIn),
            13 => Some(Decoration::DecorationNoPerspective),
            14 => Some(Decoration::DecorationFlat),
            15 => Some(Decoration::DecorationPatch),
            16 => Some(Decoration::DecorationCentroid),
            17 => Some(Decoration::DecorationSample),
            18 => Some(Decoration::DecorationInvariant),
            19 => Some(Decoration::DecorationRestrict),
            20 => Some(Decoration::DecorationAliased),
            21 => Some(Decoration::DecorationVolatile),
            22 => Some(Decoration::DecorationConstant),
            23 => Some(Decoration::DecorationCoherent),
            24 => Some(Decoration::DecorationNonWritable),
            25 => Some(Decoration::DecorationNonReadable),
            26 => Some(Decoration::DecorationUniform),
            28 => Some(Decoration::DecorationSaturatedConversion),
            29 => Some(Decoration::DecorationStream),
            30 => Some(Decoration::DecorationLocation),
            31 => Some(Decoration::DecorationComponent),
            32 => Some(Decoration::DecorationIndex),
            33 => Some(Decoration::DecorationBinding),
            34 => Some(Decoration::DecorationDescriptorSet),
            35 => Some(Decoration::DecorationOffset),
            36 => Some(Decoration::DecorationXfbBuffer),
            37 => Some(Decoration::DecorationXfbStride),
            38 => Some(Decoration::DecorationFuncParamAttr),
            39 => Some(Decoration::DecorationFPRoundingMode),
            40 => Some(Decoration::DecorationFPFastMathMode),
            41 => Some(Decoration::DecorationLinkageAttributes),
            42 => Some(Decoration::DecorationNoContraction),
            43 => Some(Decoration::DecorationInputAttachmentIndex),
            44 => Some(Decoration::DecorationAlignment),
            _ => None,
        }
    }

    /// Numbering a value and reading the number back gives the value again.
    pub proof fn lemma_num_roundtrip(self)
        ensures
            Decoration::spec_from_num(self.spec_num()) == Some(self),
    {
    }

    /// What reading `num` gives: the value it stands for, or the error that
    /// carries the number.
    pub open spec fn spec_read(num: u32) -> Result<Decoration, ParseError> {
        match Decoration::spec_from_num(num) {
            Some(v) => Ok(v),
            None => Err(ParseError::UnknownConstant(ConstantKind::Decoration, num)),
        }
    }

    /// Returns the number that stands for this value in a module.
    pub fn to_num(&self) -> (num: u32)
        ensures
            num == self.spec_num(),
    {
        match self {
            Decoration::DecorationRelaxedPrecision => 0,
            Decoration::DecorationSpecId => 1,
            Decoration::DecorationBlock => 2,
            Decoration::DecorationBufferBlock => 3,
            Decoration::DecorationRowMajor => 4,
            Decoration::DecorationColMajor => 5,
            Decoration::DecorationArrayStride => 6,
            Decoration::DecorationMatrixStride => 7,
            Decoration::DecorationGLSLShared => 8,
            Decoration::DecorationGLSLPacked => 9,
            Decoration::DecorationCPacked => 10,
            Decoration::DecorationBuiltIn => 11,
            Decoration::DecorationNoPerspective => 13,
            Decoration::DecorationFlat => 14,
            Decoration::DecorationPatch => 15,
            Decoration::DecorationCentroid => 16,
            Decoration::DecorationSample => 17,
            Decoration::DecorationInvariant => 18,
            Decoration::DecorationRestrict => 19,
            Decoration::DecorationAliased => 20,
            Decoration::DecorationVolatile => 21,
            Decoration::DecorationConstant => 22,
            Decoration::DecorationCoherent => 23,
            Decoration::DecorationNonWritable => 24,
            Decoration::DecorationNonReadable => 25,
            Decoration::DecorationUniform => 26,
            Decoration::DecorationSaturatedConversion => 28,
            Decoration::DecorationStream => 29,
            Decoration::DecorationLocation => 30,
            Decoration::DecorationComponent => 31,
            Decoration::DecorationIndex => 32,
            Decoration::DecorationBinding => 33,
            Decoration::DecorationDescriptorSet => 34,
            Decoration::DecorationOffset => 35,
            Decoration::DecorationXfbBuffer => 36,
            Decoration::DecorationXfbStride => 37,
            Decoration::DecorationFuncParamAttr => 38,
            Decoration::DecorationFPRoundingMode => 39,
            Decoration::DecorationFPFastMathMode => 40,
            Decoration::DecorationLinkageAttributes => 41,
            Decoration::DecorationNoContraction => 42,
            Decoration::DecorationInputAttachmentIndex => 43,
            Decoration::DecorationAlignment => 44,
        }
    }

    /// Reads a value from its number; a number outside the enumeration is an
    /// `UnknownConstant` error that carries it.
    pub fn from_num(num: u32) -> (r: Result<Decoration, ParseError>)
        ensures
            r == Decoration::spec_read(num),
    {
        match num {
            0 => Ok(Decoration::DecorationRelaxedPrecision),
            1 => Ok(Decoration::DecorationSpecId),
            2 => Ok(Decoration::DecorationBlock),
            3 => Ok(Decoration::DecorationBufferBlock),
            4 => Ok(Decoration::DecorationRowMajor),
            5 => Ok(Decoration::DecorationColMajor),
            6 => Ok(Decoration::DecorationArrayStride),
            7 => Ok(Decoration::DecorationMatrixStride),
            8 => Ok(Decoration::DecorationGLSLShared),
            9 => Ok(Decoration::DecorationGLSLPacked),
            10 => Ok(Decoration::DecorationCPacked),
            11 => Ok(Decoration::DecorationBuiltIn),
            13 => Ok(Decoration::DecorationNoPerspective),
            14 => Ok(Decoration::DecorationFlat),
            15 => Ok(Decoration::DecorationPatch),
            16 => Ok(Decoration::DecorationCentroid),
            17 => Ok(Decoration::DecorationSample),
            18 => Ok(Decoration::DecorationInvariant),
            19 => Ok(Decoration::DecorationRestrict),
            20 => Ok(Decoration::DecorationAliased),
            21 => Ok(Decoration::DecorationVolatile),
            22 => Ok(Decoration::DecorationConstant),
            23 => Ok(Decoration::DecorationCoherent),
            24 => Ok(Decoration::DecorationNonWritable),
            25 => Ok(Decoration::DecorationNonReadable),
            26 => Ok(Decoration::DecorationUniform),
            28 => Ok(Decoration::DecorationSaturatedConversion),
            29 => Ok(Decoration::DecorationStream),
            30 => Ok(Decoration::DecorationLocation),
            31 => Ok(Decoration::DecorationComponent),
            32 => Ok(Decoration::DecorationIndex),
            33 => Ok(Decoration::DecorationBinding),
            34 => Ok(Decoration::DecorationDescriptorSet),
            35 => Ok(Decoration::DecorationOffset),
            36 => Ok(Decoration::DecorationXfbBuffer),
            37 => Ok(Decoration::DecorationXfbStride),
            38 => Ok(Decoration::DecorationFuncParamAttr),
            39 => Ok(Decoration::DecorationFPRoundingMode),
            40 => Ok(Decoration::DecorationFPFastMathMode),
            41 => Ok(Decoration::DecorationLinkageAttributes),
            42 => Ok(Decoration::DecorationNoContraction),
            43 => Ok(Decoration::DecorationInputAttachmentIndex),
            44 => Ok(Decoration::DecorationAlignment),
            _ => Err(ParseError::UnknownConstant(ConstantKind::Decoration, num)),
        }
    }
}

/// Optional feature that a module declares it needs.
#[derive(Debug, Clone, Copy, PartialEq, Eq, Structural)]
pub enum Capability {
    CapabilityMatrix,
    CapabilityShader,
    CapabilityGeometry,
    CapabilityTessellation,
    CapabilityAddresses,
    CapabilityLinkage,
    CapabilityKernel,
    CapabilityVector16,
    CapabilityFloat16Buffer,
    CapabilityFloat16,
    CapabilityFloat64,
    CapabilityInt64,
    CapabilityInt64Atomics,
    CapabilityImageBasic,
    CapabilityImageReadWrite,
    CapabilityImageMipmap,
    CapabilityPipes,
    CapabilityGroups,
    CapabilityDeviceEnqueue,
    CapabilityLiteralSampler,
    CapabilityAtomicStorage,
    CapabilityInt16,
    CapabilityTessellationPointSize,
    CapabilityGeometryPointSize,
    CapabilityImageGatherExtended,
    CapabilityStorageImageMultisample,
    CapabilityUniformBufferArrayDynamicIndexing,
    CapabilitySampledImageArrayDynamicIndexing,
    CapabilityStorageBufferArrayDynamicIndexing,
    CapabilityStorageImageArrayDynamicIndexing,
    CapabilityClipDistance,
    CapabilityCullDistance,
    CapabilityImageCubeArray,
    CapabilitySampleRateShading,
    CapabilityImageRect,
    CapabilitySampledRect,
    CapabilityGenericPointer,
    CapabilityInt8,
    CapabilityInputAttachment,
    CapabilitySparseResidency,
    CapabilityMinLod,
    CapabilitySampled1D,
    CapabilityImage1D,
    CapabilitySampledCubeArray,
    CapabilitySampledBuffer,
    CapabilityImageBuffer,
    CapabilityImageMSArray,
    CapabilityStorageImageExtendedFormats,
    CapabilityImageQuery,
    CapabilityDerivativeControl,
    CapabilityInterpolationFunction,
    CapabilityTransformFeedback,
    CapabilityGeometryStreams,
    CapabilityStorageImageReadWithoutFormat,
    CapabilityStorageImageWriteWithoutFormat,
    CapabilityMultiViewport,
}

impl Capability {
    /// The number that stands for this value in a module.
    pub open spec fn spec_num(self) -> u32 {
        match self {
            Capability::CapabilityMatrix => 0,
            Capability::CapabilityShader => 1,
            Capability::CapabilityGeometry => 2,
            Capability::CapabilityTessellation => 3,
            Capability::CapabilityAddresses => 4,
            Capability::CapabilityLinkage => 5,
            Capability::CapabilityKernel => 6,
            Capability::CapabilityVector16 => 7,
            Capability::CapabilityFloat16Buffer => 8,
            Capability::CapabilityFloat16 => 9,
            Capability::CapabilityFloat64 => 10,
            Capability::CapabilityInt64 => 11,
            Capability::CapabilityInt64Atomics => 12,
            Capability::CapabilityImageBasic => 13,
            Capability::CapabilityImageReadWrite => 14,
            Capability::CapabilityImageMipmap => 15,
            Capability::CapabilityPipes => 17,
            Capability::CapabilityGroups => 18,
            Capability::CapabilityDeviceEnqueue => 19,
            Capability::CapabilityLiteralSampler => 20,
            Capability::CapabilityAtomicStorage => 21,
            Capability::CapabilityInt16 => 22,
            Capability::CapabilityTessellationPointSize => 23,
            Capability::CapabilityGeometryPointSize => 24,
            Capability::CapabilityImageGatherExtended => 25,
            Capability::CapabilityStorageImageMultisample => 27,
            Capability::CapabilityUniformBufferArrayDynamicIndexing => 28,
            Capability::CapabilitySampledImageArrayDynamicIndexing => 29,
            Capability::CapabilityStorageBufferArrayDynamicIndexing => 30,
            Capability::CapabilityStorageImageArrayDynamicIndexing => 31,
            Capability::CapabilityClipDistance => 32,
            Capability::CapabilityCullDistance => 33,
            Capability::CapabilityImageCubeArray => 34,
            Capability::CapabilitySampleRateShading => 35,
            Capability::CapabilityImageRect => 36,
            Capability::CapabilitySampledRect => 37,
            Capability::CapabilityGenericPointer => 38,
            Capability::CapabilityInt8 => 39,
            Capability::CapabilityInputAttachment => 40,
            Capability::CapabilitySparseResidency => 41,
            Capability::CapabilityMinLod => 42,
            Capability::CapabilitySampled1D => 43,
            Capability::CapabilityImage1D => 44,
            Capability::CapabilitySampledCubeArray => 45,
            Capability::CapabilitySampledBuffer => 46,
            Capability::CapabilityImageBuffer => 47,
            Capability::CapabilityImageMSArray => 48,
            Capability::CapabilityStorageImageExtendedFormats => 49,
            Capability::CapabilityImageQuery => 50,
            Capability::CapabilityDerivativeControl => 51,
            Capability::CapabilityInterpolationFunction => 52,
            Capability::CapabilityTransformFeedback => 53,
            Capability::CapabilityGeometryStreams => 54,
            Capability::CapabilityStorageImageReadWithoutFormat => 55,
            Capability::CapabilityStorageImageWriteWithoutFormat => 56,
            Capability::CapabilityMultiViewport => 57,
        }
    }

    /// The value that `num` stands for, if any.
    pub open spec fn spec_from_num(num: u32) -> Option<Capability> {
        match num {
            0 => Some(Capability::CapabilityMatrix),
            1 => Some(Capability::CapabilityShader),
            2 => Some(Capability::CapabilityGeometry),
            3 => Some(Capability::CapabilityTessellation),
            4 => Some(Capability::CapabilityAddresses),
            5 => Some(Capability::CapabilityLinkage),
            6 => Some(Capability::CapabilityKernel),
            7 => Some(Capability::CapabilityVector16),
            8 => Some(Capability::CapabilityFloat16Buffer),
            9 => Some(Capability::CapabilityFloat16),
            10 => Some(Capability::CapabilityFloat64),
            11 => Some(Capability::CapabilityInt64),
            12 => Some(Capability::CapabilityInt64Atomics),
            13 => Some(Capability::CapabilityImageBasic),
            14 => Some(Capability::CapabilityImageReadWrite),
            15 => Some(Capability::CapabilityImageMipmap),
            17 => Some(Capability::CapabilityPipes),
            18 => Some(Capability::CapabilityGroups),
            19 => Some(Capability::CapabilityDeviceEnqueue),
            20 => Some(Capability::CapabilityLiteralSampler),
            21 => Some(Capability::CapabilityAtomicStorage),
            22 => Some(Capability::CapabilityInt16),
            23 => Some(Capability::CapabilityTessellationPointSize),
            24 => Some(Capability::CapabilityGeometryPointSize),
            25 => Some(Capability::CapabilityImageGatherExtended),
            27 => Some(Capability::CapabilityStorageImageMultisample),
            28 => Some(Capability::CapabilityUniformBufferArrayDynamicIndexing),
            29 => Some(Capability::CapabilitySampledImageArrayDynamicIndexing),
            30 => Some(Capability::CapabilityStorageBufferArrayDynamicIndexing),
            31 => Some(Capability::CapabilityStorageImageArrayDynamicIndexing),
            32 => Some(Capability::CapabilityClipDistance),
            33 => Some(Capability::CapabilityCullDistance),
            34 => Some(Capability::CapabilityImageCubeArray),
            35 => Some(Capability::CapabilitySampleRateShading),
            36 => Some(Capability::CapabilityImageRect),
            37 => Some(Capability::CapabilitySampledRect),
            38 => Some(Capability::CapabilityGenericPointer),
            39 => Some(Capability::CapabilityInt8),
            40 => Some(Capability::CapabilityInputAttachment),
            41 => Some(Capability::CapabilitySparseResidency),
            42 => Some(Capability::CapabilityMinLod),
            43 => Some(Capability::CapabilitySampled1D),
            44 => Some(Capability::CapabilityImage1D),
            45 => Some(Capability::CapabilitySampledCubeArray),
            46 => Some(Capability::CapabilitySampledBuffer),
            47 => Some(Capability::CapabilityImageBuffer),
            48 => Some(Capability::CapabilityImageMSArray),
            49 => Some(Capability::CapabilityStorageImageExtendedFormats),
            50 => Some(Capability::CapabilityImageQuery),
            51 => Some(Capability::CapabilityDerivativeControl),
            52 => Some(Capability::CapabilityInterpolationFunction),
            53 => Some(Capability::CapabilityTransformFeedback),
            54 => Some(Capability::CapabilityGeometryStreams),
            55 => Some(Capability::CapabilityStorageImageReadWithoutFormat),
            56 => Some(Capability::CapabilityStorageImageWriteWithoutFormat),
            57 => Some(Capability::CapabilityMultiViewport),
            _ => None,
        }
    }

    /// Numbering a value and reading the number back gives the value again.
    pub proof fn lemma_num_roundtrip(self)
        ensures
            Capability::spec_from_num(self.spec_num()) == Some(self),
    {
    }

    /// What reading `num` gives: the value it stands for, or the error that
    /// carries the number.
    pub open spec fn spec_read(num: u32) -> Result<Capability, ParseError> {
        match Capability::spec_from_num(num) {
            Some(v) => Ok(v),
            None => Err(ParseError::UnknownConstant(ConstantKind::Capability, num)),
        }
    }

    /// Returns the number that stands for this value in a module.
    pub fn to_num(&self) -> (num: u32)
        ensures
            num == self.spec_num(),
    {
        match self {
            Capability::CapabilityMatrix => 0,
            Capability::CapabilityShader => 1,
            Capability::CapabilityGeometry => 2,
            Capability::CapabilityTessellation => 3,
            Capability::CapabilityAddresses => 4,
            Capability::CapabilityLinkage => 5,
            Capability::CapabilityKernel => 6,
            Capability::CapabilityVector16 => 7,
            Capability::CapabilityFloat16Buffer => 8,
            Capability::CapabilityFloat16 => 9,
            Capability::CapabilityFloat64 => 10,
            Capability::CapabilityInt64 => 11,
            Capability::CapabilityInt64Atomics => 12,
            Capability::CapabilityImageBasic => 13,
            Capability::CapabilityImageReadWrite => 14,
            Capability::CapabilityImageMipmap => 15,
            Capability::CapabilityPipes => 17,
            Capability::CapabilityGroups => 18,
            Capability::CapabilityDeviceEnqueue => 19,
            Capability::CapabilityLiteralSampler => 20,
            Capability::CapabilityAtomicStorage => 21,
            Capability::CapabilityInt16 => 22,
            Capability::CapabilityTessellationPointSize => 23,
            Capability::CapabilityGeometryPointSize => 24,
            Capability::CapabilityImageGatherExtended => 25,
            Capability::CapabilityStorageImageMultisample => 27,
            Capability::CapabilityUniformBufferArrayDynamicIndexing => 28,
            Capability::CapabilitySampledImageArrayDynamicIndexing => 29,
            Capability::CapabilityStorageBufferArrayDynamicIndexing => 30,
            Capability::CapabilityStorageImageArrayDynamicIndexing => 31,
            Capability::CapabilityClipDistance => 32,
            Capability::CapabilityCullDistance => 33,
            Capability::CapabilityImageCubeArray => 34,
            Capability::CapabilitySampleRateShading => 35,
            Capability::CapabilityImageRect => 36,
            Capability::CapabilitySampledRect => 37,
            Capability::CapabilityGenericPointer => 38,
            Capability::CapabilityInt8 => 39,
            Capability::CapabilityInputAttachment => 40,
            Capability::CapabilitySparseResidency => 41,
            Capability::CapabilityMinLod => 42,
            Capability::CapabilitySampled1D => 43,
            Capability::CapabilityImage1D => 44,
            Capability::CapabilitySampledCubeArray => 45,
            Capability::CapabilitySampledBuffer => 46,
            Capability::CapabilityImageBuffer => 47,
            Capability::CapabilityImageMSArray => 48,
            Capability::CapabilityStorageImageExtendedFormats => 49,
            Capability::CapabilityImageQuery => 50,
            Capability::CapabilityDerivativeControl => 51,
            Capability::CapabilityInterpolationFunction => 52,
            Capability::CapabilityTransformFeedback => 53,
            Capability::CapabilityGeometryStreams => 54,
            Capability::CapabilityStorageImageReadWithoutFormat => 55,
            Capability::CapabilityStorageImageWriteWithoutFormat => 56,
            Capability::CapabilityMultiViewport => 57,
        }
    }

    /// Reads a value from its number; a number outside the enumeration is an
    /// `UnknownConstant` error that carries it.
    pub fn from_num(num: u32) -> (r: Result<Capability, ParseError>)
        ensures
            r == Capability::spec_read(num),
    {
        match num {
            0 => Ok(Capability::CapabilityMatrix),
            1 => Ok(Capability::CapabilityShader),
            2 => Ok(Capability::CapabilityGeometry),
            3 => Ok(Capability::CapabilityTessellation),
            4 => Ok(Capability::CapabilityAddresses),
            5 => Ok(Capability::CapabilityLinkage),
            6 => Ok(Capability::CapabilityKernel),
            7 => Ok(Capability::CapabilityVector16),
            8 => Ok(Capability::CapabilityFloat16Buffer),
            9 => Ok(Capability::CapabilityFloat16),
            10 => Ok(Capability::CapabilityFloat64),
            11 => Ok(Capability::CapabilityInt64),
            12 => Ok(Capability::CapabilityInt64Atomics),
            13 => Ok(Capability::CapabilityImageBasic),
            14 => Ok(Capability::CapabilityImageReadWrite),
            15 => Ok(Capability::CapabilityImageMipmap),
            17 => Ok(Capability::CapabilityPipes),
            18 => Ok(Capability::CapabilityGroups),
            19 => Ok(Capability::CapabilityDeviceEnqueue),
            20 => Ok(Capability::CapabilityLiteralSampler),
            21 => Ok(Capability::CapabilityAtomicStorage),
            22 => Ok(Capability::CapabilityInt16),
            23 => Ok(Capability::CapabilityTessellationPointSize),
            24 => Ok(Capability::CapabilityGeometryPointSize),
            25 => Ok(Capability::CapabilityImageGatherExtended),
            27 => Ok(Capability::CapabilityStorageImageMultisample),
            28 => Ok(Capability::CapabilityUniformBufferArrayDynamicIndexing),
            29 => Ok(Capability::CapabilitySampledImageArrayDynamicIndexing),
            30 => Ok(Capability::CapabilityStorageBufferArrayDynamicIndexing),
            31 => Ok(Capability::CapabilityStorageImageArrayDynamicIndexing),
            32 => Ok(Capability::CapabilityClipDistance),
            33 => Ok(Capability::CapabilityCullDistance),
            34 => Ok(Capability::CapabilityImageCubeArray),
            35 => Ok(Capability::CapabilitySampleRateShading),
            36 => Ok(Capability::CapabilityImageRect),
            37 => Ok(Capability::CapabilitySampledRect),
            38 => Ok(Capability::CapabilityGenericPointer),
            39 => Ok(Capability::CapabilityInt8),
            40 => Ok(Capability::CapabilityInputAttachment),
            41 => Ok(Capability::CapabilitySparseResidency),
            42 => Ok(Capability::CapabilityMinLod),
            43 => Ok(Capability::CapabilitySampled1D),
            44 => Ok(Capability::CapabilityImage1D),
            45 => Ok(Capability::CapabilitySampledCubeArray),
            46 => Ok(Capability::CapabilitySampledBuffer),
            47 => Ok(Capability::CapabilityImageBuffer),
            48 => Ok(Capability::CapabilityImageMSArray),
            49 => Ok(Capability::CapabilityStorageImageExtendedFormats),
            50 => Ok(Capability::CapabilityImageQuery),
            51 => Ok(Capability::CapabilityDerivativeControl),
            52 => Ok(Capability::CapabilityInterpolationFunction),
            53 => Ok(Capability::CapabilityTransformFeedback),
            54 => Ok(Capability::CapabilityGeometryStreams),
            55 => Ok(Capability::CapabilityStorageImageReadWithoutFormat),
            56 => Ok(Capability::CapabilityStorageImageWriteWithoutFormat),
            57 => Ok(Capability::CapabilityMultiViewport),
            _ => Err(ParseError::UnknownConstant(ConstantKind::Capability, num)),
        }
    }
}

} // verus!
