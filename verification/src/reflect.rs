//! The whole reflection pass: from the bytes of a module to the description
//! of its interface.

use crate::capabilities::{
    capabilities, required_features, spec_capabilities, spec_features, spec_names,
};
use crate::descriptor_sets::{
    descriptor_sets, spec_descriptor_sets, DescriptorSet, DescriptorSetView,
};
use crate::entry_point::{
    spec_entry_point, write_entry_point, EntryPointInterface, EntryPointInterfaceView,
};
use crate::enums::Capability;
use crate::error::Error;
use crate::parse::{parse_spirv, spec_parse_spirv, Instruction, InstructionView, Spirv};
use crate::structs::{
    spec_first_collision, spec_struct_layouts, struct_layouts, struct_name_collision,
    StructLayout, StructLayoutView,
};
use crate::views::{lemma_views_push, spec_followed_by, view_ok, views, views_ok};
use vstd::prelude::*;

verus! {

/// The description of the interface of a module.
#[derive(Debug, PartialEq, Eq)]
pub struct Reflection {
    /// The capabilities that the module declares, in the order of the
    /// declarations.
    pub capabilities: Vec<Capability>,
    /// The names of the device features that the capabilities need.
    pub features: Vec<&'static str>,
    /// The entry points, in the order of their declarations.
    pub entry_points: Vec<EntryPointInterface>,
    /// The structs, in the order of their declarations.
    pub structs: Vec<StructLayout>,
    /// The descriptor sets, in ascending order of their indices.
    pub descriptor_sets: Vec<DescriptorSet>,
}

/// What a [`Reflection`] holds, as mathematical values.
pub struct ReflectionView {
    pub capabilities: Seq<Capability>,
    pub features: Seq<Seq<char>>,
    pub entry_points: Seq<EntryPointInterfaceView>,
    pub structs: Seq<StructLayoutView>,
    pub descriptor_sets: Seq<DescriptorSetView>,
}

impl View for Reflection {
    type V = ReflectionView;

    open spec fn view(&self) -> ReflectionView {
        ReflectionView {
            capabilities: self.capabilities@,
            features: spec_names(self.features@),
            entry_points: views(self.entry_points@),
            structs: views(self.structs@),
            descriptor_sets: views(self.descriptor_sets@),
        }
    }
}

/// The descriptions of the entry points that the instructions from index
/// `from` on declare, in their order, or the failure of the first entry
/// point that fails.
pub open spec fn spec_entry_points(instructions: Seq<InstructionView>, from: nat) -> Result<
    Seq<EntryPointInterfaceView>,
    Error,
>
    decreases instructions.len() - from,
{
    if from >= instructions.len() {
        Ok(Seq::empty())
    } else if instructions[from as int] is EntryPoint {
        match spec_entry_point(instructions, instructions[from as int]) {
            Err(e) => Err(e),
            Ok(entry_point) => match spec_entry_points(instructions, from + 1) {
                Err(e) => Err(e),
                Ok(rest) => Ok(seq![entry_point] + rest),
            },
        }
    } else {
        spec_entry_points(instructions, from + 1)
    }
}

/// Returns the description of every entry point of the module, in the order
/// of the declarations, or the failure of the first entry point that fails.
pub fn entry_points(doc: &Spirv) -> (r: Result<Vec<EntryPointInterface>, Error>)
    ensures
        views_ok(r) == spec_entry_points(doc@.instructions, 0),
{
    let mut out: Vec<EntryPointInterface> = Vec::new();
    let ghost target = spec_entry_points(doc@.instructions, 0);
    assert(views(out@) + target->Ok_0 =~= target->Ok_0);
    let mut i: usize = 0;
    while i < doc.instructions.len()
        invariant
            target == spec_entry_points(doc@.instructions, 0),
            spec_followed_by(views(out@), spec_entry_points(doc@.instructions, i as nat))
                == target,
        decreases doc.instructions.len() - i,
    {
        let ghost before = views(out@);
        let instruction = &doc.instructions[i];
        match instruction {
            Instruction::EntryPoint { .. } => {
                match write_entry_point(doc, instruction) {
                    Err(e) => {
                        return Err(e);
                    },
                    Ok(ep) => {
                        proof {
                            lemma_views_push(out@, ep);
                            let rest = spec_entry_points(doc@.instructions, (i + 1) as nat);
                            if let Ok(r) = rest {
                                assert((before + seq![ep@]) + r =~= before + (seq![ep@] + r));
                            }
                            assert(before.push(ep@) =~= before + seq![ep@]);
                        }
                        out.push(ep);
                    },
                }
            },
            _ => {},
        }
        i += 1;
    }
    assert(views(out@) + Seq::<EntryPointInterfaceView>::empty() =~= views(out@));
    Ok(out)
}

/// The description of a module with the given instructions. The parts are
/// made in this order, and the first failure is the failure of the whole:
/// the features that the capabilities need, the entry points, the structs,
/// which must not collide in their names, and the descriptor sets.
pub open spec fn spec_reflect_module(instructions: Seq<InstructionView>) -> Result<
    ReflectionView,
    Error,
> {
    let caps = spec_capabilities(instructions, 0);
    match spec_features(caps, 0) {
        Err(e) => Err(e),
        Ok(features) => match spec_entry_points(instructions, 0) {
            Err(e) => Err(e),
            Ok(entry_points) => match spec_struct_layouts(instructions, 0) {
                Err(e) => Err(e),
                Ok(structs) => match spec_first_collision(structs) {
                    Some((i, j)) => Err(
                        Error::DuplicateStructName { first: structs[i].id, second: structs[j].id },
                    ),
                    None => match spec_descriptor_sets(instructions) {
                        Err(e) => Err(e),
                        Ok(sets) => Ok(
                            ReflectionView {
                                capabilities: caps,
                                features,
                                entry_points,
                                structs,
                                descriptor_sets: sets,
                            },
                        ),
                    },
                },
            },
        },
    }
}

/// The description of the module that the bytes hold.
pub open spec fn spec_reflect(data: Seq<u8>) -> Result<ReflectionView, Error> {
    match spec_parse_spirv(data) {
        Err(e) => Err(Error::ParseError(e)),
        Ok(doc) => spec_reflect_module(doc.instructions),
    }
}

/// Describes the interface of a decoded module: its capabilities and the
/// device features they need, its entry points, its structs and its
/// descriptor sets. Nothing is described in part: the first failure, in the
/// order just given, fails the pass.
pub fn reflect_module(doc: &Spirv) -> (r: Result<Reflection, Error>)
    ensures
        view_ok(r) == spec_reflect_module(doc@.instructions),
{
    let caps = capabilities(doc);
    let features = match required_features(&caps) {
        Ok(features) => features,
        Err(e) => {
            return Err(e);
        },
    };
    let eps = match entry_points(doc) {
        Ok(eps) => eps,
        Err(e) => {
            return Err(e);
        },
    };
    let structs = match struct_layouts(doc) {
        Ok(structs) => structs,
        Err(e) => {
            return Err(e);
        },
    };
    match struct_name_collision(&structs) {
        Some((i, j)) => {
            return Err(Error::DuplicateStructName { first: structs[i].id, second: structs[j].id });
        },
        None => {},
    }
    let sets = match descriptor_sets(doc) {
        Ok(sets) => sets,
        Err(e) => {
            return Err(e);
        },
    };
    Ok(
        Reflection {
            capabilities: caps,
            features,
            entry_points: eps,
            structs,
            descriptor_sets: sets,
        },
    )
}

/// Decodes the bytes of a module and describes its interface. The result is
/// the same whenever the bytes are the same: it depends on nothing else.
pub fn reflect(data: &[u8]) -> (r: Result<Reflection, Error>)
    ensures
        view_ok(r) == spec_reflect(data@),
{
    match parse_spirv(data) {
        Err(e) => Err(Error::ParseError(e)),
        Ok(doc) => reflect_module(&doc),
    }
}

/// Two passes over the same bytes give the same result: whatever
/// [`reflect`] returns for them, as a description or as a failure, it
/// returns each time.
pub proof fn lemma_reflect_repeats(
    data: Seq<u8>,
    first: Result<Reflection, Error>,
    second: Result<Reflection, Error>,
)
    requires
        view_ok(first) == spec_reflect(data),
        view_ok(second) == spec_reflect(data),
    ensures
        view_ok(first) == view_ok(second),
        first is Err ==> first == second,
{
}

} // verus!
