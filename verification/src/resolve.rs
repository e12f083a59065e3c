//! Queries over the instructions of a module: names and decorations, each
//! found by the identifier that it belongs to.

use crate::enums::Decoration;
use crate::parse::{Instruction, InstructionView, Spirv};
use vstd::prelude::*;

verus! {

/// A condition on one instruction that a search looks for.
#[derive(Debug, Clone, Copy, PartialEq, Eq, Structural)]
pub enum Query {
    /// A name given to `target`.
    Name { target: u32 },
    /// A name given to member `member` of the struct `target`.
    MemberName { target: u32, member: u32 },
    /// A decoration of this kind on `target`.
    Decoration { target: u32, decoration: Decoration },
    /// A decoration of this kind on `target` that carries an operand.
    DecorationValue { target: u32, decoration: Decoration },
    /// A decoration of this kind on member `member` of the struct `target`
    /// that carries an operand.
    MemberDecorationValue { target: u32, member: u32, decoration: Decoration },
    /// The declaration of the type `id`.
    TypeDeclaration { id: u32 },
    /// The constant `id`.
    Constant { id: u32 },
}

/// The identifier that an instruction declares as a type, if it declares
/// one.
pub open spec fn spec_declared_type(i: InstructionView) -> Option<u32> {
    match i {
        InstructionView::TypeVoid { result_id } => Some(result_id),
        InstructionView::TypeBool { result_id } => Some(result_id),
        InstructionView::TypeInt { result_id, .. } => Some(result_id),
        InstructionView::TypeFloat { result_id, .. } => Some(result_id),
        InstructionView::TypeVector { result_id, .. } => Some(result_id),
        InstructionView::TypeMatrix { result_id, .. } => Some(result_id),
        InstructionView::TypeImage { result_id, .. } => Some(result_id),
        InstructionView::TypeSampler { result_id } => Some(result_id),
        InstructionView::TypeSampledImage { result_id, .. } => Some(result_id),
        InstructionView::TypeArray { result_id, .. } => Some(result_id),
        InstructionView::TypeRuntimeArray { result_id, .. } => Some(result_id),
        InstructionView::TypeStruct { result_id, .. } => Some(result_id),
        InstructionView::TypeOpaque { result_id, .. } => Some(result_id),
        InstructionView::TypePointer { result_id, .. } => Some(result_id),
        _ => None,
    }
}

/// See [`spec_declared_type`].
pub fn declared_type(i: &Instruction) -> (id: Option<u32>)
    ensures
        id == spec_declared_type(i@),
{
    match i {
        Instruction::TypeVoid { result_id } => Some(*result_id),
        Instruction::TypeBool { result_id } => Some(*result_id),
        Instruction::TypeInt { result_id, .. } => Some(*result_id),
        Instruction::TypeFloat { result_id, .. } => Some(*result_id),
        Instruction::TypeVector { result_id, .. } => Some(*result_id),
        Instruction::TypeMatrix { result_id, .. } => Some(*result_id),
        Instruction::TypeImage { result_id, .. } => Some(*result_id),
        Instruction::TypeSampler { result_id } => Some(*result_id),
        Instruction::TypeSampledImage { result_id, .. } => Some(*result_id),
        Instruction::TypeArray { result_id, .. } => Some(*result_id),
        Instruction::TypeRuntimeArray { result_id, .. } => Some(*result_id),
        Instruction::TypeStruct { result_id, .. } => Some(*result_id),
        Instruction::TypeOpaque { result_id, .. } => Some(*result_id),
        Instruction::TypePointer { result_id, .. } => Some(*result_id),
        _ => None,
    }
}

impl Query {
    /// Whether the instruction meets the condition.
    pub open spec fn spec_matches(self, i: InstructionView) -> bool {
        match self {
            Query::Name { target } => i matches InstructionView::Name { target_id, .. }
                && target_id == target,
            Query::MemberName { target, member } => i matches InstructionView::MemberName {
                target_id,
                member: m,
                ..
            } && target_id == target && m == member,
            Query::Decoration { target, decoration } => i matches InstructionView::Decorate {
                target_id,
                decoration: d,
                ..
            } && target_id == target && d == decoration,
            Query::DecorationValue { target, decoration } => i matches InstructionView::Decorate {
                target_id,
                decoration: d,
                params,
            } && target_id == target && d == decoration && params.len() > 0,
            Query::MemberDecorationValue {
                target,
                member,
                decoration,
            } => i matches InstructionView::MemberDecorate {
                target_id,
                member: m,
                decoration: d,
                params,
            } && target_id == target && m == member && d == decoration && params.len() > 0,
            Query::TypeDeclaration { id } => spec_declared_type(i) == Some(id),
            Query::Constant { id } => i matches InstructionView::Constant { result_id, .. }
                && result_id == id,
        }
    }

    /// Whether the instruction meets the condition.
    pub fn matches(&self, i: &Instruction) -> (b: bool)
        ensures
            b == self.spec_matches(i@),
    {
        match *self {
            Query::Name { target } => match i {
                Instruction::Name { target_id, .. } => *target_id == target,
                _ => false,
            },
            Query::MemberName { target, member } => match i {
                Instruction::MemberName { target_id, member: m, .. } => *target_id == target
                    && *m == member,
                _ => false,
            },
            Query::Decoration { target, decoration } => match i {
                Instruction::Decorate { target_id, decoration: d, .. } => *target_id == target
                    && *d == decoration,
                _ => false,
            },
            Query::DecorationValue { target, decoration } => match i {
                Instruction::Decorate { target_id, decoration: d, params } => *target_id == target
                    && *d == decoration && params.len() > 0,
                _ => false,
            },
            Query::MemberDecorationValue { target, member, decoration } => match i {
                Instruction::MemberDecorate { target_id, member: m, decoration: d, params } => {
                    *target_id == target && *m == member && *d == decoration && params.len() > 0
                },
                _ => false,
            },
            Query::TypeDeclaration { id } => match declared_type(i) {
                Some(result_id) => result_id == id,
                None => false,
            },
            Query::Constant { id } => match i {
                Instruction::Constant { result_id, .. } => *result_id == id,
                _ => false,
            },
        }
    }
}

/// The index of the first instruction at or after `from` that meets the
/// condition, if there is one.
pub open spec fn spec_find(instructions: Seq<InstructionView>, q: Query, from: nat) -> Option<nat>
    decreases instructions.len() - from,
{
    if from >= instructions.len() {
        None
    } else if q.spec_matches(instructions[from as int]) {
        Some(from)
    } else {
        spec_find(instructions, q, from + 1)
    }
}

/// What a search returns is the least index from `from` on at which the
/// condition holds, and it returns nothing only where the condition holds at
/// no such index.
pub proof fn lemma_find_is_least(instructions: Seq<InstructionView>, q: Query, from: nat)
    ensures
        match spec_find(instructions, q, from) {
            Some(i) => {
                &&& from <= i < instructions.len()
                &&& q.spec_matches(instructions[i as int])
                &&& forall|j: int| from <= j < i ==> !q.spec_matches(#[trigger] instructions[j])
            },
            None => forall|j: int|
                from <= j < instructions.len() ==> !q.spec_matches(#[trigger] instructions[j]),
        },
    decreases instructions.len() - from,
{
    if from < instructions.len() && !q.spec_matches(instructions[from as int]) {
        lemma_find_is_least(instructions, q, from + 1);
    }
}

/// An index at which the condition holds bounds what a search from at or
/// before it returns.
pub proof fn lemma_find_finds(instructions: Seq<InstructionView>, q: Query, from: nat, at: nat)
    requires
        from <= at < instructions.len(),
        q.spec_matches(instructions[at as int]),
    ensures
        spec_find(instructions, q, from) matches Some(i) && i <= at,
{
    lemma_find_is_least(instructions, q, from);
}

/// Searches the module from index `from` on for the first instruction that
/// meets the condition.
pub fn find(doc: &Spirv, q: Query, from: usize) -> (r: Option<usize>)
    ensures
        match r {
            Some(i) => {
                &&& spec_find(doc@.instructions, q, from as nat) == Some(i as nat)
                &&& from <= i < doc.instructions.len()
                &&& q.spec_matches(doc@.instructions[i as int])
            },
            None => spec_find(doc@.instructions, q, from as nat) is None,
        },
{
    let mut i: usize = from;
    while i < doc.instructions.len()
        invariant
            from <= i,
            spec_find(doc@.instructions, q, from as nat) == spec_find(
                doc@.instructions,
                q,
                i as nat,
            ),
        decreases doc.instructions.len() - i,
    {
        if q.matches(&doc.instructions[i]) {
            return Some(i);
        }
        i += 1;
    }
    None
}

/// The name that stands in for a missing or empty one.
pub open spec fn spec_unnamed() -> Seq<char> {
    "__unnamed"@
}

/// A name as given, or the placeholder where it is empty.
pub open spec fn spec_name_or_unnamed(name: Seq<char>) -> Seq<char> {
    if name.len() > 0 {
        name
    } else {
        spec_unnamed()
    }
}

/// The name of `id`: the first one that the module gives it, or the
/// placeholder where it gives none or an empty one.
pub open spec fn spec_name_of(instructions: Seq<InstructionView>, id: u32) -> Seq<char> {
    match spec_find(instructions, Query::Name { target: id }, 0) {
        Some(i) => match instructions[i as int] {
            InstructionView::Name { name, .. } => spec_name_or_unnamed(name),
            _ => spec_unnamed(),
        },
        None => spec_unnamed(),
    }
}

/// Every identifier has a name: the name of an identifier is never empty,
/// and it is either the placeholder or what an instruction of the module
/// names the identifier.
pub proof fn lemma_name_is_given_or_placeholder(instructions: Seq<InstructionView>, id: u32)
    ensures
        spec_unnamed().len() > 0,
        spec_name_of(instructions, id).len() > 0,
        spec_name_of(instructions, id) == spec_unnamed() || exists|i: int|
            0 <= i < instructions.len() && #[trigger] instructions[i] == (InstructionView::Name {
                target_id: id,
                name: spec_name_of(instructions, id),
            }),
{
    reveal_strlit("__unnamed");
    lemma_find_is_least(instructions, Query::Name { target: id }, 0);
    if let Some(i) = spec_find(instructions, Query::Name { target: id }, 0) {
        if spec_name_of(instructions, id) != spec_unnamed() {
            assert(instructions[i as int] == (InstructionView::Name {
                target_id: id,
                name: spec_name_of(instructions, id),
            }));
        }
    }
}

/// The name of member `member` of the struct `id`, with the same fallback.
pub open spec fn spec_member_name_of(
    instructions: Seq<InstructionView>,
    id: u32,
    member: u32,
) -> Seq<char> {
    match spec_find(instructions, Query::MemberName { target: id, member }, 0) {
        Some(i) => match instructions[i as int] {
            InstructionView::MemberName { name, .. } => spec_name_or_unnamed(name),
            _ => spec_unnamed(),
        },
        None => spec_unnamed(),
    }
}

/// The operand of the first decoration of this kind on `id` that carries one.
pub open spec fn spec_decoration_value(
    instructions: Seq<InstructionView>,
    id: u32,
    decoration: Decoration,
) -> Option<u32> {
    match spec_find(instructions, Query::DecorationValue { target: id, decoration }, 0) {
        Some(i) => match instructions[i as int] {
            InstructionView::Decorate { params, .. } => Some(params[0]),
            _ => None,
        },
        None => None,
    }
}

/// The operand of the first decoration of this kind on member `member` of
/// the struct `id` that carries one.
pub open spec fn spec_member_decoration_value(
    instructions: Seq<InstructionView>,
    id: u32,
    member: u32,
    decoration: Decoration,
) -> Option<u32> {
    match spec_find(
        instructions,
        Query::MemberDecorationValue { target: id, member, decoration },
        0,
    ) {
        Some(i) => match instructions[i as int] {
            InstructionView::MemberDecorate { params, .. } => Some(params[0]),
            _ => None,
        },
        None => None,
    }
}

/// The location of `id`, if the module gives it one.
pub open spec fn spec_location_of(instructions: Seq<InstructionView>, id: u32) -> Option<u32> {
    spec_decoration_value(instructions, id, Decoration::DecorationLocation)
}

/// Whether some instruction of the module puts a decoration of this kind on
/// `id`.
pub open spec fn spec_has_decoration(
    instructions: Seq<InstructionView>,
    id: u32,
    decoration: Decoration,
) -> bool {
    exists|i: int|
        0 <= i < instructions.len() && (Query::Decoration { target: id, decoration }).spec_matches(
            #[trigger] instructions[i],
        )
}

/// Whether some instruction of the module marks `id` as built in.
pub open spec fn spec_is_builtin(instructions: Seq<InstructionView>, id: u32) -> bool {
    spec_has_decoration(instructions, id, Decoration::DecorationBuiltIn)
}

/// Returns the name as given, or the placeholder where it is empty.
fn name_or_unnamed(name: &String) -> (r: String)
    ensures
        r@ == spec_name_or_unnamed(name@),
{
    if name.as_str().is_empty() {
        "__unnamed".to_owned()
    } else {
        name.clone()
    }
}

/// Returns the name of `searched`. Every identifier has one: where the module
/// names it, that name, and the placeholder `__unnamed` where it does not or
/// where the name is empty.
pub fn name_from_id(doc: &Spirv, searched: u32) -> (name: String)
    ensures
        name@ == spec_name_of(doc@.instructions, searched),
        name@.len() > 0,
{
    proof {
        lemma_name_is_given_or_placeholder(doc@.instructions, searched);
    }
    match find(doc, Query::Name { target: searched }, 0) {
        Some(i) => match &doc.instructions[i] {
            Instruction::Name { name, .. } => name_or_unnamed(name),
            _ => "__unnamed".to_owned(),
        },
        None => "__unnamed".to_owned(),
    }
}

/// Returns the name of member `searched_member` of the struct `searched`,
/// with the fallback of [`name_from_id`].
pub fn member_name_from_id(doc: &Spirv, searched: u32, searched_member: u32) -> (name: String)
    ensures
        name@ == spec_member_name_of(doc@.instructions, searched, searched_member),
        name@.len() > 0 || name@ == spec_unnamed(),
{
    match find(doc, Query::MemberName { target: searched, member: searched_member }, 0) {
        Some(i) => match &doc.instructions[i] {
            Instruction::MemberName { name, .. } => name_or_unnamed(name),
            _ => "__unnamed".to_owned(),
        },
        None => "__unnamed".to_owned(),
    }
}

/// Returns the operand of the first decoration of the given kind on
/// `searched` that carries one, and `None` where the module holds no such
/// decoration.
pub fn decoration_value(doc: &Spirv, searched: u32, decoration: Decoration) -> (value: Option<u32>)
    ensures
        value == spec_decoration_value(doc@.instructions, searched, decoration),
{
    match find(doc, Query::DecorationValue { target: searched, decoration }, 0) {
        Some(i) => match &doc.instructions[i] {
            Instruction::Decorate { params, .. } => Some(params[0]),
            _ => None,
        },
        None => None,
    }
}

/// Returns the operand of the first decoration of the given kind on member
/// `member` of the struct `searched` that carries one, and `None` where the
/// module holds no such decoration.
pub fn member_decoration_value(
    doc: &Spirv,
    searched: u32,
    member: u32,
    decoration: Decoration,
) -> (value: Option<u32>)
    ensures
        value == spec_member_decoration_value(doc@.instructions, searched, member, decoration),
{
    match find(doc, Query::MemberDecorationValue { target: searched, member, decoration }, 0) {
        Some(i) => match &doc.instructions[i] {
            Instruction::MemberDecorate { params, .. } => Some(params[0]),
            _ => None,
        },
        None => None,
    }
}

/// Returns the location that the module gives to `searched`, if any.
pub fn location_decoration(doc: &Spirv, searched: u32) -> (location: Option<u32>)
    ensures
        location == spec_location_of(doc@.instructions, searched),
{
    decoration_value(doc, searched, Decoration::DecorationLocation)
}

/// Returns true if a decoration of the given kind is applied on `id`.
pub fn has_decoration(doc: &Spirv, id: u32, decoration: Decoration) -> (b: bool)
    ensures
        b == spec_has_decoration(doc@.instructions, id, decoration),
{
    let q = Query::Decoration { target: id, decoration };
    let r = find(doc, q, 0);
    proof {
        lemma_find_is_least(doc@.instructions, q, 0);
    }
    r.is_some()
}

/// Returns true if a `BuiltIn` decoration is applied on `id`.
pub fn is_builtin(doc: &Spirv, id: u32) -> (b: bool)
    ensures
        b == spec_is_builtin(doc@.instructions, id),
{
    has_decoration(doc, id, Decoration::DecorationBuiltIn)
}

} // verus!
