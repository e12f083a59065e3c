//! The layout of the structs that a module declares.

use crate::enums::Decoration;
use crate::error::Error;
use crate::parse::{Instruction, InstructionView, Spirv};
use crate::resolve::{
    member_decoration_value, member_name_from_id, name_from_id, spec_member_decoration_value,
    spec_member_name_of, spec_name_of,
};
use crate::types::{spec_type_of, type_from_id, TypeDesc, TypeDescView};
use crate::views::{lemma_views_push, spec_followed_by, view_ok, views, views_ok};
use vstd::prelude::*;

verus! {

/// One member of a struct.
#[derive(Debug, PartialEq, Eq)]
pub struct StructMember {
    pub name: String,
    pub ty: TypeDesc,
    /// Where the member starts, in bytes from the start of the struct, if the
    /// module says so.
    pub offset: Option<u32>,
}

/// What a [`StructMember`] holds, as mathematical values.
pub struct StructMemberView {
    pub name: Seq<char>,
    pub ty: TypeDescView,
    pub offset: Option<u32>,
}

impl View for StructMember {
    type V = StructMemberView;

    open spec fn view(&self) -> StructMemberView {
        StructMemberView { name: self.name@, ty: self.ty@, offset: self.offset }
    }
}

/// A struct of the module: its name and its members in the order of their
/// indices.
#[derive(Debug, PartialEq, Eq)]
pub struct StructLayout {
    /// The identifier of the struct type.
    pub id: u32,
    pub name: String,
    pub members: Vec<StructMember>,
}

/// What a [`StructLayout`] holds, as mathematical values.
pub struct StructLayoutView {
    pub id: u32,
    pub name: Seq<char>,
    pub members: Seq<StructMemberView>,
}

impl View for StructLayout {
    type V = StructLayoutView;

    open spec fn view(&self) -> StructLayoutView {
        StructLayoutView { id: self.id, name: self.name@, members: views(self.members@) }
    }
}

/// Member `index` of the struct `struct_id`, whose type is `type_id`: the
/// type resolved, the name of the member or the placeholder, and the offset
/// where the module gives one. It fails as the type does.
pub open spec fn spec_member(
    instructions: Seq<InstructionView>,
    struct_id: u32,
    index: u32,
    type_id: u32,
) -> Result<StructMemberView, Error> {
    match spec_type_of(instructions, type_id, instructions.len()) {
        Err(e) => Err(e),
        Ok(ty) => Ok(
            StructMemberView {
                name: spec_member_name_of(instructions, struct_id, index),
                ty,
                offset: spec_member_decoration_value(
                    instructions,
                    struct_id,
                    index,
                    Decoration::DecorationOffset,
                ),
            },
        ),
    }
}

/// The members of the struct `struct_id` from index `from` on, or the
/// failure of the first of them that fails. Member indices are 32-bit
/// numbers: member types past the last such index are not members.
pub open spec fn spec_members(
    instructions: Seq<InstructionView>,
    struct_id: u32,
    member_types: Seq<u32>,
    from: nat,
) -> Result<Seq<StructMemberView>, Error>
    decreases member_types.len() - from,
{
    if from >= member_types.len() || from > u32::MAX {
        Ok(Seq::empty())
    } else {
        match spec_member(instructions, struct_id, from as u32, member_types[from as int]) {
            Err(e) => Err(e),
            Ok(m) => match spec_members(instructions, struct_id, member_types, from + 1) {
                Err(e) => Err(e),
                Ok(rest) => Ok(seq![m] + rest),
            },
        }
    }
}

/// The layout of the struct that `instruction` declares, if it declares one.
pub open spec fn spec_struct_layout(
    instructions: Seq<InstructionView>,
    instruction: InstructionView,
) -> Option<Result<StructLayoutView, Error>> {
    match instruction {
        InstructionView::TypeStruct { result_id, member_types } => Some(
            match spec_members(instructions, result_id, member_types, 0) {
                Err(e) => Err(e),
                Ok(members) => Ok(
                    StructLayoutView {
                        id: result_id,
                        name: spec_name_of(instructions, result_id),
                        members,
                    },
                ),
            },
        ),
        _ => None,
    }
}

/// The layouts of the structs that the instructions from index `from` on
/// declare, one for each declaration and in their order, or the failure of
/// the first struct that fails.
pub open spec fn spec_struct_layouts(instructions: Seq<InstructionView>, from: nat) -> Result<
    Seq<StructLayoutView>,
    Error,
>
    decreases instructions.len() - from,
{
    if from >= instructions.len() {
        Ok(Seq::empty())
    } else {
        match spec_struct_layout(instructions, instructions[from as int]) {
            Some(Err(e)) => Err(e),
            Some(Ok(layout)) => match spec_struct_layouts(instructions, from + 1) {
                Err(e) => Err(e),
                Ok(rest) => Ok(seq![layout] + rest),
            },
            None => spec_struct_layouts(instructions, from + 1),
        }
    }
}

/// Returns member `index` of the struct `struct_id`, whose type is `type_id`.
pub fn struct_member(doc: &Spirv, struct_id: u32, index: u32, type_id: u32) -> (r: Result<
    StructMember,
    Error,
>)
    ensures
        view_ok(r) == spec_member(doc@.instructions, struct_id, index, type_id),
{
    let ty = match type_from_id(doc, type_id) {
        Ok(ty) => ty,
        Err(e) => {
            return Err(e);
        },
    };
    let name = member_name_from_id(doc, struct_id, index);
    let offset = member_decoration_value(doc, struct_id, index, Decoration::DecorationOffset);
    Ok(StructMember { name, ty, offset })
}

/// Returns the members of the struct `struct_id` in the order of their
/// indices, each with its name or the placeholder, its resolved type and its
/// offset where the module gives one; or the failure of the first member
/// whose type does not resolve.
pub fn struct_members(doc: &Spirv, struct_id: u32, member_types: &Vec<u32>) -> (r: Result<
    Vec<StructMember>,
    Error,
>)
    ensures
        views_ok(r) == spec_members(doc@.instructions, struct_id, member_types@, 0),
{
    let mut out: Vec<StructMember> = Vec::new();
    let ghost target = spec_members(doc@.instructions, struct_id, member_types@, 0);
    assert(views(out@) + target->Ok_0 =~= target->Ok_0);
    let mut k: usize = 0;
    while k < member_types.len() && k <= 0xffff_ffff
        invariant
            target == spec_members(doc@.instructions, struct_id, member_types@, 0),
            spec_followed_by(
                views(out@),
                spec_members(doc@.instructions, struct_id, member_types@, k as nat),
            ) == target,
        decreases member_types.len() - k,
    {
        let ghost before = views(out@);
        match struct_member(doc, struct_id, k as u32, member_types[k]) {
            Err(e) => {
                return Err(e);
            },
            Ok(m) => {
                proof {
                    lemma_views_push(out@, m);
                    let rest = spec_members(
                        doc@.instructions,
                        struct_id,
                        member_types@,
                        (k + 1) as nat,
                    );
                    if let Ok(r) = rest {
                        assert((before + seq![m@]) + r =~= before + (seq![m@] + r));
                    }
                    assert(before.push(m@) =~= before + seq![m@]);
                }
                out.push(m);
            },
        }
        k += 1;
    }
    assert(views(out@) + Seq::<StructMemberView>::empty() =~= views(out@));
    Ok(out)
}

/// Returns the layout of every struct that the module declares, in the
/// order of the declarations. A struct that is a member of another one has
/// a layout of its own and is referred to by name where it is a member. The
/// pass fails with the failure of the first member type that does not
/// resolve.
pub fn struct_layouts(doc: &Spirv) -> (r: Result<Vec<StructLayout>, Error>)
    ensures
        views_ok(r) == spec_struct_layouts(doc@.instructions, 0),
{
    let mut out: Vec<StructLayout> = Vec::new();
    let ghost target = spec_struct_layouts(doc@.instructions, 0);
    assert(views(out@) + target->Ok_0 =~= target->Ok_0);
    let mut i: usize = 0;
    while i < doc.instructions.len()
        invariant
            target == spec_struct_layouts(doc@.instructions, 0),
            spec_followed_by(views(out@), spec_struct_layouts(doc@.instructions, i as nat))
                == target,
        decreases doc.instructions.len() - i,
    {
        let ghost before = views(out@);
        match &doc.instructions[i] {
            Instruction::TypeStruct { result_id, member_types } => {
                match struct_members(doc, *result_id, member_types) {
                    Err(e) => {
                        return Err(e);
                    },
                    Ok(members) => {
                        let layout = StructLayout {
                            id: *result_id,
                            name: name_from_id(doc, *result_id),
                            members,
                        };
                        proof {
                            lemma_views_push(out@, layout);
                            let rest = spec_struct_layouts(doc@.instructions, (i + 1) as nat);
                            if let Ok(r) = rest {
                                assert((before + seq![layout@]) + r =~= before + (seq![layout@]
                                    + r));
                            }
                            assert(before.push(layout@) =~= before + seq![layout@]);
                        }
                        out.push(layout);
                    },
                }
            },
            _ => {},
        }
        i += 1;
    }
    assert(views(out@) + Seq::<StructLayoutView>::empty() =~= views(out@));
    Ok(out)
}

/// The number of members of a struct with the given number of member
/// types: all of them, up to as many as 32-bit indices can tell apart.
pub open spec fn spec_member_count(member_types: nat) -> nat {
    if member_types <= 0x1_0000_0000 {
        member_types
    } else {
        0x1_0000_0000
    }
}

/// What [`lemma_members_all_or_first`] says, of the members from index
/// `from` on.
proof fn lemma_members_from(
    instructions: Seq<InstructionView>,
    struct_id: u32,
    member_types: Seq<u32>,
    from: nat,
)
    requires
        from <= spec_member_count(member_types.len()),
    ensures
        match spec_members(instructions, struct_id, member_types, from) {
            Ok(members) => {
                &&& members.len() == spec_member_count(member_types.len()) - from
                &&& forall|k: int|
                    from <= k < spec_member_count(member_types.len()) ==> spec_member(
                        instructions,
                        struct_id,
                        k as u32,
                        #[trigger] member_types[k],
                    ) == Ok::<StructMemberView, Error>(members[k - from])
            },
            Err(e) => exists|k: int|
                {
                    &&& from <= k < spec_member_count(member_types.len())
                    &&& spec_member(instructions, struct_id, k as u32, #[trigger] member_types[k])
                        == Err::<StructMemberView, Error>(e)
                },
        },
    decreases member_types.len() - from,
{
    let count = spec_member_count(member_types.len());
    if from < count {
        lemma_members_from(instructions, struct_id, member_types, from + 1);
        let first = spec_member(instructions, struct_id, from as u32, member_types[from as int]);
        match first {
            Err(e) => {},
            Ok(m) => match spec_members(instructions, struct_id, member_types, from + 1) {
                Ok(rest) => {
                    let members = seq![m] + rest;
                    assert forall|k: int| from <= k < count implies spec_member(
                        instructions,
                        struct_id,
                        k as u32,
                        #[trigger] member_types[k],
                    ) == Ok::<StructMemberView, Error>(members[k - from]) by {
                        if k > from {
                            assert(members[k - from] == rest[k - (from + 1)]);
                        }
                    }
                },
                Err(e) => {
                    let k = choose|k: int|
                        {
                            &&& from + 1 <= k < count
                            &&& spec_member(
                                instructions,
                                struct_id,
                                k as u32,
                                #[trigger] member_types[k],
                            ) == Err::<StructMemberView, Error>(e)
                        };
                    assert(spec_member(instructions, struct_id, k as u32, member_types[k]) == Err::<
                        StructMemberView,
                        Error,
                    >(e));
                },
            },
        }
    }
}

/// The members of a struct are all there, in the order of their indices,
/// or the struct fails: where every member type resolves there is one
/// member for each member type, with the name, the type and the offset that
/// belong to its index; and a failure is that of one of the member types.
pub proof fn lemma_members_all_or_first(
    instructions: Seq<InstructionView>,
    struct_id: u32,
    member_types: Seq<u32>,
)
    ensures
        match spec_members(instructions, struct_id, member_types, 0) {
            Ok(members) => {
                &&& members.len() == spec_member_count(member_types.len())
                &&& forall|k: int|
                    0 <= k < members.len() ==> spec_member(
                        instructions,
                        struct_id,
                        k as u32,
                        #[trigger] member_types[k],
                    ) == Ok::<StructMemberView, Error>(members[k])
            },
            Err(e) => exists|k: int|
                {
                    &&& 0 <= k < spec_member_count(member_types.len())
                    &&& spec_member(instructions, struct_id, k as u32, #[trigger] member_types[k])
                        == Err::<StructMemberView, Error>(e)
                },
        },
{
    lemma_members_from(instructions, struct_id, member_types, 0);
}

/// Whether the layouts at the two indices are of different structs that
/// have the same name.
pub open spec fn spec_collide(layouts: Seq<StructLayoutView>, i: int, j: int) -> bool {
    &&& 0 <= i < j < layouts.len()
    &&& layouts[i].id != layouts[j].id
    &&& layouts[i].name == layouts[j].name
}

/// Whether the pair collides and is the first pair to do so: no pair has an
/// earlier second struct, and no pair with this second struct has an earlier
/// first one.
pub open spec fn spec_is_first_collision(layouts: Seq<StructLayoutView>, i: int, j: int) -> bool {
    &&& spec_collide(layouts, i, j)
    &&& forall|a: int, b: int| #[trigger]
        spec_collide(layouts, a, b) ==> j < b || (j == b && i <= a)
}

/// The first pair of different structs of the same name, if there is one.
pub open spec fn spec_first_collision(layouts: Seq<StructLayoutView>) -> Option<(int, int)> {
    if exists|i: int, j: int| spec_is_first_collision(layouts, i, j) {
        Some(choose|p: (int, int)| spec_is_first_collision(layouts, p.0, p.1))
    } else {
        None
    }
}

/// There is at most one first pair, so a pair that is one is the one that
/// [`spec_first_collision`] names; and where no pair collides it names none.
pub proof fn lemma_first_collision(layouts: Seq<StructLayoutView>, i: int, j: int)
    ensures
        spec_is_first_collision(layouts, i, j) ==> spec_first_collision(layouts) == Some((i, j)),
        (forall|a: int, b: int| !spec_collide(layouts, a, b)) ==> spec_first_collision(layouts)
            is None,
{
    if spec_is_first_collision(layouts, i, j) {
        let p = choose|p: (int, int)| spec_is_first_collision(layouts, p.0, p.1);
        assert(spec_is_first_collision(layouts, (i, j).0, (i, j).1));
        assert(spec_collide(layouts, i, j));
        assert(spec_collide(layouts, p.0, p.1));
        assert(p.0 == i && p.1 == j);
    }
    if forall|a: int, b: int| !spec_collide(layouts, a, b) {
        if exists|i: int, j: int| spec_is_first_collision(layouts, i, j) {
            let (a, b) = choose|i: int, j: int| spec_is_first_collision(layouts, i, j);
            assert(spec_collide(layouts, a, b));
        }
    }
}

/// Looks for two different structs of the same name. Returns the indices of
/// such a pair, the earlier one first, and `None` if and only if there is no
/// such pair. Of all pairs it returns the one whose later struct comes
/// first, and for that struct the earliest one it collides with.
pub fn struct_name_collision(layouts: &Vec<StructLayout>) -> (r: Option<(usize, usize)>)
    ensures
        match r {
            Some((i, j)) => spec_first_collision(views(layouts@)) == Some((i as int, j as int))
                && i < j < layouts@.len(),
            None => spec_first_collision(views(layouts@)) is None,
        },
        r is None <==> forall|a: int, b: int| !spec_collide(views(layouts@), a, b),
{
    let mut j: usize = 0;
    while j < layouts.len()
        invariant
            j <= layouts.len(),
            forall|a: int, b: int| #[trigger] spec_collide(views(layouts@), a, b) ==> j <= b,
        decreases layouts.len() - j,
    {
        let mut i: usize = 0;
        while i < j
            invariant
                i <= j < layouts.len(),
                forall|a: int, b: int| #[trigger] spec_collide(views(layouts@), a, b) ==> j <= b,
                forall|a: int| #[trigger] spec_collide(views(layouts@), a, j as int) ==> i <= a,
            decreases j - i,
        {
            if layouts[i].id != layouts[j].id && layouts[i].name == layouts[j].name {
                proof {
                    assert(spec_collide(views(layouts@), i as int, j as int));
                    lemma_first_collision(views(layouts@), i as int, j as int);
                }
                return Some((i, j));
            }
            i += 1;
        }
        j += 1;
    }
    proof {
        lemma_first_collision(views(layouts@), 0, 0);
    }
    None
}

} // verus!
