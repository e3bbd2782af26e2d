//! The operations on the persisted stack picture.
//!
//! Everything here is pure: each operation reads or rewrites a `FileData`
//! value and says exactly which error comes on which input.  Reading the
//! picture from disk and writing it back is the caller's business; it hands
//! the loaded value in and persists what comes out.

use vstd::prelude::*;

use crate::types::{names_of, Branch, FileData, StackV};

verus! {

/// Why an operation on the stack picture was refused.
#[derive(Clone, Copy, PartialEq, Eq, Structural, Debug)]
pub enum StackError {
    /// A stack with the requested name already exists.
    StackAlreadyExists,
    /// No stack with the requested name exists.
    StackNotFound,
    /// The current stack already has a branch with the requested name.
    BranchAlreadyExists,
    /// The picture names no existing stack as the current one.
    NotOnStack,
}

impl StackError {
    /// The error's message, as shown to the user.
    pub fn message(&self) -> (r: &'static str)
        ensures
            *self == StackError::StackAlreadyExists ==> r@ == "Stack already exists"@,
            *self == StackError::StackNotFound ==> r@ == "Stack not found"@,
            *self == StackError::BranchAlreadyExists ==> r@ == "Branch already exists"@,
            *self == StackError::NotOnStack ==> r@ == "Not currently on a stack"@,
    {
        match self {
            StackError::StackAlreadyExists => "Stack already exists",
            StackError::StackNotFound => "Stack not found",
            StackError::BranchAlreadyExists => "Branch already exists",
            StackError::NotOnStack => "Not currently on a stack",
        }
    }
}

/// The index of the first stack with the given name, if any.
pub open spec fn stack_position(stacks: Seq<StackV>, name: Seq<char>) -> Option<int>
    decreases stacks.len(),
{
    if stacks.len() == 0 {
        None
    } else if stacks[0].name == name {
        Some(0)
    } else {
        match stack_position(stacks.drop_first(), name) {
            None => None,
            Some(i) => Some(i + 1),
        }
    }
}

/// The index of the first occurrence of the given name, if any.
pub open spec fn name_position(names: Seq<Seq<char>>, name: Seq<char>) -> Option<int>
    decreases names.len(),
{
    if names.len() == 0 {
        None
    } else if names[0] == name {
        Some(0)
    } else {
        match name_position(names.drop_first(), name) {
            None => None,
            Some(i) => Some(i + 1),
        }
    }
}

/// What `stack_position` means: it is the first index holding a stack of
/// the given name, and it is `None` exactly when no stack has the name.
pub proof fn lemma_stack_position(stacks: Seq<StackV>, name: Seq<char>)
    ensures
        match stack_position(stacks, name) {
            Some(i) => 0 <= i < stacks.len() && stacks[i].name == name && (forall|j: int|
                0 <= j < i ==> stacks[j].name != name),
            None => forall|j: int| 0 <= j < stacks.len() ==> stacks[j].name != name,
        },
    decreases stacks.len(),
{
    if stacks.len() != 0 && stacks[0].name != name {
        lemma_stack_position(stacks.drop_first(), name);
        assert forall|j: int| 1 <= j < stacks.len() implies stacks[j]
            == stacks.drop_first()[j - 1] by {}
    }
}

/// What `name_position` means: it is the first index holding the given
/// name, and it is `None` exactly when the name does not occur.
pub proof fn lemma_name_position(names: Seq<Seq<char>>, name: Seq<char>)
    ensures
        match name_position(names, name) {
            Some(i) => 0 <= i < names.len() && names[i] == name && (forall|j: int|
                0 <= j < i ==> names[j] != name),
            None => forall|j: int| 0 <= j < names.len() ==> names[j] != name,
        },
    decreases names.len(),
{
    if names.len() != 0 && names[0] != name {
        lemma_name_position(names.drop_first(), name);
        assert forall|j: int| 1 <= j < names.len() implies names[j]
            == names.drop_first()[j - 1] by {}
    }
}

/// The index of the first stack named `name` in `data`, as `stack_position`
/// says, found by a scan.
fn find_stack(data: &FileData, name: &String) -> (r: Option<usize>)
    ensures
        match r {
            Some(i) => stack_position(data@.stacks, name@) == Some(i as int),
            None => stack_position(data@.stacks, name@) is None,
        },
{
    let n = data.stacks.len();
    let mut i: usize = 0;
    while i < n
        invariant
            i <= n,
            n == data@.stacks.len(),
            forall|j: int| 0 <= j < i ==> data@.stacks[j].name != name@,
        decreases n - i,
    {
        if data.stacks[i].name == *name {
            proof {
                assert(data@.stacks[i as int].name == name@);
                lemma_stack_position(data@.stacks, name@);
            }
            return Some(i);
        }
        i = i + 1;
    }
    proof {
        lemma_stack_position(data@.stacks, name@);
    }
    None
}

/// A copy of a branch list, branch names preserved in order.
fn clone_branches(branches: &Vec<Branch>) -> (r: Vec<Branch>)
    ensures
        names_of(r@) == names_of(branches@),
{
    let mut r: Vec<Branch> = Vec::new();
    let n = branches.len();
    let mut i: usize = 0;
    while i < n
        invariant
            i <= n,
            n == branches@.len(),
            names_of(r@) == names_of(branches@).subrange(0, i as int),
        decreases n - i,
    {
        let b = Branch::new(&branches[i].name);
        proof {
            assert(names_of(r@.push(b)) =~= names_of(r@).push(b.name@));
            assert(names_of(branches@).subrange(0, i as int + 1) =~= names_of(
                branches@,
            ).subrange(0, i as int).push(branches@[i as int].name@));
        }
        r.push(b);
        i = i + 1;
    }
    proof {
        assert(names_of(branches@).subrange(0, n as int) =~= names_of(branches@));
    }
    r
}

/// The branches of the current stack, in dependency order: the chain a
/// synchronization run works on.  Refused with `NotOnStack` exactly when no
/// stack carries the name the picture records as current.
pub fn read_current_stack_branches(data: &FileData) -> (r: Result<Vec<Branch>, StackError>)
    ensures
        r is Ok <==> stack_position(data@.stacks, data@.current_stack) is Some,
        r matches Ok(branches) ==> names_of(branches@) == data@.stacks[stack_position(
            data@.stacks,
            data@.current_stack,
        ).unwrap()].branches,
        r matches Err(e) ==> e == StackError::NotOnStack,
{
    match find_stack(data, &data.current_stack) {
        Some(i) => {
            proof {
                lemma_stack_position(data@.stacks, data@.current_stack);
            }
            Ok(clone_branches(&data.stacks[i].branches))
        },
        None => Err(StackError::NotOnStack),
    }
}

/// The current stack itself.  Refused with `NotOnStack` exactly when no
/// stack carries the name the picture records as current.
pub fn read_current_stack(data: &FileData) -> (r: Result<&crate::types::Stack, StackError>)
    ensures
        r is Ok <==> stack_position(data@.stacks, data@.current_stack) is Some,
        r matches Ok(stack) ==> stack@ == data@.stacks[stack_position(
            data@.stacks,
            data@.current_stack,
        ).unwrap()],
        r matches Err(e) ==> e == StackError::NotOnStack,
{
    match find_stack(data, &data.current_stack) {
        Some(i) => {
            proof {
                lemma_stack_position(data@.stacks, data@.current_stack);
            }
            Ok(&data.stacks[i])
        },
        None => Err(StackError::NotOnStack),
    }
}

/// Add a new, empty stack under the given name.  Refused with
/// `StackAlreadyExists`, and the picture left unchanged, exactly when a
/// stack of that name is already there; uniqueness of stack names is
/// preserved either way.
pub fn save_stack(data: &mut FileData, stack_name: &String) -> (r: Result<(), StackError>)
    ensures
        r is Ok <==> stack_position(old(data)@.stacks, stack_name@) is None,
        r matches Err(e) ==> e == StackError::StackAlreadyExists && final(data)@ == old(data)@,
        r is Ok ==> final(data)@.stacks == old(data)@.stacks.push(
            StackV { name: stack_name@, branches: Seq::empty() },
        ),
        final(data)@.current_stack == old(data)@.current_stack,
        old(data)@.stacks_unique() && r is Ok ==> final(data)@.stacks_unique(),
{
    match find_stack(data, stack_name) {
        Some(_) => Err(StackError::StackAlreadyExists),
        None => {
            proof {
                lemma_stack_position(data@.stacks, stack_name@);
            }
            let ghost before = data@;
            let stack = crate::types::Stack::new(stack_name);
            proof {
                assert(stack@ =~= (StackV { name: stack_name@, branches: Seq::empty() }));
            }
            data.stacks.push(stack);
            proof {
                assert(data@.stacks =~= before.stacks.push(stack@));
                if before.stacks_unique() {
                    assert forall|i: int, j: int|
                        0 <= i < j < data@.stacks.len() implies data@.stacks[i].name
                        != data@.stacks[j].name by {
                        if j == data@.stacks.len() - 1 {
                            assert(before.stacks[i].name != stack_name@);
                        }
                    }
                }
            }
            Ok(())
        },
    }
}

/// Make the named stack the current one.  Refused with `StackNotFound`,
/// and the picture left unchanged, exactly when no stack has that name.
pub fn save_current_stack(data: &mut FileData, stack_name: &String) -> (r: Result<(), StackError>)
    ensures
        r is Ok <==> stack_position(old(data)@.stacks, stack_name@) is Some,
        r matches Err(e) ==> e == StackError::StackNotFound && final(data)@ == old(data)@,
        final(data)@.stacks == old(data)@.stacks,
        r is Ok ==> final(data)@.current_stack == stack_name@,
{
    match find_stack(data, stack_name) {
        None => Err(StackError::StackNotFound),
        Some(_) => {
            data.current_stack = stack_name.clone();
            Ok(())
        },
    }
}

/// The picture after a branch is appended to the stack at index `i`.
pub open spec fn with_branch_added(d: crate::types::FileDataV, i: int, branch: Seq<char>)
    -> crate::types::FileDataV {
    crate::types::FileDataV {
        stacks: d.stacks.update(
            i,
            StackV { name: d.stacks[i].name, branches: d.stacks[i].branches.push(branch) },
        ),
        current_stack: d.current_stack,
    }
}

/// The index of the first branch with the given name, as `name_position`
/// says, found by a scan.
fn find_branch(branches: &Vec<Branch>, name: &String) -> (r: Option<usize>)
    ensures
        match r {
            Some(i) => name_position(names_of(branches@), name@) == Some(i as int),
            None => name_position(names_of(branches@), name@) is None,
        },
{
    let n = branches.len();
    let mut i: usize = 0;
    while i < n
        invariant
            i <= n,
            n == branches@.len(),
            forall|j: int| 0 <= j < i ==> names_of(branches@)[j] != name@,
        decreases n - i,
    {
        if branches[i].name == *name {
            proof {
                assert(names_of(branches@)[i as int] == name@);
                lemma_name_position(names_of(branches@), name@);
            }
            return Some(i);
        }
        i = i + 1;
    }
    proof {
        lemma_name_position(names_of(branches@), name@);
    }
    None
}

/// Append a new branch to the current stack: the branch enters at the end
/// of the chain, depending on what was the last branch before it.  Refused
/// with `NotOnStack` when the picture names no existing stack as current,
/// and with `BranchAlreadyExists` when the current stack already has a
/// branch of that name; the picture is then left unchanged.  Uniqueness of
/// the stack's branch names is preserved.
pub fn save_branch_on_current_stack(data: &mut FileData, branch_name: &String) -> (r: Result<
    (),
    StackError,
>)
    ensures
        final(data)@.current_stack == old(data)@.current_stack,
        r is Ok <==> (stack_position(old(data)@.stacks, old(data)@.current_stack) matches Some(i)
            && name_position(old(data)@.stacks[i].branches, branch_name@) is None),
        r matches Err(e) ==> final(data)@ == old(data)@ && (e == StackError::NotOnStack
            || e == StackError::BranchAlreadyExists) && (e == StackError::NotOnStack
            <==> stack_position(old(data)@.stacks, old(data)@.current_stack) is None),
        r is Ok ==> final(data)@ == with_branch_added(
            old(data)@,
            stack_position(old(data)@.stacks, old(data)@.current_stack).unwrap(),
            branch_name@,
        ),
        r is Ok && old(data)@.stacks[stack_position(
            old(data)@.stacks,
            old(data)@.current_stack,
        ).unwrap()].branches_unique() ==> final(data)@.stacks[stack_position(
            old(data)@.stacks,
            old(data)@.current_stack,
        ).unwrap()].branches_unique(),
{
    let current = data.current_stack.clone();
    match find_stack(data, &current) {
        None => Err(StackError::NotOnStack),
        Some(i) => {
            let ghost before = data@;
            let ghost iv = i as int;
            proof {
                lemma_stack_position(before.stacks, current@);
            }
            match find_branch(&data.stacks[i].branches, branch_name) {
                Some(_) => Err(StackError::BranchAlreadyExists),
                None => {
                    proof {
                        lemma_name_position(before.stacks[iv].branches, branch_name@);
                    }
                    let b = Branch::new(branch_name);
                    data.stacks[i].branches.push(b);
                    proof {
                        assert(data@.stacks =~~= before.stacks.update(
                            iv,
                            StackV {
                                name: before.stacks[iv].name,
                                branches: before.stacks[iv].branches.push(branch_name@),
                            },
                        ));
                        assert(data@ =~~= with_branch_added(before, iv, branch_name@));
                        if before.stacks[iv].branches_unique() {
                            let updated = data@.stacks[iv].branches;
                            assert forall|p: int, q: int|
                                0 <= p < q < updated.len() implies updated[p] != updated[q] by {
                                if q == updated.len() - 1 {
                                    assert(before.stacks[iv].branches[p] != branch_name@);
                                }
                            }
                        }
                    }
                    Ok(())
                },
            }
        },
    }
}

} // verus!
