//! The branch and stack records that the rest of the library works on.
//!
//! A `Branch` is identified by its name.  A `Stack` owns an ordered sequence
//! of branches; the order is the rebase dependency order and is meaningful.
//! `FileData` is the persisted picture: every stack plus the name of the
//! stack that is currently checked out.

use vstd::prelude::*;

verus! {

/// One branch of a stack, identified by its name.
pub struct Branch {
    pub name: String,
}

impl View for Branch {
    type V = Seq<char>;

    open spec fn view(&self) -> Seq<char> {
        self.name@
    }
}

/// The names of a sequence of branches, in order.
pub open spec fn names_of(branches: Seq<Branch>) -> Seq<Seq<char>> {
    branches.map_values(|b: Branch| b.name@)
}

impl Branch {
    /// A branch with the given name.
    pub fn new(name: &String) -> (b: Branch)
        ensures
            b.name@ == name@,
    {
        Branch { name: name.clone() }
    }
}

/// The mathematical value of a `Stack`: its name and its branch names in
/// dependency order.
#[verifier::ext_equal]
pub struct StackV {
    pub name: Seq<char>,
    pub branches: Seq<Seq<char>>,
}

impl StackV {
    /// Branch names are unique within a stack.
    pub open spec fn branches_unique(self) -> bool {
        forall|i: int, j: int|
            0 <= i < j < self.branches.len() ==> self.branches[i] != self.branches[j]
    }
}

/// An ordered chain of branches under one name.  The branch at index 0
/// depends on the trunk; the branch at index `k > 0` depends on the branch
/// at index `k - 1`.
pub struct Stack {
    pub name: String,
    pub branches: Vec<Branch>,
}

impl View for Stack {
    type V = StackV;

    open spec fn view(&self) -> StackV {
        StackV { name: self.name@, branches: names_of(self.branches@) }
    }
}

impl Stack {
    /// An empty stack with the given name.
    pub fn new(name: &String) -> (s: Stack)
        ensures
            s@.name == name@,
            s@.branches.len() == 0,
    {
        Stack { branches: vec![], name: name.clone() }
    }
}

/// A run of spaces.
pub open spec fn spaces(n: nat) -> Seq<char> {
    Seq::new(n, |i: int| ' ')
}

/// The rendered lines for the branches from index `k` on, each indented
/// under its predecessor.  `line_size` is how wide the previous line was:
/// the branch's line starts with `line_size` minus half the previous name's
/// width in spaces, then an elbow, the name, and a line break.
pub open spec fn tree_lines(branches: Seq<Seq<char>>, k: int, line_size: int) -> Seq<char>
    decreases branches.len() - k,
{
    if k < 1 || k >= branches.len() {
        Seq::empty()
    } else {
        let indent = line_size - branches[k - 1].len() / 2;
        let indent_n = (if indent >= 0 {
            indent
        } else {
            0
        }) as nat;
        spaces(indent_n) + seq!['└', '─', '─'] + branches[k] + seq!['\n'] + tree_lines(
            branches,
            k + 1,
            indent_n + branches[k].len() + 3int,
        )
    }
}

/// The rendered picture of a stack: a header naming it, then its branch
/// chain, one branch per line, each indented under its predecessor.
pub open spec fn render_spec(stack: StackV) -> Seq<char> {
    let header = "Currently on stack "@ + stack.name + "\n\n"@;
    if stack.branches.len() == 0 {
        header
    } else {
        header + stack.branches[0] + seq!['\n'] + tree_lines(
            stack.branches,
            1,
            stack.branches[0].len() as int,
        )
    }
}

/// Append `n` spaces.
fn push_spaces(s: &mut String, n: usize)
    ensures
        final(s)@ == old(s)@ + spaces(n as nat),
{
    proof {
        assert(old(s)@ + spaces(0) =~= old(s)@);
    }
    let mut i: usize = 0;
    while i < n
        invariant
            i <= n,
            s@ == old(s)@ + spaces(i as nat),
        decreases n - i,
    {
        s.append(" ");
        proof {
            reveal_strlit(" ");
            assert(spaces(i as nat + 1) =~= spaces(i as nat) + " "@);
            assert(s@ =~= old(s)@ + spaces(i as nat + 1));
        }
        i = i + 1;
    }
}

impl Stack {
    /// The rendered picture of the stack, exactly as `render_spec` says.
    /// The one limit is the machine's: the picture must fit in a string.
    pub fn render(&self) -> (r: String)
        requires
            render_spec(self@).len() <= usize::MAX,
        ensures
            r@ == render_spec(self@),
    {
        let ghost target = render_spec(self@);
        let mut out = String::new();
        out.append("Currently on stack ");
        out.append(self.name.as_str());
        out.append("\n\n");
        let n = self.branches.len();
        if n == 0 {
            return out;
        }
        out.append(self.branches[0].name.as_str());
        out.append("\n");
        let mut line_size: usize = self.branches[0].name.as_str().unicode_len();
        proof {
            reveal_strlit("\n");
            assert(out@ + tree_lines(self@.branches, 1, line_size as int) =~= target);
            assert(line_size <= out@.len());
        }
        let mut k: usize = 1;
        while k < n
            invariant
                1 <= k <= n,
                n == self@.branches.len(),
                target == render_spec(self@),
                target.len() <= usize::MAX,
                out@ + tree_lines(self@.branches, k as int, line_size as int) == target,
                line_size <= out@.len(),
                line_size >= self@.branches[k - 1].len(),
            decreases n - k,
        {
            let ghost before = out@;
            let prev_len = self.branches[k - 1].name.as_str().unicode_len();
            let indent = line_size - prev_len / 2;
            push_spaces(&mut out, indent);
            out.append("└──");
            out.append(self.branches[k].name.as_str());
            out.append("\n");
            let len_k = self.branches[k].name.as_str().unicode_len();
            proof {
                reveal_strlit("└──");
                reveal_strlit("\n");
                assert("└──"@ =~= seq!['└', '─', '─']);
                assert(out@ =~= before + spaces(indent as nat) + seq!['└', '─', '─']
                    + self@.branches[k as int] + seq!['\n']);
                assert(out@ + tree_lines(
                    self@.branches,
                    k as int + 1,
                    indent as int + len_k as int + 3,
                ) =~= target);
                assert(out@.len() <= target.len());
                assert(indent + len_k + 3 < out@.len());
            }
            line_size = indent + len_k + 3;
            k = k + 1;
        }
        proof {
            assert(tree_lines(self@.branches, k as int, line_size as int) =~= Seq::<char>::empty());
            assert(out@ =~= target);
        }
        out
    }
}

/// The mathematical value of `FileData`.
#[verifier::ext_equal]
pub struct FileDataV {
    pub stacks: Seq<StackV>,
    pub current_stack: Seq<char>,
}

impl FileDataV {
    /// Stack names are unique.
    pub open spec fn stacks_unique(self) -> bool {
        forall|i: int, j: int|
            0 <= i < j < self.stacks.len() ==> self.stacks[i].name != self.stacks[j].name
    }
}

/// Everything the library persists: the stacks and the name of the stack
/// that is currently checked out.
pub struct FileData {
    pub stacks: Vec<Stack>,
    pub current_stack: String,
}

impl View for FileData {
    type V = FileDataV;

    open spec fn view(&self) -> FileDataV {
        FileDataV {
            stacks: self.stacks@.map_values(|s: Stack| s@),
            current_stack: self.current_stack@,
        }
    }
}

impl FileData {
    /// The state before anything was saved: no stacks, no current stack.
    pub fn new() -> (d: FileData)
        ensures
            d@.stacks.len() == 0,
            d@.current_stack.len() == 0,
    {
        FileData { stacks: vec![], current_stack: String::new() }
    }
}

} // verus!
