//! The persisted stack picture and its operations.

use stacky::persistence::{
    read_current_stack, read_current_stack_branches, save_branch_on_current_stack,
    save_current_stack, save_stack, StackError,
};
use stacky::stacks::{checkout_stack, create_stack};
use stacky::types::{Branch, FileData, Stack};

#[test]
fn new_file_data_is_empty() {
    let d = FileData::new();
    assert_eq!(d.stacks.len(), 0);
    assert_eq!(d.current_stack, "");
}

#[test]
fn create_stack_adds_an_empty_stack() {
    let mut d = FileData::new();
    assert!(create_stack(&mut d, &"dev".to_string()).is_ok());
    assert_eq!(d.stacks.len(), 1);
    assert_eq!(d.stacks[0].name, "dev");
    assert_eq!(d.stacks[0].branches.len(), 0);
}

#[test]
fn create_stack_refuses_a_duplicate_name() {
    let mut d = FileData::new();
    assert!(create_stack(&mut d, &"dev".to_string()).is_ok());
    assert_eq!(
        create_stack(&mut d, &"dev".to_string()),
        Err(StackError::StackAlreadyExists)
    );
    assert_eq!(d.stacks.len(), 1);
}

#[test]
fn checkout_stack_requires_an_existing_stack() {
    let mut d = FileData::new();
    assert_eq!(
        checkout_stack(&mut d, &"dev".to_string()),
        Err(StackError::StackNotFound)
    );
    assert!(create_stack(&mut d, &"dev".to_string()).is_ok());
    assert!(checkout_stack(&mut d, &"dev".to_string()).is_ok());
    assert_eq!(d.current_stack, "dev");
}

#[test]
fn save_branch_needs_a_current_stack() {
    let mut d = FileData::new();
    assert_eq!(
        save_branch_on_current_stack(&mut d, &"feature".to_string()),
        Err(StackError::NotOnStack)
    );
}

#[test]
fn save_branch_appends_in_order_and_refuses_duplicates() {
    let mut d = FileData::new();
    assert!(save_stack(&mut d, &"dev".to_string()).is_ok());
    assert!(save_current_stack(&mut d, &"dev".to_string()).is_ok());
    assert!(save_branch_on_current_stack(&mut d, &"one".to_string()).is_ok());
    assert!(save_branch_on_current_stack(&mut d, &"two".to_string()).is_ok());
    assert_eq!(
        save_branch_on_current_stack(&mut d, &"one".to_string()),
        Err(StackError::BranchAlreadyExists)
    );
    let names: Vec<String> = d.stacks[0].branches.iter().map(|b| b.name.clone()).collect();
    assert_eq!(names, vec!["one".to_string(), "two".to_string()]);
}

#[test]
fn read_current_stack_branches_returns_the_chain_in_order() {
    let mut d = FileData::new();
    assert!(save_stack(&mut d, &"dev".to_string()).is_ok());
    assert!(save_current_stack(&mut d, &"dev".to_string()).is_ok());
    assert!(save_branch_on_current_stack(&mut d, &"one".to_string()).is_ok());
    assert!(save_branch_on_current_stack(&mut d, &"two".to_string()).is_ok());
    let branches = read_current_stack_branches(&d).expect("a current stack exists");
    let names: Vec<String> = branches.iter().map(|b| b.name.clone()).collect();
    assert_eq!(names, vec!["one".to_string(), "two".to_string()]);
}

#[test]
fn read_current_stack_reports_when_none_is_current() {
    let d = FileData::new();
    assert!(matches!(
        read_current_stack_branches(&d),
        Err(StackError::NotOnStack)
    ));
    assert!(read_current_stack(&d).is_err());
}

#[test]
fn error_messages_match_the_command_line_output() {
    assert_eq!(StackError::StackAlreadyExists.message(), "Stack already exists");
    assert_eq!(StackError::StackNotFound.message(), "Stack not found");
    assert_eq!(StackError::BranchAlreadyExists.message(), "Branch already exists");
    assert_eq!(StackError::NotOnStack.message(), "Not currently on a stack");
}

#[test]
fn render_shows_the_chain_as_a_tree() {
    let mut s = Stack::new(&"dev".to_string());
    s.branches.push(Branch::new(&"one".to_string()));
    s.branches.push(Branch::new(&"two".to_string()));
    s.branches.push(Branch::new(&"three".to_string()));
    assert_eq!(
        s.render(),
        "Currently on stack dev\n\none\n  └──two\n       └──three\n"
    );
}

#[test]
fn render_of_an_empty_stack_is_just_the_header() {
    let s = Stack::new(&"dev".to_string());
    assert_eq!(s.render(), "Currently on stack dev\n\n");
}

#[test]
fn constructors_copy_the_given_name() {
    let b = Branch::new(&"feature".to_string());
    assert_eq!(b.name, "feature");
    let s = Stack::new(&"dev".to_string());
    assert_eq!(s.name, "dev");
    assert!(s.branches.is_empty());
}
