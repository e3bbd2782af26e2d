//! Command parsing, run setup, and the pull-request API requests.

use stacky::command_handlers::handle_branch_command;
use stacky::command_handlers::handle_stack_command::{self, StackCommand};
use stacky::command_handlers::handle_sync_command::{self, SyncSetupError};
use stacky::git::{create_pull_request_request, find_open_pull_request_request};
use stacky::handle_branch_command::{extract_branch_name, extract_new_option};
use stacky::handle_stack_command::{extract_create_option, extract_stack_name};
use stacky::persistence::{save_branch_on_current_stack, save_current_stack, save_stack};
use stacky::types::FileData;
use stacky::{extract_owner_and_name_from_url, handle_branch_command as lib_branch_handler,
    handle_stack_command as lib_stack_handler};

fn options(words: &[&str]) -> Vec<String> {
    words.iter().map(|w| w.to_string()).collect()
}

#[test]
fn the_first_non_flag_option_is_the_name() {
    let opts = options(&["--create", "dev", "other"]);
    assert_eq!(extract_stack_name(&opts), Some(&"dev".to_string()));
    assert_eq!(extract_branch_name(&opts), Some(&"dev".to_string()));
    let flags_only = options(&["--create", "--new"]);
    assert_eq!(extract_stack_name(&flags_only), None);
    assert_eq!(extract_branch_name(&flags_only), None);
}

#[test]
fn flags_are_found_wherever_they_stand() {
    let opts = options(&["dev", "--create"]);
    assert_eq!(extract_create_option(&opts), Some(&"--create".to_string()));
    assert_eq!(extract_new_option(&opts), None);
    let with_new = options(&["--new", "feature"]);
    assert_eq!(extract_new_option(&with_new), Some(&"--new".to_string()));
    assert_eq!(extract_create_option(&with_new), None);
}

#[test]
fn stack_handler_without_name_shows_the_current_stack() {
    assert_eq!(handle_stack_command::handler(&options(&[])), StackCommand::ShowCurrent);
    assert_eq!(
        handle_stack_command::handler(&options(&["--create"])),
        StackCommand::ShowCurrent
    );
}

#[test]
fn stack_handler_with_name_switches_and_maybe_creates() {
    assert_eq!(
        handle_stack_command::handler(&options(&["dev"])),
        StackCommand::Switch { name: "dev".to_string(), create: false }
    );
    assert_eq!(
        handle_stack_command::handler(&options(&["--create", "dev"])),
        StackCommand::Switch { name: "dev".to_string(), create: true }
    );
    assert_eq!(
        lib_stack_handler(&options(&["--create", "dev"])),
        StackCommand::Switch { name: "dev".to_string(), create: true }
    );
}

#[test]
fn branch_handler_needs_a_name() {
    assert_eq!(
        handle_branch_command::handler(&options(&["--create"])),
        Err("Missing branch name")
    );
    let cmd = handle_branch_command::handler(&options(&["--create", "feature"]))
        .expect("a name was given");
    assert_eq!(cmd.name, "feature");
    assert!(cmd.create);
    let plain = lib_branch_handler(&options(&["feature"])).expect("a name was given");
    assert_eq!(plain.name, "feature");
    assert!(!plain.create);
}

#[test]
fn sync_setup_needs_credential_and_current_stack() {
    let mut d = FileData::new();
    assert!(save_stack(&mut d, &"dev".to_string()).is_ok());
    assert!(save_current_stack(&mut d, &"dev".to_string()).is_ok());
    assert!(save_branch_on_current_stack(&mut d, &"one".to_string()).is_ok());

    let token = "dummy-token".to_string();
    assert_eq!(
        handle_sync_command::handler(&d, None).err(),
        Some(SyncSetupError::MissingCredential)
    );
    let m = handle_sync_command::handler(&d, Some(&token)).expect("setup must succeed");
    assert_eq!(
        m.pending_action(),
        Some(stacky::sync_machine::SyncAction::Checkout { target: "main".to_string() })
    );

    let off_stack = FileData::new();
    assert_eq!(
        handle_sync_command::handler(&off_stack, Some(&token)).err(),
        Some(SyncSetupError::NotOnStack)
    );
}

#[test]
fn owner_and_name_come_off_a_remote_listing_url() {
    let url = "https://github.com/alice/widget.git (fetch)\norigin".to_string();
    assert_eq!(
        extract_owner_and_name_from_url(url),
        Some(("alice".to_string(), "widget".to_string()))
    );
}

#[test]
fn owner_and_name_come_off_a_bare_url() {
    let url = "https://github.com/alice/widget".to_string();
    assert_eq!(
        extract_owner_and_name_from_url(url),
        Some(("alice".to_string(), "widget".to_string()))
    );
}

#[test]
fn a_single_dash_is_a_name_not_a_flag() {
    let opts = options(&["-x"]);
    assert_eq!(extract_stack_name(&opts), Some(&"-x".to_string()));
}

#[test]
fn a_url_that_is_all_prefix_yields_nothing() {
    assert_eq!(
        extract_owner_and_name_from_url("https://github.com/".to_string()),
        None
    );
}

#[test]
fn urls_without_exactly_one_separator_yield_nothing() {
    assert_eq!(extract_owner_and_name_from_url("http://short".to_string()), None);
    assert_eq!(
        extract_owner_and_name_from_url("https://github.com/owneronly".to_string()),
        None
    );
    assert_eq!(
        extract_owner_and_name_from_url("https://github.com/a/b/c".to_string()),
        None
    );
}

#[test]
fn the_search_request_carries_the_filtered_pair() {
    let q = find_open_pull_request_request("dummy-token", "main", "feature", "alice", "widget");
    assert_eq!(q.url, "https://api.github.com/repos/alice/widget/pulls");
    assert_eq!(q.state, "open");
    assert_eq!(q.head, "alice:feature");
    assert_eq!(q.base, "main");
    assert_eq!(q.accept, "application/vnd.github+json");
    assert_eq!(q.api_version, "2022-11-28");
    assert_eq!(q.authorization, "Bearer dummy-token");
    assert_eq!(q.user_agent, "stacky");
}

#[test]
fn the_creation_request_carries_title_and_pair() {
    let c = create_pull_request_request(
        "https://api.github.com/repos/alice/widget/pulls".to_string(),
        "dummy-token",
        "main",
        "feature",
        "Feature work",
    );
    assert_eq!(c.url, "https://api.github.com/repos/alice/widget/pulls");
    assert_eq!(c.title, "Feature work");
    assert_eq!(c.body, "Description de la Pull Request");
    assert_eq!(c.base, "main");
    assert_eq!(c.head, "feature");
    assert_eq!(c.authorization, "Bearer dummy-token");
    assert_eq!(c.user_agent, "stacky");
}
