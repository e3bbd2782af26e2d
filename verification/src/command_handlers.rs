pub mod handle_branch_command;
pub mod handle_stack_command;
pub mod handle_sync_command;
