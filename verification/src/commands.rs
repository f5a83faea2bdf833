pub mod push;
pub mod status;
pub mod tag;
pub mod worktree;
pub mod diff;
pub mod branch;
pub mod switch;
pub mod commit;
pub mod pull;
pub mod rebase;
pub mod restore;
pub mod add;
pub mod clone;
pub mod rm;
pub mod fetch;
pub mod foreach;
pub mod init;
pub mod merge;
pub mod reset;
