//! Git client-side hooks: protected-branch checks for pushes and commit
//! message prefixes derived from the current branch name.

pub mod text;
pub mod meta;
pub mod ticket;
pub mod logging;
pub mod util;
pub mod hooks;
