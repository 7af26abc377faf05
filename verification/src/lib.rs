//! Management of a project convention file: validating its content,
//! resolving the project root and the global stash locations, and the
//! decision logic of the five commands (init, clean, stash, apply,
//! uninstall) that move the file between a project and the stash.

pub mod commands;
pub mod effects;
pub mod paths;
pub mod validation;
