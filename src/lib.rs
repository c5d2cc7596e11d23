//! Dispatching remote command execution against pods through an external
//! exec tool: flag normalization, argument building, target validation and
//! classification of what the launched process did.
pub mod args;
pub mod flags;
pub mod outcome;
pub mod plan;
