//! A runtime-version manager: version identifiers, directory layout,
//! version resolution, alias bookkeeping, symlink switching and the
//! installation state machine.

pub mod text;
pub mod version;
pub mod ordering;
pub mod layout;
pub mod resolve;
pub mod switch;
pub mod alias;
pub mod local;
pub mod install;
pub mod log;
pub mod completions;

