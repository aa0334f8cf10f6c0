//! Build-command synthesis and deployment planning for a frontend monorepo:
//! application names are classified into core and portal apps, each group gets
//! one build command, and each built app is moved into a deployment directory
//! by a small step machine whose filesystem work is done by the caller.
pub mod command;
pub mod deploy;
pub mod laws;
pub mod names;
pub mod paths;
pub mod run;
pub mod text;
