//! Declarative network profiles: the data model, parameter interpolation into
//! command templates, the enable/disable protocol of one profile, and the
//! dependency-ordered sequencing of profile actions.
pub mod error;
pub mod template;
pub mod profile;
pub mod process;
pub mod action;
pub mod sequence;
pub mod args;
pub mod laws;
