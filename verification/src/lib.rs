//! Tools for inspecting e-book packages and renaming them after their titles.
//!
//! The library decides; its caller touches the file system. A caller gathers
//! what it found on disk into plain values ([`plan::Candidate`],
//! [`rename::Located`], [`info::Opened`]), hands them to a command, and
//! carries out the [`report::Action`]s that come back.

pub mod cli;
pub mod info;
pub mod laws;
pub mod metadata;
pub mod paths;
pub mod plan;
pub mod rename;
pub mod report;
pub mod style;
pub mod text;
