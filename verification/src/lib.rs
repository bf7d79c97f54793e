//! Core logic of a small desktop mod installer, verified with Verus.
//!
//! The installer locates a game installation directory under a launcher
//! root, downloads a single binary asset, writes it into that directory
//! under a fixed filename, and can mirror a user-selected resource folder
//! into a fixed subdirectory of the target.
//!
//! Everything that touches the screen, the network or the real filesystem
//! lives outside this crate; the crate holds the decisions and states their
//! effect over an explicit filesystem model:
//! - [`paths`]: paths as character strings joined by a backslash separator;
//! - [`resolver`]: the directory-discovery heuristic over probe results;
//! - [`fs_model`]: a map-backed model of files and directories;
//! - [`installer`]: the download-and-write step and its effect on the model;
//! - [`importer`]: the recursive resource copy and its effect on the model;
//! - [`channel`]: the one-shot status handoff from a background operation;
//! - [`session`]: the per-session state machine driven by user actions.

pub mod channel;
pub mod fs_model;
pub mod importer;
pub mod installer;
pub mod paths;
pub mod resolver;
pub mod session;
