//! Bundle orchestration: package types and their build order, the resolved
//! settings of a bundling run, the updater archive, and the archive and copy
//! plans that the file-system layer carries out.

pub mod archive;
pub mod common;
pub mod dispatch;
pub mod error;
pub mod msix;
pub mod package;
pub mod paths;
pub mod settings;
pub mod text;
pub mod updater;
