//! Resolution of a game version against the remote catalog and the layout of
//! the files that an installation of it puts on disk.
//!
//! The library decides and derives; it performs no input or output itself.
//! A caller fetches documents and files, hands their contents in, and carries
//! out the actions that the library asks for.
//!
//! - [`catalog`]: the catalog of versions and the queries on it.
//! - [`descriptor`]: the detailed descriptor of one version.
//! - [`layout`]: where each file lies below the instance root, and where
//!   asset objects are retrieved from.
//! - [`plan`]: the retrievals and the steps that a descriptor calls for.
//! - [`json`]: JSON documents, parsed by `serde_json`.
//! - [`assets`]: the asset index and the synchronization of its objects
//!   into the content-addressed store.
//! - [`install`]: the installation of a version, one action at a time.
//! - [`workspace`]: the directories of the launcher and of its instances.
//! - [`text`]: strings as sequences of characters.
//! - [`error`]: the kinds of failure.

pub mod assets;
pub mod catalog;
pub mod descriptor;
pub mod error;
pub mod install;
pub mod json;
pub mod layout;
pub mod plan;
pub mod text;
pub mod workspace;
