//! Keeps an installed collection of game modification packages in step with a
//! remote manifest.
//!
//! - [`modinfo`]: the manifest and its packages, and which manifests are
//!   accepted.
//! - [`reconcile`]: from two manifests, what to remove and what to fetch.
//! - [`fetch`]: one download, step by step, with its progress.
//! - [`integrity`]: checksums of installed files against the manifest.
//! - [`sync`]: the whole pass, from the new manifest to its promotion.
//! - [`prefs`], [`location`], [`scaffold`]: the install directory, how it is
//!   changed, and what is found in it.
//!
//! The library does no input or output. [`fetch`], [`sync`] and [`location`]
//! are machines: the caller does what they ask for and tells them what came
//! of it. Every function has a contract that is proved; the two calls into
//! other crates are in [`trusted`].

pub mod error;
pub mod fetch;
pub mod integrity;
pub mod location;
pub mod modinfo;
pub mod prefs;
pub mod reconcile;
pub mod scaffold;
pub mod sync;
pub mod text;
pub mod trusted;
