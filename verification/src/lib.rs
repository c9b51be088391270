//! A local catalog of installable file-system "mods": a metadata store of
//! mod and preset records, a mod lifecycle (install / toggle / update /
//! delete), and preset-driven reconciliation of the set of active mods
//! against an external directory.
//!
//! The library holds the decision logic: which records change, which error
//! is returned on which input, and which file-system mutations an operation
//! requires (expressed as [`types::FsAction`] values). Performing those
//! mutations, and reading and writing the persisted JSON documents, is the
//! caller's part.

pub mod laws;
pub mod lifecycle;
pub mod model;
pub mod paths;
pub mod platform;
pub mod presets;
pub mod stats;
pub mod store;
pub mod types;

use vstd::prelude::*;
use vstd::string::StringExecFns;

pub use types::{
    ActionView, AppSettings, DocRead, FsAction, LibError, Mod, ModStats, ModView, Preset,
    PresetView,
};

verus! {

/// A friendly greeting for `name`.
pub fn greet(name: &str) -> (r: String)
    ensures
        r@ == "Hello, "@ + name@ + "! You've been greeted from Rust!"@,
{
    let mut s = String::from_str("Hello, ");
    s.append(name);
    s.append("! You've been greeted from Rust!");
    s
}

} // verus!
