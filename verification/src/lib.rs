//! Coordination layer for a family of companion executables: locating a
//! sibling module on the search path and negotiating its version, and
//! narrowing filesystem events to "this path was written" notifications.

use vstd::prelude::*;

pub mod header;
pub mod helpers;
pub mod info;
pub mod module;
pub mod notifythread;
pub mod text;
pub mod util;

pub use info::IPCInfo;
pub use util::InUfo;

verus! {

/// The name that stands for the parent module where there is none.
pub const KMDBIN: &'static str = "ipc.rlib";

} // verus!
