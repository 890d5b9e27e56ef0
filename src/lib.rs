//! A version-pinned launcher's core: choosing the prebuilt artifact for a
//! platform, deciding when cached release metadata is stale, planning an
//! atomic installation, resolving which archive provides a binary, and
//! checking the project's prelude against the one an archive expects.
use vstd::prelude::*;

pub mod text;
pub mod target;
pub mod pattern;
pub mod release;
pub mod cache;
pub mod binding;
pub mod installer;
pub mod integrity;
pub mod resolve;

pub use release::{Asset, Release};

verus! {

} // verus!
