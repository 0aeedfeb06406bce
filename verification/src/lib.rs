//! Host side of a script-engine embedding: reflection of host values into
//! script-visible objects, per-realm prototype caching, and the bridge that
//! turns native calls into typed host calls.

pub mod error;
pub mod script;
