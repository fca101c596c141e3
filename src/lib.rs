//! Registry of test-framework descriptors: merging remote updates, filtering
//! by what the host can run, decoding and encoding the registry file, and
//! planning the commands that an action runs.

pub mod framework;
pub mod merge;
pub mod availability;
pub mod codec;
pub mod config;
pub mod plan;
