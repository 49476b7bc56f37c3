//! The domain entities, by schema version.

pub mod v1;
