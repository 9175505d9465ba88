//! Site-specific spiders built on the engine.

pub mod sfs;
