//! Preparation of a new container: the state record, its life cycle, and the
//! decisions taken while an init container is built.

pub mod annotations;
pub mod builder;
pub mod container;
pub mod error;
pub mod laws;
pub mod machine;
pub mod model;
pub mod paths;
pub mod rootless;
pub mod runtime;
pub mod status;
