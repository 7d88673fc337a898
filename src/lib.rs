//! Scalar SQL functions over filesystem paths: a version string, build
//! metadata, and the component of a path at a given position.

pub mod components;
pub mod metadata;
pub mod registry;

pub use components::{component_at, path_at};
pub use metadata::{path_debug, path_version};
pub use registry::{registrations, Registration, ScalarFunction};

