//! The resources of the API, each with the requests of its operations.

pub mod access_passes;
pub mod console;

pub use access_passes::AccessPasses;
pub use console::Console;
