//! The first generation of the Docker driver, for the zkVMs it supported.
pub mod compiler;
pub mod cuda;
pub mod docker;
pub mod error;
pub mod input;
pub mod zkvm;

pub use compiler::{EreDockerizedCompiler, SerializedProgram};
pub use zkvm::ErezkVM;
