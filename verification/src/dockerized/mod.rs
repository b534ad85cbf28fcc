//! Docker-based driver of the zkVM backends: images, containers and the
//! commands that build and run them.
pub mod compiler;
pub mod docker;
pub mod env;
pub mod error;
pub mod input;
pub mod plan;
pub mod zkvm;

pub use compiler::{EreDockerizedCompiler, SerializedProgram};
pub use zkvm::ErezkVM;
