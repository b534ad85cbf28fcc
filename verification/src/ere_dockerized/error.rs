//! Errors of the first Docker driver.
use crate::text::string_of;
use vstd::prelude::*;

verus! {

/// `bincode::ErrorKind`, carried through unchanged.
#[verifier::external_type_specification]
#[verifier::external_body]
pub struct ExBincodeErrorKind(bincode::ErrorKind);

/// Errors common to the driver's operations.
#[derive(Debug)]
pub enum CommonError {
    /// An I/O operation failed; `context` says which.
    Io { source: std::io::Error, context: String },
    /// `docker image` could not be run.
    DockerImageCmd(std::io::Error),
    /// `docker build` could not be run or failed.
    DockerBuildCmd(std::io::Error),
    /// `docker run` could not be run or failed.
    DockerRunCmd(std::io::Error),
    /// Serializing the input failed; `context` says what.
    Serialization { source: Box<bincode::ErrorKind>, context: String },
}

/// Errors of compiling a guest in the compiler container.
#[derive(Debug)]
pub enum CompileError {
    /// The guest program does not lie inside the mounted directory.
    GuestNotInMountingDirecty { mounting_directory: String, guest_directory: String },
    /// A step common to the driver's operations failed.
    Common(CommonError),
}

impl CommonError {
    /// An I/O error with the context in which it happened.
    pub fn io(source: std::io::Error, context: &str) -> (r: Self)
        ensures
            r matches CommonError::Io { source: s, context: c } && s == source && c@ == context@,
    {
        CommonError::Io { source, context: string_of(context) }
    }

    /// A serialization error with the context in which it happened.
    pub fn serilization(source: Box<bincode::ErrorKind>, context: &str) -> (r: Self)
        ensures
            r matches CommonError::Serialization { source: s, context: c } && s == source && c@
                == context@,
    {
        CommonError::Serialization { source, context: string_of(context) }
    }
}

} // verus!
