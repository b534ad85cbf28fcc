//! Errors of the Docker driver.
use crate::text::string_of;
use vstd::prelude::*;

verus! {

/// `std::io::Error`, carried through unchanged.
#[verifier::external_type_specification]
#[verifier::external_body]
pub struct ExIoError(std::io::Error);

/// Errors of the zkVM client that talks to a server container.
#[derive(Debug, PartialEq, Eq)]
pub enum zkVMClientError {
    /// The zkVM method failed on the server; its message.
    zkVM(String),
    /// The server did not become healthy in time.
    ConnectionTimeout,
    /// The RPC failed; the message of the error response.
    Rpc(String),
}

/// Errors of the Docker driver.
#[derive(Debug)]
pub enum Error {
    /// The guest program does not lie inside the mounted directory.
    GuestNotInMountingDirecty { mounting_directory: String, guest_directory: String },
    /// An I/O operation failed; `context` says which.
    Io { source: std::io::Error, context: String },
    /// `docker image` could not be run.
    DockerImageCmd(std::io::Error),
    /// `docker build` could not be run or failed.
    DockerBuildCmd(std::io::Error),
    /// `docker run` could not be run or failed.
    DockerRunCmd(std::io::Error),
    /// `docker container` could not be run or failed.
    DockerContainerCmd(std::io::Error),
    /// The zkVM method failed on the server; its message.
    zkVM(String),
    /// The server did not become healthy in time.
    ConnectionTimeout,
    /// The RPC to the server failed; the message of the error response.
    Rpc(String),
}

impl Error {
    /// An I/O error with the context in which it happened.
    pub fn io(source: std::io::Error, context: &str) -> (r: Self)
        ensures
            r matches Error::Io { source: s, context: c } && s == source && c@ == context@,
    {
        Error::Io { source, context: string_of(context) }
    }

    /// The error of the driver for an error of its client: each kind maps to
    /// the kind of the same name.
    pub fn from_client_error(e: zkVMClientError) -> (r: Self)
        ensures
            match e {
                zkVMClientError::zkVM(m) => r matches Error::zkVM(x) && x == m,
                zkVMClientError::ConnectionTimeout => r matches Error::ConnectionTimeout,
                zkVMClientError::Rpc(m) => r matches Error::Rpc(x) && x == m,
            },
    {
        match e {
            zkVMClientError::zkVM(m) => Error::zkVM(m),
            zkVMClientError::ConnectionTimeout => Error::ConnectionTimeout,
            zkVMClientError::Rpc(m) => Error::Rpc(m),
        }
    }
}

} // verus!
