//! Verified core of the Ere toolkit: command builders for Docker and Cargo,
//! the catalogue of supported zkVMs and their image names, input framing and
//! the checks that guard proof verification.
#![allow(non_camel_case_types)]

pub mod text;
pub mod dockerized;
pub mod ere_dockerized;
pub mod dockerized_server;
pub mod compile_utils;
pub mod build_utils;
pub mod risc0;
pub mod jolt;
pub mod openvm;
pub mod pico;
pub mod bindings;
pub mod ere_cli;
pub mod ere_server;
pub mod miden;
pub mod risczero;
pub mod manifest;
pub mod nexus;
