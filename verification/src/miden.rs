//! Logic of the Miden backend: where a guest's assembly entry point is.
use crate::text::string_of;
use vstd::prelude::*;

verus! {

/// The compiler of Miden guests: its `compile` takes the guest directory's
/// name, checks that the entry point `{name}.masm` exists there, and
/// assembles it with Miden's assembler and standard library.
pub struct MIDEN_TARGET;

/// Errors of compiling a Miden guest.
#[derive(Debug, PartialEq, Eq)]
pub enum CompileError {
    /// The guest directory has no usable name.
    InvalidProgramPath,
    /// The entry point file is missing.
    MissingEntrypoint { program_dir: String, entrypoint: String },
}

/// The entry point of the guest in the directory named `dir_name`:
/// `{dir_name}.masm`.
pub fn entrypoint(dir_name: &str) -> (r: String)
    ensures
        r@ == dir_name@ + ".masm"@,
{
    let mut e = string_of(dir_name);
    e.append(".masm");
    e
}

/// The path of the entry point: `{guest_directory}/{entrypoint}`.
pub fn entrypoint_path(guest_directory: &str, entrypoint: &str) -> (r: String)
    ensures
        r@ == guest_directory@ + "/"@ + entrypoint@,
{
    let mut p = string_of(guest_directory);
    p.append("/");
    p.append(entrypoint);
    p
}

/// The error for a guest directory without its entry point.
pub fn missing_entrypoint(program_dir: &str, entrypoint: &str) -> (r: CompileError)
    ensures
        r matches CompileError::MissingEntrypoint { program_dir: d, entrypoint: e } && d@ == program_dir@
            && e@ == entrypoint@,
{
    CompileError::MissingEntrypoint { program_dir: string_of(program_dir), entrypoint: string_of(entrypoint) }
}

} // verus!
