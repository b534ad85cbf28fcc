//! The guest compiler of the first Docker driver.
use crate::dockerized::compiler::{path_strip_prefix, strip_path_prefix};
use crate::dockerized::docker::DockerRunCmd;
use crate::dockerized::env::EnvVars;
use crate::dockerized::plan::{compiler_command, compiler_commands, compiler_run_options};
use crate::dockerized::zkvm::compiler_zkvm_image_of;
use crate::ere_dockerized::error::{CommonError, CompileError};
use crate::ere_dockerized::zkvm::{as_current, ErezkVM};
use crate::text::string_of;
use vstd::prelude::*;

pub use crate::dockerized::compiler::SerializedProgram;
use crate::dockerized::compiler::EreDockerizedCompiler as CurrentCompiler;

verus! {

/// Compiles guest programs below `mount_directory` for `zkvm`, in the
/// zkVM's compiler container.
pub struct EreDockerizedCompiler {
    zkvm: ErezkVM,
    mount_directory: String,
}

impl EreDockerizedCompiler {
    /// The zkVM this compiler targets.
    pub closed spec fn spec_zkvm(&self) -> ErezkVM {
        self.zkvm
    }

    /// The directory that is mounted into the compiler container.
    pub closed spec fn spec_mount_directory(&self) -> Seq<char> {
        self.mount_directory@
    }

    /// A compiler for `zkvm` that mounts `mount_directory`, given the outcome
    /// of building the zkVM's images without GPU support: its error is
    /// returned as it is.
    pub fn new(zkvm: ErezkVM, mount_directory: &str, images: Result<(), CommonError>) -> (r: Result<
        Self,
        CommonError,
    >)
        ensures
            match images {
                Ok(()) => r matches Ok(c) && c.spec_zkvm() == zkvm && c.spec_mount_directory()
                    == mount_directory@,
                Err(e) => r matches Err(x) && x == e,
            },
    {
        match images {
            Ok(()) => Ok(EreDockerizedCompiler { zkvm, mount_directory: string_of(mount_directory) }),
            Err(e) => Err(e),
        }
    }

    /// The zkVM this compiler targets.
    pub fn zkvm(&self) -> (r: ErezkVM)
        ensures
            r == self.spec_zkvm(),
    {
        self.zkvm
    }

    /// The path of `guest_directory` below the mounted directory, or the
    /// error that the guest lies outside it.
    pub fn guest_relative_path(&self, guest_directory: &str) -> (r: Result<String, CompileError>)
        ensures
            match path_strip_prefix(guest_directory@, self.spec_mount_directory()) {
                None => r matches Err(CompileError::GuestNotInMountingDirecty { mounting_directory, guest_directory: g })
                    && mounting_directory@ == self.spec_mount_directory() && g@ == guest_directory@,
                Some(rel) => r matches Ok(s) && s@ == rel,
            },
    {
        match strip_path_prefix(guest_directory, self.mount_directory.as_str()) {
            Some(rel) => Ok(rel),
            None => Err(
                CompileError::GuestNotInMountingDirecty {
                    mounting_directory: string_of(self.mount_directory.as_str()),
                    guest_directory: string_of(guest_directory),
                },
            ),
        }
    }

    /// The `docker run` and the container command that compile the guest at
    /// `guest_relative` below the mounted directory; the program is written
    /// to `{tempdir}/program`.
    pub fn compile_cmd(
        &self,
        version: &str,
        env: &EnvVars,
        tempdir: &str,
        guest_relative: &str,
    ) -> (r: (DockerRunCmd, Vec<String>))
        ensures
            r.0@.image == compiler_zkvm_image_of(as_current(self.spec_zkvm()), version@),
            r.0@.options == compiler_run_options(
                as_current(self.spec_zkvm()),
                env@,
                self.spec_mount_directory(),
                tempdir@,
            ),
            r.1.deep_view() == compiler_commands(guest_relative@),
    {
        let cmd = self.zkvm.compiler_run_cmd(version, env, self.mount_directory.as_str(), tempdir);
        (cmd, compiler_command(guest_relative))
    }

    /// Where the compiler container leaves the program: `{tempdir}/program`.
    pub fn program_path(tempdir: &str) -> (r: String)
        ensures
            r@ == tempdir@ + "/program"@,
    {
        CurrentCompiler::program_path(tempdir)
    }

    /// The result of a compile, given the outcome of the compiler
    /// container's run and, when it succeeded, of reading the program at
    /// `program_path`: a failed run is a `docker run` error, a program that
    /// cannot be read an I/O error, and otherwise the program.
    pub fn compile_outcome(
        run: Result<(), std::io::Error>,
        program_path: &str,
        program: Option<Result<Vec<u8>, std::io::Error>>,
    ) -> (r: Result<SerializedProgram, CompileError>)
        requires
            run is Ok ==> program is Some,
        ensures
            run matches Err(e) ==> (r matches Err(CompileError::Common(CommonError::DockerRunCmd(x)))
                && x == e),
            run is Ok ==> (program matches Some(Ok(b)) ==> (r matches Ok(p) && p@ == b@)),
            run is Ok ==> (program matches Some(Err(e)) ==> (r matches Err(
                CompileError::Common(CommonError::Io { source, context }),
            ) && source == e && context@ == "Failed to read compiled program at "@ + program_path@)),
    {
        match run {
            Err(e) => Err(CompileError::Common(CommonError::DockerRunCmd(e))),
            Ok(()) => match program.unwrap() {
                Ok(b) => Ok(SerializedProgram::from_bytes(b)),
                Err(e) => {
                    let mut context = string_of("Failed to read compiled program at ");
                    context.append(program_path);
                    Err(CompileError::Common(CommonError::Io { source: e, context }))
                },
            },
        }
    }
}

} // verus!
