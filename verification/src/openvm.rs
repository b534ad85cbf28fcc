//! Logic of the OpenVM backend: the outcome of a guest build, where its
//! configuration lies, and the build of a guest with a stock toolchain.
use crate::compile_utils::{CargoBuildCmd, CargoBuildCmdView};
use crate::text::string_of;
use toml::de::Error as TomlDeError;
use vstd::prelude::*;

verus! {

/// Target of guest programs built with a stock toolchain.
pub const TARGET_TRIPLE: &'static str = "riscv32ima-unknown-none-elf";

/// Compiler flags of a stock-toolchain guest build.
pub open spec fn stock_rustflags() -> Seq<Seq<char>> {
    seq![
        "-C"@,
        "passes=lower-atomic"@,
        "-C"@,
        "link-arg=-Ttext=0x00200800"@,
        "-C"@,
        "link-arg=--fatal-warnings"@,
        "-C"@,
        "panic=abort"@,
        "--cfg"@,
        "getrandom_backend=\"custom\""@,
    ]
}

/// The `cargo build` of a guest with the stock toolchain `toolchain`.
pub fn stock_rust_build_cmd(toolchain: &str) -> (r: CargoBuildCmd)
    ensures
        r@ == (CargoBuildCmdView {
            toolchain: toolchain@,
            profile: "release"@,
            rustflags: stock_rustflags(),
            build_options: seq!["-Zbuild-std=core,alloc"@],
            linker_script: None,
        }),
{
    let flags = [
        "-C",
        "passes=lower-atomic",
        "-C",
        "link-arg=-Ttext=0x00200800",
        "-C",
        "link-arg=--fatal-warnings",
        "-C",
        "panic=abort",
        "--cfg",
        "getrandom_backend=\"custom\"",
    ];
    let options = ["-Zbuild-std=core,alloc"];
    let r = CargoBuildCmd::new().toolchain(toolchain).build_options(options.as_slice()).rustflags(
        flags.as_slice(),
    );
    assert(flags@.map_values(|s: &str| s@) =~= stock_rustflags());
    assert(options@.map_values(|s: &str| s@) =~= seq!["-Zbuild-std=core,alloc"@]);
    r
}

/// The compiler of OpenVM guests. Its `compile` builds the guest package
/// with OpenVM's build tools (`guest_target_dir` reads the outcome), reads
/// the unique ELF it finds, and reads the app configuration at
/// `app_config_path`, or takes the default one where there is no file.
pub struct OPENVM_TARGET;

/// Errors of compiling an OpenVM guest.
#[derive(Debug)]
pub enum CompileError {
    /// The build failed with this exit code.
    BuildFailed(i32),
    /// The build was skipped (`OPENVM_SKIP_BUILD` is set).
    BuildSkipped,
    /// No unique ELF was found; the message says why.
    UniqueElfNotFound(String),
    /// The ELF at `path` could not be read.
    ReadElfFailed { source: std::io::Error, path: String },
    /// The configuration at `path` could not be read.
    ReadConfigFailed { source: std::io::Error, path: String },
    /// The configuration is no valid TOML for OpenVM.
    DeserializeConfigFailed(TomlDeError),
}

/// The target directory of a guest build, given its outcome: the directory,
/// or the exit code of a failed build, or no code where the build was
/// skipped.
pub fn guest_target_dir(outcome: Result<String, Option<i32>>) -> (r: Result<String, CompileError>)
    ensures
        match outcome {
            Ok(d) => r == Ok::<String, CompileError>(d),
            Err(Some(code)) => r matches Err(CompileError::BuildFailed(c)) && c == code,
            Err(None) => r matches Err(CompileError::BuildSkipped),
        },
{
    match outcome {
        Ok(d) => Ok(d),
        Err(Some(code)) => Err(CompileError::BuildFailed(code)),
        Err(None) => Err(CompileError::BuildSkipped),
    }
}

/// Where the app configuration of the guest in `guest_directory` lies.
pub fn app_config_path(guest_directory: &str) -> (r: String)
    ensures
        r@ == guest_directory@ + "/openvm.toml"@,
{
    let mut p = string_of(guest_directory);
    p.append("/openvm.toml");
    p
}

} // verus!
