//! Logic of the Jolt backend: the package name of a guest, the linker
//! script of a guest and its build with a stock toolchain.
use crate::compile_utils::{CargoBuildCmd, CargoBuildCmdView};
use crate::manifest::{package_name_in, package_name_of, parse_toml_document, toml_document};
use crate::text::{decimal, decimal_string, replace_all, replace_pattern, string_of};
use toml::de::Error as TomlDeError;
use vstd::prelude::*;

verus! {

/// Target of guest programs.
pub const TARGET_TRIPLE: &'static str = "riscv32im-unknown-none-elf";

/// Memory size of a guest, in bytes.
pub const DEFAULT_MEMORY_SIZE: u64 = 10485760;

/// Stack size of a guest, in bytes.
pub const DEFAULT_STACK_SIZE: u64 = 4096;

/// The linker script: the template with `{MEMORY_SIZE}` and `{STACK_SIZE}`
/// replaced by the default sizes.
pub open spec fn linker_script_of(template: Seq<char>) -> Seq<char> {
    replace_all(
        replace_all(template, "{MEMORY_SIZE}"@, decimal(DEFAULT_MEMORY_SIZE as nat)),
        "{STACK_SIZE}"@,
        decimal(DEFAULT_STACK_SIZE as nat),
    )
}

/// The linker script made from `template`.
pub fn make_linker_script(template: &str) -> (r: String)
    ensures
        r@ == linker_script_of(template@),
{
    let memory = decimal_string(DEFAULT_MEMORY_SIZE);
    let stack = decimal_string(DEFAULT_STACK_SIZE);
    let first = replace_pattern(template, "{MEMORY_SIZE}", memory.as_str());
    replace_pattern(first.as_str(), "{STACK_SIZE}", stack.as_str())
}

/// Compiler flags of a guest build.
pub open spec fn stock_rustflags() -> Seq<Seq<char>> {
    seq!["-C"@, "passes=lower-atomic"@, "-C"@, "panic=abort"@, "-C"@, "strip=symbols"@, "-C"@, "opt-level=z"@]
}

/// Options of a guest build.
pub open spec fn stock_build_options() -> Seq<Seq<char>> {
    seq!["--features"@, "guest"@, "-Zbuild-std=core,alloc"@]
}

/// The `cargo build` of a guest with the stock toolchain `toolchain`, linked
/// with the script made from `template`.
pub fn stock_rust_build_cmd(toolchain: &str, template: &str) -> (r: CargoBuildCmd)
    ensures
        r@ == (CargoBuildCmdView {
            toolchain: toolchain@,
            profile: "release"@,
            rustflags: stock_rustflags(),
            build_options: stock_build_options(),
            linker_script: Some(linker_script_of(template@)),
        }),
{
    let script = make_linker_script(template);
    let flags = ["-C", "passes=lower-atomic", "-C", "panic=abort", "-C", "strip=symbols", "-C", "opt-level=z"];
    let options = ["--features", "guest", "-Zbuild-std=core,alloc"];
    let r = CargoBuildCmd::new().linker_script(Some(script.as_str())).toolchain(toolchain).build_options(
        options.as_slice(),
    ).rustflags(flags.as_slice());
    assert(flags@.map_values(|s: &str| s@) =~= stock_rustflags());
    assert(options@.map_values(|s: &str| s@) =~= stock_build_options());
    r
}

/// The compiler of Jolt guests. Its `compile` enters the guest directory,
/// reads the package name from `Cargo.toml` there with
/// `package_name_from_manifest`, builds the package with Jolt's host tools
/// and reads the ELF they produce.
pub struct JOLT_TARGET;

/// Why the package name of a guest could not be found.
#[derive(Debug)]
pub enum PackageNameError {
    /// The manifest could not be read.
    Read(std::io::Error),
    /// The manifest is not a TOML document.
    Parse(TomlDeError),
    /// The manifest has no string at `package.name`; the message says so.
    NotFound(String),
}

/// Errors of compiling a Jolt guest.
#[derive(Debug)]
pub enum CompileError {
    /// No package name could be found in the manifest at `path`.
    PackageNameNotFound { source: PackageNameError, path: String },
    /// Jolt's build of the guest failed.
    BuildFailed,
    /// The ELF at `path` could not be read.
    ReadElfFailed { source: std::io::Error, path: String },
    /// The guest directory could not be entered.
    SetCurrentDirFailed { source: std::io::Error, path: String },
}

/// The package name in the manifest at `manifest_path`, given what reading
/// that file gave: the read error, the parse error, a report that
/// `[package.name]` was not found, or the name.
pub fn package_name_from_manifest(manifest_path: &str, manifest: Result<String, std::io::Error>) -> (r:
    Result<String, CompileError>)
    ensures
        match manifest {
            Err(e) => r matches Err(CompileError::PackageNameNotFound { source: PackageNameError::Read(x), path })
                && x == e && path@ == manifest_path@,
            Ok(text) => match toml_document(text@) {
                None => r matches Err(CompileError::PackageNameNotFound { source: PackageNameError::Parse(_), path })
                    && path@ == manifest_path@,
                Some(doc) => match package_name_in(doc) {
                    None => r matches Err(CompileError::PackageNameNotFound { source: PackageNameError::NotFound(m), path })
                        && m@ == "[package.name] not found"@ && path@ == manifest_path@,
                    Some(n) => r matches Ok(s) && s@ == n,
                },
            },
        },
{
    match manifest {
        Err(e) => Err(
            CompileError::PackageNameNotFound { source: PackageNameError::Read(e), path: string_of(manifest_path) },
        ),
        Ok(text) => match parse_toml_document(text.as_str()) {
            Err(e) => Err(
                CompileError::PackageNameNotFound { source: PackageNameError::Parse(e), path: string_of(manifest_path) },
            ),
            Ok(doc) => match package_name_of(&doc) {
                None => Err(
                    CompileError::PackageNameNotFound {
                        source: PackageNameError::NotFound(string_of("[package.name] not found")),
                        path: string_of(manifest_path),
                    },
                ),
                Some(n) => Ok(n),
            },
        },
    }
}

} // verus!
