//! Logic of the Pico backend: the `cargo pico build` of a guest, where it
//! leaves the ELF, and the build of a guest with a stock toolchain.
use crate::compile_utils::{CargoBuildCmd, CargoBuildCmdView};
use crate::text::string_of;
use vstd::prelude::*;

verus! {

/// Target of guest programs built with a stock toolchain.
pub const TARGET_TRIPLE: &'static str = "riscv32ima-unknown-none-elf";

/// Compiler flags of a stock-toolchain guest build.
pub open spec fn stock_rustflags() -> Seq<Seq<char>> {
    seq![
        "-C"@,
        "passes=lower-atomic"@,
        "-C"@,
        "link-arg=-Ttext=0x00200800"@,
        "-C"@,
        "link-arg=--fatal-warnings"@,
        "-C"@,
        "panic=abort"@,
    ]
}

/// The `cargo build` of a guest with the stock toolchain `toolchain`.
pub fn stock_rust_build_cmd(toolchain: &str) -> (r: CargoBuildCmd)
    ensures
        r@ == (CargoBuildCmdView {
            toolchain: toolchain@,
            profile: "release"@,
            rustflags: stock_rustflags(),
            build_options: seq!["-Zbuild-std=core,alloc"@],
            linker_script: None,
        }),
{
    let flags = [
        "-C",
        "passes=lower-atomic",
        "-C",
        "link-arg=-Ttext=0x00200800",
        "-C",
        "link-arg=--fatal-warnings",
        "-C",
        "panic=abort",
    ];
    let options = ["-Zbuild-std=core,alloc"];
    let r = CargoBuildCmd::new().toolchain(toolchain).build_options(options.as_slice()).rustflags(
        flags.as_slice(),
    );
    assert(flags@.map_values(|s: &str| s@) =~= stock_rustflags());
    assert(options@.map_values(|s: &str| s@) =~= seq!["-Zbuild-std=core,alloc"@]);
    r
}

/// The compiler of Pico guests with `cargo pico build`, which leaves the
/// ELF in the guest directory.
pub struct PICO_TARGET;

/// The compiler of Pico guests with Pico's own Rust toolchain, which builds
/// with `cargo pico build` into a temporary directory.
pub struct RustRv32imaCustomized;

/// The arguments of `cargo` that build a guest: `pico build`, and where an
/// output directory is given, `--output-directory` and that directory.
pub fn cargo_pico_build_args(output_directory: Option<&str>) -> (r: Vec<String>)
    ensures
        r@.map_values(|a: String| a@) == match output_directory {
            None => seq!["pico"@, "build"@],
            Some(d) => seq!["pico"@, "build"@, "--output-directory"@, d@],
        },
{
    let mut r: Vec<String> = Vec::new();
    r.push(string_of("pico"));
    r.push(string_of("build"));
    match output_directory {
        None => {},
        Some(d) => {
            r.push(string_of("--output-directory"));
            r.push(string_of(d));
        },
    }
    assert(r@.map_values(|a: String| a@) =~= match output_directory {
        None => seq!["pico"@, "build"@],
        Some(d) => seq!["pico"@, "build"@, "--output-directory"@, d@],
    });
    r
}

impl PICO_TARGET {
    /// Where `cargo pico build` leaves the ELF in the guest directory.
    pub fn elf_path(guest_path: &str) -> (r: String)
        ensures
            r@ == guest_path@ + "/elf/riscv32im-pico-zkvm-elf"@,
    {
        let mut p = string_of(guest_path);
        p.append("/elf/riscv32im-pico-zkvm-elf");
        p
    }
}

impl RustRv32imaCustomized {
    /// Where `cargo pico build` leaves the ELF in the output directory.
    pub fn elf_path(output_directory: &str) -> (r: String)
        ensures
            r@ == output_directory@ + "/riscv32im-pico-zkvm-elf"@,
    {
        let mut p = string_of(output_directory);
        p.append("/riscv32im-pico-zkvm-elf");
        p
    }
}

} // verus!
