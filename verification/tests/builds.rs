use ere::build_utils::{build_image_start, build_image_step, BuildImageAction as A, BuildImageState as S, CommandOutcome as O, Error as BuildError};
use ere::build_utils::{
    base_image_build_args, detect_and_generate_name_and_sdk_version, detect_sdk_version,
    has_sdk_package, image_build_args, name_and_sdk_version_source, self_crate_version, str_eq_ignore_ascii_case,
    DockerRunCommand,
};
use ere::compile_utils::{cargo_build_outcome, cargo_metadata, join_strings, manifest_path, CargoBuildCmd, CommonError};
use ere::manifest::{package_name_of, parse_toml_document, TomlItem, TomlValue};
use ere::jolt::{make_linker_script, package_name_from_manifest, CompileError as JoltCompileError, PackageNameError};
use ere::nexus::get_cargo_package_name;
use ere::openvm::{app_config_path, guest_target_dir, CompileError as OpenVmCompileError};
use ere::pico::{cargo_pico_build_args, RustRv32imaCustomized, PICO_TARGET};

fn strings(v: &[&str]) -> Vec<String> {
    v.iter().map(|s| s.to_string()).collect()
}

fn io_error() -> std::io::Error {
    std::io::Error::new(std::io::ErrorKind::NotFound, "missing")
}

#[test]
fn cargo_build_defaults() {
    let cmd = CargoBuildCmd::new();
    assert_eq!(
        cmd.build_args("riscv32im-unknown-none-elf", "/g/Cargo.toml"),
        strings(&[
            "+stable",
            "build",
            "--profile",
            "release",
            "--target",
            "riscv32im-unknown-none-elf",
            "--manifest-path",
            "/g/Cargo.toml",
        ])
    );
    assert_eq!(cmd.encoded_rustflags("/tmp/link.ld"), "");
    assert_eq!(cmd.linker_script_contents(), None);
}

#[test]
fn cargo_build_configured() {
    let cmd = CargoBuildCmd::new()
        .toolchain("nightly")
        .profile("dev")
        .build_options(&["-Zbuild-std=core,alloc"])
        .rustflags(&["-C", "panic=abort"])
        .linker_script(Some("SECTIONS {}"));
    assert_eq!(
        cmd.build_args("t", "m"),
        strings(&["+nightly", "build", "-Zbuild-std=core,alloc", "--profile", "dev", "--target", "t", "--manifest-path", "m"])
    );
    assert_eq!(cmd.linker_script_contents(), Some("SECTIONS {}"));
    assert_eq!(cmd.encoded_rustflags("/tmp/l.ld"), "-C\x1fpanic=abort\x1f-C\x1flink-arg=-T/tmp/l.ld");
    assert_eq!(cmd.elf_path("/target", "t", "guest"), "/target/t/dev/guest");
    let cleared = cmd.linker_script(None);
    assert_eq!(cleared.encoded_rustflags("/tmp/l.ld"), "-C\x1fpanic=abort");
}

#[test]
fn strings_joined() {
    assert_eq!(join_strings(&strings(&["a", "b", "c"]), ", "), "a, b, c");
    assert_eq!(join_strings(&strings(&["a"]), ", "), "a");
    assert_eq!(join_strings(&vec![], ", "), "");
}

#[test]
fn common_errors() {
    match CommonError::tempdir(io_error()) {
        CommonError::Io { ctx, .. } => assert_eq!(ctx, "Failed to create temporary dir"),
        other => panic!("unexpected {:?}", other),
    }
    match CommonError::create_dir("output", "/o", io_error()) {
        CommonError::Io { ctx, .. } => assert_eq!(ctx, "Failed to create dir output at /o"),
        other => panic!("unexpected {:?}", other),
    }
    match CommonError::command("cargo build", io_error()) {
        CommonError::Command { cmd, .. } => assert_eq!(cmd, "cargo build"),
        other => panic!("unexpected {:?}", other),
    }
    let failed = CommonError::command_exit_non_zero("cargo build", "exit status: 101", Some(("", "boom")));
    assert_eq!(failed.exit_message(), Some("Command `cargo build` exit with exit status: 101\nstderr: boom".to_string()));
    let quiet = CommonError::command_exit_non_zero("x", "exit status: 1", None);
    assert_eq!(quiet.exit_message(), Some("Command `x` exit with exit status: 1".to_string()));
    assert_eq!(CommonError::io("ctx", io_error()).exit_message(), None);
}

#[test]
fn cargo_metadata_needs_root_package() {
    assert_eq!(manifest_path("/g"), "/g/Cargo.toml");
    assert!(cargo_metadata("/g", Ok(true)).is_ok());
    match cargo_metadata("/g", Ok(false)) {
        Err(CommonError::CargoRootPackageNotFound { manifest_dir }) => assert_eq!(manifest_dir, "/g"),
        other => panic!("unexpected {:?}", other),
    }
    match cargo_metadata("/g", Err("could not find `Cargo.toml`".to_string())) {
        Err(CommonError::CargoMetadata { manifest_dir, err }) => {
            assert_eq!(manifest_dir, "/g");
            assert_eq!(err, "could not find `Cargo.toml`");
        }
        other => panic!("unexpected {:?}", other),
    }
    match CommonError::deserialize("program", "bincode", "unexpected end") {
        CommonError::Deserialize { id, lib, err } => {
            assert_eq!((id.as_str(), lib.as_str(), err.as_str()), ("program", "bincode", "unexpected end"))
        }
        other => panic!("unexpected {:?}", other),
    }
}

#[test]
fn docker_run_command_args() {
    let cmd = DockerRunCommand::new("ere-base:latest")
        .with_volume("/src", "/workspace")
        .with_volume("/out", "/output")
        .with_command(&strings(&["cargo", "build"]))
        .remove_after_run();
    assert_eq!(
        cmd.to_args(),
        strings(&["run", "--rm", "-v", "/src:/workspace", "-v", "/out:/output", "ere-base:latest", "cargo", "build"])
    );
    assert_eq!(DockerRunCommand::new("img").to_args(), strings(&["run", "img"]));
}

#[test]
fn image_builds() {
    assert_eq!(image_build_args("t:1", "Dockerfile", "."), strings(&["build", "-t", "t:1", "-f", "Dockerfile", "."]));
    assert_eq!(
        base_image_build_args("docker/base/Dockerfile.base", "/ws"),
        strings(&["build", "-t", "ere-base:latest", "-f", "docker/base/Dockerfile.base", "/ws"])
    );
}

#[test]
fn sdk_version_detection() {
    let packages = vec![
        ("serde".to_string(), "1.0.0".to_string()),
        ("Risc0-ZKVM".to_string(), "2.1.0".to_string()),
        ("risc0-zkvm".to_string(), "9.9.9".to_string()),
    ];
    assert!(str_eq_ignore_ascii_case("Risc0-ZKVM", "risc0-zkvm"));
    assert!(!str_eq_ignore_ascii_case("risc0", "risc0-zkvm"));
    assert_eq!(detect_sdk_version(&packages, "risc0-zkvm"), "2.1.0");
    assert!(has_sdk_package(&packages, "RISC0-zkvm"));
    assert!(!has_sdk_package(&packages, "sp1-sdk"));
    assert_eq!(
        name_and_sdk_version_source("risc0", "2.1.0"),
        "const NAME: &str = \"risc0\";\nconst SDK_VERSION: &str = \"2.1.0\";"
    );
    assert_eq!(
        detect_and_generate_name_and_sdk_version("risc0", &packages, "RISC0-zkvm"),
        "const NAME: &str = \"risc0\";\nconst SDK_VERSION: &str = \"2.1.0\";"
    );
    assert_eq!(self_crate_version("0.0.12", "  abc1234\n"), "0.0.12-abc1234");
}

#[test]
fn jolt_linker_script() {
    let template = "MEMORY {MEMORY_SIZE} STACK {STACK_SIZE} AGAIN {MEMORY_SIZE}";
    assert_eq!(make_linker_script(template), "MEMORY 10485760 STACK 4096 AGAIN 10485760");
    assert_eq!(make_linker_script("none"), "none");
}

#[test]
fn jolt_stock_build() {
    let cmd = ere::jolt::stock_rust_build_cmd("nightly", "S={STACK_SIZE}");
    assert_eq!(cmd.linker_script_contents(), Some("S=4096"));
    assert_eq!(
        cmd.build_args(ere::jolt::TARGET_TRIPLE, "m"),
        strings(&[
            "+nightly",
            "build",
            "--features",
            "guest",
            "-Zbuild-std=core,alloc",
            "--profile",
            "release",
            "--target",
            "riscv32im-unknown-none-elf",
            "--manifest-path",
            "m",
        ])
    );
    assert_eq!(
        cmd.encoded_rustflags("/l"),
        "-C\x1fpasses=lower-atomic\x1f-C\x1fpanic=abort\x1f-C\x1fstrip=symbols\x1f-C\x1fopt-level=z\x1f-C\x1flink-arg=-T/l"
    );
}

#[test]
fn jolt_package_name() {
    let found = package_name_from_manifest("Cargo.toml", Ok("[package]\nname = \"fib\"\nversion = \"0.1.0\"\n".to_string()));
    assert_eq!(found.unwrap(), "fib");
    match package_name_from_manifest("Cargo.toml", Ok("[workspace]\nmembers = []\n".to_string())) {
        Err(JoltCompileError::PackageNameNotFound { source: PackageNameError::NotFound(m), path }) => {
            assert_eq!(m, "[package.name] not found");
            assert_eq!(path, "Cargo.toml");
        }
        other => panic!("unexpected {:?}", other),
    }
    match package_name_from_manifest("Cargo.toml", Ok("[package\nname =".to_string())) {
        Err(JoltCompileError::PackageNameNotFound { source: PackageNameError::Parse(_), .. }) => {}
        other => panic!("unexpected {:?}", other),
    }
    match package_name_from_manifest("/g/Cargo.toml", Err(io_error())) {
        Err(JoltCompileError::PackageNameNotFound { source: PackageNameError::Read(_), path }) => {
            assert_eq!(path, "/g/Cargo.toml")
        }
        other => panic!("unexpected {:?}", other),
    }
}

#[test]
fn nexus_package_name() {
    assert_eq!(get_cargo_package_name(Some("[package]\nname = \"guest\"\n")), Some("guest".to_string()));
    assert_eq!(get_cargo_package_name(Some("[package]\nname = 3\n")), None);
    assert_eq!(get_cargo_package_name(Some("not toml [")), None);
    assert_eq!(get_cargo_package_name(None), None);
}

#[test]
fn openvm_build_outcome() {
    assert_eq!(guest_target_dir(Ok("/t".to_string())).unwrap(), "/t");
    assert!(matches!(guest_target_dir(Err(Some(101))), Err(OpenVmCompileError::BuildFailed(101))));
    assert!(matches!(guest_target_dir(Err(None)), Err(OpenVmCompileError::BuildSkipped)));
    assert_eq!(app_config_path("/g"), "/g/openvm.toml");
}

#[test]
fn openvm_stock_build() {
    let cmd = ere::openvm::stock_rust_build_cmd("nightly-2025-01-01");
    assert_eq!(
        cmd.build_args(ere::openvm::TARGET_TRIPLE, "m"),
        strings(&[
            "+nightly-2025-01-01",
            "build",
            "-Zbuild-std=core,alloc",
            "--profile",
            "release",
            "--target",
            "riscv32ima-unknown-none-elf",
            "--manifest-path",
            "m",
        ])
    );
    assert_eq!(
        cmd.encoded_rustflags("/unused"),
        "-C\x1fpasses=lower-atomic\x1f-C\x1flink-arg=-Ttext=0x00200800\x1f-C\x1flink-arg=--fatal-warnings\x1f-C\x1fpanic=abort\x1f--cfg\x1fgetrandom_backend=\"custom\""
    );
}

#[test]
fn pico_builds() {
    assert_eq!(cargo_pico_build_args(None), strings(&["pico", "build"]));
    assert_eq!(cargo_pico_build_args(Some("/tmp/o")), strings(&["pico", "build", "--output-directory", "/tmp/o"]));
    assert_eq!(PICO_TARGET::elf_path("/g"), "/g/elf/riscv32im-pico-zkvm-elf");
    assert_eq!(RustRv32imaCustomized::elf_path("/tmp/o"), "/tmp/o/riscv32im-pico-zkvm-elf");
    let cmd = ere::pico::stock_rust_build_cmd("nightly");
    assert_eq!(
        cmd.encoded_rustflags("/unused"),
        "-C\x1fpasses=lower-atomic\x1f-C\x1flink-arg=-Ttext=0x00200800\x1f-C\x1flink-arg=--fatal-warnings\x1f-C\x1fpanic=abort"
    );
}

#[test]
fn build_image_steps() {
    let (s, a) = build_image_start();
    assert_eq!((s, a), (S::CheckingDocker, A::CheckDocker));
    assert_eq!(build_image_step(S::CheckingDocker, O::SpawnFailed("no docker".into())).1, A::Finish(Err(BuildError::DockerIsNotAvailable)));
    assert_eq!(build_image_step(S::CheckingDocker, O::Ran(false)), (S::BuildingBase, A::BuildBase));
    assert_eq!(build_image_step(S::BuildingBase, O::Ran(true)), (S::BuildingCompiler, A::BuildCompiler));
    assert_eq!(build_image_step(S::BuildingBase, O::Ran(false)).1, A::Finish(Err(BuildError::ImageBuildFailed)));
    assert_eq!(
        build_image_step(S::BuildingBase, O::SpawnFailed("denied".into())).1,
        A::Finish(Err(BuildError::DockerBuildFailed("denied".to_string())))
    );
    assert_eq!(build_image_step(S::BuildingCompiler, O::Ran(true)).1, A::Finish(Ok(())));
    assert_eq!(build_image_step(S::BuildingCompiler, O::Ran(false)).1, A::Finish(Err(BuildError::ImageBuildFailed)));
}

#[test]
fn toml_documents_as_plain_values() {
    let doc = parse_toml_document("title = \"x\"\n[package]\nname = \"fib\"\nedition = 2021\n").unwrap();
    assert_eq!(
        doc,
        vec![
            (
                "package".to_string(),
                TomlValue::Table(vec![
                    ("edition".to_string(), TomlItem::Other),
                    ("name".to_string(), TomlItem::Str("fib".to_string())),
                ])
            ),
            ("title".to_string(), TomlValue::Str("x".to_string())),
        ]
    );
    assert_eq!(package_name_of(&doc), Some("fib".to_string()));
    assert!(parse_toml_document("[package").is_err());
    let not_a_table = vec![("package".to_string(), TomlValue::Str("fib".to_string()))];
    assert_eq!(package_name_of(&not_a_table), None);
    let first_wins = vec![
        ("package".to_string(), TomlValue::Table(vec![("name".to_string(), TomlItem::Str("a".to_string()))])),
        ("package".to_string(), TomlValue::Table(vec![("name".to_string(), TomlItem::Str("b".to_string()))])),
    ];
    assert_eq!(package_name_of(&first_wins), Some("a".to_string()));
}

#[test]
fn cargo_build_outcomes() {
    assert_eq!(cargo_build_outcome("cargo build", Ok((true, "exit status: 0".into())), "/t/elf", Some(Ok(vec![1, 2]))).unwrap(), vec![1, 2]);
    match cargo_build_outcome("cargo build", Ok((false, "exit status: 101".into())), "/t/elf", None) {
        Err(CommonError::CommandExitNonZero { cmd, status, stdout, stderr }) => {
            assert_eq!((cmd.as_str(), status.as_str()), ("cargo build", "exit status: 101"));
            assert!(stdout.is_empty() && stderr.is_empty());
        }
        other => panic!("unexpected {:?}", other),
    }
    match cargo_build_outcome("cargo build", Err(io_error()), "/t/elf", None) {
        Err(CommonError::Command { cmd, .. }) => assert_eq!(cmd, "cargo build"),
        other => panic!("unexpected {:?}", other),
    }
    match cargo_build_outcome("cargo build", Ok((true, "exit status: 0".into())), "/t/elf", Some(Err(io_error()))) {
        Err(CommonError::Io { ctx, .. }) => assert_eq!(ctx, "Failed to write elf to /t/elf"),
        other => panic!("unexpected {:?}", other),
    }
}
