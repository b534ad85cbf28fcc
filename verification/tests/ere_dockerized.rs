use ere::dockerized::env::EnvVars;
use ere::dockerized::plan::ImageStage;
use ere::ere_dockerized::compiler::EreDockerizedCompiler;
use ere::ere_dockerized::cuda::{
    arch_from_compute_cap, compute_cap_from_output, cuda_arch, remove_dots, valid_cuda_arch,
};
use ere::ere_dockerized::docker::{CmdOption, DockerBuildCmd, DockerRunCmd};
use ere::ere_dockerized::error::{CommonError, CompileError};
use ere::ere_dockerized::input::{word_padding_len, words_le_bytes, ObjectEncoding};
use ere::ere_dockerized::zkvm::ErezkVM;

fn strings(v: &[&str]) -> Vec<String> {
    v.iter().map(|s| s.to_string()).collect()
}

const ALL: [ErezkVM; 9] = [
    ErezkVM::Jolt,
    ErezkVM::Miden,
    ErezkVM::Nexus,
    ErezkVM::OpenVM,
    ErezkVM::Pico,
    ErezkVM::Risc0,
    ErezkVM::SP1,
    ErezkVM::Ziren,
    ErezkVM::Zisk,
];

#[test]
fn legacy_names_round_trip() {
    let names = ["jolt", "miden", "nexus", "openvm", "pico", "risc0", "sp1", "ziren", "zisk"];
    for (z, n) in ALL.iter().zip(names.iter()) {
        assert_eq!(z.as_str(), *n);
        assert_eq!(ErezkVM::from_str(n), Ok(*z));
    }
    assert_eq!(ErezkVM::from_str("airbender"), Err("Unsupported zkvm airbender".to_string()));
}

#[test]
fn legacy_ports_start_at_offset() {
    let ports: Vec<u16> = ALL.iter().map(|z| z.server_port()).collect();
    assert_eq!(ports, vec![4174, 4175, 4176, 4177, 4178, 4179, 4180, 4181, 4182]);
    assert_eq!(ErezkVM::SP1.server_container_name(), "ere-server-sp1-4180");
}

#[test]
fn legacy_images_match_current_names() {
    assert_eq!(ErezkVM::Risc0.image_tag("0.2.0", true), "0.2.0-cuda");
    assert_eq!(ErezkVM::Risc0.base_image("0.2.0", false), "ere-base:0.2.0");
    assert_eq!(ErezkVM::Zisk.base_zkvm_image("0.2.0", true), "ere-base-zisk:0.2.0-cuda");
    assert_eq!(ErezkVM::Pico.compiler_zkvm_image("0.2.0"), "ere-compiler-pico:0.2.0");
    assert_eq!(ErezkVM::Ziren.server_zkvm_image("0.2.0", true), "ere-server-ziren:0.2.0");
    assert_eq!(ErezkVM::Nexus.stage_image(ImageStage::Base, "0.2.0", false), "ere-base:0.2.0");
}

#[test]
fn openvm_takes_arch_without_prefix() {
    let cmd = ErezkVM::OpenVM.stage_build_cmd(ImageStage::BaseZkvm, "v", true, "d", Some("sm_120"));
    assert_eq!(
        cmd.to_args("."),
        strings(&[
            "build",
            "--file",
            "d/openvm/Dockerfile.base",
            "--tag",
            "ere-base-openvm:v-cuda",
            "--tag",
            "ere-base-openvm:latest-cuda",
            "--build-arg",
            "BASE_IMAGE=ere-base:v-cuda",
            "--build-arg",
            "CUDA=1",
            "--build-arg",
            "CUDA_ARCH=120",
            ".",
        ])
    );
    let risc0 = ErezkVM::Risc0.stage_build_cmd(ImageStage::BaseZkvm, "v", true, "d", Some("sm_120"));
    assert_eq!(risc0.to_args(".")[12], "CUDA_ARCH=sm_120");
}

#[test]
fn legacy_server_run_uses_legacy_port() {
    let env = EnvVars::new();
    let cmd = ErezkVM::Pico.server_run_cmd("v", false, &env, "/t", "/h");
    assert_eq!(
        cmd.to_args(&vec![]),
        strings(&["run", "--rm", "--publish", "4178:4178", "--name", "ere-server-pico-4178", "ere-server-pico:v"])
    );
}

#[test]
fn legacy_builders() {
    assert_eq!(CmdOption::new("tag", "x").to_args(), strings(&["--tag", "x"]));
    assert_eq!(CmdOption::flag("rm").to_display_string(), "--rm");
    let build = DockerBuildCmd::new().file("f").tag("t").bulid_arg("A", "b");
    assert_eq!(build.to_args("."), strings(&["build", "--file", "f", "--tag", "t", "--build-arg", "A=b", "."]));
    let run = DockerRunCmd::new("img".to_string()).rm().gpus("all").volume("/h", "/c");
    assert_eq!(
        run.to_args(&strings(&["x"])),
        strings(&["run", "--rm", "--gpus", "all", "--volume", "/h:/c", "img", "x"])
    );
}

#[test]
fn compute_capability_is_first_line_trimmed() {
    assert_eq!(compute_cap_from_output("8.9\n7.5\n"), Some("8.9".to_string()));
    assert_eq!(compute_cap_from_output(" 12.0 \n"), Some("12.0".to_string()));
    assert_eq!(compute_cap_from_output(""), None);
}

#[test]
fn cuda_arch_validation() {
    assert!(valid_cuda_arch("sm_89"));
    assert!(valid_cuda_arch("sm_+7"));
    assert!(!valid_cuda_arch("sm_"));
    assert!(!valid_cuda_arch("sm89"));
    assert!(!valid_cuda_arch("sm_8.9"));
    assert_eq!(remove_dots("1.2.3"), "123");
    assert_eq!(arch_from_compute_cap("8.9"), "sm_89");
}

#[test]
fn cuda_arch_choice() {
    assert_eq!(cuda_arch(Some("sm_80"), Some("8.9")), Some("sm_80".to_string()));
    assert_eq!(cuda_arch(Some("ampere"), Some("8.9")), Some("sm_89".to_string()));
    assert_eq!(cuda_arch(Some("ampere"), None), None);
    assert_eq!(cuda_arch(Some("sm_120"), None), Some("sm_120".to_string()));
    assert_eq!(cuda_arch(None, Some("8.9")), Some("sm_89".to_string()));
    assert_eq!(cuda_arch(None, None), None);
}

#[test]
fn object_encodings() {
    assert_eq!(ErezkVM::OpenVM.object_encoding(), ObjectEncoding::Risc0Words);
    assert_eq!(ErezkVM::Risc0.object_encoding(), ObjectEncoding::Risc0Words);
    for z in [ErezkVM::Miden, ErezkVM::Pico, ErezkVM::SP1, ErezkVM::Ziren, ErezkVM::Zisk] {
        assert_eq!(z.object_encoding(), ObjectEncoding::Bincode);
    }
    assert_eq!(ErezkVM::Risc0.output_encoding(), ObjectEncoding::Risc0Words);
    assert_eq!(ErezkVM::SP1.output_encoding(), ObjectEncoding::Bincode);
}

#[test]
fn risc0_words_are_little_endian() {
    assert_eq!(words_le_bytes(&vec![0x04030201, 0xffu32]), vec![1, 2, 3, 4, 0xff, 0, 0, 0]);
    assert_eq!(words_le_bytes(&vec![]), Vec::<u8>::new());
}

#[test]
fn word_padding() {
    assert_eq!(word_padding_len(0), 0);
    assert_eq!(word_padding_len(1), 3);
    assert_eq!(word_padding_len(6), 2);
    assert_eq!(word_padding_len(8), 0);
}

#[test]
fn inputs_framed_by_bincode() {
    let items = vec![vec![1u8, 2, 3], vec![], vec![9u8]];
    let bytes = ErezkVM::SP1.serialize_inputs(&items).unwrap();
    let mut expected = vec![3u8, 0, 0, 0, 0, 0, 0, 0];
    expected.extend([3u8, 0, 0, 0, 0, 0, 0, 0, 1, 2, 3]);
    expected.extend([0u8; 8]);
    expected.extend([1u8, 0, 0, 0, 0, 0, 0, 0, 9]);
    assert_eq!(bytes, expected);
    assert_eq!(ErezkVM::Risc0.serialize_inputs(&vec![]).unwrap(), vec![0u8; 8]);
}

#[test]
fn legacy_compiler_paths() {
    let compiler = EreDockerizedCompiler::new(ErezkVM::Risc0, "/repo", Ok(())).unwrap();
    assert_eq!(compiler.zkvm(), ErezkVM::Risc0);
    assert_eq!(compiler.guest_relative_path("/repo/tests/risc0/basic").unwrap(), "tests/risc0/basic");
    match compiler.guest_relative_path("/elsewhere/guest") {
        Err(CompileError::GuestNotInMountingDirecty { mounting_directory, guest_directory }) => {
            assert_eq!(mounting_directory, "/repo");
            assert_eq!(guest_directory, "/elsewhere/guest");
        }
        other => panic!("unexpected {:?}", other),
    }
    let (cmd, commands) = compiler.compile_cmd("v", &EnvVars::new(), "/out", "g");
    assert_eq!(
        cmd.to_args(&commands),
        strings(&[
            "run",
            "--rm",
            "--volume",
            "/repo:/guest",
            "--volume",
            "/out:/output",
            "ere-compiler-risc0:v",
            "--guest-path",
            "/guest/g",
            "--output-path",
            "/output/program",
        ])
    );
}

#[test]
fn legacy_common_errors() {
    let io = std::io::Error::new(std::io::ErrorKind::Other, "x");
    match CommonError::io(io, "Failed to read compiled program") {
        CommonError::Io { context, .. } => assert_eq!(context, "Failed to read compiled program"),
        other => panic!("unexpected {:?}", other),
    }
}

#[test]
fn legacy_compile_outcomes() {
    assert_eq!(EreDockerizedCompiler::program_path("/o"), "/o/program");
    let failed = std::io::Error::new(std::io::ErrorKind::Other, "x");
    assert!(matches!(
        EreDockerizedCompiler::compile_outcome(Err(failed), "/o/program", None),
        Err(CompileError::Common(CommonError::DockerRunCmd(_)))
    ));
    let ok = EreDockerizedCompiler::compile_outcome(Ok(()), "/o/program", Some(Ok(vec![1]))).unwrap();
    assert_eq!(ok.as_bytes(), &vec![1]);
    let io = std::io::Error::new(std::io::ErrorKind::Other, "x");
    assert!(EreDockerizedCompiler::new(ErezkVM::SP1, "/r", Err(CommonError::DockerBuildCmd(io))).is_err());
}
