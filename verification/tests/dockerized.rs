use ere::dockerized::input::InputItem;
use ere::dockerized::plan::{image_build_step, image_stages, ImageBuildAction as A, ImageCommandOutcome as O};
use ere::dockerized_server::SerializedInputItem;
use ere::ere_dockerized::input::ObjectEncoding;
use ere::dockerized::compiler::{EreDockerizedCompiler, SerializedProgram};
use ere::dockerized::docker::{options_to_args, CmdOption, DockerBuildCmd, DockerRunCmd};
use ere::dockerized::env::EnvVars;
use ere::dockerized::error::{zkVMClientError, Error};
use ere::dockerized::plan::{compiler_command, stage_needs_rebuild, ImageStage};
use ere::dockerized::zkvm::ErezkVM;

fn strings(v: &[&str]) -> Vec<String> {
    v.iter().map(|s| s.to_string()).collect()
}

fn env_of(pairs: &[(&str, &str)]) -> EnvVars {
    let mut env = EnvVars::new();
    for (k, v) in pairs {
        env.set(k.to_string(), v.to_string());
    }
    env
}

const ALL: [ErezkVM; 10] = [
    ErezkVM::Airbender,
    ErezkVM::Jolt,
    ErezkVM::Miden,
    ErezkVM::Nexus,
    ErezkVM::OpenVM,
    ErezkVM::Pico,
    ErezkVM::Risc0,
    ErezkVM::SP1,
    ErezkVM::Ziren,
    ErezkVM::Zisk,
];

#[test]
fn cmd_option_args_and_display() {
    let o = CmdOption::new("tag", "ere-base:0.1.0");
    assert_eq!(o.to_args(), strings(&["--tag", "ere-base:0.1.0"]));
    assert_eq!(o.to_display_string(), "--tag ere-base:0.1.0");
    let f = CmdOption::flag("rm");
    assert_eq!(f.to_args(), strings(&["--rm"]));
    assert_eq!(f.to_display_string(), "--rm");
    let all = options_to_args(&vec![o, f]);
    assert_eq!(all, strings(&["--tag", "ere-base:0.1.0", "--rm"]));
}

#[test]
fn docker_build_keeps_options_in_order() {
    let cmd = DockerBuildCmd::new()
        .file("docker/base/Dockerfile.base")
        .tag("ere-base:0.1.0")
        .tag("ere-base:latest")
        .build_arg("CUDA", "1")
        .option("platform", "linux/amd64");
    assert_eq!(
        cmd.to_args("/workspace"),
        strings(&[
            "build",
            "--file",
            "docker/base/Dockerfile.base",
            "--tag",
            "ere-base:0.1.0",
            "--tag",
            "ere-base:latest",
            "--build-arg",
            "CUDA=1",
            "--platform",
            "linux/amd64",
            "/workspace",
        ])
    );
}

#[test]
fn docker_run_keeps_options_in_order() {
    let cmd = DockerRunCmd::new("ere-server-sp1:0.1.0".to_string())
        .rm()
        .publish("4181", "4181")
        .volume("/a", "/b")
        .env("KEY", "VALUE")
        .gpus("all")
        .network("host")
        .name("ere-server-sp1-4181")
        .flag("init")
        .option("shm-size", "16G");
    assert_eq!(
        cmd.to_args(&strings(&["--port", "4181"])),
        strings(&[
            "run",
            "--rm",
            "--publish",
            "4181:4181",
            "--volume",
            "/a:/b",
            "--env",
            "KEY=VALUE",
            "--gpus",
            "all",
            "--network",
            "host",
            "--name",
            "ere-server-sp1-4181",
            "--init",
            "--shm-size",
            "16G",
            "ere-server-sp1:0.1.0",
            "--port",
            "4181",
        ])
    );
}

#[test]
fn mount_docker_socket_mounts_socket_at_same_path() {
    let a = DockerRunCmd::new("img".to_string()).mount_docker_socket().to_args(&vec![]);
    let b = DockerRunCmd::new("img".to_string())
        .volume("/var/run/docker.sock", "/var/run/docker.sock")
        .to_args(&vec![]);
    assert_eq!(a, b);
    assert_eq!(a, strings(&["run", "--volume", "/var/run/docker.sock:/var/run/docker.sock", "img"]));
}

#[test]
fn inherit_env_passes_only_set_variables() {
    let cmd = DockerRunCmd::new("img".to_string())
        .inherit_env("RUST_LOG", Some("debug"))
        .inherit_env("NO_COLOR", None);
    assert_eq!(cmd.to_args(&vec![]), strings(&["run", "--env", "RUST_LOG=debug", "img"]));
}

#[test]
fn env_vars_first_setting_wins() {
    let env = env_of(&[("A", "1"), ("B", "2"), ("A", "3")]);
    assert_eq!(env.get("A"), Some("1"));
    assert_eq!(env.get("B"), Some("2"));
    assert_eq!(env.get("C"), None);
}

#[test]
fn zkvm_names_round_trip() {
    let names = ["airbender", "jolt", "miden", "nexus", "openvm", "pico", "risc0", "sp1", "ziren", "zisk"];
    for (z, n) in ALL.iter().zip(names.iter()) {
        assert_eq!(z.as_str(), *n);
        assert_eq!(z.to_string(), *n);
        assert_eq!(ErezkVM::from_str(n), Ok(*z));
    }
}

#[test]
fn zkvm_from_unknown_name_fails() {
    assert_eq!(ErezkVM::from_str("foo"), Err("Unsupported zkvm foo".to_string()));
    assert_eq!(ErezkVM::from_str("SP1"), Err("Unsupported zkvm SP1".to_string()));
}

#[test]
fn zkvm_server_ports_follow_the_list() {
    let ports: Vec<u16> = ALL.iter().map(|z| z.server_port()).collect();
    assert_eq!(ports, vec![4174, 4175, 4176, 4177, 4178, 4179, 4180, 4181, 4182, 4183]);
}

#[test]
fn zkvm_image_names() {
    assert_eq!(ErezkVM::Risc0.image_tag("0.1.0", true), "0.1.0-cuda");
    assert_eq!(ErezkVM::Risc0.image_tag("0.1.0", false), "0.1.0");
    assert_eq!(ErezkVM::SP1.image_tag("0.1.0", true), "0.1.0");
    assert_eq!(ErezkVM::Zisk.base_image("0.1.0", true), "ere-base:0.1.0-cuda");
    assert_eq!(ErezkVM::Pico.base_image("latest", true), "ere-base:latest");
    assert_eq!(ErezkVM::OpenVM.base_zkvm_image("0.1.0", true), "ere-base-openvm:0.1.0-cuda");
    assert_eq!(ErezkVM::OpenVM.compiler_zkvm_image("0.1.0"), "ere-compiler-openvm:0.1.0");
    assert_eq!(ErezkVM::Airbender.server_zkvm_image("0.1.0", true), "ere-server-airbender:0.1.0-cuda");
    assert_eq!(ErezkVM::Miden.server_zkvm_image("0.1.0", false), "ere-server-miden:0.1.0");
    assert_eq!(ErezkVM::Jolt.stage_image(ImageStage::Compiler, "1.2.3", true), "ere-compiler-jolt:1.2.3");
    assert_eq!(ErezkVM::Risc0.server_container_name(), "ere-server-risc0-4180");
}

#[test]
fn base_stage_build() {
    let cmd = ErezkVM::SP1.stage_build_cmd(ImageStage::Base, "0.1.0", true, "/ws/docker", None);
    assert_eq!(
        cmd.to_args("/ws"),
        strings(&[
            "build",
            "--file",
            "/ws/docker/base/Dockerfile.base",
            "--tag",
            "ere-base:0.1.0",
            "--tag",
            "ere-base:latest",
            "--build-arg",
            "CUDA=1",
            "/ws",
        ])
    );
}

#[test]
fn sdk_stage_build_with_cuda_arch() {
    let cmd = ErezkVM::Risc0.stage_build_cmd(ImageStage::BaseZkvm, "0.1.0", true, "/ws/docker", Some("sm_89"));
    assert_eq!(
        cmd.to_args("/ws"),
        strings(&[
            "build",
            "--file",
            "/ws/docker/risc0/Dockerfile.base",
            "--tag",
            "ere-base-risc0:0.1.0-cuda",
            "--tag",
            "ere-base-risc0:latest-cuda",
            "--build-arg",
            "BASE_IMAGE=ere-base:0.1.0-cuda",
            "--build-arg",
            "CUDA=1",
            "--build-arg",
            "CUDA_ARCH=sm_89",
            "/ws",
        ])
    );
    // Without GPU, neither CUDA nor the architecture is passed.
    let cpu = ErezkVM::Risc0.stage_build_cmd(ImageStage::BaseZkvm, "0.1.0", false, "/ws/docker", Some("sm_89"));
    assert_eq!(
        cpu.to_args("/ws"),
        strings(&[
            "build",
            "--file",
            "/ws/docker/risc0/Dockerfile.base",
            "--tag",
            "ere-base-risc0:0.1.0",
            "--tag",
            "ere-base-risc0:latest",
            "--build-arg",
            "BASE_IMAGE=ere-base:0.1.0",
            "/ws",
        ])
    );
}

#[test]
fn compiler_and_server_stage_builds() {
    let compiler = ErezkVM::Pico.stage_build_cmd(ImageStage::Compiler, "0.1.0", true, "d", None);
    assert_eq!(
        compiler.to_args("."),
        strings(&[
            "build",
            "--file",
            "d/pico/Dockerfile.compiler",
            "--tag",
            "ere-compiler-pico:0.1.0",
            "--tag",
            "ere-compiler-pico:latest",
            "--build-arg",
            "BASE_ZKVM_IMAGE=ere-base-pico:0.1.0",
            ".",
        ])
    );
    let server = ErezkVM::Zisk.stage_build_cmd(ImageStage::Server, "0.1.0", true, "d", None);
    assert_eq!(
        server.to_args("."),
        strings(&[
            "build",
            "--file",
            "d/zisk/Dockerfile.server",
            "--tag",
            "ere-server-zisk:0.1.0-cuda",
            "--tag",
            "ere-server-zisk:latest-cuda",
            "--build-arg",
            "BASE_ZKVM_IMAGE=ere-base-zisk:0.1.0-cuda",
            "--build-arg",
            "CUDA=1",
            ".",
        ])
    );
}

#[test]
fn stage_rebuild_decision() {
    assert!(stage_needs_rebuild(true, true));
    assert!(stage_needs_rebuild(false, false));
    assert!(!stage_needs_rebuild(false, true));
}

#[test]
fn risc0_server_run() {
    let env = env_of(&[("RUST_LOG", "info"), ("RISC0_SEGMENT_PO2", "20")]);
    let cmd = ErezkVM::Risc0.server_run_cmd("0.1.0", false, &env, "/tmp/x", "/home/u");
    assert_eq!(
        cmd.to_args(&strings(&["--port", "4180"])),
        strings(&[
            "run",
            "--rm",
            "--env",
            "RUST_LOG=info",
            "--publish",
            "4180:4180",
            "--name",
            "ere-server-risc0-4180",
            "--env",
            "RISC0_SEGMENT_PO2=20",
            "--volume",
            "/var/run/docker.sock:/var/run/docker.sock",
            "--env",
            "TMPDIR=/tmp/x",
            "--volume",
            "/tmp/x:/tmp/x",
            "ere-server-risc0:0.1.0",
            "--port",
            "4180",
        ])
    );
}

#[test]
fn sp1_gpu_server_run() {
    let env = EnvVars::new();
    let cmd = ErezkVM::SP1.server_run_cmd_on_port(5000, "v", true, &env, "/t", "/h");
    assert_eq!(
        cmd.to_args(&vec![]),
        strings(&[
            "run",
            "--rm",
            "--publish",
            "5000:5000",
            "--name",
            "ere-server-sp1-5000",
            "--volume",
            "/var/run/docker.sock:/var/run/docker.sock",
            "--network",
            "host",
            "--volume",
            "/var/run/docker.sock:/var/run/docker.sock",
            "--env",
            "SP1_GROTH16_CIRCUIT_PATH=/h/.sp1/circuits/groth16",
            "--env",
            "TMPDIR=/t",
            "--volume",
            "/t:/t",
            "--volume",
            "/h/.sp1/circuits/groth16:/h/.sp1/circuits/groth16",
            "ere-server-sp1:v",
        ])
    );
}

#[test]
fn zisk_server_run_inherits_its_settings() {
    let env = env_of(&[("ZISK_MAX_STREAMS", "4"), ("ZISK_PORT", "7000")]);
    let cmd = ErezkVM::Zisk.server_run_cmd("v", true, &env, "/t", "/h");
    assert_eq!(
        cmd.to_args(&vec![]),
        strings(&[
            "run",
            "--rm",
            "--publish",
            "4183:4183",
            "--name",
            "ere-server-zisk-4183",
            "--shm-size",
            "16G",
            "--ulimit",
            "memlock=-1:-1",
            "--env",
            "ZISK_PORT=7000",
            "--env",
            "ZISK_MAX_STREAMS=4",
            "--gpus",
            "all",
            "ere-server-zisk:v-cuda",
        ])
    );
}

#[test]
fn compiler_run_for_openvm() {
    let env = env_of(&[("OPENVM_RUST_TOOLCHAIN", "nightly"), ("NO_COLOR", "1")]);
    let compiler = EreDockerizedCompiler::new(ErezkVM::OpenVM, "/work", Ok(())).unwrap();
    assert_eq!(compiler.zkvm(), ErezkVM::OpenVM);
    assert_eq!(compiler.mount_directory(), "/work");
    let rel = compiler.guest_relative_path("/work/guests/fib").unwrap();
    assert_eq!(rel, "guests/fib");
    let (cmd, commands) = compiler.compile_cmd("0.1.0", &env, "/tmp/out", &rel);
    assert_eq!(
        cmd.to_args(&commands),
        strings(&[
            "run",
            "--rm",
            "--env",
            "NO_COLOR=1",
            "--volume",
            "/work:/guest",
            "--volume",
            "/tmp/out:/output",
            "--env",
            "OPENVM_RUST_TOOLCHAIN=nightly",
            "ere-compiler-openvm:0.1.0",
            "--guest-path",
            "/guest/guests/fib",
            "--output-path",
            "/output/program",
        ])
    );
}

#[test]
fn guest_outside_mount_is_refused() {
    let compiler = EreDockerizedCompiler::new(ErezkVM::SP1, "/work/a", Ok(())).unwrap();
    match compiler.guest_relative_path("/work/ab/guest") {
        Err(Error::GuestNotInMountingDirecty { mounting_directory, guest_directory }) => {
            assert_eq!(mounting_directory, "/work/a");
            assert_eq!(guest_directory, "/work/ab/guest");
        }
        other => panic!("unexpected {:?}", other),
    }
}

#[test]
fn compiler_command_layout() {
    assert_eq!(
        compiler_command("x/y"),
        strings(&["--guest-path", "/guest/x/y", "--output-path", "/output/program"])
    );
}

#[test]
fn serialized_program_keeps_bytes() {
    let p = SerializedProgram::from_bytes(vec![1, 2, 3]);
    assert_eq!(p.as_bytes(), &vec![1, 2, 3]);
}

#[test]
fn client_errors_map_to_driver_errors() {
    assert!(matches!(Error::from_client_error(zkVMClientError::ConnectionTimeout), Error::ConnectionTimeout));
    match Error::from_client_error(zkVMClientError::zkVM("boom".to_string())) {
        Error::zkVM(m) => assert_eq!(m, "boom"),
        other => panic!("unexpected {:?}", other),
    }
    match Error::from_client_error(zkVMClientError::Rpc("down".to_string())) {
        Error::Rpc(m) => assert_eq!(m, "down"),
        other => panic!("unexpected {:?}", other),
    }
    let io = std::io::Error::new(std::io::ErrorKind::Other, "x");
    match Error::io(io, "Failed to create temporary directory") {
        Error::Io { context, .. } => assert_eq!(context, "Failed to create temporary directory"),
        other => panic!("unexpected {:?}", other),
    }
}

#[test]
fn compiler_needs_its_images() {
    let err = std::io::Error::new(std::io::ErrorKind::Other, "no docker");
    match EreDockerizedCompiler::new(ErezkVM::Pico, "/w", Err(Error::DockerBuildCmd(err))) {
        Err(Error::DockerBuildCmd(e)) => assert_eq!(e.to_string(), "no docker"),
        Err(other) => panic!("unexpected {:?}", other),
        Ok(_) => panic!("compiler made without its images"),
    }
}

#[test]
fn compile_outcomes() {
    assert_eq!(EreDockerizedCompiler::program_path("/tmp/x"), "/tmp/x/program");
    let ok = EreDockerizedCompiler::compile_outcome(Ok(()), "/tmp/x/program", Some(Ok(vec![7, 8])));
    assert_eq!(ok.unwrap().as_bytes(), &vec![7, 8]);
    let failed_run = std::io::Error::new(std::io::ErrorKind::Other, "exit 1");
    assert!(matches!(
        EreDockerizedCompiler::compile_outcome(Err(failed_run), "/tmp/x/program", None),
        Err(Error::DockerRunCmd(_))
    ));
    let unreadable = std::io::Error::new(std::io::ErrorKind::NotFound, "missing");
    match EreDockerizedCompiler::compile_outcome(Ok(()), "/tmp/x/program", Some(Err(unreadable))) {
        Err(Error::Io { context, .. }) => assert_eq!(context, "Failed to read compiled program at /tmp/x/program"),
        Err(other) => panic!("unexpected {:?}", other),
        Ok(_) => panic!("unexpected success"),
    }
}

#[test]
fn server_spawn_passes_standard_input() {
    let env = EnvVars::new();
    let cmd = ErezkVM::Pico.server_run_cmd("v", false, &env, "/t", "/h");
    assert_eq!(
        cmd.spawn_args(&strings(&["--port", "4179"])),
        strings(&[
            "run",
            "--rm",
            "--publish",
            "4179:4179",
            "--name",
            "ere-server-pico-4179",
            "--interactive",
            "ere-server-pico:v",
            "--port",
            "4179",
        ])
    );
}

#[test]
fn image_build_runs_stages_in_order() {
    assert_eq!(image_stages(), vec![ImageStage::Base, ImageStage::BaseZkvm, ImageStage::Compiler, ImageStage::Server]);
    // Without a forced rebuild: base exists, SDK image missing, then the rest exist.
    let (i, a) = image_build_step(0, false, O::Start);
    assert_eq!((i, a), (0, A::CheckExists(ImageStage::Base)));
    let (i, a) = image_build_step(i, false, O::Exists(true));
    assert_eq!((i, a), (1, A::CheckExists(ImageStage::BaseZkvm)));
    let (i, a) = image_build_step(i, false, O::Exists(false));
    assert_eq!((i, a), (1, A::Build(ImageStage::BaseZkvm)));
    let (i, a) = image_build_step(i, false, O::Built);
    assert_eq!((i, a), (2, A::CheckExists(ImageStage::Compiler)));
    let (i, a) = image_build_step(i, false, O::Exists(true));
    assert_eq!((i, a), (3, A::CheckExists(ImageStage::Server)));
    let (i, a) = image_build_step(i, false, O::Exists(true));
    assert_eq!((i, a), (4, A::Finish));
    // A forced rebuild builds every stage without looking for it.
    let (i, a) = image_build_step(0, true, O::Start);
    assert_eq!((i, a), (0, A::Build(ImageStage::Base)));
    let (i, a) = image_build_step(i, true, O::Built);
    assert_eq!((i, a), (1, A::Build(ImageStage::BaseZkvm)));
    // A failure stops the build.
    assert_eq!(image_build_step(i, true, O::Failed), (1, A::Stop));
    assert_eq!(image_build_step(3, true, O::Built), (4, A::Finish));
}

#[test]
fn input_items_for_the_server() {
    let input = ErezkVM::SP1.serialize_inputs(vec![
        InputItem::Object(vec![1]),
        InputItem::SerializedObject(vec![2]),
        InputItem::Bytes(vec![3]),
    ]);
    assert_eq!(
        input.0,
        vec![
            SerializedInputItem::SerializedObject(vec![1]),
            SerializedInputItem::SerializedObject(vec![2]),
            SerializedInputItem::Bytes(vec![3]),
        ]
    );
    assert_eq!(ErezkVM::Risc0.object_encoding(), ObjectEncoding::Risc0Words);
    assert_eq!(ErezkVM::Ziren.object_encoding(), ObjectEncoding::Bincode);
}
