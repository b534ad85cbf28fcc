//! What the Docker driver asks Docker to do: which images it builds and
//! with which options, and how it starts the compiler and server containers.
//!
//! The caller performs the Docker calls; these functions decide their
//! arguments from the zkVM, the resource asked for and the environment.
use crate::dockerized::docker::{
    bare, colon_pair, kv, CmdOptionView, DockerBuildCmd, DockerRunCmd, DOCKER_SOCKET,
};
use crate::dockerized::env::{env_lookup, EnvVars};
use crate::dockerized::zkvm::{
    base_image_of, base_zkvm_image_of, compiler_zkvm_image_of, server_port_of,
    server_zkvm_image_of, zkvm_name, ErezkVM,
};
use crate::text::{decimal, decimal_string, joined, string_of};
use vstd::prelude::*;

verus! {

/// The four images, built in this order, each on top of the one before.
#[derive(Clone, Copy, Debug, PartialEq, Eq, Structural)]
pub enum ImageStage {
    /// `ere-base`: common dependencies.
    Base,
    /// `ere-base-{zkvm}`: the zkVM's SDK.
    BaseZkvm,
    /// `ere-compiler-{zkvm}`: the guest compiler.
    Compiler,
    /// `ere-server-{zkvm}`: the zkVM server.
    Server,
}

/// `{a}/{b}/{c}`: joins path components.
pub open spec fn path3(a: Seq<char>, b: Seq<char>, c: Seq<char>) -> Seq<char> {
    a + "/"@ + b + "/"@ + c
}

/// The image that a stage produces, tagged with `version`.
pub open spec fn stage_image_of(z: ErezkVM, stage: ImageStage, version: Seq<char>, gpu: bool) -> Seq<char> {
    match stage {
        ImageStage::Base => base_image_of(z, version, gpu),
        ImageStage::BaseZkvm => base_zkvm_image_of(z, version, gpu),
        ImageStage::Compiler => compiler_zkvm_image_of(z, version),
        ImageStage::Server => server_zkvm_image_of(z, version, gpu),
    }
}

/// The Dockerfile of a stage, under `docker_dir`.
pub open spec fn stage_dockerfile(z: ErezkVM, stage: ImageStage, docker_dir: Seq<char>) -> Seq<char> {
    match stage {
        ImageStage::Base => path3(docker_dir, "base"@, "Dockerfile.base"@),
        ImageStage::BaseZkvm => path3(docker_dir, zkvm_name(z), "Dockerfile.base"@),
        ImageStage::Compiler => path3(docker_dir, zkvm_name(z), "Dockerfile.compiler"@),
        ImageStage::Server => path3(docker_dir, zkvm_name(z), "Dockerfile.server"@),
    }
}

/// `--build-arg {key}={value}`.
pub open spec fn build_arg_opt(key: Seq<char>, value: Seq<char>) -> CmdOptionView {
    kv("build-arg"@, joined(key, "="@, value))
}

/// The zkVMs whose SDK image takes the GPU architecture as a build argument.
pub open spec fn takes_cuda_arch(z: ErezkVM) -> bool {
    z == ErezkVM::Airbender || z == ErezkVM::OpenVM || z == ErezkVM::Risc0 || z == ErezkVM::Zisk
}

/// The build arguments a stage adds after its file and tags.
pub open spec fn stage_build_args(
    z: ErezkVM,
    stage: ImageStage,
    version: Seq<char>,
    gpu: bool,
    cuda_arch: Option<Seq<char>>,
) -> Seq<CmdOptionView> {
    let cuda: Seq<CmdOptionView> = if gpu {
        seq![build_arg_opt("CUDA"@, "1"@)]
    } else {
        Seq::empty()
    };
    match stage {
        ImageStage::Base => cuda,
        ImageStage::BaseZkvm => {
            let arch: Seq<CmdOptionView> = match cuda_arch {
                Some(a) if gpu && takes_cuda_arch(z) => seq![build_arg_opt("CUDA_ARCH"@, a)],
                _ => Seq::empty(),
            };
            seq![build_arg_opt("BASE_IMAGE"@, base_image_of(z, version, gpu))] + cuda + arch
        },
        ImageStage::Compiler => seq![
            build_arg_opt("BASE_ZKVM_IMAGE"@, base_zkvm_image_of(z, version, gpu)),
        ],
        ImageStage::Server => seq![
            build_arg_opt("BASE_ZKVM_IMAGE"@, base_zkvm_image_of(z, version, gpu)),
        ] + cuda,
    }
}

/// All options of the `docker build` of a stage: the Dockerfile, the tag for
/// `version` and the tag `latest`, then the build arguments.
pub open spec fn stage_build_options(
    z: ErezkVM,
    stage: ImageStage,
    version: Seq<char>,
    gpu: bool,
    docker_dir: Seq<char>,
    cuda_arch: Option<Seq<char>>,
) -> Seq<CmdOptionView> {
    seq![
        kv("file"@, stage_dockerfile(z, stage, docker_dir)),
        kv("tag"@, stage_image_of(z, stage, version, gpu)),
        kv("tag"@, stage_image_of(z, stage, "latest"@, gpu)),
    ] + stage_build_args(z, stage, version, gpu, cuda_arch)
}

/// Whether a stage's image has to be built: it is missing, or a rebuild
/// was forced.
pub open spec fn stage_needs_build(force_rebuild: bool, image_exists: bool) -> bool {
    force_rebuild || !image_exists
}

/// `--env {key}={value}` when `key` is set in `env`; nothing otherwise.
pub open spec fn inherit_opts(env: Seq<(Seq<char>, Seq<char>)>, key: Seq<char>) -> Seq<CmdOptionView> {
    match env_lookup(env, key) {
        Some(v) => seq![env_opt(key, v)],
        None => Seq::empty(),
    }
}

/// `--env {key}={value}`.
pub open spec fn env_opt(key: Seq<char>, value: Seq<char>) -> CmdOptionView {
    kv("env"@, joined(key, "="@, value))
}

/// `--volume {path}:{path}`.
pub open spec fn same_volume(path: Seq<char>) -> CmdOptionView {
    kv("volume"@, colon_pair(path, path))
}

/// The name of a server container: `ere-server-{zkvm}-{port}`.
pub open spec fn server_container_name_of(name: Seq<char>, port: nat) -> Seq<char> {
    "ere-server-"@ + name + "-"@ + decimal(port)
}

/// The environment variables ZisK's server reads.
pub open spec fn zisk_env_keys() -> Seq<Seq<char>> {
    seq![
        "ZISK_PORT"@,
        "ZISK_CHUNK_SIZE_BITS"@,
        "ZISK_UNLOCK_MAPPED_MEMORY"@,
        "ZISK_MINIMAL_MEMORY"@,
        "ZISK_PREALLOCATE"@,
        "ZISK_SHARED_TABLES"@,
        "ZISK_MAX_STREAMS"@,
        "ZISK_NUMBER_THREADS_WITNESS"@,
        "ZISK_MAX_WITNESS_STORED"@,
    ]
}

/// The `--env` options for every key of `keys` that `env` sets, in order.
pub open spec fn inherit_all(env: Seq<(Seq<char>, Seq<char>)>, keys: Seq<Seq<char>>) -> Seq<CmdOptionView>
    decreases keys.len(),
{
    if keys.len() == 0 {
        Seq::empty()
    } else {
        inherit_all(env, keys.drop_last()) + inherit_opts(env, keys.last())
    }
}

/// Options every server container gets; `port` is the server's port.
pub open spec fn server_common_opts(z: ErezkVM, port: nat, env: Seq<(Seq<char>, Seq<char>)>) -> Seq<CmdOptionView> {
    let p = decimal(port);
    seq![bare("rm"@)] + inherit_opts(env, "RUST_LOG"@) + inherit_opts(env, "NO_COLOR"@) + seq![
        kv("publish"@, colon_pair(p, p)),
        kv("name"@, server_container_name_of(zkvm_name(z), port)),
    ]
}

/// zkVM-specific options of the server container.
pub open spec fn server_zkvm_opts(z: ErezkVM, env: Seq<(Seq<char>, Seq<char>)>) -> Seq<CmdOptionView> {
    match z {
        ErezkVM::Risc0 => inherit_opts(env, "RISC0_SEGMENT_PO2"@) + inherit_opts(env, "RISC0_KECCAK_PO2"@),
        ErezkVM::Zisk => seq![kv("shm-size"@, "16G"@), kv("ulimit"@, "memlock=-1:-1"@)] + inherit_all(
            env,
            zisk_env_keys(),
        ),
        _ => Seq::empty(),
    }
}

/// `--volume` of the Docker socket.
pub open spec fn socket_opt() -> CmdOptionView {
    same_volume(DOCKER_SOCKET@)
}

/// Options of the server container for GPU proving.
pub open spec fn server_gpu_opts(z: ErezkVM, env: Seq<(Seq<char>, Seq<char>)>, gpu: bool) -> Seq<CmdOptionView> {
    if !gpu {
        Seq::empty()
    } else {
        match z {
            ErezkVM::Airbender => seq![kv("gpus"@, "all"@)],
            ErezkVM::OpenVM => seq![kv("gpus"@, "all"@)],
            ErezkVM::SP1 => seq![socket_opt(), kv("network"@, "host"@)],
            ErezkVM::Risc0 => seq![kv("gpus"@, "all"@)] + inherit_opts(
                env,
                "RISC0_DEFAULT_PROVER_NUM_GPUS"@,
            ),
            ErezkVM::Zisk => seq![kv("gpus"@, "all"@)],
            _ => Seq::empty(),
        }
    }
}

/// `{home}/.sp1/circuits/groth16`: where SP1 keeps its Groth16 circuit.
pub open spec fn sp1_groth16_circuit_path(home: Seq<char>) -> Seq<char> {
    home + "/.sp1/circuits/groth16"@
}

/// Options that let Risc0 and SP1 prove Groth16 proofs with Docker: the
/// socket, a shared temporary directory and, for SP1, its circuit.
pub open spec fn server_groth16_opts(z: ErezkVM, tempdir: Seq<char>, home: Seq<char>) -> Seq<CmdOptionView> {
    match z {
        ErezkVM::Risc0 => seq![socket_opt(), env_opt("TMPDIR"@, tempdir), same_volume(tempdir)],
        ErezkVM::SP1 => seq![
            socket_opt(),
            env_opt("SP1_GROTH16_CIRCUIT_PATH"@, sp1_groth16_circuit_path(home)),
            env_opt("TMPDIR"@, tempdir),
            same_volume(tempdir),
            same_volume(sp1_groth16_circuit_path(home)),
        ],
        _ => Seq::empty(),
    }
}

/// All options of the server container listening on `port`, in order.
pub open spec fn server_run_options(
    z: ErezkVM,
    port: nat,
    gpu: bool,
    env: Seq<(Seq<char>, Seq<char>)>,
    tempdir: Seq<char>,
    home: Seq<char>,
) -> Seq<CmdOptionView> {
    server_common_opts(z, port, env) + server_zkvm_opts(z, env) + server_gpu_opts(z, env, gpu)
        + server_groth16_opts(z, tempdir, home)
}

/// Options of the compiler container.
pub open spec fn compiler_run_options(
    z: ErezkVM,
    env: Seq<(Seq<char>, Seq<char>)>,
    mount_directory: Seq<char>,
    tempdir: Seq<char>,
) -> Seq<CmdOptionView> {
    seq![bare("rm"@)] + inherit_opts(env, "RUST_LOG"@) + inherit_opts(env, "NO_COLOR"@)
        + inherit_opts(env, "ERE_RUST_TOOLCHAIN"@) + seq![
        kv("volume"@, colon_pair(mount_directory, "/guest"@)),
        kv("volume"@, colon_pair(tempdir, "/output"@)),
    ] + if z == ErezkVM::OpenVM {
        inherit_opts(env, "OPENVM_RUST_TOOLCHAIN"@)
    } else {
        Seq::empty()
    }
}

/// The command the compiler container runs for a guest at `guest_relative`
/// below the mounted directory.
pub open spec fn compiler_commands(guest_relative: Seq<char>) -> Seq<Seq<char>> {
    seq!["--guest-path"@, "/guest/"@ + guest_relative, "--output-path"@, "/output/program"@]
}

/// Whether the image of a stage has to be built.
pub fn stage_needs_rebuild(force_rebuild: bool, image_exists: bool) -> (r: bool)
    ensures
        r == stage_needs_build(force_rebuild, image_exists),
{
    force_rebuild || !image_exists
}

/// `ere-server-{name}-{port}`.
fn container_name(name: &str, port: u16) -> (r: String)
    ensures
        r@ == server_container_name_of(name@, port as nat),
{
    let mut s = string_of("ere-server-");
    s.append(name);
    s.append("-");
    let p = decimal_string(port as u64);
    s.append(p.as_str());
    s
}

/// `{a}/{b}/{c}`.
fn join_path3(a: &str, b: &str, c: &str) -> (r: String)
    ensures
        r@ == path3(a@, b@, c@),
{
    let mut s = string_of(a);
    s.append("/");
    s.append(b);
    s.append("/");
    s.append(c);
    s
}

impl ErezkVM {
    /// The image a stage produces, tagged with `version`.
    pub fn stage_image(&self, stage: ImageStage, version: &str, gpu: bool) -> (r: String)
        ensures
            r@ == stage_image_of(*self, stage, version@, gpu),
    {
        match stage {
            ImageStage::Base => self.base_image(version, gpu),
            ImageStage::BaseZkvm => self.base_zkvm_image(version, gpu),
            ImageStage::Compiler => self.compiler_zkvm_image(version),
            ImageStage::Server => self.server_zkvm_image(version, gpu),
        }
    }

    /// The `docker build` of a stage: its Dockerfile under `docker_dir`, tags
    /// for `version` and `latest`, and its build arguments; `cuda_arch` is the
    /// GPU architecture found for GPU builds, if any.
    pub fn stage_build_cmd(
        &self,
        stage: ImageStage,
        version: &str,
        gpu: bool,
        docker_dir: &str,
        cuda_arch: Option<&str>,
    ) -> (r: DockerBuildCmd)
        ensures
            r@.options == stage_build_options(
                *self,
                stage,
                version@,
                gpu,
                docker_dir@,
                match cuda_arch {
                    Some(a) => Some(a@),
                    None => None,
                },
            ),
    {
        let file = match stage {
            ImageStage::Base => join_path3(docker_dir, "base", "Dockerfile.base"),
            ImageStage::BaseZkvm => join_path3(docker_dir, self.as_str(), "Dockerfile.base"),
            ImageStage::Compiler => join_path3(docker_dir, self.as_str(), "Dockerfile.compiler"),
            ImageStage::Server => join_path3(docker_dir, self.as_str(), "Dockerfile.server"),
        };
        let tag = self.stage_image(stage, version, gpu);
        let latest = self.stage_image(stage, "latest", gpu);
        let mut cmd = DockerBuildCmd::new().file(file.as_str()).tag(tag.as_str()).tag(latest.as_str());
        match stage {
            ImageStage::Base => {
                if gpu {
                    cmd = cmd.build_arg("CUDA", "1");
                }
            },
            ImageStage::BaseZkvm => {
                let base = self.base_image(version, gpu);
                cmd = cmd.build_arg("BASE_IMAGE", base.as_str());
                if gpu {
                    cmd = cmd.build_arg("CUDA", "1");
                    match self {
                        ErezkVM::Airbender | ErezkVM::OpenVM | ErezkVM::Risc0 | ErezkVM::Zisk => {
                            match cuda_arch {
                                Some(a) => {
                                    cmd = cmd.build_arg("CUDA_ARCH", a);
                                },
                                None => {},
                            }
                        },
                        _ => {},
                    }
                }
            },
            ImageStage::Compiler => {
                let base = self.base_zkvm_image(version, gpu);
                cmd = cmd.build_arg("BASE_ZKVM_IMAGE", base.as_str());
            },
            ImageStage::Server => {
                let base = self.base_zkvm_image(version, gpu);
                cmd = cmd.build_arg("BASE_ZKVM_IMAGE", base.as_str());
                if gpu {
                    cmd = cmd.build_arg("CUDA", "1");
                }
            },
        }
        assert(cmd@.options =~= stage_build_options(
            *self,
            stage,
            version@,
            gpu,
            docker_dir@,
            match cuda_arch {
                Some(a) => Some(a@),
                None => None,
            },
        ));
        cmd
    }

    /// The name of the zkVM's server container.
    pub fn server_container_name(&self) -> (r: String)
        ensures
            r@ == server_container_name_of(zkvm_name(*self), server_port_of(*self)),
    {
        container_name(self.as_str(), self.server_port())
    }

    /// The `docker run` that starts the zkVM's server (before the arguments
    /// of the server itself): `env` is the caller's environment, `tempdir` a
    /// temporary directory to share with the container, `home` the caller's
    /// home directory.
    pub fn server_run_cmd(
        &self,
        version: &str,
        gpu: bool,
        env: &EnvVars,
        tempdir: &str,
        home: &str,
    ) -> (r: DockerRunCmd)
        ensures
            r@.image == server_zkvm_image_of(*self, version@, gpu),
            r@.options == server_run_options(*self, server_port_of(*self), gpu, env@, tempdir@, home@),
    {
        self.server_run_cmd_on_port(self.server_port(), version, gpu, env, tempdir, home)
    }

    /// The `docker run` of the zkVM's server listening on `port`.
    pub fn server_run_cmd_on_port(
        &self,
        server_port: u16,
        version: &str,
        gpu: bool,
        env: &EnvVars,
        tempdir: &str,
        home: &str,
    ) -> (r: DockerRunCmd)
        ensures
            r@.image == server_zkvm_image_of(*self, version@, gpu),
            r@.options == server_run_options(*self, server_port as nat, gpu, env@, tempdir@, home@),
    {
        let port = decimal_string(server_port as u64);
        let name = container_name(self.as_str(), server_port);
        let image = self.server_zkvm_image(version, gpu);
        let cmd = DockerRunCmd::new(image).rm().inherit_env("RUST_LOG", env.get("RUST_LOG")).inherit_env(
            "NO_COLOR",
            env.get("NO_COLOR"),
        ).publish(port.as_str(), port.as_str()).name(name.as_str());
        assert(cmd@.options =~= server_common_opts(*self, server_port as nat, env@));
        let cmd = self.add_server_zkvm_opts(cmd, env);
        let cmd = self.add_server_gpu_opts(cmd, env, gpu);
        let cmd = self.add_server_groth16_opts(cmd, tempdir, home);
        assert(cmd@.options =~= server_run_options(*self, server_port as nat, gpu, env@, tempdir@, home@));
        cmd
    }

    /// Appends the zkVM-specific options of the server container.
    fn add_server_zkvm_opts(&self, cmd: DockerRunCmd, env: &EnvVars) -> (r: DockerRunCmd)
        ensures
            r@.image == cmd@.image,
            r@.options == cmd@.options + server_zkvm_opts(*self, env@),
    {
        match self {
            ErezkVM::Risc0 => {
                let r = cmd.inherit_env("RISC0_SEGMENT_PO2", env.get("RISC0_SEGMENT_PO2")).inherit_env(
                    "RISC0_KECCAK_PO2",
                    env.get("RISC0_KECCAK_PO2"),
                );
                assert(r@.options =~= cmd@.options + server_zkvm_opts(*self, env@));
                r
            },
            ErezkVM::Zisk => {
                let c = cmd.option("shm-size", "16G").option("ulimit", "memlock=-1:-1");
                let r = inherit_zisk_env(c, env);
                assert(r@.options =~= cmd@.options + server_zkvm_opts(*self, env@));
                r
            },
            _ => {
                assert(cmd@.options =~= cmd@.options + server_zkvm_opts(*self, env@));
                cmd
            },
        }
    }

    /// Appends the options of the server container for GPU proving.
    fn add_server_gpu_opts(&self, cmd: DockerRunCmd, env: &EnvVars, gpu: bool) -> (r: DockerRunCmd)
        ensures
            r@.image == cmd@.image,
            r@.options == cmd@.options + server_gpu_opts(*self, env@, gpu),
    {
        if !gpu {
            assert(cmd@.options =~= cmd@.options + server_gpu_opts(*self, env@, gpu));
            return cmd;
        }
        let r = match self {
            ErezkVM::Airbender => cmd.gpus("all"),
            ErezkVM::OpenVM => cmd.gpus("all"),
            ErezkVM::SP1 => cmd.mount_docker_socket().network("host"),
            ErezkVM::Risc0 => cmd.gpus("all").inherit_env(
                "RISC0_DEFAULT_PROVER_NUM_GPUS",
                env.get("RISC0_DEFAULT_PROVER_NUM_GPUS"),
            ),
            ErezkVM::Zisk => cmd.gpus("all"),
            _ => cmd,
        };
        assert(r@.options =~= cmd@.options + server_gpu_opts(*self, env@, gpu));
        r
    }

    /// Appends the options needed to prove Groth16 proofs with Docker.
    fn add_server_groth16_opts(&self, cmd: DockerRunCmd, tempdir: &str, home: &str) -> (r: DockerRunCmd)
        ensures
            r@.image == cmd@.image,
            r@.options == cmd@.options + server_groth16_opts(*self, tempdir@, home@),
    {
        match self {
            ErezkVM::Risc0 => {
                let r = cmd.mount_docker_socket().env("TMPDIR", tempdir).volume(tempdir, tempdir);
                assert(r@.options =~= cmd@.options + server_groth16_opts(*self, tempdir@, home@));
                r
            },
            ErezkVM::SP1 => {
                let mut groth16 = string_of(home);
                groth16.append("/.sp1/circuits/groth16");
                let r = cmd.mount_docker_socket().env("SP1_GROTH16_CIRCUIT_PATH", groth16.as_str()).env(
                    "TMPDIR",
                    tempdir,
                ).volume(tempdir, tempdir).volume(groth16.as_str(), groth16.as_str());
                assert(r@.options =~= cmd@.options + server_groth16_opts(*self, tempdir@, home@));
                r
            },
            _ => {
                assert(cmd@.options =~= cmd@.options + server_groth16_opts(*self, tempdir@, home@));
                cmd
            },
        }
    }

    /// The `docker run` that compiles a guest program: `mount_directory` is
    /// mounted at `/guest`, `tempdir` at `/output`.
    pub fn compiler_run_cmd(
        &self,
        version: &str,
        env: &EnvVars,
        mount_directory: &str,
        tempdir: &str,
    ) -> (r: DockerRunCmd)
        ensures
            r@.image == compiler_zkvm_image_of(*self, version@),
            r@.options == compiler_run_options(*self, env@, mount_directory@, tempdir@),
    {
        let image = self.compiler_zkvm_image(version);
        let mut cmd = DockerRunCmd::new(image).rm().inherit_env("RUST_LOG", env.get("RUST_LOG")).inherit_env(
            "NO_COLOR",
            env.get("NO_COLOR"),
        ).inherit_env("ERE_RUST_TOOLCHAIN", env.get("ERE_RUST_TOOLCHAIN")).volume(
            mount_directory,
            "/guest",
        ).volume(tempdir, "/output");
        let ghost before = cmd@.options;
        match self {
            ErezkVM::OpenVM => {
                cmd = cmd.inherit_env("OPENVM_RUST_TOOLCHAIN", env.get("OPENVM_RUST_TOOLCHAIN"));
            },
            _ => {},
        }
        assert(cmd@.options =~= compiler_run_options(*self, env@, mount_directory@, tempdir@));
        cmd
    }
}

/// Passes on every ZisK variable that `env` sets.
fn inherit_zisk_env(cmd: DockerRunCmd, env: &EnvVars) -> (r: DockerRunCmd)
    ensures
        r@.image == cmd@.image,
        r@.options == cmd@.options + inherit_all(env@, zisk_env_keys()),
{
    let keys = [
        "ZISK_PORT",
        "ZISK_CHUNK_SIZE_BITS",
        "ZISK_UNLOCK_MAPPED_MEMORY",
        "ZISK_MINIMAL_MEMORY",
        "ZISK_PREALLOCATE",
        "ZISK_SHARED_TABLES",
        "ZISK_MAX_STREAMS",
        "ZISK_NUMBER_THREADS_WITNESS",
        "ZISK_MAX_WITNESS_STORED",
    ];
    let ghost key_views = zisk_env_keys();
    assert(keys@.map_values(|k: &str| k@) =~= key_views);
    let ghost image = cmd@.image;
    let mut cmd = cmd;
    let ghost start = cmd@.options;
    let mut i: usize = 0;
    while i < 9
        invariant
            i <= 9,
            cmd@.image == image,
            keys@.map_values(|k: &str| k@) == key_views,
            key_views == zisk_env_keys(),
            cmd@.options == start + inherit_all(env@, key_views.take(i as int)),
        decreases 9 - i,
    {
        let k = keys[i];
        assert(keys@.map_values(|k: &str| k@)[i as int] == k@);
        cmd = cmd.inherit_env(k, env.get(k));
        assert(key_views.take(i + 1).drop_last() =~= key_views.take(i as int));
        assert(cmd@.options =~= start + inherit_all(env@, key_views.take(i + 1)));
        i = i + 1;
    }
    assert(key_views.take(9) =~= key_views);
    cmd
}

/// The command the compiler container runs for the guest at
/// `guest_relative` below the mounted directory.
pub fn compiler_command(guest_relative: &str) -> (r: Vec<String>)
    ensures
        r.deep_view() == compiler_commands(guest_relative@),
{
    let mut guest = string_of("/guest/");
    guest.append(guest_relative);
    let mut r: Vec<String> = Vec::new();
    r.push(string_of("--guest-path"));
    r.push(guest);
    r.push(string_of("--output-path"));
    r.push(string_of("/output/program"));
    assert(r.deep_view() =~= compiler_commands(guest_relative@));
    r
}

/// The stage whose image a stage is built on: none for the base image, the
/// base image for the SDK image, and the SDK image for the compiler and the
/// server.
pub open spec fn parent_stage(stage: ImageStage) -> Option<ImageStage> {
    match stage {
        ImageStage::Base => None,
        ImageStage::BaseZkvm => Some(ImageStage::Base),
        ImageStage::Compiler => Some(ImageStage::BaseZkvm),
        ImageStage::Server => Some(ImageStage::BaseZkvm),
    }
}

/// Each stage's build tags the stage's image for `version` and for
/// `latest`, and a stage with a parent names, as its first build argument,
/// the image that the parent's build tags for the same version and GPU
/// setting.
pub proof fn lemma_stage_builds_on_parent(
    z: ErezkVM,
    stage: ImageStage,
    version: Seq<char>,
    gpu: bool,
    docker_dir: Seq<char>,
    cuda_arch: Option<Seq<char>>,
)
    ensures
        ({
            let opts = stage_build_options(z, stage, version, gpu, docker_dir, cuda_arch);
            &&& opts[1] == kv("tag"@, stage_image_of(z, stage, version, gpu))
            &&& opts[2] == kv("tag"@, stage_image_of(z, stage, "latest"@, gpu))
            &&& parent_stage(stage) matches Some(p) ==> opts.len() > 3 && opts[3].value == Some(
                joined(
                    if stage == ImageStage::BaseZkvm {
                        "BASE_IMAGE"@
                    } else {
                        "BASE_ZKVM_IMAGE"@
                    },
                    "="@,
                    stage_image_of(z, p, version, gpu),
                ),
            )
        }),
{
}

/// The stages in the order they are built.
pub open spec fn stage_order() -> Seq<ImageStage> {
    seq![ImageStage::Base, ImageStage::BaseZkvm, ImageStage::Compiler, ImageStage::Server]
}

/// The stages in the order they are built: base, SDK, compiler, server.
pub fn image_stages() -> (r: Vec<ImageStage>)
    ensures
        r@ == stage_order(),
{
    let r = vec![ImageStage::Base, ImageStage::BaseZkvm, ImageStage::Compiler, ImageStage::Server];
    assert(r@ =~= stage_order());
    r
}

/// What the build of a zkVM's images does next.
#[derive(Clone, Copy, Debug, PartialEq, Eq, Structural)]
pub enum ImageBuildAction {
    /// Ask `docker images` whether the image of this stage exists.
    CheckExists(ImageStage),
    /// Run the `docker build` of this stage.
    Build(ImageStage),
    /// Every stage is handled: the build succeeds.
    Finish,
    /// The last Docker command failed: the build ends with its error.
    Stop,
}

/// What the last Docker command of the build of a zkVM's images gave.
#[derive(Clone, Copy, Debug, PartialEq, Eq, Structural)]
pub enum ImageCommandOutcome {
    /// No command ran yet: the build starts.
    Start,
    /// `docker images` ran and told whether the image exists.
    Exists(bool),
    /// `docker build` succeeded.
    Built,
    /// The command could not be run, or it failed.
    Failed,
}

/// The first action for the stage at `index` in `stage_order()`: past the
/// last stage the build is finished; a forced rebuild builds at once;
/// otherwise the image is first looked for.
pub open spec fn begin_stage_of(index: nat, force_rebuild: bool) -> (nat, ImageBuildAction) {
    if index >= 4 {
        (4, ImageBuildAction::Finish)
    } else if force_rebuild {
        (index, ImageBuildAction::Build(stage_order()[index as int]))
    } else {
        (index, ImageBuildAction::CheckExists(stage_order()[index as int]))
    }
}

/// The next stage index and action of the build of a zkVM's images, after
/// the outcome of the last command at stage `index`: a missing image is
/// built; an existing or newly built one passes on to the next stage; a
/// failure stops the build.
pub open spec fn image_build_step_of(index: nat, force_rebuild: bool, outcome: ImageCommandOutcome) -> (
    nat,
    ImageBuildAction,
) {
    match outcome {
        ImageCommandOutcome::Start => begin_stage_of(index, force_rebuild),
        ImageCommandOutcome::Exists(false) => if index < 4 {
            (index, ImageBuildAction::Build(stage_order()[index as int]))
        } else {
            (4, ImageBuildAction::Finish)
        },
        ImageCommandOutcome::Exists(true) | ImageCommandOutcome::Built => begin_stage_of(
            if index < 4 {
                index + 1
            } else {
                4
            },
            force_rebuild,
        ),
        ImageCommandOutcome::Failed => (index, ImageBuildAction::Stop),
    }
}

/// The first action for the stage at `index`.
fn begin_stage(index: usize, force_rebuild: bool) -> (r: (usize, ImageBuildAction))
    ensures
        (r.0 as nat, r.1) == begin_stage_of(index as nat, force_rebuild),
{
    let stages = image_stages();
    if index >= 4 {
        (4, ImageBuildAction::Finish)
    } else if force_rebuild {
        (index, ImageBuildAction::Build(stages[index]))
    } else {
        (index, ImageBuildAction::CheckExists(stages[index]))
    }
}

/// One step of the build of a zkVM's images (`ErezkVM::build_docker_image`):
/// given the stage index the build is at (starting at 0 with `Start`),
/// whether a rebuild is forced, and what the last Docker command gave, the
/// next stage index and what to do there.
pub fn image_build_step(index: usize, force_rebuild: bool, outcome: ImageCommandOutcome) -> (r: (
    usize,
    ImageBuildAction,
))
    ensures
        (r.0 as nat, r.1) == image_build_step_of(index as nat, force_rebuild, outcome),
{
    match outcome {
        ImageCommandOutcome::Start => begin_stage(index, force_rebuild),
        ImageCommandOutcome::Exists(false) => {
            if index < 4 {
                let stages = image_stages();
                (index, ImageBuildAction::Build(stages[index]))
            } else {
                (4, ImageBuildAction::Finish)
            }
        },
        ImageCommandOutcome::Exists(true) | ImageCommandOutcome::Built => {
            let next = if index < 4 {
                index + 1
            } else {
                4
            };
            begin_stage(next, force_rebuild)
        },
        ImageCommandOutcome::Failed => (index, ImageBuildAction::Stop),
    }
}

/// The build of a zkVM's images handles the stages in order and ends at the
/// first failure: a step stays at its stage or moves to the next one; it
/// stops exactly on a failed command; it finishes only past the last stage;
/// and it looks for or builds only the image of the stage it is at, looking
/// for it only when no rebuild is forced, building it unasked only when a
/// rebuild is forced.
pub proof fn lemma_image_build_in_order(index: nat, force_rebuild: bool, outcome: ImageCommandOutcome)
    requires
        index <= 4,
    ensures
        ({
            let (next, action) = image_build_step_of(index, force_rebuild, outcome);
            &&& next == index || next == index + 1
            &&& next <= 4
            &&& (action == ImageBuildAction::Stop <==> outcome == ImageCommandOutcome::Failed)
            &&& (action == ImageBuildAction::Finish ==> next == 4)
            &&& (action matches ImageBuildAction::CheckExists(s) ==> next < 4 && s == stage_order()[next as int]
                && !force_rebuild)
            &&& (action matches ImageBuildAction::Build(s) ==> next < 4 && s == stage_order()[next as int] && (
            force_rebuild || outcome == ImageCommandOutcome::Exists(false)))
        }),
{
}

/// Whether no option of `opts` is keyed `key`.
pub open spec fn lacks_key(opts: Seq<CmdOptionView>, key: Seq<char>) -> bool {
    forall|i: int| 0 <= i < opts.len() ==> #[trigger] opts[i].key != key
}

proof fn lemma_lacks_key_add(a: Seq<CmdOptionView>, b: Seq<CmdOptionView>, key: Seq<char>)
    requires
        lacks_key(a, key),
        lacks_key(b, key),
    ensures
        lacks_key(a + b, key),
{
    assert forall|i: int| 0 <= i < (a + b).len() implies #[trigger] (a + b)[i].key != key by {
        if i < a.len() {
            assert((a + b)[i] == a[i]);
        } else {
            assert((a + b)[i] == b[i - a.len()]);
        }
    }
}

/// The `--env` options that the environment can pass on carry no other key.
proof fn lemma_inherit_opts_key(env: Seq<(Seq<char>, Seq<char>)>, key: Seq<char>, other: Seq<char>)
    requires
        other != "env"@,
    ensures
        lacks_key(inherit_opts(env, key), other),
{
}

proof fn lemma_inherit_all_key(env: Seq<(Seq<char>, Seq<char>)>, keys: Seq<Seq<char>>, other: Seq<char>)
    requires
        other != "env"@,
    ensures
        lacks_key(inherit_all(env, keys), other),
    decreases keys.len(),
{
    if keys.len() > 0 {
        lemma_inherit_all_key(env, keys.drop_last(), other);
        lemma_inherit_opts_key(env, keys.last(), other);
        lemma_lacks_key_add(inherit_all(env, keys.drop_last()), inherit_opts(env, keys.last()), other);
    }
}

/// A server container started for GPU proving of Airbender, OpenVM, Risc0
/// or ZisK is given every GPU: its options include `--gpus all`. Started
/// without GPU proving, no zkVM's server container gets a `--gpus` option.
pub proof fn lemma_gpu_server_gets_gpus(
    z: ErezkVM,
    port: nat,
    env: Seq<(Seq<char>, Seq<char>)>,
    tempdir: Seq<char>,
    home: Seq<char>,
)
    ensures
        (z == ErezkVM::Airbender || z == ErezkVM::OpenVM || z == ErezkVM::Risc0 || z == ErezkVM::Zisk)
            ==> exists|i: int|
            0 <= i < server_run_options(z, port, true, env, tempdir, home).len()
                && #[trigger] server_run_options(z, port, true, env, tempdir, home)[i] == kv("gpus"@, "all"@),
        forall|i: int|
            0 <= i < server_run_options(z, port, false, env, tempdir, home).len() ==> #[trigger] server_run_options(
                z,
                port,
                false,
                env,
                tempdir,
                home,
            )[i].key != "gpus"@,
{
    reveal_strlit("gpus");
    reveal_strlit("env");
    reveal_strlit("rm");
    reveal_strlit("publish");
    reveal_strlit("name");
    reveal_strlit("shm-size");
    reveal_strlit("ulimit");
    reveal_strlit("volume");
    reveal_strlit("network");
    let a = server_common_opts(z, port, env) + server_zkvm_opts(z, env);
    if z == ErezkVM::Airbender || z == ErezkVM::OpenVM || z == ErezkVM::Risc0 || z == ErezkVM::Zisk {
        let g = server_gpu_opts(z, env, true);
        let h = server_groth16_opts(z, tempdir, home);
        assert(g[0] == kv("gpus"@, "all"@));
        assert((a + g)[a.len() as int] == g[0]);
        assert(((a + g) + h)[a.len() as int] == (a + g)[a.len() as int]);
        assert(server_run_options(z, port, true, env, tempdir, home) == (a + g) + h);
    }
    let g = "gpus"@;
    assert(g.len() == 4 && "env"@.len() == 3);
    assert(g != "env"@);
    lemma_inherit_opts_key(env, "RUST_LOG"@, g);
    lemma_inherit_opts_key(env, "NO_COLOR"@, g);
    lemma_inherit_opts_key(env, "RISC0_SEGMENT_PO2"@, g);
    lemma_inherit_opts_key(env, "RISC0_KECCAK_PO2"@, g);
    lemma_inherit_all_key(env, zisk_env_keys(), g);
    let p = decimal(port);
    let head = seq![bare("rm"@)];
    let tail = seq![kv("publish"@, colon_pair(p, p)), kv("name"@, server_container_name_of(zkvm_name(z), port))];
    assert(lacks_key(head, g));
    assert("publish"@.len() == 7);
    assert("name"@ != g) by {
        assert("name"@[0] == 'n' && g[0] == 'g');
    }
    assert(tail[0].key != g && tail[1].key != g);
    assert(lacks_key(tail, g));
    lemma_lacks_key_add(head, inherit_opts(env, "RUST_LOG"@), g);
    lemma_lacks_key_add(head + inherit_opts(env, "RUST_LOG"@), inherit_opts(env, "NO_COLOR"@), g);
    lemma_lacks_key_add(head + inherit_opts(env, "RUST_LOG"@) + inherit_opts(env, "NO_COLOR"@), tail, g);
    let c = server_common_opts(z, port, env);
    assert(lacks_key(c, g));
    let k = server_zkvm_opts(z, env);
    if z == ErezkVM::Risc0 {
        lemma_lacks_key_add(inherit_opts(env, "RISC0_SEGMENT_PO2"@), inherit_opts(env, "RISC0_KECCAK_PO2"@), g);
    } else if z == ErezkVM::Zisk {
        let zs = seq![kv("shm-size"@, "16G"@), kv("ulimit"@, "memlock=-1:-1"@)];
        assert(lacks_key(zs, g));
        lemma_lacks_key_add(zs, inherit_all(env, zisk_env_keys()), g);
    }
    assert(lacks_key(k, g));
    let h = server_groth16_opts(z, tempdir, home);
    assert(lacks_key(h, g));
    lemma_lacks_key_add(c, k, g);
    lemma_lacks_key_add(c + k, server_gpu_opts(z, env, false), g);
    lemma_lacks_key_add(c + k + server_gpu_opts(z, env, false), h, g);
}

/// The SDK image of Airbender, OpenVM, Risc0 or ZisK built for GPU proving
/// with a known GPU architecture `a` gets it as its last build argument,
/// `CUDA_ARCH={a}`; the SDK image of any other zkVM built for GPU proving
/// ends with `CUDA=1` instead; and an SDK image built without GPU support
/// ends with its base image, whatever architecture is known.
pub proof fn lemma_sdk_image_gets_cuda_arch(z: ErezkVM, version: Seq<char>, docker_dir: Seq<char>, a: Seq<char>)
    ensures
        (z == ErezkVM::Airbender || z == ErezkVM::OpenVM || z == ErezkVM::Risc0 || z == ErezkVM::Zisk)
            ==> stage_build_options(z, ImageStage::BaseZkvm, version, true, docker_dir, Some(a)).last() == kv(
            "build-arg"@,
            "CUDA_ARCH"@ + "="@ + a,
        ),
        !(z == ErezkVM::Airbender || z == ErezkVM::OpenVM || z == ErezkVM::Risc0 || z == ErezkVM::Zisk)
            ==> stage_build_options(z, ImageStage::BaseZkvm, version, true, docker_dir, Some(a)).last() == kv(
            "build-arg"@,
            "CUDA"@ + "="@ + "1"@,
        ),
        stage_build_options(z, ImageStage::BaseZkvm, version, false, docker_dir, Some(a)).last() == kv(
            "build-arg"@,
            "BASE_IMAGE"@ + "="@ + base_image_of(z, version, false),
        ),
{
}

} // verus!
