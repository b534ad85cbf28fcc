//! The zkVMs this generation of the Docker driver supports. Each of them is
//! also a zkVM of the current driver, with the same name and the same images;
//! only the server ports differ, since the list starts one place later.
use crate::dockerized::docker::{DockerBuildCmd, DockerRunCmd};
use crate::dockerized::env::EnvVars;
use crate::dockerized::plan::{
    compiler_run_options, server_container_name_of, server_run_options, stage_build_options,
    stage_image_of, ImageStage,
};
use crate::dockerized::zkvm as current;
use crate::dockerized::zkvm::{
    base_image_of, base_zkvm_image_of, compiler_zkvm_image_of, image_tag_of, server_zkvm_image_of,
    zkvm_name, ERE_SERVER_PORT_OFFSET,
};
use crate::text::{replace_all, replace_pattern, string_of};
use vstd::prelude::*;

verus! {

/// A zkVM that this driver can build images for and run.
#[derive(Clone, Copy, Debug, PartialEq, Eq, Structural)]
pub enum ErezkVM {
    Jolt,
    Miden,
    Nexus,
    OpenVM,
    Pico,
    Risc0,
    SP1,
    Ziren,
    Zisk,
}

/// The zkVM of the current driver that has the same name.
pub open spec fn as_current(z: ErezkVM) -> current::ErezkVM {
    match z {
        ErezkVM::Jolt => current::ErezkVM::Jolt,
        ErezkVM::Miden => current::ErezkVM::Miden,
        ErezkVM::Nexus => current::ErezkVM::Nexus,
        ErezkVM::OpenVM => current::ErezkVM::OpenVM,
        ErezkVM::Pico => current::ErezkVM::Pico,
        ErezkVM::Risc0 => current::ErezkVM::Risc0,
        ErezkVM::SP1 => current::ErezkVM::SP1,
        ErezkVM::Ziren => current::ErezkVM::Ziren,
        ErezkVM::Zisk => current::ErezkVM::Zisk,
    }
}

/// The zkVM's name.
pub open spec fn legacy_name(z: ErezkVM) -> Seq<char> {
    zkvm_name(as_current(z))
}

/// Position of the zkVM in this driver's list.
pub open spec fn legacy_index(z: ErezkVM) -> nat {
    match z {
        ErezkVM::Jolt => 0,
        ErezkVM::Miden => 1,
        ErezkVM::Nexus => 2,
        ErezkVM::OpenVM => 3,
        ErezkVM::Pico => 4,
        ErezkVM::Risc0 => 5,
        ErezkVM::SP1 => 6,
        ErezkVM::Ziren => 7,
        ErezkVM::Zisk => 8,
    }
}

/// The port of the zkVM's server.
pub open spec fn legacy_port(z: ErezkVM) -> nat {
    ERE_SERVER_PORT_OFFSET as nat + legacy_index(z)
}

/// The zkVM of this driver named `s`, if any.
pub open spec fn legacy_of_name(s: Seq<char>) -> Option<ErezkVM> {
    match current::zkvm_of_name(s) {
        Some(current::ErezkVM::Jolt) => Some(ErezkVM::Jolt),
        Some(current::ErezkVM::Miden) => Some(ErezkVM::Miden),
        Some(current::ErezkVM::Nexus) => Some(ErezkVM::Nexus),
        Some(current::ErezkVM::OpenVM) => Some(ErezkVM::OpenVM),
        Some(current::ErezkVM::Pico) => Some(ErezkVM::Pico),
        Some(current::ErezkVM::Risc0) => Some(ErezkVM::Risc0),
        Some(current::ErezkVM::SP1) => Some(ErezkVM::SP1),
        Some(current::ErezkVM::Ziren) => Some(ErezkVM::Ziren),
        Some(current::ErezkVM::Zisk) => Some(ErezkVM::Zisk),
        _ => None,
    }
}

/// The GPU architecture as this driver passes it to a zkVM's SDK image:
/// OpenVM takes it without the `sm_` prefix.
pub open spec fn legacy_arch(z: ErezkVM, arch: Option<Seq<char>>) -> Option<Seq<char>> {
    match arch {
        Some(a) => if z == ErezkVM::OpenVM {
            Some(replace_all(a, "sm_"@, Seq::empty()))
        } else {
            Some(a)
        },
        None => None,
    }
}

impl ErezkVM {
    /// The zkVM of the current driver that has the same name.
    pub fn to_current(&self) -> (r: current::ErezkVM)
        ensures
            r == as_current(*self),
    {
        match self {
            ErezkVM::Jolt => current::ErezkVM::Jolt,
            ErezkVM::Miden => current::ErezkVM::Miden,
            ErezkVM::Nexus => current::ErezkVM::Nexus,
            ErezkVM::OpenVM => current::ErezkVM::OpenVM,
            ErezkVM::Pico => current::ErezkVM::Pico,
            ErezkVM::Risc0 => current::ErezkVM::Risc0,
            ErezkVM::SP1 => current::ErezkVM::SP1,
            ErezkVM::Ziren => current::ErezkVM::Ziren,
            ErezkVM::Zisk => current::ErezkVM::Zisk,
        }
    }

    /// The zkVM's name.
    pub fn as_str(&self) -> (r: &'static str)
        ensures
            r@ == legacy_name(*self),
    {
        self.to_current().as_str()
    }

    /// The zkVM named `s`; an error `Unsupported zkvm {s}` for any other
    /// name.
    pub fn from_str(s: &str) -> (r: Result<ErezkVM, String>)
        ensures
            match legacy_of_name(s@) {
                Some(z) => r == Ok::<ErezkVM, String>(z),
                None => r matches Err(e) && e@ == "Unsupported zkvm "@ + s@,
            },
    {
        let parsed = current::ErezkVM::from_str(s);
        let z = match parsed {
            Ok(current::ErezkVM::Jolt) => ErezkVM::Jolt,
            Ok(current::ErezkVM::Miden) => ErezkVM::Miden,
            Ok(current::ErezkVM::Nexus) => ErezkVM::Nexus,
            Ok(current::ErezkVM::OpenVM) => ErezkVM::OpenVM,
            Ok(current::ErezkVM::Pico) => ErezkVM::Pico,
            Ok(current::ErezkVM::Risc0) => ErezkVM::Risc0,
            Ok(current::ErezkVM::SP1) => ErezkVM::SP1,
            Ok(current::ErezkVM::Ziren) => ErezkVM::Ziren,
            Ok(current::ErezkVM::Zisk) => ErezkVM::Zisk,
            _ => {
                let mut e = string_of("Unsupported zkvm ");
                e.append(s);
                return Err(e);
            },
        };
        Ok(z)
    }

    /// Tag of the zkVM's images: `{version}{suffix}`.
    pub fn image_tag(&self, version: &str, gpu: bool) -> (r: String)
        ensures
            r@ == image_tag_of(as_current(*self), version@, gpu),
    {
        self.to_current().image_tag(version, gpu)
    }

    /// `ere-base:{tag}`.
    pub fn base_image(&self, version: &str, gpu: bool) -> (r: String)
        ensures
            r@ == base_image_of(as_current(*self), version@, gpu),
    {
        self.to_current().base_image(version, gpu)
    }

    /// `ere-base-{zkvm}:{tag}`.
    pub fn base_zkvm_image(&self, version: &str, gpu: bool) -> (r: String)
        ensures
            r@ == base_zkvm_image_of(as_current(*self), version@, gpu),
    {
        self.to_current().base_zkvm_image(version, gpu)
    }

    /// `ere-compiler-{zkvm}:{tag}`.
    pub fn compiler_zkvm_image(&self, version: &str) -> (r: String)
        ensures
            r@ == compiler_zkvm_image_of(as_current(*self), version@),
    {
        self.to_current().compiler_zkvm_image(version)
    }

    /// `ere-server-{zkvm}:{tag}`.
    pub fn server_zkvm_image(&self, version: &str, gpu: bool) -> (r: String)
        ensures
            r@ == server_zkvm_image_of(as_current(*self), version@, gpu),
    {
        self.to_current().server_zkvm_image(version, gpu)
    }

    /// The port of the zkVM's server: the offset plus the zkVM's position.
    pub fn server_port(&self) -> (r: u16)
        ensures
            r == legacy_port(*self),
    {
        let index: u16 = match self {
            ErezkVM::Jolt => 0,
            ErezkVM::Miden => 1,
            ErezkVM::Nexus => 2,
            ErezkVM::OpenVM => 3,
            ErezkVM::Pico => 4,
            ErezkVM::Risc0 => 5,
            ErezkVM::SP1 => 6,
            ErezkVM::Ziren => 7,
            ErezkVM::Zisk => 8,
        };
        ERE_SERVER_PORT_OFFSET + index
    }

    /// The image a stage produces, tagged with `version`.
    pub fn stage_image(&self, stage: ImageStage, version: &str, gpu: bool) -> (r: String)
        ensures
            r@ == stage_image_of(as_current(*self), stage, version@, gpu),
    {
        self.to_current().stage_image(stage, version, gpu)
    }

    /// The `docker build` of a stage; OpenVM's SDK image takes the GPU
    /// architecture without its `sm_` prefix.
    pub fn stage_build_cmd(
        &self,
        stage: ImageStage,
        version: &str,
        gpu: bool,
        docker_dir: &str,
        cuda_arch: Option<&str>,
    ) -> (r: DockerBuildCmd)
        ensures
            r@.options == stage_build_options(
                as_current(*self),
                stage,
                version@,
                gpu,
                docker_dir@,
                legacy_arch(
                    *self,
                    match cuda_arch {
                        Some(a) => Some(a@),
                        None => None,
                    },
                ),
            ),
    {
        proof {
            reveal_strlit("");
            assert(""@ =~= Seq::<char>::empty());
        }
        match cuda_arch {
            Some(a) => {
                let arch = match self {
                    ErezkVM::OpenVM => replace_pattern(a, "sm_", ""),
                    _ => string_of(a),
                };
                self.to_current().stage_build_cmd(stage, version, gpu, docker_dir, Some(arch.as_str()))
            },
            None => self.to_current().stage_build_cmd(stage, version, gpu, docker_dir, None),
        }
    }

    /// The name of the zkVM's server container.
    pub fn server_container_name(&self) -> (r: String)
        ensures
            r@ == server_container_name_of(legacy_name(*self), legacy_port(*self)),
    {
        let mut s = string_of("ere-server-");
        s.append(self.as_str());
        s.append("-");
        let p = crate::text::decimal_string(self.server_port() as u64);
        s.append(p.as_str());
        s
    }

    /// The `docker run` that starts the zkVM's server.
    pub fn server_run_cmd(
        &self,
        version: &str,
        gpu: bool,
        env: &EnvVars,
        tempdir: &str,
        home: &str,
    ) -> (r: DockerRunCmd)
        ensures
            r@.image == server_zkvm_image_of(as_current(*self), version@, gpu),
            r@.options == server_run_options(as_current(*self), legacy_port(*self), gpu, env@, tempdir@, home@),
    {
        self.to_current().server_run_cmd_on_port(self.server_port(), version, gpu, env, tempdir, home)
    }

    /// The `docker run` that compiles a guest program.
    pub fn compiler_run_cmd(
        &self,
        version: &str,
        env: &EnvVars,
        mount_directory: &str,
        tempdir: &str,
    ) -> (r: DockerRunCmd)
        ensures
            r@.image == compiler_zkvm_image_of(as_current(*self), version@),
            r@.options == compiler_run_options(as_current(*self), env@, mount_directory@, tempdir@),
    {
        self.to_current().compiler_run_cmd(version, env, mount_directory, tempdir)
    }
}

/// Reading back a zkVM's name gives the zkVM.
pub proof fn lemma_legacy_name_roundtrip(z: ErezkVM)
    ensures
        legacy_of_name(legacy_name(z)) == Some(z),
{
    current::lemma_name_roundtrip(as_current(z));
}

/// Distinct zkVMs have distinct names and distinct server ports.
pub proof fn lemma_legacy_distinguishable(a: ErezkVM, b: ErezkVM)
    requires
        a != b,
    ensures
        legacy_name(a) != legacy_name(b),
        legacy_port(a) != legacy_port(b),
{
    current::lemma_zkvms_distinguishable(as_current(a), as_current(b));
}

/// A zkVM's server listens one port below where the current driver's
/// server for the zkVM of the same name listens, since the current list
/// starts with one more zkVM.
pub proof fn lemma_legacy_port_shift(z: ErezkVM)
    ensures
        legacy_port(z) + 1 == current::server_port_of(as_current(z)),
{
}

} // verus!
