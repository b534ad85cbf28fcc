//! Helpers of the build scripts: the `docker run` of a compiler image, the
//! `docker build` of the images, and the versions written into the crates.
use crate::text::{extend_strings, string_of, trim, trim_str};
use vstd::prelude::*;

verus! {

/// Errors of building a Docker image.
#[derive(Debug, PartialEq, Eq)]
pub enum Error {
    /// The Dockerfile's path is not valid Unicode; the path, as far as it
    /// can be shown.
    InvalidDockerfilePath(String),
    /// `docker build` could not be run; the reason.
    DockerBuildFailed(String),
    /// `docker build` ran and failed.
    ImageBuildFailed,
    /// `docker` could not be run at all.
    DockerIsNotAvailable,
}

/// Abstract value of a `docker run` of a compiler image.
pub struct DockerRunCommandView {
    pub image: Seq<char>,
    pub volumes: Seq<(Seq<char>, Seq<char>)>,
    pub command: Seq<Seq<char>>,
    pub remove_after: bool,
}

/// The `-v {host}:{container}` arguments of the volumes, in order.
pub open spec fn volume_argv(volumes: Seq<(Seq<char>, Seq<char>)>) -> Seq<Seq<char>>
    decreases volumes.len(),
{
    if volumes.len() == 0 {
        Seq::empty()
    } else {
        volume_argv(volumes.drop_last()) + seq![
            "-v"@,
            volumes.last().0 + ":"@ + volumes.last().1,
        ]
    }
}

/// The arguments of `docker`: `run`, `--rm` when asked for, the volumes, the
/// image, then the command.
pub open spec fn docker_run_argv(c: DockerRunCommandView) -> Seq<Seq<char>> {
    seq!["run"@] + (if c.remove_after {
        seq!["--rm"@]
    } else {
        Seq::empty()
    }) + volume_argv(c.volumes) + seq![c.image] + c.command
}

/// A `docker run` of an image, with volumes and a command.
pub struct DockerRunCommand {
    image: String,
    volumes: Vec<(String, String)>,
    command: Vec<String>,
    remove_after: bool,
}

impl View for DockerRunCommand {
    type V = DockerRunCommandView;

    closed spec fn view(&self) -> DockerRunCommandView {
        DockerRunCommandView {
            image: self.image@,
            volumes: self.volumes@.map_values(|p: (String, String)| (p.0@, p.1@)),
            command: self.command.deep_view(),
            remove_after: self.remove_after,
        }
    }
}

impl DockerRunCommand {
    /// A run of `image` with no volumes and no command, kept after it exits.
    pub fn new(image: &str) -> (r: Self)
        ensures
            r@.image == image@,
            r@.volumes == Seq::<(Seq<char>, Seq<char>)>::empty(),
            r@.command == Seq::<Seq<char>>::empty(),
            !r@.remove_after,
    {
        let r = DockerRunCommand {
            image: string_of(image),
            volumes: Vec::new(),
            command: Vec::new(),
            remove_after: false,
        };
        assert(r@.volumes =~= Seq::<(Seq<char>, Seq<char>)>::empty());
        assert(r@.command =~= Seq::<Seq<char>>::empty());
        r
    }

    /// Mounts `host_path` at `container_path`.
    pub fn with_volume(self, host_path: &str, container_path: &str) -> (r: Self)
        ensures
            r@ == (DockerRunCommandView {
                volumes: self@.volumes.push((host_path@, container_path@)),
                ..self@
            }),
    {
        let DockerRunCommand { image, volumes, command, remove_after } = self;
        let mut volumes = volumes;
        let ghost before = volumes@;
        volumes.push((string_of(host_path), string_of(container_path)));
        let r = DockerRunCommand { image, volumes, command, remove_after };
        assert(r@.volumes =~= self@.volumes.push((host_path@, container_path@)));
        r
    }

    /// Appends `args` to the command run in the container.
    pub fn with_command(self, args: &Vec<String>) -> (r: Self)
        ensures
            r@ == (DockerRunCommandView { command: self@.command + args.deep_view(), ..self@ }),
    {
        let DockerRunCommand { image, volumes, command, remove_after } = self;
        let mut command = command;
        extend_strings(&mut command, args);
        DockerRunCommand { image, volumes, command, remove_after }
    }

    /// Removes the container once it exits.
    pub fn remove_after_run(self) -> (r: Self)
        ensures
            r@ == (DockerRunCommandView { remove_after: true, ..self@ }),
    {
        DockerRunCommand { remove_after: true, ..self }
    }

    /// The arguments of `docker`.
    pub fn to_args(&self) -> (r: Vec<String>)
        ensures
            r.deep_view() == docker_run_argv(self@),
    {
        let mut args: Vec<String> = Vec::new();
        args.push(string_of("run"));
        if self.remove_after {
            args.push(string_of("--rm"));
        }
        let ghost head = args.deep_view();
        assert(head =~= seq!["run"@] + (if self@.remove_after {
            seq!["--rm"@]
        } else {
            Seq::empty()
        }));
        let ghost vols = self@.volumes;
        let mut i: usize = 0;
        while i < self.volumes.len()
            invariant
                i <= self.volumes.len(),
                vols == self@.volumes,
                args.deep_view() == head + volume_argv(vols.take(i as int)),
            decreases self.volumes.len() - i,
        {
            let (h, c) = &self.volumes[i];
            let mut v = h.clone();
            v.append(":");
            v.append(c.as_str());
            let ghost before = args.deep_view();
            args.push(string_of("-v"));
            args.push(v);
            assert(vols.take(i + 1).drop_last() =~= vols.take(i as int));
            assert(vols[i as int] == (h@, c@));
            assert(args.deep_view() =~= before + seq!["-v"@, h@ + ":"@ + c@]);
            i = i + 1;
        }
        assert(vols.take(i as int) =~= vols);
        let ghost before = args.deep_view();
        args.push(self.image.clone());
        assert(args.deep_view() =~= before.push(self@.image));
        extend_strings(&mut args, &self.command);
        assert(args.deep_view() =~= docker_run_argv(self@));
        args
    }
}

/// The arguments of the `docker build` that builds `dockerfile` in
/// `context` and tags the image `tag`.
pub open spec fn image_build_argv(tag: Seq<char>, dockerfile: Seq<char>, context: Seq<char>) -> Seq<Seq<char>> {
    seq!["build"@, "-t"@, tag, "-f"@, dockerfile, context]
}

/// The arguments of `docker build -t {tag} -f {dockerfile} {context}`.
pub fn image_build_args(tag: &str, dockerfile: &str, context: &str) -> (r: Vec<String>)
    ensures
        r.deep_view() == image_build_argv(tag@, dockerfile@, context@),
{
    let mut r: Vec<String> = Vec::new();
    r.push(string_of("build"));
    r.push(string_of("-t"));
    r.push(string_of(tag));
    r.push(string_of("-f"));
    r.push(string_of(dockerfile));
    r.push(string_of(context));
    assert(r.deep_view() =~= image_build_argv(tag@, dockerfile@, context@));
    r
}

/// The tag of the base image that every compiler image builds on.
pub open spec fn base_image_tag() -> Seq<char> {
    "ere-base:latest"@
}

/// The arguments of the `docker build` of the base image.
pub fn base_image_build_args(dockerfile: &str, context: &str) -> (r: Vec<String>)
    ensures
        r.deep_view() == image_build_argv(base_image_tag(), dockerfile@, context@),
{
    image_build_args("ere-base:latest", dockerfile, context)
}

/// The step of `build_image` whose outcome is reported next.
#[derive(Clone, Copy, Debug, PartialEq, Eq, Structural)]
pub enum BuildImageState {
    /// `docker --version` checks that Docker is there.
    CheckingDocker,
    /// The base image is being built.
    BuildingBase,
    /// The compiler image is being built.
    BuildingCompiler,
}

/// What a command of `build_image` gave.
#[derive(Clone, Debug, PartialEq, Eq)]
pub enum CommandOutcome {
    /// The command ran; whether it exited with success.
    Ran(bool),
    /// The command could not be started; the reason.
    SpawnFailed(String),
}

/// What `build_image` does next.
#[derive(Debug, PartialEq, Eq)]
pub enum BuildImageAction {
    /// Run `docker --version`, its output discarded.
    CheckDocker,
    /// Build the base image (`base_image_build_args`).
    BuildBase,
    /// Build the compiler image (`image_build_args` with its tag).
    BuildCompiler,
    /// The build is over, with this result.
    Finish(Result<(), Error>),
}

/// The first step of `build_image`: check that Docker is there.
pub fn build_image_start() -> (r: (BuildImageState, BuildImageAction))
    ensures
        r.0 == BuildImageState::CheckingDocker,
        r.1 == BuildImageAction::CheckDocker,
{
    (BuildImageState::CheckingDocker, BuildImageAction::CheckDocker)
}

/// The next step of `build_image` after the outcome of the command of
/// `state`: Docker that cannot be started is not available (whatever
/// `docker --version` exits with, Docker is there); a build that cannot be
/// started fails with its reason, one that exits with failure fails as
/// such, and each ends the build; the base image comes before the compiler
/// image, and the build succeeds when both have been built.
pub fn build_image_step(state: BuildImageState, outcome: CommandOutcome) -> (r: (BuildImageState, BuildImageAction))
    ensures
        match (state, outcome) {
            (BuildImageState::CheckingDocker, CommandOutcome::SpawnFailed(_)) => r.1 == BuildImageAction::Finish(
                Err(Error::DockerIsNotAvailable),
            ),
            (BuildImageState::CheckingDocker, CommandOutcome::Ran(_)) => r.0 == BuildImageState::BuildingBase
                && r.1 == BuildImageAction::BuildBase,
            (_, CommandOutcome::SpawnFailed(m)) => r.1 == BuildImageAction::Finish(
                Err(Error::DockerBuildFailed(m)),
            ),
            (_, CommandOutcome::Ran(false)) => r.1 == BuildImageAction::Finish(Err(Error::ImageBuildFailed)),
            (BuildImageState::BuildingBase, CommandOutcome::Ran(true)) => r.0 == BuildImageState::BuildingCompiler
                && r.1 == BuildImageAction::BuildCompiler,
            (BuildImageState::BuildingCompiler, CommandOutcome::Ran(true)) => r.1 == BuildImageAction::Finish(
                Ok(()),
            ),
        },
        r.0 == state || r.1 !is Finish,
{
    match (state, outcome) {
        (BuildImageState::CheckingDocker, CommandOutcome::SpawnFailed(_)) => (
            state,
            BuildImageAction::Finish(Err(Error::DockerIsNotAvailable)),
        ),
        (BuildImageState::CheckingDocker, CommandOutcome::Ran(_)) => (
            BuildImageState::BuildingBase,
            BuildImageAction::BuildBase,
        ),
        (_, CommandOutcome::SpawnFailed(m)) => (state, BuildImageAction::Finish(Err(Error::DockerBuildFailed(m)))),
        (_, CommandOutcome::Ran(false)) => (state, BuildImageAction::Finish(Err(Error::ImageBuildFailed))),
        (BuildImageState::BuildingBase, CommandOutcome::Ran(true)) => (
            BuildImageState::BuildingCompiler,
            BuildImageAction::BuildCompiler,
        ),
        (BuildImageState::BuildingCompiler, CommandOutcome::Ran(true)) => (state, BuildImageAction::Finish(Ok(()))),
    }
}

/// The code of `c` in ASCII lower case: capital letters map to their small
/// letters, every other character to itself.
pub open spec fn ascii_lower(c: char) -> int {
    if 'A' <= c && c <= 'Z' {
        c as int + 32
    } else {
        c as int
    }
}

/// Whether `a` and `b` are equal when ASCII letters are compared without
/// regard to case.
pub open spec fn eq_ignore_ascii_case(a: Seq<char>, b: Seq<char>) -> bool {
    a.len() == b.len() && forall|i: int| 0 <= i < a.len() ==> ascii_lower(#[trigger] a[i]) == ascii_lower(b[i])
}

/// The version of the first package named `name`, ignoring ASCII case.
pub open spec fn sdk_version_in(packages: Seq<(Seq<char>, Seq<char>)>, name: Seq<char>) -> Option<Seq<char>>
    decreases packages.len(),
{
    if packages.len() == 0 {
        None
    } else if eq_ignore_ascii_case(packages[0].0, name) {
        Some(packages[0].1)
    } else {
        sdk_version_in(packages.drop_first(), name)
    }
}

fn lower_char(c: char) -> (r: u32)
    ensures
        r == ascii_lower(c),
{
    if 'A' <= c && c <= 'Z' {
        (c as u32) + 32
    } else {
        c as u32
    }
}

/// Whether `a` and `b` are equal, ignoring ASCII case.
pub fn str_eq_ignore_ascii_case(a: &str, b: &str) -> (r: bool)
    ensures
        r == eq_ignore_ascii_case(a@, b@),
{
    let n = a.unicode_len();
    if n != b.unicode_len() {
        return false;
    }
    let mut i: usize = 0;
    while i < n
        invariant
            n == a@.len(),
            n == b@.len(),
            i <= n,
            forall|j: int| 0 <= j < i ==> ascii_lower(#[trigger] a@[j]) == ascii_lower(b@[j]),
        decreases n - i,
    {
        if lower_char(a.get_char(i)) != lower_char(b.get_char(i)) {
            return false;
        }
        i = i + 1;
    }
    true
}

/// The version of the first package named `sdk_dep_name`, ignoring ASCII
/// case, among the packages of the dependency graph, given as (name,
/// version) pairs; `None` when no package has that name.
fn sdk_version_lookup(packages: &Vec<(String, String)>, sdk_dep_name: &str) -> (r: Option<String>)
    ensures
        match sdk_version_in(packages@.map_values(|p: (String, String)| (p.0@, p.1@)), sdk_dep_name@) {
            Some(v) => r matches Some(x) && x@ == v,
            None => r is None,
        },
{
    let ghost all = packages@.map_values(|p: (String, String)| (p.0@, p.1@));
    let mut i: usize = 0;
    assert(all.skip(0) =~= all);
    while i < packages.len()
        invariant
            i <= packages.len(),
            all == packages@.map_values(|p: (String, String)| (p.0@, p.1@)),
            sdk_version_in(all, sdk_dep_name@) == sdk_version_in(all.skip(i as int), sdk_dep_name@),
        decreases packages.len() - i,
    {
        assert(all.skip(i as int)[0] == all[i as int]);
        if str_eq_ignore_ascii_case(packages[i].0.as_str(), sdk_dep_name) {
            return Some(packages[i].1.clone());
        }
        assert(all.skip(i as int).drop_first() =~= all.skip(i + 1));
        i = i + 1;
    }
    None
}

/// The packages of a dependency graph as (name, version) views.
pub open spec fn package_views(packages: Seq<(String, String)>) -> Seq<(Seq<char>, Seq<char>)> {
    packages.map_values(|p: (String, String)| (p.0@, p.1@))
}

/// Whether some package of the dependency graph is named `sdk_dep_name`,
/// ignoring ASCII case: the condition under which its version can be
/// detected.
pub fn has_sdk_package(packages: &Vec<(String, String)>, sdk_dep_name: &str) -> (r: bool)
    ensures
        r == sdk_version_in(package_views(packages@), sdk_dep_name@) is Some,
{
    sdk_version_lookup(packages, sdk_dep_name).is_some()
}

/// The version of the SDK `sdk_dep_name` among the packages of the
/// dependency graph, given as (name, version) pairs: that of the first
/// package with that name, ignoring ASCII case. Some package must have that
/// name.
pub fn detect_sdk_version(packages: &Vec<(String, String)>, sdk_dep_name: &str) -> (r: String)
    requires
        sdk_version_in(package_views(packages@), sdk_dep_name@) is Some,
    ensures
        sdk_version_in(package_views(packages@), sdk_dep_name@) == Some(r@),
{
    sdk_version_lookup(packages, sdk_dep_name).unwrap()
}

/// The Rust source that records a crate's name and its SDK's version.
pub open spec fn name_and_sdk_version_source_of(name: Seq<char>, version: Seq<char>) -> Seq<char> {
    "const NAME: &str = \""@ + name + "\";\nconst SDK_VERSION: &str = \""@ + version + "\";"@
}

/// The Rust source that records `name` and the SDK version `version`.
pub fn name_and_sdk_version_source(name: &str, version: &str) -> (r: String)
    ensures
        r@ == name_and_sdk_version_source_of(name@, version@),
{
    let mut s = string_of("const NAME: &str = \"");
    s.append(name);
    s.append("\";\nconst SDK_VERSION: &str = \"");
    s.append(version);
    s.append("\";");
    s
}

/// The version of a crate at a revision: `{version}-{revision}`, the
/// revision as `git rev-parse` printed it, trimmed.
pub fn self_crate_version(version: &str, git_output: &str) -> (r: String)
    ensures
        r@ == version@ + "-"@ + trim(git_output@),
{
    let mut s = string_of(version);
    s.append("-");
    let rev = trim_str(git_output);
    s.append(rev.as_str());
    s
}

/// The Rust source that records `name` and the version of the SDK
/// `sdk_dep_name` among the packages of the dependency graph. Some package
/// must have that name.
pub fn detect_and_generate_name_and_sdk_version(
    name: &str,
    packages: &Vec<(String, String)>,
    sdk_dep_name: &str,
) -> (r: String)
    requires
        sdk_version_in(package_views(packages@), sdk_dep_name@) is Some,
    ensures
        sdk_version_in(package_views(packages@), sdk_dep_name@) matches Some(v) && r@
            == name_and_sdk_version_source_of(name@, v),
{
    let v = detect_sdk_version(packages, sdk_dep_name);
    name_and_sdk_version_source(name, v.as_str())
}

} // verus!
