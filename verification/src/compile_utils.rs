//! Configuration of a `cargo build` of a guest program, and the errors of
//! compiling one.
use crate::text::{extend_strings, string_of};
use vstd::prelude::*;

verus! {

/// Separator of the flags in `CARGO_ENCODED_RUSTFLAGS` (the ASCII unit
/// separator).
pub const CARGO_ENCODED_RUSTFLAGS_SEPARATOR: &'static str = "\x1f";

/// The elements of `list` joined with `sep` between neighbours.
pub open spec fn join_seqs(list: Seq<Seq<char>>, sep: Seq<char>) -> Seq<char>
    decreases list.len(),
{
    if list.len() == 0 {
        Seq::empty()
    } else if list.len() == 1 {
        list[0]
    } else {
        join_seqs(list.drop_last(), sep) + sep + list.last()
    }
}

/// Abstract value of a `cargo build` configuration.
pub struct CargoBuildCmdView {
    pub toolchain: Seq<char>,
    pub profile: Seq<char>,
    pub rustflags: Seq<Seq<char>>,
    pub build_options: Seq<Seq<char>>,
    pub linker_script: Option<Seq<char>>,
}

/// The flags passed to the compiler: the configured ones, then, when a
/// linker script is set, `-C link-arg=-T{path}` for the file it is saved to.
pub open spec fn rustflags_of(c: CargoBuildCmdView, linker_script_path: Seq<char>) -> Seq<Seq<char>> {
    c.rustflags + match c.linker_script {
        Some(_) => seq!["-C"@, "link-arg=-T"@ + linker_script_path],
        None => Seq::empty(),
    }
}

/// The value of `CARGO_ENCODED_RUSTFLAGS`.
pub open spec fn encoded_rustflags_of(c: CargoBuildCmdView, linker_script_path: Seq<char>) -> Seq<char> {
    join_seqs(rustflags_of(c, linker_script_path), CARGO_ENCODED_RUSTFLAGS_SEPARATOR@)
}

/// The arguments of `cargo`: `+{toolchain} build {options..} --profile
/// {profile} --target {target} --manifest-path {manifest}`.
pub open spec fn cargo_argv_of(c: CargoBuildCmdView, target: Seq<char>, manifest_path: Seq<char>) -> Seq<Seq<char>> {
    seq!["+"@ + c.toolchain, "build"@] + c.build_options + seq![
        "--profile"@,
        c.profile,
        "--target"@,
        target,
        "--manifest-path"@,
        manifest_path,
    ]
}

/// Where the built program lands: `{target_dir}/{target}/{profile}/{package}`.
pub open spec fn elf_path_of(
    c: CargoBuildCmdView,
    target_directory: Seq<char>,
    target: Seq<char>,
    package: Seq<char>,
) -> Seq<char> {
    target_directory + "/"@ + target + "/"@ + c.profile + "/"@ + package
}

/// A `cargo build` configuration: toolchain, profile, compiler flags, build
/// options and an optional linker script.
#[derive(Clone)]
pub struct CargoBuildCmd {
    toolchain: String,
    profile: String,
    rustflags: Vec<String>,
    build_options: Vec<String>,
    linker_script: Option<String>,
}

impl View for CargoBuildCmd {
    type V = CargoBuildCmdView;

    closed spec fn view(&self) -> CargoBuildCmdView {
        CargoBuildCmdView {
            toolchain: self.toolchain@,
            profile: self.profile@,
            rustflags: self.rustflags.deep_view(),
            build_options: self.build_options.deep_view(),
            linker_script: match self.linker_script {
                Some(s) => Some(s@),
                None => None,
            },
        }
    }
}

/// The strings of `items`, as owned strings.
fn strings_of(items: &[&str]) -> (r: Vec<String>)
    ensures
        r.deep_view() == items@.map_values(|s: &str| s@),
{
    let mut r: Vec<String> = Vec::new();
    let mut i: usize = 0;
    while i < items.len()
        invariant
            i <= items.len(),
            r.deep_view() == items@.map_values(|s: &str| s@).take(i as int),
        decreases items.len() - i,
    {
        let ghost before = r.deep_view();
        r.push(string_of(items[i]));
        assert(r.deep_view() =~= before.push(items@[i as int]@));
        assert(items@.map_values(|s: &str| s@).take(i + 1) =~= items@.map_values(|s: &str| s@).take(
            i as int,
        ).push(items@[i as int]@));
        i = i + 1;
    }
    assert(items@.map_values(|s: &str| s@).take(i as int) =~= items@.map_values(|s: &str| s@));
    r
}

impl CargoBuildCmd {
    /// The default configuration: toolchain `stable`, profile `release`, no
    /// flags, no options, no linker script.
    pub fn new() -> (r: Self)
        ensures
            r@.toolchain == "stable"@,
            r@.profile == "release"@,
            r@.rustflags == Seq::<Seq<char>>::empty(),
            r@.build_options == Seq::<Seq<char>>::empty(),
            r@.linker_script is None,
    {
        let r = CargoBuildCmd {
            toolchain: string_of("stable"),
            profile: string_of("release"),
            rustflags: Vec::new(),
            build_options: Vec::new(),
            linker_script: None,
        };
        assert(r@.rustflags =~= Seq::<Seq<char>>::empty());
        assert(r@.build_options =~= Seq::<Seq<char>>::empty());
        r
    }

    /// Sets the toolchain.
    pub fn toolchain(self, toolchain: &str) -> (r: Self)
        ensures
            r@ == (CargoBuildCmdView { toolchain: toolchain@, ..self@ }),
    {
        CargoBuildCmd { toolchain: string_of(toolchain), ..self }
    }

    /// Sets the profile.
    pub fn profile(self, profile: &str) -> (r: Self)
        ensures
            r@ == (CargoBuildCmdView { profile: profile@, ..self@ }),
    {
        CargoBuildCmd { profile: string_of(profile), ..self }
    }

    /// Sets the compiler flags (`RUSTFLAGS`).
    pub fn rustflags(self, rustflags: &[&str]) -> (r: Self)
        ensures
            r@ == (CargoBuildCmdView { rustflags: rustflags@.map_values(|s: &str| s@), ..self@ }),
    {
        CargoBuildCmd { rustflags: strings_of(rustflags), ..self }
    }

    /// Sets the options after `cargo build`.
    pub fn build_options(self, build_options: &[&str]) -> (r: Self)
        ensures
            r@ == (CargoBuildCmdView { build_options: build_options@.map_values(|s: &str| s@), ..self@ }),
    {
        CargoBuildCmd { build_options: strings_of(build_options), ..self }
    }

    /// Sets or clears the linker script.
    pub fn linker_script(self, linker_script: Option<&str>) -> (r: Self)
        ensures
            r@ == (CargoBuildCmdView {
                linker_script: match linker_script {
                    Some(s) => Some(s@),
                    None => None,
                },
                ..self@
            }),
    {
        let script = match linker_script {
            Some(s) => Some(string_of(s)),
            None => None,
        };
        CargoBuildCmd { linker_script: script, ..self }
    }

    /// The linker script to save before the build, if one is set.
    pub fn linker_script_contents(&self) -> (r: Option<&str>)
        ensures
            match self@.linker_script {
                Some(s) => r matches Some(x) && x@ == s,
                None => r is None,
            },
    {
        match &self.linker_script {
            Some(s) => Some(s.as_str()),
            None => None,
        }
    }

    /// The value of `CARGO_ENCODED_RUSTFLAGS`, the linker script being saved
    /// at `linker_script_path`.
    pub fn encoded_rustflags(&self, linker_script_path: &str) -> (r: String)
        ensures
            r@ == encoded_rustflags_of(self@, linker_script_path@),
    {
        let mut flags: Vec<String> = Vec::new();
        extend_strings(&mut flags, &self.rustflags);
        match &self.linker_script {
            Some(_) => {
                let ghost before = flags.deep_view();
                flags.push(string_of("-C"));
                let mut arg = string_of("link-arg=-T");
                arg.append(linker_script_path);
                flags.push(arg);
                assert(flags.deep_view() =~= before + seq!["-C"@, "link-arg=-T"@ + linker_script_path@]);
            },
            None => {
                assert(flags.deep_view() =~= flags.deep_view() + Seq::<Seq<char>>::empty());
            },
        }
        assert(flags.deep_view() =~= rustflags_of(self@, linker_script_path@));
        join_strings(&flags, CARGO_ENCODED_RUSTFLAGS_SEPARATOR)
    }

    /// The arguments of `cargo` for a build for `target` of the package whose
    /// manifest is at `manifest_path`.
    pub fn build_args(&self, target: &str, manifest_path: &str) -> (r: Vec<String>)
        ensures
            r.deep_view() == cargo_argv_of(self@, target@, manifest_path@),
    {
        let mut r: Vec<String> = Vec::new();
        let mut head = string_of("+");
        head.append(self.toolchain.as_str());
        r.push(head);
        r.push(string_of("build"));
        let ghost start = r.deep_view();
        assert(start =~= seq!["+"@ + self@.toolchain, "build"@]);
        extend_strings(&mut r, &self.build_options);
        let ghost mid = r.deep_view();
        r.push(string_of("--profile"));
        r.push(self.profile.clone());
        r.push(string_of("--target"));
        r.push(string_of(target));
        r.push(string_of("--manifest-path"));
        r.push(string_of(manifest_path));
        assert(r.deep_view() =~= mid + seq![
            "--profile"@,
            self@.profile,
            "--target"@,
            target@,
            "--manifest-path"@,
            manifest_path@,
        ]);
        assert(r.deep_view() =~= cargo_argv_of(self@, target@, manifest_path@));
        r
    }

    /// The path of the built program.
    pub fn elf_path(&self, target_directory: &str, target: &str, package: &str) -> (r: String)
        ensures
            r@ == elf_path_of(self@, target_directory@, target@, package@),
    {
        let mut p = string_of(target_directory);
        p.append("/");
        p.append(target);
        p.append("/");
        p.append(self.profile.as_str());
        p.append("/");
        p.append(package);
        p
    }
}

/// The strings of `list` joined with `sep`.
pub fn join_strings(list: &Vec<String>, sep: &str) -> (r: String)
    ensures
        r@ == join_seqs(list.deep_view(), sep@),
{
    let ghost items = list.deep_view();
    let mut r = String::new();
    let mut i: usize = 0;
    while i < list.len()
        invariant
            i <= list.len(),
            items == list.deep_view(),
            r@ == join_seqs(items.take(i as int), sep@),
        decreases list.len() - i,
    {
        assert(items.take(i + 1).drop_last() =~= items.take(i as int));
        if i > 0 {
            r.append(sep);
        } else {
            assert(r@ + list[0 as int]@ =~= list[0 as int]@);
        }
        r.append(list[i].as_str());
        i = i + 1;
    }
    assert(items.take(i as int) =~= items);
    r
}

/// Errors of compiling a guest program that every backend shares.
#[derive(Debug)]
pub enum CommonError {
    /// An I/O operation failed; `ctx` says which.
    Io { ctx: String, err: std::io::Error },
    /// A command could not be run.
    Command { cmd: String, err: std::io::Error },
    /// A command ran and failed.
    CommandExitNonZero { cmd: String, status: String, stdout: String, stderr: String },
    /// Reading what was serialized as `id` with the library `lib` failed;
    /// the message says why.
    Deserialize { id: String, lib: String, err: String },
    /// `cargo metadata` failed for the crate in `manifest_dir`; the message
    /// says why.
    CargoMetadata { manifest_dir: String, err: String },
    /// The manifest directory has no root package.
    CargoRootPackageNotFound { manifest_dir: String },
}

/// `Failed to create dir {id} at {path}`.
pub open spec fn create_dir_context(id: Seq<char>, path: Seq<char>) -> Seq<char> {
    "Failed to create dir "@ + id + " at "@ + path
}

/// The context of a failed read of `{id}` at `{path}`: `Failed to write
/// {id} to {path}`.
pub open spec fn read_file_context(id: Seq<char>, path: Seq<char>) -> Seq<char> {
    "Failed to write "@ + id + " to "@ + path
}

/// The context of a failed write of `{id}` at `{path}`: `Failed to read
/// {id} from {path}`.
pub open spec fn write_file_context(id: Seq<char>, path: Seq<char>) -> Seq<char> {
    "Failed to read "@ + id + " from "@ + path
}

/// The message of a command that exited with a failure: the command, its
/// status, then the standard output and error when they are not empty.
pub open spec fn exit_non_zero_message(
    cmd: Seq<char>,
    status: Seq<char>,
    stdout: Seq<char>,
    stderr: Seq<char>,
) -> Seq<char> {
    "Command `"@ + cmd + "` exit with "@ + status + (if stdout.len() == 0 {
        Seq::empty()
    } else {
        "\nstdout: "@ + stdout
    }) + (if stderr.len() == 0 {
        Seq::empty()
    } else {
        "\nstderr: "@ + stderr
    })
}

impl CommonError {
    /// An I/O error with the context in which it happened.
    pub fn io(ctx: &str, err: std::io::Error) -> (r: Self)
        ensures
            r matches CommonError::Io { ctx: c, err: e } && c@ == ctx@ && e == err,
    {
        CommonError::Io { ctx: string_of(ctx), err }
    }

    /// A temporary directory could not be created.
    pub fn tempdir(err: std::io::Error) -> (r: Self)
        ensures
            r matches CommonError::Io { ctx: c, err: e } && c@ == "Failed to create temporary dir"@
                && e == err,
    {
        Self::io("Failed to create temporary dir", err)
    }

    /// The directory `id` could not be created at `path`.
    pub fn create_dir(id: &str, path: &str, err: std::io::Error) -> (r: Self)
        ensures
            r matches CommonError::Io { ctx: c, err: e } && c@ == create_dir_context(id@, path@) && e
                == err,
    {
        let mut c = string_of("Failed to create dir ");
        c.append(id);
        c.append(" at ");
        c.append(path);
        Self::io(c.as_str(), err)
    }

    /// The file `id` could not be read from `path`. The message this
    /// function writes is `Failed to write {id} to {path}`.
    pub fn read_file(id: &str, path: &str, err: std::io::Error) -> (r: Self)
        ensures
            r matches CommonError::Io { ctx: c, err: e } && c@ == read_file_context(id@, path@) && e
                == err,
    {
        let mut c = string_of("Failed to write ");
        c.append(id);
        c.append(" to ");
        c.append(path);
        Self::io(c.as_str(), err)
    }

    /// The file `id` could not be written to `path`. The message this
    /// function writes is `Failed to read {id} from {path}`.
    pub fn write_file(id: &str, path: &str, err: std::io::Error) -> (r: Self)
        ensures
            r matches CommonError::Io { ctx: c, err: e } && c@ == write_file_context(id@, path@) && e
                == err,
    {
        let mut c = string_of("Failed to read ");
        c.append(id);
        c.append(" from ");
        c.append(path);
        Self::io(c.as_str(), err)
    }

    /// The command written `cmd` could not be run.
    pub fn command(cmd: &str, err: std::io::Error) -> (r: Self)
        ensures
            r matches CommonError::Command { cmd: c, err: e } && c@ == cmd@ && e == err,
    {
        CommonError::Command { cmd: string_of(cmd), err }
    }

    /// The command written `cmd` exited with the status written `status`;
    /// its captured output, if it was captured.
    pub fn command_exit_non_zero(cmd: &str, status: &str, output: Option<(&str, &str)>) -> (r: Self)
        ensures
            r matches CommonError::CommandExitNonZero { cmd: c, status: s, stdout: o, stderr: e } && c@
                == cmd@ && s@ == status@ && match output {
                Some((out, err)) => o@ == out@ && e@ == err@,
                None => o@ == Seq::<char>::empty() && e@ == Seq::<char>::empty(),
            },
    {
        let (stdout, stderr) = match output {
            Some((out, err)) => (string_of(out), string_of(err)),
            None => (String::new(), String::new()),
        };
        CommonError::CommandExitNonZero {
            cmd: string_of(cmd),
            status: string_of(status),
            stdout,
            stderr,
        }
    }

    /// Reading `id`, serialized with `lib`, failed with the message `err`.
    pub fn deserialize(id: &str, lib: &str, err: &str) -> (r: Self)
        ensures
            r matches CommonError::Deserialize { id: i, lib: l, err: e } && i@ == id@ && l@ == lib@
                && e@ == err@,
    {
        CommonError::Deserialize { id: string_of(id), lib: string_of(lib), err: string_of(err) }
    }

    /// `cargo metadata` failed in `manifest_dir` with the message `err`.
    pub fn cargo_metadata(manifest_dir: &str, err: &str) -> (r: Self)
        ensures
            r matches CommonError::CargoMetadata { manifest_dir: m, err: e } && m@ == manifest_dir@ && e@
                == err@,
    {
        CommonError::CargoMetadata { manifest_dir: string_of(manifest_dir), err: string_of(err) }
    }

    /// The manifest directory `manifest_dir` has no root package.
    pub fn cargo_root_package_not_found(manifest_dir: &str) -> (r: Self)
        ensures
            r matches CommonError::CargoRootPackageNotFound { manifest_dir: m } && m@ == manifest_dir@,
    {
        CommonError::CargoRootPackageNotFound { manifest_dir: string_of(manifest_dir) }
    }

    /// The message of a failed command, as the error displays it; `None` for
    /// the other kinds, whose message includes an I/O error.
    pub fn exit_message(&self) -> (r: Option<String>)
        ensures
            match self {
                CommonError::CommandExitNonZero { cmd, status, stdout, stderr } => r matches Some(
                    m,
                ) && m@ == exit_non_zero_message(cmd@, status@, stdout@, stderr@),
                _ => r is None,
            },
    {
        match self {
            CommonError::CommandExitNonZero { cmd, status, stdout, stderr } => {
                let mut m = string_of("Command `");
                m.append(cmd.as_str());
                m.append("` exit with ");
                m.append(status.as_str());
                let ghost head = m@;
                if stdout.unicode_len() > 0 {
                    m.append("\nstdout: ");
                    m.append(stdout.as_str());
                }
                let ghost mid = m@;
                if stderr.unicode_len() > 0 {
                    m.append("\nstderr: ");
                    m.append(stderr.as_str());
                }
                assert(m@ =~= exit_non_zero_message(cmd@, status@, stdout@, stderr@));
                Some(m)
            },
            _ => None,
        }
    }
}

/// The manifest that `cargo metadata` reads for the crate in `manifest_dir`.
pub fn manifest_path(manifest_dir: &str) -> (r: String)
    ensures
        r@ == manifest_dir@ + "/Cargo.toml"@,
{
    let mut p = string_of(manifest_dir);
    p.append("/Cargo.toml");
    p
}

/// The verdict on what `cargo metadata` gave for the crate in
/// `manifest_dir`: its failure message, or whether the metadata has a root
/// package. A failure is a `CargoMetadata` error, metadata without a root
/// package a `CargoRootPackageNotFound` error; otherwise the metadata is
/// good.
pub fn cargo_metadata(manifest_dir: &str, metadata: Result<bool, String>) -> (r: Result<(), CommonError>)
    ensures
        match metadata {
            Err(m) => r matches Err(CommonError::CargoMetadata { manifest_dir: d, err }) && d@
                == manifest_dir@ && err@ == m@,
            Ok(false) => r matches Err(CommonError::CargoRootPackageNotFound { manifest_dir: d }) && d@
                == manifest_dir@,
            Ok(true) => r is Ok,
        },
{
    match metadata {
        Err(m) => Err(CommonError::cargo_metadata(manifest_dir, m.as_str())),
        Ok(false) => Err(CommonError::cargo_root_package_not_found(manifest_dir)),
        Ok(true) => Ok(()),
    }
}

/// The result of a guest's `cargo build`, given how the command written
/// `cmd` went (it could not be started, or it exited with success or with
/// the status written `status`) and, when it succeeded, what reading the
/// ELF at `elf_path` gave: a command that could not be started is a
/// `Command` error, a failed build a `CommandExitNonZero` error without
/// captured output, an unreadable ELF a `read_file` error for `elf`, and
/// otherwise the ELF.
pub fn cargo_build_outcome(
    cmd: &str,
    status: Result<(bool, String), std::io::Error>,
    elf_path: &str,
    elf: Option<Result<Vec<u8>, std::io::Error>>,
) -> (r: Result<Vec<u8>, CommonError>)
    requires
        status matches Ok((true, _)) ==> elf is Some,
    ensures
        status matches Err(e) ==> (r matches Err(CommonError::Command { cmd: c, err }) && c@ == cmd@
            && err == e),
        status matches Ok((false, s)) ==> (r matches Err(
            CommonError::CommandExitNonZero { cmd: c, status: st, stdout, stderr },
        ) && c@ == cmd@ && st@ == s@ && stdout@.len() == 0 && stderr@.len() == 0),
        status matches Ok((true, _)) ==> (elf matches Some(Ok(b)) ==> (r matches Ok(x) && x@ == b@)),
        status matches Ok((true, _)) ==> (elf matches Some(Err(e)) ==> (r matches Err(
            CommonError::Io { ctx, err },
        ) && ctx@ == read_file_context("elf"@, elf_path@) && err == e)),
{
    match status {
        Err(e) => Err(CommonError::command(cmd, e)),
        Ok((false, s)) => Err(CommonError::command_exit_non_zero(cmd, s.as_str(), None)),
        Ok((true, _)) => match elf.unwrap() {
            Ok(b) => Ok(b),
            Err(e) => Err(CommonError::read_file("elf", elf_path, e)),
        },
    }
}

} // verus!
