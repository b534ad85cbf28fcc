//! Builders of `docker build` and `docker run` invocations.
//!
//! Each builder records its options in order; the argument list that the
//! Docker CLI receives is a function of that record alone, stated by
//! `build_argv` and `run_argv`.
use crate::text::{extend_strings, join_with, joined, string_of};
use vstd::prelude::*;

verus! {

/// Path of the Docker daemon socket on the host.
pub const DOCKER_SOCKET: &'static str = "/var/run/docker.sock";

/// Abstract value of a command-line option: its key, and its value unless
/// it is a bare flag.
pub struct CmdOptionView {
    pub key: Seq<char>,
    pub value: Option<Seq<char>>,
}

/// `--` followed by `key`.
pub open spec fn long_flag(key: Seq<char>) -> Seq<char> {
    "--"@ + key
}

/// The arguments one option contributes: `--key value`, or `--key` alone.
pub open spec fn option_argv(o: CmdOptionView) -> Seq<Seq<char>> {
    match o.value {
        Some(v) => seq![long_flag(o.key), v],
        None => seq![long_flag(o.key)],
    }
}

/// The arguments of a list of options, in order.
pub open spec fn options_argv(opts: Seq<CmdOptionView>) -> Seq<Seq<char>>
    decreases opts.len(),
{
    if opts.len() == 0 {
        Seq::empty()
    } else {
        options_argv(opts.drop_last()) + option_argv(opts.last())
    }
}

/// The options after one more was appended.
pub proof fn lemma_options_argv_push(opts: Seq<CmdOptionView>, o: CmdOptionView)
    ensures
        options_argv(opts.push(o)) == options_argv(opts) + option_argv(o),
{
    assert(opts.push(o).drop_last() =~= opts);
}

/// A command-line option: a key and an optional value.
#[derive(Clone)]
pub struct CmdOption(String, Option<String>);

impl View for CmdOption {
    type V = CmdOptionView;

    closed spec fn view(&self) -> CmdOptionView {
        CmdOptionView {
            key: self.0@,
            value: match self.1 {
                Some(v) => Some(v@),
                None => None,
            },
        }
    }
}

impl CmdOption {
    /// An option `--key value`.
    pub fn new(key: &str, value: &str) -> (r: Self)
        ensures
            r@ == (CmdOptionView { key: key@, value: Some(value@) }),
    {
        CmdOption(string_of(key), Some(string_of(value)))
    }

    /// A bare flag `--key`.
    pub fn flag(key: &str) -> (r: Self)
        ensures
            r@ == (CmdOptionView { key: key@, value: None }),
    {
        CmdOption(string_of(key), None)
    }

    /// The arguments this option contributes to a command line.
    pub fn to_args(&self) -> (r: Vec<String>)
        ensures
            r.deep_view() == option_argv(self@),
    {
        let mut head = string_of("--");
        head.append(self.0.as_str());
        let mut r: Vec<String> = Vec::new();
        r.push(head);
        match &self.1 {
            Some(v) => {
                r.push(v.clone());
                assert(r.deep_view() =~= option_argv(self@));
            },
            None => {
                assert(r.deep_view() =~= option_argv(self@));
            },
        }
        r
    }

    /// The option as it reads on a command line: `--key value` or `--key`.
    pub fn to_display_string(&self) -> (r: String)
        ensures
            r@ == match self@.value {
                Some(v) => long_flag(self@.key) + " "@ + v,
                None => long_flag(self@.key),
            },
    {
        let mut s = string_of("--");
        s.append(self.0.as_str());
        match &self.1 {
            Some(v) => {
                s.append(" ");
                s.append(v.as_str());
            },
            None => {},
        }
        s
    }
}

/// The arguments of a list of options, in order.
pub fn options_to_args(options: &Vec<CmdOption>) -> (r: Vec<String>)
    ensures
        r.deep_view() == options_argv(options@.map_values(|o: CmdOption| o@)),
{
    let ghost views = options@.map_values(|o: CmdOption| o@);
    let mut r: Vec<String> = Vec::new();
    let mut i: usize = 0;
    while i < options.len()
        invariant
            i <= options.len(),
            views == options@.map_values(|o: CmdOption| o@),
            r.deep_view() == options_argv(views.take(i as int)),
        decreases options.len() - i,
    {
        let a = options[i].to_args();
        extend_strings(&mut r, &a);
        proof {
            assert(views.take(i + 1) =~= views.take(i as int).push(views[i as int]));
            lemma_options_argv_push(views.take(i as int), views[i as int]);
        }
        i = i + 1;
    }
    assert(views.take(i as int) =~= views);
    r
}

/// Abstract value of a `docker build` invocation: its options in order.
pub struct DockerBuildCmdView {
    pub options: Seq<CmdOptionView>,
}

/// The options of `cmd`, as abstract values.
pub open spec fn option_views(options: Seq<CmdOption>) -> Seq<CmdOptionView> {
    options.map_values(|o: CmdOption| o@)
}

/// The option `--key value` as an abstract value.
pub open spec fn kv(key: Seq<char>, value: Seq<char>) -> CmdOptionView {
    CmdOptionView { key, value: Some(value) }
}

/// The flag `--key` as an abstract value.
pub open spec fn bare(key: Seq<char>) -> CmdOptionView {
    CmdOptionView { key, value: None }
}

/// The full argument list of `docker build` with `options` and build
/// context `context`.
pub open spec fn build_argv(options: Seq<CmdOptionView>, context: Seq<char>) -> Seq<Seq<char>> {
    seq!["build"@] + options_argv(options) + seq![context]
}

/// The full argument list of `docker run` with `options`, image `image` and
/// the container command `commands`.
pub open spec fn run_argv(
    options: Seq<CmdOptionView>,
    image: Seq<char>,
    commands: Seq<Seq<char>>,
) -> Seq<Seq<char>> {
    seq!["run"@] + options_argv(options) + seq![image] + commands
}

/// Builder of a `docker build` invocation.
pub struct DockerBuildCmd {
    options: Vec<CmdOption>,
}

impl View for DockerBuildCmd {
    type V = DockerBuildCmdView;

    closed spec fn view(&self) -> DockerBuildCmdView {
        DockerBuildCmdView { options: option_views(self.options@) }
    }
}

impl DockerBuildCmd {
    /// A `docker build` with no options.
    pub fn new() -> (r: Self)
        ensures
            r@.options == Seq::<CmdOptionView>::empty(),
    {
        let r = DockerBuildCmd { options: Vec::new() };
        assert(r@.options =~= Seq::<CmdOptionView>::empty());
        r
    }

    /// Appends the option `--key value`.
    pub fn option(self, key: &str, value: &str) -> (r: Self)
        ensures
            r@.options == self@.options.push(kv(key@, value@)),
    {
        let mut options = self.options;
        let ghost before = options@;
        options.push(CmdOption::new(key, value));
        let r = DockerBuildCmd { options };
        assert(option_views(r.options@) =~= option_views(before).push(kv(key@, value@)));
        r
    }

    /// Appends `--file {file}`: the Dockerfile to build.
    pub fn file(self, file: &str) -> (r: Self)
        ensures
            r@.options == self@.options.push(kv("file"@, file@)),
    {
        self.option("file", file)
    }

    /// Appends `--tag {tag}`.
    pub fn tag(self, tag: &str) -> (r: Self)
        ensures
            r@.options == self@.options.push(kv("tag"@, tag@)),
    {
        self.option("tag", tag)
    }

    /// Appends `--build-arg {key}={value}`.
    pub fn build_arg(self, key: &str, value: &str) -> (r: Self)
        ensures
            r@.options == self@.options.push(
                kv("build-arg"@, joined(key@, "="@, value@)),
            ),
    {
        let arg = join_with(key, "=", value);
        self.option("build-arg", arg.as_str())
    }

    /// The argument list handed to `docker`: `build`, the options, then the
    /// build context.
    pub fn to_args(&self, context: &str) -> (r: Vec<String>)
        ensures
            r.deep_view() == build_argv(self@.options, context@),
    {
        let mut r: Vec<String> = Vec::new();
        r.push(string_of("build"));
        let opts = options_to_args(&self.options);
        extend_strings(&mut r, &opts);
        let ghost before = r.deep_view();
        r.push(string_of(context));
        assert(r.deep_view() =~= before.push(context@));
        assert(r.deep_view() =~= build_argv(self@.options, context@));
        r
    }
}

/// Abstract value of a `docker run` invocation: its options in order and the
/// image.
pub struct DockerRunCmdView {
    pub options: Seq<CmdOptionView>,
    pub image: Seq<char>,
}

/// Builder of a `docker run` invocation.
pub struct DockerRunCmd {
    options: Vec<CmdOption>,
    image: String,
}

impl View for DockerRunCmd {
    type V = DockerRunCmdView;

    closed spec fn view(&self) -> DockerRunCmdView {
        DockerRunCmdView { options: option_views(self.options@), image: self.image@ }
    }
}

/// `{a}:{b}`.
pub open spec fn colon_pair(a: Seq<char>, b: Seq<char>) -> Seq<char> {
    joined(a, ":"@, b)
}

impl DockerRunCmd {
    /// A `docker run` of `image` with no options.
    pub fn new(image: String) -> (r: Self)
        ensures
            r@.options == Seq::<CmdOptionView>::empty(),
            r@.image == image@,
    {
        let r = DockerRunCmd { options: Vec::new(), image };
        assert(r@.options =~= Seq::<CmdOptionView>::empty());
        r
    }

    /// Appends the flag `--key`.
    pub fn flag(self, key: &str) -> (r: Self)
        ensures
            r@.options == self@.options.push(bare(key@)),
            r@.image == self@.image,
    {
        let DockerRunCmd { options, image } = self;
        let mut options = options;
        let ghost before = options@;
        options.push(CmdOption::flag(key));
        let r = DockerRunCmd { options, image };
        assert(option_views(r.options@) =~= option_views(before).push(bare(key@)));
        r
    }

    /// Appends the option `--key value`.
    pub fn option(self, key: &str, value: &str) -> (r: Self)
        ensures
            r@.options == self@.options.push(kv(key@, value@)),
            r@.image == self@.image,
    {
        let DockerRunCmd { options, image } = self;
        let mut options = options;
        let ghost before = options@;
        options.push(CmdOption::new(key, value));
        let r = DockerRunCmd { options, image };
        assert(option_views(r.options@) =~= option_views(before).push(kv(key@, value@)));
        r
    }

    /// Appends `--publish {host}:{container}`.
    pub fn publish(self, host: &str, container: &str) -> (r: Self)
        ensures
            r@.options == self@.options.push(
                kv("publish"@, colon_pair(host@, container@)),
            ),
            r@.image == self@.image,
    {
        let arg = join_with(host, ":", container);
        self.option("publish", arg.as_str())
    }

    /// Appends `--volume {host}:{container}`: mounts `host` at `container`.
    pub fn volume(self, host: &str, container: &str) -> (r: Self)
        ensures
            r@.options == self@.options.push(
                kv("volume"@, colon_pair(host@, container@)),
            ),
            r@.image == self@.image,
    {
        let arg = join_with(host, ":", container);
        self.option("volume", arg.as_str())
    }

    /// Appends `--env {key}={value}`.
    pub fn env(self, key: &str, value: &str) -> (r: Self)
        ensures
            r@.options == self@.options.push(kv("env"@, joined(key@, "="@, value@))),
            r@.image == self@.image,
    {
        let arg = join_with(key, "=", value);
        self.option("env", arg.as_str())
    }

    /// Mounts the Docker socket at the same path, so that the container can
    /// drive the host's Docker daemon.
    pub fn mount_docker_socket(self) -> (r: Self)
        ensures
            r@.options == self@.options.push(
                kv(
                    "volume"@,
                    colon_pair(DOCKER_SOCKET@, DOCKER_SOCKET@),
                ),
            ),
            r@.image == self@.image,
    {
        self.volume(DOCKER_SOCKET, DOCKER_SOCKET)
    }

    /// Appends `--gpus {devices}`.
    pub fn gpus(self, devices: &str) -> (r: Self)
        ensures
            r@.options == self@.options.push(kv("gpus"@, devices@)),
            r@.image == self@.image,
    {
        self.option("gpus", devices)
    }

    /// Appends `--network {name}`.
    pub fn network(self, name: &str) -> (r: Self)
        ensures
            r@.options == self@.options.push(kv("network"@, name@)),
            r@.image == self@.image,
    {
        self.option("network", name)
    }

    /// Appends `--name {name}`: the container's name.
    pub fn name(self, name: &str) -> (r: Self)
        ensures
            r@.options == self@.options.push(kv("name"@, name@)),
            r@.image == self@.image,
    {
        self.option("name", name)
    }

    /// Passes the environment variable `key` on to the container when the
    /// caller found it set (`value` is its value); leaves the command as it
    /// is otherwise.
    pub fn inherit_env(self, key: &str, value: Option<&str>) -> (r: Self)
        ensures
            r@.image == self@.image,
            r@.options == match value {
                Some(v) => self@.options.push(kv("env"@, joined(key@, "="@, v@))),
                None => self@.options,
            },
    {
        match value {
            Some(v) => self.env(key, v),
            None => self,
        }
    }

    /// Appends `--rm`: the container is removed once it exits.
    pub fn rm(self) -> (r: Self)
        ensures
            r@.options == self@.options.push(bare("rm"@)),
            r@.image == self@.image,
    {
        self.flag("rm")
    }

    /// The argument list handed to `docker`: `run`, the options, the image,
    /// then the container command.
    pub fn to_args(&self, commands: &Vec<String>) -> (r: Vec<String>)
        ensures
            r.deep_view() == run_argv(self@.options, self@.image, commands.deep_view()),
    {
        let mut r: Vec<String> = Vec::new();
        r.push(string_of("run"));
        let opts = options_to_args(&self.options);
        extend_strings(&mut r, &opts);
        let ghost before = r.deep_view();
        r.push(self.image.clone());
        assert(r.deep_view() =~= before.push(self.image@));
        extend_strings(&mut r, commands);
        assert(r.deep_view() =~= run_argv(self@.options, self@.image, commands.deep_view()));
        r
    }

    /// The argument list of a `docker run` started in the background with
    /// data for the container on standard input: `--interactive` comes after
    /// the other options, so that Docker passes the input on.
    pub fn spawn_args(self, commands: &Vec<String>) -> (r: Vec<String>)
        ensures
            r.deep_view() == run_argv(
                self@.options.push(bare("interactive"@)),
                self@.image,
                commands.deep_view(),
            ),
    {
        self.flag("interactive").to_args(commands)
    }
}

} // verus!
