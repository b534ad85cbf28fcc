//! Builders of `docker build` and `docker run` invocations, with the smaller
//! set of options this generation of the driver offers. They record the same
//! options, in the same form, as the builders of `crate::dockerized::docker`.
use crate::dockerized::docker as current;
use crate::dockerized::docker::{
    bare, build_argv, colon_pair, kv, option_argv, run_argv, CmdOptionView, DockerBuildCmdView,
    DockerRunCmdView,
};
use crate::text::joined;
use vstd::prelude::*;

verus! {

/// A command-line option: a key and an optional value.
#[derive(Clone)]
pub struct CmdOption {
    inner: current::CmdOption,
}

impl View for CmdOption {
    type V = CmdOptionView;

    closed spec fn view(&self) -> CmdOptionView {
        self.inner@
    }
}

impl CmdOption {
    /// An option `--key value`.
    pub fn new(key: &str, value: &str) -> (r: Self)
        ensures
            r@ == (CmdOptionView { key: key@, value: Some(value@) }),
    {
        CmdOption { inner: current::CmdOption::new(key, value) }
    }

    /// A bare flag `--key`.
    pub fn flag(key: &str) -> (r: Self)
        ensures
            r@ == (CmdOptionView { key: key@, value: None }),
    {
        CmdOption { inner: current::CmdOption::flag(key) }
    }

    /// The arguments this option contributes to a command line.
    pub fn to_args(&self) -> (r: Vec<String>)
        ensures
            r.deep_view() == option_argv(self@),
    {
        self.inner.to_args()
    }

    /// The option as it reads on a command line: `--key value` or `--key`.
    pub fn to_display_string(&self) -> (r: String)
        ensures
            r@ == match self@.value {
                Some(v) => current::long_flag(self@.key) + " "@ + v,
                None => current::long_flag(self@.key),
            },
    {
        self.inner.to_display_string()
    }
}

/// Builder of a `docker build` invocation.
pub struct DockerBuildCmd {
    inner: current::DockerBuildCmd,
}

impl View for DockerBuildCmd {
    type V = DockerBuildCmdView;

    closed spec fn view(&self) -> DockerBuildCmdView {
        self.inner@
    }
}

impl DockerBuildCmd {
    /// A `docker build` with no options.
    pub fn new() -> (r: Self)
        ensures
            r@.options == Seq::<CmdOptionView>::empty(),
    {
        DockerBuildCmd { inner: current::DockerBuildCmd::new() }
    }

    /// Appends `--file {file}`: the Dockerfile to build.
    pub fn file(self, file: &str) -> (r: Self)
        ensures
            r@.options == self@.options.push(kv("file"@, file@)),
    {
        DockerBuildCmd { inner: self.inner.file(file) }
    }

    /// Appends `--tag {tag}`.
    pub fn tag(self, tag: &str) -> (r: Self)
        ensures
            r@.options == self@.options.push(kv("tag"@, tag@)),
    {
        DockerBuildCmd { inner: self.inner.tag(tag) }
    }

    /// Appends `--build-arg {key}={value}`.
    pub fn bulid_arg(self, key: &str, value: &str) -> (r: Self)
        ensures
            r@.options == self@.options.push(kv("build-arg"@, joined(key@, "="@, value@))),
    {
        DockerBuildCmd { inner: self.inner.build_arg(key, value) }
    }

    /// The argument list handed to `docker`: `build`, the options, then the
    /// build context.
    pub fn to_args(&self, context: &str) -> (r: Vec<String>)
        ensures
            r.deep_view() == build_argv(self@.options, context@),
    {
        self.inner.to_args(context)
    }
}

/// Builder of a `docker run` invocation.
pub struct DockerRunCmd {
    inner: current::DockerRunCmd,
}

impl View for DockerRunCmd {
    type V = DockerRunCmdView;

    closed spec fn view(&self) -> DockerRunCmdView {
        self.inner@
    }
}

impl DockerRunCmd {
    /// A `docker run` of `image` with no options.
    pub fn new(image: String) -> (r: Self)
        ensures
            r@.options == Seq::<CmdOptionView>::empty(),
            r@.image == image@,
    {
        DockerRunCmd { inner: current::DockerRunCmd::new(image) }
    }

    /// Appends `--volume {host}:{container}`: mounts `host` at `container`.
    pub fn volume(self, host: &str, container: &str) -> (r: Self)
        ensures
            r@.options == self@.options.push(kv("volume"@, colon_pair(host@, container@))),
            r@.image == self@.image,
    {
        DockerRunCmd { inner: self.inner.volume(host, container) }
    }

    /// Appends `--gpus {devices}`.
    pub fn gpus(self, devices: &str) -> (r: Self)
        ensures
            r@.options == self@.options.push(kv("gpus"@, devices@)),
            r@.image == self@.image,
    {
        DockerRunCmd { inner: self.inner.gpus(devices) }
    }

    /// Appends `--rm`: the container is removed once it exits.
    pub fn rm(self) -> (r: Self)
        ensures
            r@.options == self@.options.push(bare("rm"@)),
            r@.image == self@.image,
    {
        DockerRunCmd { inner: self.inner.rm() }
    }

    /// The argument list handed to `docker`: `run`, the options, the image,
    /// then the container command.
    pub fn to_args(&self, commands: &Vec<String>) -> (r: Vec<String>)
        ensures
            r.deep_view() == run_argv(self@.options, self@.image, commands.deep_view()),
    {
        self.inner.to_args(commands)
    }
}

} // verus!
