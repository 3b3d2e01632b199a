//! What to supervise, and how each child is launched.
//!
//! The configuration is fixed when supervision starts. From it the library
//! works out, before every spawn anew, the request that the driver carries
//! out: which program, which arguments, and where each of the child's three
//! standard streams comes from or goes to.

use vstd::prelude::*;

verus! {

/// The restart delay, in milliseconds, where none is given.
pub const DEFAULT_RESTART_DELAY_MS: u64 = 1000;

/// What the supervisor is told once, at startup.
#[derive(Clone, Debug, PartialEq, Eq)]
pub struct SupervisionConfig {
    /// Path of the program to run.
    pub executable: String,
    /// Its arguments, in order.
    pub args: Vec<String>,
    /// How long to pause between an abnormal exit and the next spawn.
    pub restart_delay_ms: u64,
    /// File that the child reads its standard input from.
    pub stdin: Option<String>,
    /// File that receives the child's standard output.
    pub stdout: Option<String>,
    /// File that receives the child's standard error.
    pub stderr: Option<String>,
}

/// The mathematical content of a [`SupervisionConfig`].
pub struct ConfigView {
    pub executable: Seq<char>,
    pub args: Seq<Seq<char>>,
    pub restart_delay_ms: u64,
    pub stdin: Option<Seq<char>>,
    pub stdout: Option<Seq<char>>,
    pub stderr: Option<Seq<char>>,
}

impl View for SupervisionConfig {
    type V = ConfigView;

    open spec fn view(&self) -> ConfigView {
        ConfigView {
            executable: self.executable@,
            args: self.args.deep_view(),
            restart_delay_ms: self.restart_delay_ms,
            stdin: self.stdin.deep_view(),
            stdout: self.stdout.deep_view(),
            stderr: self.stderr.deep_view(),
        }
    }
}

/// One of the child's three standard streams.
#[derive(Clone, Copy, Debug, PartialEq, Eq, Structural)]
pub enum Stream {
    Stdin,
    Stdout,
    Stderr,
}

/// Where one standard stream of the child is attached.
#[derive(Clone, Debug, PartialEq, Eq)]
pub enum StreamSetup {
    /// The child shares the supervisor's own stream.
    Inherit,
    /// The file at this path is opened for reading. It must exist.
    ReadExisting(String),
    /// The file at this path is opened for writing: created if it is missing,
    /// emptied if it is there.
    CreateTruncate(String),
}

/// The mathematical content of a [`StreamSetup`].
pub enum StreamSetupView {
    Inherit,
    ReadExisting(Seq<char>),
    CreateTruncate(Seq<char>),
}

impl View for StreamSetup {
    type V = StreamSetupView;

    open spec fn view(&self) -> StreamSetupView {
        match self {
            StreamSetup::Inherit => StreamSetupView::Inherit,
            StreamSetup::ReadExisting(path) => StreamSetupView::ReadExisting(path@),
            StreamSetup::CreateTruncate(path) => StreamSetupView::CreateTruncate(path@),
        }
    }
}

/// Everything the driver needs to start one child.
#[derive(Clone, Debug, PartialEq, Eq)]
pub struct LaunchRequest {
    pub executable: String,
    pub args: Vec<String>,
    pub stdin: StreamSetup,
    pub stdout: StreamSetup,
    pub stderr: StreamSetup,
}

/// The mathematical content of a [`LaunchRequest`].
pub struct LaunchRequestView {
    pub executable: Seq<char>,
    pub args: Seq<Seq<char>>,
    pub stdin: StreamSetupView,
    pub stdout: StreamSetupView,
    pub stderr: StreamSetupView,
}

impl View for LaunchRequest {
    type V = LaunchRequestView;

    open spec fn view(&self) -> LaunchRequestView {
        LaunchRequestView {
            executable: self.executable@,
            args: self.args.deep_view(),
            stdin: self.stdin@,
            stdout: self.stdout@,
            stderr: self.stderr@,
        }
    }
}

/// How an input stream is attached: read from the file where a path is given,
/// shared with the supervisor where none is.
pub open spec fn resolve_source(path: Option<Seq<char>>) -> StreamSetupView {
    match path {
        Some(path) => StreamSetupView::ReadExisting(path),
        None => StreamSetupView::Inherit,
    }
}

/// How an output stream is attached: written to the file, created or emptied,
/// where a path is given, shared with the supervisor where none is.
pub open spec fn resolve_sink(path: Option<Seq<char>>) -> StreamSetupView {
    match path {
        Some(path) => StreamSetupView::CreateTruncate(path),
        None => StreamSetupView::Inherit,
    }
}

impl ConfigView {
    /// The path that the configuration gives for a stream, if any.
    pub open spec fn redirection(self, stream: Stream) -> Option<Seq<char>> {
        match stream {
            Stream::Stdin => self.stdin,
            Stream::Stdout => self.stdout,
            Stream::Stderr => self.stderr,
        }
    }

    /// The request for one spawn: the configured program and arguments, with
    /// each stream resolved from its configured path.
    pub open spec fn launch_request(self) -> LaunchRequestView {
        LaunchRequestView {
            executable: self.executable,
            args: self.args,
            stdin: resolve_source(self.stdin),
            stdout: resolve_sink(self.stdout),
            stderr: resolve_sink(self.stderr),
        }
    }
}

/// Resolves where the child's standard input comes from.
pub fn source_setup(path: &Option<String>) -> (setup: StreamSetup)
    ensures
        setup@ == resolve_source(path.deep_view()),
{
    match path {
        Some(path) => StreamSetup::ReadExisting(path.clone()),
        None => StreamSetup::Inherit,
    }
}

/// Resolves where the child's standard output or standard error goes.
pub fn sink_setup(path: &Option<String>) -> (setup: StreamSetup)
    ensures
        setup@ == resolve_sink(path.deep_view()),
{
    match path {
        Some(path) => StreamSetup::CreateTruncate(path.clone()),
        None => StreamSetup::Inherit,
    }
}

/// A copy of a list of strings, item by item.
fn copy_strings(items: &Vec<String>) -> (copy: Vec<String>)
    ensures
        copy.deep_view() == items.deep_view(),
{
    let mut copy: Vec<String> = Vec::new();
    let mut i: usize = 0;
    while i < items.len()
        invariant
            i <= items.len(),
            copy.len() == i,
            forall|j: int| 0 <= j < i ==> copy[j]@ == items[j]@,
        decreases items.len() - i,
    {
        copy.push(items[i].clone());
        i += 1;
    }
    assert(copy.deep_view() =~= items.deep_view());
    copy
}

impl SupervisionConfig {
    /// A configuration for `executable` with `args`, the default restart
    /// delay and all three streams inherited.
    pub fn new(executable: String, args: Vec<String>) -> (config: SupervisionConfig)
        ensures
            config@ == (ConfigView {
                executable: executable@,
                args: args.deep_view(),
                restart_delay_ms: DEFAULT_RESTART_DELAY_MS,
                stdin: None,
                stdout: None,
                stderr: None,
            }),
    {
        SupervisionConfig {
            executable,
            args,
            restart_delay_ms: DEFAULT_RESTART_DELAY_MS,
            stdin: None,
            stdout: None,
            stderr: None,
        }
    }

    /// Whether the configuration redirects `stream` to a file.
    pub fn redirects(&self, stream: Stream) -> (result: bool)
        ensures
            result == self@.redirection(stream).is_some(),
    {
        match stream {
            Stream::Stdin => self.stdin.is_some(),
            Stream::Stdout => self.stdout.is_some(),
            Stream::Stderr => self.stderr.is_some(),
        }
    }

    /// Builds the request for one spawn. Every call resolves the three
    /// streams from the configured paths again; nothing is kept from an
    /// earlier spawn.
    pub fn launch_request(&self) -> (request: LaunchRequest)
        ensures
            request@ == self@.launch_request(),
    {
        LaunchRequest {
            executable: self.executable.clone(),
            args: copy_strings(&self.args),
            stdin: source_setup(&self.stdin),
            stdout: sink_setup(&self.stdout),
            stderr: sink_setup(&self.stderr),
        }
    }
}

} // verus!
