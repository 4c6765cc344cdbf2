//! The launch specification that is handed to the host's process spawner.

use vstd::prelude::*;

verus! {

/// The single argument with which the server binary is started.
pub const SERVER_ARGUMENT: &'static str = "lsp";

/// How to start the language server: the executable, its arguments in order,
/// and the environment variables that are set on top of the host's defaults.
#[derive(Debug, Clone, PartialEq, Eq)]
pub struct LaunchSpec {
    /// Path of the executable.
    pub command: String,
    /// Arguments, in the order in which they are passed.
    pub args: Vec<String>,
    /// Environment overlay: each pair names a variable and gives its value.
    /// Where it is empty the server runs in the host's default environment.
    pub env: Vec<(String, String)>,
}

/// The mathematical content of a [`LaunchSpec`].
pub struct LaunchSpecView {
    /// Path of the executable.
    pub command: Seq<char>,
    /// Arguments, in the order in which they are passed.
    pub args: Seq<Seq<char>>,
    /// Environment overlay, as pairs of a variable's name and its value.
    pub env: Seq<(Seq<char>, Seq<char>)>,
}

impl View for LaunchSpec {
    type V = LaunchSpecView;

    open spec fn view(&self) -> LaunchSpecView {
        LaunchSpecView {
            command: self.command@,
            args: self.args.deep_view(),
            env: self.env.deep_view(),
        }
    }
}

impl LaunchSpecView {
    /// The launch of the server binary found at `path`: that path as the
    /// command, the server argument alone, and nothing added to the
    /// environment.
    pub open spec fn for_binary(path: Seq<char>) -> LaunchSpecView {
        LaunchSpecView { command: path, args: seq![SERVER_ARGUMENT@], env: Seq::empty() }
    }

    /// A launch names an executable when its command is not the empty string.
    pub open spec fn names_executable(self) -> bool {
        self.command.len() > 0
    }
}

impl LaunchSpec {
    /// Builds the launch of the server binary found at `path`.
    pub fn for_binary(path: String) -> (spec: LaunchSpec)
        ensures
            spec@ == LaunchSpecView::for_binary(path@),
    {
        let mut args: Vec<String> = Vec::new();
        args.push(SERVER_ARGUMENT.to_owned());
        let env: Vec<(String, String)> = Vec::new();
        let spec = LaunchSpec { command: path, args, env };
        // The two sequences of the view are equal to the intended ones
        // element by element.
        assert(spec@.args =~= seq![SERVER_ARGUMENT@]);
        assert(spec@.env =~= Seq::empty());
        spec
    }
}

} // verus!
