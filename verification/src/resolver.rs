//! Resolving the launch of the language server against a worktree.

use vstd::prelude::*;
use crate::error::ErrorKind;
use crate::launch::{LaunchSpec, LaunchSpecView, SERVER_ARGUMENT};

verus! {

/// The name of the executable that is looked up on the search path.
pub const BINARY_NAME: &'static str = "tui";

/// What the resolver needs from a project's worktree: a lookup of an
/// executable on the worktree's search path.
///
/// The lookup carries no contract, so whatever is proved of the resolver
/// holds of every implementation and of every answer it may give.
pub trait WorktreeCapability {
    /// Returns the path of the first executable called `name` on the search
    /// path, or `None` where there is none.
    fn which(&self, name: &str) -> Option<String>;
}

/// The outcome of a resolution whose lookup of the binary returned `found`:
/// the launch of the binary at the path that was found, or the error that
/// reports its absence.
pub open spec fn resolution(found: Option<Seq<char>>) -> Result<LaunchSpecView, ErrorKind> {
    match found {
        Some(path) => Ok(LaunchSpecView::for_binary(path)),
        None => Err(ErrorKind::BinaryNotFound),
    }
}

/// The mathematical content of a resolution's result.
pub open spec fn outcome_view(r: Result<LaunchSpec, ErrorKind>) -> Result<
    LaunchSpecView,
    ErrorKind,
> {
    match r {
        Ok(spec) => Ok(spec@),
        Err(kind) => Err(kind),
    }
}

/// Turns the answer of the lookup into the launch, or into the error that
/// reports the binary's absence.
///
/// The result is `Ok` exactly when a path was found. The launch then runs
/// that path with the server argument alone and an empty environment
/// overlay, so it names an executable exactly when the path is not empty.
pub fn resolve_lookup(found: Option<String>) -> (r: Result<LaunchSpec, ErrorKind>)
    ensures
        outcome_view(r) == resolution(found.deep_view()),
        r is Ok <==> found is Some,
        r matches Ok(spec) ==> {
            &&& spec@.command == found->Some_0@
            &&& spec@.args == seq![SERVER_ARGUMENT@]
            &&& spec@.env == Seq::<(Seq<char>, Seq<char>)>::empty()
            &&& spec@.names_executable() <==> found->Some_0@.len() > 0
        },
        r matches Err(kind) ==> kind == ErrorKind::BinaryNotFound,
{
    match found {
        Some(path) => Ok(LaunchSpec::for_binary(path)),
        None => Err(ErrorKind::BinaryNotFound),
    }
}

/// Looks up [`BINARY_NAME`] on the worktree's search path and resolves the
/// launch of the language server from the answer.
///
/// Nothing is kept between calls: each result is the resolution of an answer
/// that the worktree's lookup of [`BINARY_NAME`] gave. So whatever the
/// worktree answers, a launch passes the server argument alone and adds
/// nothing to the environment, and the only error is
/// [`ErrorKind::BinaryNotFound`].
pub fn resolve_command<W: WorktreeCapability>(worktree: &W) -> (r: Result<LaunchSpec, ErrorKind>)
    ensures
        exists|found: Option<String>|
            #![trigger call_ensures(W::which, (worktree, BINARY_NAME), found)]
            call_ensures(W::which, (worktree, BINARY_NAME), found)
                && outcome_view(r) == resolution(found.deep_view()),
        r matches Ok(spec) ==> {
            &&& spec@.args == seq![SERVER_ARGUMENT@]
            &&& spec@.env == Seq::<(Seq<char>, Seq<char>)>::empty()
        },
        r matches Err(kind) ==> kind == ErrorKind::BinaryNotFound,
{
    let found = worktree.which(BINARY_NAME);
    resolve_lookup(found)
}

} // verus!
