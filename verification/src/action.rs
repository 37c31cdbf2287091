//! The operations that the library asks its caller to carry out.
//!
//! The library decides, the caller acts: a value of [`Action`] says what is to
//! be done on the filesystem or with a process, and the caller reports back
//! what came of it.

use crate::views::texts;
use vstd::prelude::*;

verus! {

/// The operating system's error type, `std::io::Error`. Nothing is claimed
/// about what a value holds: it is only carried from the reply that brought
/// it to the error that reports it.
#[verifier::external_type_specification]
#[verifier::external_body]
pub struct ExIoError(std::io::Error);

/// One operation for the caller to carry out.
#[derive(Debug)]
pub enum Action {
    /// Create a directory with a fresh, unique name inside `root`.
    CreateTempDir { root: String },
    /// Resolve `path` to its absolute, normalised form.
    Canonicalize { path: String },
    /// Create the directory `path`, which must not exist yet.
    CreateDir { path: String },
    /// Find out whether anything exists at `path`.
    Probe { path: String },
    /// Create the symbolic link `dst` that points to `src`.
    Symlink { src: String, dst: String },
    /// Remove the directory `path` if it is empty.
    RemoveDir { path: String },
    /// Remove the directory `path` with all that is in it.
    RemoveDirAll { path: String },
    /// Remove the file or symbolic link `path`.
    RemoveFile { path: String },
    /// Start `cmd` with `args`, in the directory `current_dir`, without
    /// standard input and with standard output and error captured; the
    /// process is to be killed if it is abandoned before it ends.
    Spawn { cmd: String, args: Vec<String>, current_dir: String },
}

/// An [`Action`] with its texts as sequences of characters.
pub enum ActionView {
    CreateTempDir { root: Seq<char> },
    Canonicalize { path: Seq<char> },
    CreateDir { path: Seq<char> },
    Probe { path: Seq<char> },
    Symlink { src: Seq<char>, dst: Seq<char> },
    RemoveDir { path: Seq<char> },
    RemoveDirAll { path: Seq<char> },
    RemoveFile { path: Seq<char> },
    Spawn { cmd: Seq<char>, args: Seq<Seq<char>>, current_dir: Seq<char> },
}

impl View for Action {
    type V = ActionView;

    open spec fn view(&self) -> ActionView {
        match *self {
            Action::CreateTempDir { root } => ActionView::CreateTempDir { root: root@ },
            Action::Canonicalize { path } => ActionView::Canonicalize { path: path@ },
            Action::CreateDir { path } => ActionView::CreateDir { path: path@ },
            Action::Probe { path } => ActionView::Probe { path: path@ },
            Action::Symlink { src, dst } => ActionView::Symlink { src: src@, dst: dst@ },
            Action::RemoveDir { path } => ActionView::RemoveDir { path: path@ },
            Action::RemoveDirAll { path } => ActionView::RemoveDirAll { path: path@ },
            Action::RemoveFile { path } => ActionView::RemoveFile { path: path@ },
            Action::Spawn { cmd, args, current_dir } => ActionView::Spawn {
                cmd: cmd@,
                args: texts(args@),
                current_dir: current_dir@,
            },
        }
    }
}

/// What came of an [`Action`], as the caller reports it.
#[derive(Debug)]
pub enum Reply {
    /// The outcome of creating or removing a directory or a link.
    Done(Result<(), std::io::Error>),
    /// Whether anything exists at the path that was probed.
    Exists(bool),
    /// The path that was asked for: the directory that was created with a
    /// fresh name, or the resolved form of the path that was given.
    Path(Result<String, std::io::Error>),
    /// The identifier of the process that was started, if it has one.
    Spawned(Result<Option<u32>, std::io::Error>),
}

/// A [`Reply`] with its texts as sequences of characters.
pub enum ReplyView {
    Done(Result<(), std::io::Error>),
    Exists(bool),
    Path(Result<Seq<char>, std::io::Error>),
    Spawned(Result<Option<u32>, std::io::Error>),
}

impl View for Reply {
    type V = ReplyView;

    open spec fn view(&self) -> ReplyView {
        match *self {
            Reply::Done(outcome) => ReplyView::Done(outcome),
            Reply::Exists(exists) => ReplyView::Exists(exists),
            Reply::Path(Ok(path)) => ReplyView::Path(Ok(path@)),
            Reply::Path(Err(error)) => ReplyView::Path(Err(error)),
            Reply::Spawned(outcome) => ReplyView::Spawned(outcome),
        }
    }
}

/// The views of `actions`, in the same order.
pub open spec fn action_views(actions: Seq<Action>) -> Seq<ActionView> {
    actions.map_values(|action: Action| action@)
}

/// Appends `action` to `actions`, if there is one.
pub fn push_action(actions: &mut Vec<Action>, action: Option<Action>)
    ensures
        action_views(final(actions)@) == action_views(old(actions)@) + match action {
            Some(action) => seq![action@],
            None => Seq::empty(),
        },
{
    if let Some(action) = action {
        actions.push(action);
    }
}

} // verus!
