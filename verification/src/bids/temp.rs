//! Temporary filesystem entries with a name of the caller's choosing: a
//! directory and a symbolic link.
//!
//! A value of either type stands for an entry that exists and that its owner
//! has to remove. Closing removes it and reports a failure. An owner that
//! abandons the value carries out the same removal, for a directory the one
//! that takes the contents along, and lets a failure pass.

use crate::action::{Action, ActionView};
use crate::views::{option_view, result_view};
use vstd::prelude::*;

verus! {

/// A failed filesystem operation, with the offending path.
#[derive(Debug)]
pub enum FileSystemError {
    /// Directory creation failed.
    DirCreateError { path: String, source: std::io::Error },
    /// Directory removal failed.
    DirRemoveError { path: String, source: std::io::Error },
    /// Symlink creation failed.
    SymlinkCreateError { src_path: String, dst_path: String, source: std::io::Error },
    /// Symlink removal failed.
    SymlinkRemoveError { src_path: String, dst_path: String, source: std::io::Error },
}

/// A [`FileSystemError`] with its paths as sequences of characters.
pub enum FileSystemErrorView {
    DirCreateError { path: Seq<char>, source: std::io::Error },
    DirRemoveError { path: Seq<char>, source: std::io::Error },
    SymlinkCreateError { src_path: Seq<char>, dst_path: Seq<char>, source: std::io::Error },
    SymlinkRemoveError { src_path: Seq<char>, dst_path: Seq<char>, source: std::io::Error },
}

impl View for FileSystemError {
    type V = FileSystemErrorView;

    open spec fn view(&self) -> FileSystemErrorView {
        match *self {
            FileSystemError::DirCreateError { path, source } => FileSystemErrorView::DirCreateError {
                path: path@,
                source,
            },
            FileSystemError::DirRemoveError { path, source } => FileSystemErrorView::DirRemoveError {
                path: path@,
                source,
            },
            FileSystemError::SymlinkCreateError {
                src_path,
                dst_path,
                source,
            } => FileSystemErrorView::SymlinkCreateError {
                src_path: src_path@,
                dst_path: dst_path@,
                source,
            },
            FileSystemError::SymlinkRemoveError {
                src_path,
                dst_path,
                source,
            } => FileSystemErrorView::SymlinkRemoveError {
                src_path: src_path@,
                dst_path: dst_path@,
                source,
            },
        }
    }
}

/// A temporary directory with a name of the caller's choosing. The directory
/// and all of its contents are to be removed when the value is abandoned.
#[derive(Debug)]
pub struct NamedTempDir {
    // Has the directory been removed through close() or close_all()?
    closed: bool,
    // Filesystem path of the owned directory.
    path: String,
}

/// What a [`NamedTempDir`] holds.
pub struct NamedTempDirView {
    /// Whether the directory has been removed by closing.
    pub closed: bool,
    /// The path of the directory.
    pub path: Seq<char>,
}

impl View for NamedTempDir {
    type V = NamedTempDirView;

    closed spec fn view(&self) -> NamedTempDirView {
        NamedTempDirView { closed: self.closed, path: self.path@ }
    }
}

/// Closing a directory: a closed one stays as it is; an open one is closed if
/// its removal succeeded, and else stays open and reports the failure.
pub open spec fn close_dir(dir: NamedTempDirView, removed: Result<(), std::io::Error>) -> (
    NamedTempDirView,
    Result<(), FileSystemErrorView>,
) {
    if dir.closed {
        (dir, Ok(()))
    } else {
        match removed {
            Ok(_) => (NamedTempDirView { closed: true, path: dir.path }, Ok(())),
            Err(source) => (
                dir,
                Err(FileSystemErrorView::DirRemoveError { path: dir.path, source }),
            ),
        }
    }
}

impl NamedTempDir {
    /// Takes ownership of the directory at `path` if `created`, the outcome
    /// of creating it, is a success.
    pub fn new(path: String, created: Result<(), std::io::Error>) -> (dir: Result<
        Self,
        FileSystemError,
    >)
        ensures
            result_view(dir) == match created {
                Ok(_) => Ok(NamedTempDirView { closed: false, path: path@ }),
                Err(source) => Err(FileSystemErrorView::DirCreateError { path: path@, source }),
            },
    {
        match created {
            Err(source) => Err(FileSystemError::DirCreateError { path, source }),
            Ok(_) => Ok(NamedTempDir { closed: false, path }),
        }
    }

    /// What closing asks of the filesystem: to remove the directory if it is
    /// empty. Nothing once the directory is closed.
    pub fn close_action(&self) -> (action: Option<Action>)
        ensures
            option_view(action) == if self@.closed {
                None
            } else {
                Some(ActionView::RemoveDir { path: self@.path })
            },
    {
        if self.closed {
            None
        } else {
            Some(Action::RemoveDir { path: self.path.clone() })
        }
    }

    /// Closes the directory, given the outcome `removed` of what
    /// [`NamedTempDir::close_action`] asked for. A closed directory stays
    /// closed and reads no outcome.
    pub fn close(&mut self, removed: Result<(), std::io::Error>) -> (closed: Result<
        (),
        FileSystemError,
    >)
        ensures
            (final(self)@, result_view(closed)) == close_dir(old(self)@, removed),
    {
        self.settle(removed)
    }

    /// What closing with all contents asks of the filesystem: to remove the
    /// directory and everything in it. Nothing once the directory is closed.
    pub fn close_all_action(&self) -> (action: Option<Action>)
        ensures
            option_view(action) == if self@.closed {
                None
            } else {
                Some(ActionView::RemoveDirAll { path: self@.path })
            },
    {
        if self.closed {
            None
        } else {
            Some(Action::RemoveDirAll { path: self.path.clone() })
        }
    }

    /// Closes the directory, given the outcome `removed` of what
    /// [`NamedTempDir::close_all_action`] asked for. A closed directory stays
    /// closed and reads no outcome.
    pub fn close_all(&mut self, removed: Result<(), std::io::Error>) -> (closed: Result<
        (),
        FileSystemError,
    >)
        ensures
            (final(self)@, result_view(closed)) == close_dir(old(self)@, removed),
    {
        self.settle(removed)
    }

    // Records the outcome of a removal.
    fn settle(&mut self, removed: Result<(), std::io::Error>) -> (closed: Result<
        (),
        FileSystemError,
    >)
        ensures
            (final(self)@, result_view(closed)) == close_dir(old(self)@, removed),
    {
        if self.closed {
            return Ok(());
        }
        match removed {
            Ok(_) => {
                self.closed = true;
                Ok(())
            },
            Err(source) => Err(FileSystemError::DirRemoveError { path: self.path.clone(), source }),
        }
    }

    /// Check if the directory has been closed.
    pub fn is_closed(&self) -> (closed: bool)
        ensures
            closed == self@.closed,
    {
        self.closed
    }

    /// Get the filesystem path for this temporary directory.
    pub fn path(&self) -> (path: &str)
        ensures
            path@ == self@.path,
    {
        self.path.as_str()
    }
}

/// A temporary symbolic link. The link is to be removed when the value is
/// abandoned.
#[derive(Debug)]
pub struct TempSymlink {
    // Has the link been removed through close()?
    closed: bool,
    // Filesystem path to which this symlink points.
    src_path: String,
    // Filesystem path of this symlink.
    dst_path: String,
}

/// What a [`TempSymlink`] holds.
pub struct TempSymlinkView {
    /// Whether the link has been removed by closing.
    pub closed: bool,
    /// The path to which the link points.
    pub src_path: Seq<char>,
    /// The path of the link itself.
    pub dst_path: Seq<char>,
}

impl View for TempSymlink {
    type V = TempSymlinkView;

    closed spec fn view(&self) -> TempSymlinkView {
        TempSymlinkView { closed: self.closed, src_path: self.src_path@, dst_path: self.dst_path@ }
    }
}

/// Closing a link: a closed one stays as it is; an open one is closed if its
/// removal succeeded, and else stays open and reports the failure.
pub open spec fn close_link(link: TempSymlinkView, removed: Result<(), std::io::Error>) -> (
    TempSymlinkView,
    Result<(), FileSystemErrorView>,
) {
    if link.closed {
        (link, Ok(()))
    } else {
        match removed {
            Ok(_) => (
                TempSymlinkView { closed: true, src_path: link.src_path, dst_path: link.dst_path },
                Ok(()),
            ),
            Err(source) => (
                link,
                Err(
                    FileSystemErrorView::SymlinkRemoveError {
                        src_path: link.src_path,
                        dst_path: link.dst_path,
                        source,
                    },
                ),
            ),
        }
    }
}

impl TempSymlink {
    /// Takes ownership of the link at `dst` that points to `src` if
    /// `created`, the outcome of creating it, is a success.
    pub fn new(src: String, dst: String, created: Result<(), std::io::Error>) -> (link: Result<
        Self,
        FileSystemError,
    >)
        ensures
            result_view(link) == match created {
                Ok(_) => Ok(TempSymlinkView { closed: false, src_path: src@, dst_path: dst@ }),
                Err(source) => Err(
                    FileSystemErrorView::SymlinkCreateError {
                        src_path: src@,
                        dst_path: dst@,
                        source,
                    },
                ),
            },
    {
        match created {
            Err(source) => Err(
                FileSystemError::SymlinkCreateError { src_path: src, dst_path: dst, source },
            ),
            Ok(_) => Ok(TempSymlink { closed: false, src_path: src, dst_path: dst }),
        }
    }

    /// What closing asks of the filesystem: to remove the link. Nothing once
    /// the link is closed.
    pub fn close_action(&self) -> (action: Option<Action>)
        ensures
            option_view(action) == if self@.closed {
                None
            } else {
                Some(ActionView::RemoveFile { path: self@.dst_path })
            },
    {
        if self.closed {
            None
        } else {
            Some(Action::RemoveFile { path: self.dst_path.clone() })
        }
    }

    /// Closes the link, given the outcome `removed` of what
    /// [`TempSymlink::close_action`] asked for. A closed link stays closed
    /// and reads no outcome.
    pub fn close(&mut self, removed: Result<(), std::io::Error>) -> (closed: Result<
        (),
        FileSystemError,
    >)
        ensures
            (final(self)@, result_view(closed)) == close_link(old(self)@, removed),
    {
        if self.closed {
            return Ok(());
        }
        match removed {
            Ok(_) => {
                self.closed = true;
                Ok(())
            },
            Err(source) => Err(
                FileSystemError::SymlinkRemoveError {
                    src_path: self.src_path.clone(),
                    dst_path: self.dst_path.clone(),
                    source,
                },
            ),
        }
    }

    /// Get the filesystem path of this symlink.
    pub fn dst_path(&self) -> (path: &str)
        ensures
            path@ == self@.dst_path,
    {
        self.dst_path.as_str()
    }

    /// Check if the link has been closed.
    pub fn is_closed(&self) -> (closed: bool)
        ensures
            closed == self@.closed,
    {
        self.closed
    }

    /// Get the filesystem path to which this symlink points.
    pub fn src_path(&self) -> (path: &str)
        ensures
            path@ == self@.src_path,
    {
        self.src_path.as_str()
    }
}

} // verus!
