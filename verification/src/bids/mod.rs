//! Tools to work with Brain Imaging Data Structure (BIDS) files and folders:
//! just what is needed to shadow a BIDS tree that holds many participants by
//! a tree that holds one.
//!
//! A [`ShadowBids`] shadows a real BIDS tree by symbolic links. It owns a
//! directory and, in it, a link to each of the dataset-level entries that the
//! real tree has. A [`BidsParticipant`] adds the link to one participant's
//! data, and keeps the shadow tree alive.
//!
//! Both are set up step by step: a setup names the next operation on the
//! filesystem, the caller carries it out and answers, and the setup decides
//! what follows from the answer.

pub mod participant;
pub mod temp;

pub use crate::bids::participant::{
    BidsParticipant,
    BidsParticipantProgress,
    BidsParticipantSetup,
    ParticipantStage,
};

use crate::action::{action_views, push_action, Action, ActionView, Reply, ReplyView};
use crate::bids::temp::{
    FileSystemError,
    FileSystemErrorView,
    NamedTempDir,
    NamedTempDirView,
    TempSymlink,
    TempSymlinkView,
};
use crate::path::{file_name, file_name_spec, is_bare_name, is_bare_name_spec, join, join_spec};
use crate::views::{option_view, result_view};
use vstd::prelude::*;

verus! {

/// Enumeration over bids-related errors.
#[derive(Debug)]
pub enum BidsError {
    /// A shadow tree was to be made inside a parent temporary directory, but
    /// the destination is more than a bare name.
    HasParent { path: String },
    /// The participant does not exist in the tree that is being shadowed.
    MissingParticipant { bids_src: String, participant: String },
    /// The path to the BIDS tree could not be resolved, or else it resolves
    /// to something without a name, such as the filesystem root.
    Canonicalize { bids_src: String, source: Option<std::io::Error> },
    /// There was an error performing a filesystem operation.
    FileSystem(FileSystemError),
}

/// A [`BidsError`] with its texts as sequences of characters.
pub enum BidsErrorView {
    HasParent { path: Seq<char> },
    MissingParticipant { bids_src: Seq<char>, participant: Seq<char> },
    Canonicalize { bids_src: Seq<char>, source: Option<std::io::Error> },
    FileSystem(FileSystemErrorView),
}

impl View for BidsError {
    type V = BidsErrorView;

    open spec fn view(&self) -> BidsErrorView {
        match *self {
            BidsError::HasParent { path } => BidsErrorView::HasParent { path: path@ },
            BidsError::MissingParticipant {
                bids_src,
                participant,
            } => BidsErrorView::MissingParticipant {
                bids_src: bids_src@,
                participant: participant@,
            },
            BidsError::Canonicalize { bids_src, source } => BidsErrorView::Canonicalize {
                bids_src: bids_src@,
                source,
            },
            BidsError::FileSystem(error) => BidsErrorView::FileSystem(error@),
        }
    }
}

/// The entries of a BIDS tree that belong to the dataset as a whole, in the
/// order in which a shadow tree takes them up.
#[derive(Debug, Clone, Copy, PartialEq, Eq, Structural)]
pub enum DatasetEntry {
    /// The file `dataset_description.json`.
    Description,
    /// The directory `sourcedata`.
    SourceData,
    /// The file `participants.tsv`.
    Participants,
}

impl DatasetEntry {
    /// The name of the entry, in the real tree and in its shadow alike.
    pub open spec fn spec_name(self) -> Seq<char> {
        match self {
            DatasetEntry::Description => "dataset_description.json"@,
            DatasetEntry::SourceData => "sourcedata"@,
            DatasetEntry::Participants => "participants.tsv"@,
        }
    }

    /// The entry that is taken up after this one, if any.
    pub open spec fn spec_next(self) -> Option<DatasetEntry> {
        match self {
            DatasetEntry::Description => Some(DatasetEntry::SourceData),
            DatasetEntry::SourceData => Some(DatasetEntry::Participants),
            DatasetEntry::Participants => None,
        }
    }

    /// The name of the entry, in the real tree and in its shadow alike.
    pub fn name(self) -> (name: &'static str)
        ensures
            name@ == self.spec_name(),
    {
        match self {
            DatasetEntry::Description => "dataset_description.json",
            DatasetEntry::SourceData => "sourcedata",
            DatasetEntry::Participants => "participants.tsv",
        }
    }

    /// The entry that is taken up after this one, if any.
    #[verifier::when_used_as_spec(spec_next)]
    pub fn next(self) -> (next: Option<DatasetEntry>)
        ensures
            next == self.spec_next(),
    {
        match self {
            DatasetEntry::Description => Some(DatasetEntry::SourceData),
            DatasetEntry::SourceData => Some(DatasetEntry::Participants),
            DatasetEntry::Participants => None,
        }
    }
}

/// Fake BIDS data structure that shadows a real BIDS data structure. It is
/// meant to take the link of a [`BidsParticipant`] besides its own.
#[derive(Debug)]
pub struct ShadowBids {
    // Path of the temporary directory that this tree lies in, if any.
    parent: Option<String>,
    // Path to the BIDS tree which this tree is shadowing.
    src: String,
    // The directory of this tree.
    path: NamedTempDir,
    // Symlink to the dataset description, which may or may not exist.
    dataset_description: Option<TempSymlink>,
    // Symlink to the sourcedata directory, which may or may not exist.
    sourcedata: Option<TempSymlink>,
    // Symlink to the participants.tsv file, which may or may not exist.
    participants_tsv: Option<TempSymlink>,
}

/// What a [`ShadowBids`] holds.
pub struct ShadowBidsView {
    /// Path of the temporary directory that the tree lies in, if any.
    pub parent: Option<Seq<char>>,
    /// Path of the tree that is shadowed.
    pub src: Seq<char>,
    /// The directory of the shadow tree.
    pub path: NamedTempDirView,
    /// The link to the dataset description, if the real tree has one.
    pub dataset_description: Option<TempSymlinkView>,
    /// The link to the source data, if the real tree has them.
    pub sourcedata: Option<TempSymlinkView>,
    /// The link to the participant index, if the real tree has one.
    pub participants_tsv: Option<TempSymlinkView>,
}

impl ShadowBidsView {
    /// The link that the tree holds for `entry`, if any.
    pub open spec fn link(self, entry: DatasetEntry) -> Option<TempSymlinkView> {
        match entry {
            DatasetEntry::Description => self.dataset_description,
            DatasetEntry::SourceData => self.sourcedata,
            DatasetEntry::Participants => self.participants_tsv,
        }
    }

    /// What is to be done to remove the tree: see [`tree_release`].
    pub open spec fn release(self) -> Seq<ActionView> {
        tree_release(
            Some(self.path),
            self.dataset_description,
            self.sourcedata,
            self.participants_tsv,
        )
    }

    /// Whether the tree is a shadow of its source and nothing else: its
    /// directory is open, and each link it holds is open, lies directly in
    /// that directory and points to the entry of the same name in the source.
    pub open spec fn wf(self) -> bool {
        &&& !self.path.closed
        &&& shadows(self.dataset_description, self.src, self.path.path, DatasetEntry::Description)
        &&& shadows(self.sourcedata, self.src, self.path.path, DatasetEntry::SourceData)
        &&& shadows(self.participants_tsv, self.src, self.path.path, DatasetEntry::Participants)
    }
}

impl View for ShadowBids {
    type V = ShadowBidsView;

    closed spec fn view(&self) -> ShadowBidsView {
        ShadowBidsView {
            parent: option_view(self.parent),
            src: self.src@,
            path: self.path@,
            dataset_description: option_view(self.dataset_description),
            sourcedata: option_view(self.sourcedata),
            participants_tsv: option_view(self.participants_tsv),
        }
    }
}

/// The link for `entry` in the shadow tree at `dst` of the tree at `src`,
/// newly made.
pub open spec fn entry_link(src: Seq<char>, dst: Seq<char>, entry: DatasetEntry) -> TempSymlinkView {
    TempSymlinkView {
        closed: false,
        src_path: join_spec(src, entry.spec_name()),
        dst_path: join_spec(dst, entry.spec_name()),
    }
}

/// Whether `link`, if there is one, is the link for `entry` in the shadow
/// tree at `dst` of the tree at `src`.
pub open spec fn shadows(
    link: Option<TempSymlinkView>,
    src: Seq<char>,
    dst: Seq<char>,
    entry: DatasetEntry,
) -> bool {
    link matches Some(link) ==> link == entry_link(src, dst, entry)
}

/// What a setup waits for.
#[derive(Debug, Clone, Copy, PartialEq, Eq, Structural)]
pub enum SetupStage {
    /// The directory of the shadow tree is to be created.
    CreateDir,
    /// It is to be found out whether the source has the entry.
    Probe(DatasetEntry),
    /// The link to the entry is to be created.
    Link(DatasetEntry),
}

/// A [`ShadowBids`] in the making.
#[derive(Debug)]
pub struct ShadowBidsSetup {
    parent: Option<String>,
    src: String,
    dst: String,
    stage: SetupStage,
    dir: Option<NamedTempDir>,
    dataset_description: Option<TempSymlink>,
    sourcedata: Option<TempSymlink>,
    participants_tsv: Option<TempSymlink>,
}

/// What a [`ShadowBidsSetup`] holds.
pub struct ShadowBidsSetupView {
    /// Path of the temporary directory that the tree lies in, if any.
    pub parent: Option<Seq<char>>,
    /// Path of the tree that is shadowed.
    pub src: Seq<char>,
    /// Path of the shadow tree.
    pub dst: Seq<char>,
    /// What the setup waits for.
    pub stage: SetupStage,
    /// The directory of the shadow tree, once it is created.
    pub dir: Option<NamedTempDirView>,
    /// The link to the dataset description, once it is created.
    pub dataset_description: Option<TempSymlinkView>,
    /// The link to the source data, once it is created.
    pub sourcedata: Option<TempSymlinkView>,
    /// The link to the participant index, once it is created.
    pub participants_tsv: Option<TempSymlinkView>,
}

impl View for ShadowBidsSetup {
    type V = ShadowBidsSetupView;

    closed spec fn view(&self) -> ShadowBidsSetupView {
        ShadowBidsSetupView {
            parent: option_view(self.parent),
            src: self.src@,
            dst: self.dst@,
            stage: self.stage,
            dir: option_view(self.dir),
            dataset_description: option_view(self.dataset_description),
            sourcedata: option_view(self.sourcedata),
            participants_tsv: option_view(self.participants_tsv),
        }
    }
}

/// How far a setup has come after an answer.
#[derive(Debug)]
pub enum ShadowBidsProgress {
    /// There is more to do: the setup names it.
    Pending(ShadowBidsSetup),
    /// The shadow tree stands.
    Ready(ShadowBids),
    /// The setup has failed with `error`. What it had made so far is to be
    /// removed again by carrying out `release`, in that order.
    Failed { error: BidsError, release: Vec<Action> },
}

/// What a [`ShadowBidsProgress`] holds.
pub enum ShadowBidsProgressView {
    Pending(ShadowBidsSetupView),
    Ready(ShadowBidsView),
    Failed { error: BidsErrorView, release: Seq<ActionView> },
}

impl ShadowBidsProgressView {
    /// Whether what the progress holds is well formed.
    pub open spec fn wf(self) -> bool {
        match self {
            ShadowBidsProgressView::Pending(setup) => setup.wf(),
            ShadowBidsProgressView::Ready(shadow) => shadow.wf(),
            ShadowBidsProgressView::Failed { .. } => true,
        }
    }
}

impl View for ShadowBidsProgress {
    type V = ShadowBidsProgressView;

    open spec fn view(&self) -> ShadowBidsProgressView {
        match *self {
            ShadowBidsProgress::Pending(setup) => ShadowBidsProgressView::Pending(setup@),
            ShadowBidsProgress::Ready(shadow) => ShadowBidsProgressView::Ready(shadow@),
            ShadowBidsProgress::Failed { error, release } => ShadowBidsProgressView::Failed {
                error: error@,
                release: action_views(release@),
            },
        }
    }
}

/// The setup of the shadow of `src` at the very path `dst`, before anything
/// is made.
pub open spec fn fresh_setup(parent: Option<Seq<char>>, src: Seq<char>, dst: Seq<char>) -> ShadowBidsSetupView {
    ShadowBidsSetupView {
        parent,
        src,
        dst,
        stage: SetupStage::CreateDir,
        dir: None,
        dataset_description: None,
        sourcedata: None,
        participants_tsv: None,
    }
}

/// Where the shadow of `src` is set up. Inside a parent directory `dst` has
/// to be a bare name, and the shadow goes to that name in the parent; without
/// a parent it goes to `dst` as it is.
pub open spec fn new_setup(src: Seq<char>, dst: Seq<char>, parent: Option<Seq<char>>) -> Result<
    ShadowBidsSetupView,
    BidsErrorView,
> {
    match parent {
        Some(parent_path) => if is_bare_name_spec(dst) {
            Ok(fresh_setup(parent, src, join_spec(parent_path, dst)))
        } else {
            Err(BidsErrorView::HasParent { path: dst })
        },
        None => Ok(fresh_setup(parent, src, dst)),
    }
}

/// Where the shadow of `src` is set up inside `parent`, given the resolved
/// form of `src`: under the name that the resolved path ends in.
pub open spec fn new_setup_with_parent(
    src: Seq<char>,
    parent: Seq<char>,
    canonical: Result<Seq<char>, std::io::Error>,
) -> Result<ShadowBidsSetupView, BidsErrorView> {
    match canonical {
        Err(source) => Err(BidsErrorView::Canonicalize { bids_src: src, source: Some(source) }),
        Ok(path) => match file_name_spec(path) {
            None => Err(BidsErrorView::Canonicalize { bids_src: src, source: None }),
            Some(name) => new_setup(src, name, Some(parent)),
        },
    }
}

/// What is to be done to remove a link that may have been made.
pub open spec fn link_release(link: Option<TempSymlinkView>) -> Seq<ActionView> {
    match link {
        Some(link) => if link.closed {
            Seq::empty()
        } else {
            seq![ActionView::RemoveFile { path: link.dst_path }]
        },
        None => Seq::empty(),
    }
}

/// What is to be done to remove a directory that may have been made, with
/// all that is in it.
pub open spec fn dir_release(dir: Option<NamedTempDirView>) -> Seq<ActionView> {
    match dir {
        Some(dir) => if dir.closed {
            Seq::empty()
        } else {
            seq![ActionView::RemoveDirAll { path: dir.path }]
        },
        None => Seq::empty(),
    }
}

/// What is to be done to remove a shadow tree, whole or partly made: each
/// link that it holds, the last made first, and then its directory.
pub open spec fn tree_release(
    dir: Option<NamedTempDirView>,
    dataset_description: Option<TempSymlinkView>,
    sourcedata: Option<TempSymlinkView>,
    participants_tsv: Option<TempSymlinkView>,
) -> Seq<ActionView> {
    link_release(participants_tsv) + link_release(sourcedata) + link_release(dataset_description)
        + dir_release(dir)
}

impl ShadowBidsSetupView {
    /// The link that the setup has made for `entry`, if any.
    pub open spec fn link(self, entry: DatasetEntry) -> Option<TempSymlinkView> {
        match entry {
            DatasetEntry::Description => self.dataset_description,
            DatasetEntry::SourceData => self.sourcedata,
            DatasetEntry::Participants => self.participants_tsv,
        }
    }

    /// Whether the setup holds what its stage says and nothing else: no
    /// directory before it is created and the open directory at `dst` after,
    /// and for links only open ones that lie directly in that directory and
    /// point to the entry of the same name in the source.
    pub open spec fn wf(self) -> bool {
        &&& self.stage is CreateDir <==> self.dir is None
        &&& self.dir matches Some(dir) ==> dir == (NamedTempDirView {
            closed: false,
            path: self.dst,
        })
        &&& shadows(self.dataset_description, self.src, self.dst, DatasetEntry::Description)
        &&& shadows(self.sourcedata, self.src, self.dst, DatasetEntry::SourceData)
        &&& shadows(self.participants_tsv, self.src, self.dst, DatasetEntry::Participants)
    }

    /// The operation that the setup waits for.
    pub open spec fn action(self) -> ActionView {
        match self.stage {
            SetupStage::CreateDir => ActionView::CreateDir { path: self.dst },
            SetupStage::Probe(entry) => ActionView::Probe {
                path: join_spec(self.src, entry.spec_name()),
            },
            SetupStage::Link(entry) => ActionView::Symlink {
                src: join_spec(self.src, entry.spec_name()),
                dst: join_spec(self.dst, entry.spec_name()),
            },
        }
    }

    /// The setup with `link` in the place of `entry`.
    pub open spec fn with_link(self, entry: DatasetEntry, link: TempSymlinkView) -> Self {
        match entry {
            DatasetEntry::Description => ShadowBidsSetupView {
                dataset_description: Some(link),
                ..self
            },
            DatasetEntry::SourceData => ShadowBidsSetupView { sourcedata: Some(link), ..self },
            DatasetEntry::Participants => ShadowBidsSetupView {
                participants_tsv: Some(link),
                ..self
            },
        }
    }

    /// The shadow tree that the setup has made. It is meant for a setup whose
    /// directory is created.
    pub open spec fn finished(self) -> ShadowBidsView {
        ShadowBidsView {
            parent: self.parent,
            src: self.src,
            path: self.dir->0,
            dataset_description: self.dataset_description,
            sourcedata: self.sourcedata,
            participants_tsv: self.participants_tsv,
        }
    }

    /// How the setup goes on once it is through with `entry`: with the next
    /// entry, or, after the last, with the tree that stands.
    pub open spec fn after(self, entry: DatasetEntry) -> ShadowBidsProgressView {
        match entry.spec_next() {
            Some(next) => ShadowBidsProgressView::Pending(
                ShadowBidsSetupView { stage: SetupStage::Probe(next), ..self },
            ),
            None => ShadowBidsProgressView::Ready(self.finished()),
        }
    }

    /// The failure of the setup with `error`, and the removal of what it had
    /// made.
    pub open spec fn failed(self, error: FileSystemErrorView) -> ShadowBidsProgressView {
        ShadowBidsProgressView::Failed {
            error: BidsErrorView::FileSystem(error),
            release: tree_release(
                self.dir,
                self.dataset_description,
                self.sourcedata,
                self.participants_tsv,
            ),
        }
    }

    /// How the setup goes on after `reply`.
    ///
    /// The reply counts only if it is of the kind that the awaited operation
    /// brings; any other leaves the setup where it is. A directory or a link
    /// that could not be created ends the setup. An entry that the source
    /// lacks is passed over: that is no failure.
    pub open spec fn answer(self, reply: ReplyView) -> ShadowBidsProgressView {
        match (self.stage, reply) {
            (SetupStage::CreateDir, ReplyView::Done(Ok(_))) => ShadowBidsProgressView::Pending(
                ShadowBidsSetupView {
                    stage: SetupStage::Probe(DatasetEntry::Description),
                    dir: Some(NamedTempDirView { closed: false, path: self.dst }),
                    ..self
                },
            ),
            (SetupStage::CreateDir, ReplyView::Done(Err(source))) => self.failed(
                FileSystemErrorView::DirCreateError { path: self.dst, source },
            ),
            (SetupStage::Probe(entry), ReplyView::Exists(true)) => ShadowBidsProgressView::Pending(
                ShadowBidsSetupView { stage: SetupStage::Link(entry), ..self },
            ),
            (SetupStage::Probe(entry), ReplyView::Exists(false)) => self.after(entry),
            (SetupStage::Link(entry), ReplyView::Done(Ok(_))) => self.with_link(
                entry,
                entry_link(self.src, self.dst, entry),
            ).after(entry),
            (SetupStage::Link(entry), ReplyView::Done(Err(source))) => self.failed(
                FileSystemErrorView::SymlinkCreateError {
                    src_path: join_spec(self.src, entry.spec_name()),
                    dst_path: join_spec(self.dst, entry.spec_name()),
                    source,
                },
            ),
            _ => ShadowBidsProgressView::Pending(self),
        }
    }
}

impl ShadowBids {
    #[verifier::type_invariant]
    spec fn well_formed(self) -> bool {
        self@.wf()
    }

    /// Sets out to create a shadow bids tree of the real bids tree located at
    /// `src`. The shadow tree goes to the path `dst`. If a parent temporary
    /// directory is given then `dst` is taken inside `parent` and must be a
    /// bare name.
    pub fn new(src: String, dst: String, parent: Option<String>) -> (setup: Result<
        ShadowBidsSetup,
        BidsError,
    >)
        ensures
            result_view(setup) == new_setup(src@, dst@, option_view(parent)),
            setup matches Ok(setup) ==> setup@.wf(),
    {
        let dst = match &parent {
            Some(parent_path) => {
                if !is_bare_name(dst.as_str()) {
                    return Err(BidsError::HasParent { path: dst });
                }
                join(parent_path.as_str(), dst.as_str())
            },
            None => dst,
        };
        Ok(
            ShadowBidsSetup {
                parent,
                src,
                dst,
                stage: SetupStage::CreateDir,
                dir: None,
                dataset_description: None,
                sourcedata: None,
                participants_tsv: None,
            },
        )
    }

    /// Sets out to create a shadow bids tree of the real bids tree located at
    /// `src`, inside the temporary directory `parent` and under the name of
    /// the real tree. `canonical` is what came of resolving `src` to its
    /// absolute, normalised form.
    pub fn new_with_parent(src: String, parent: String, canonical: Result<String, std::io::Error>) -> (setup:
        Result<ShadowBidsSetup, BidsError>)
        ensures
            result_view(setup) == new_setup_with_parent(
                src@,
                parent@,
                match canonical {
                    Ok(path) => Ok(path@),
                    Err(source) => Err(source),
                },
            ),
            setup matches Ok(setup) ==> setup@.wf(),
    {
        match canonical {
            Err(source) => Err(BidsError::Canonicalize { bids_src: src, source: Some(source) }),
            Ok(path) => match file_name(path.as_str()) {
                None => Err(BidsError::Canonicalize { bids_src: src, source: None }),
                Some(name) => Self::new(src, name, Some(parent)),
            },
        }
    }

    /// Get the path of the parent temporary directory, if there is one.
    pub fn parent(&self) -> (parent: Option<&str>)
        ensures
            option_view(parent) == self@.parent,
    {
        match &self.parent {
            Some(parent) => Some(parent.as_str()),
            None => None,
        }
    }

    /// Get root path of this shadow BIDS tree.
    pub fn path(&self) -> (path: &str)
        ensures
            path@ == self@.path.path,
            self@.wf(),
    {
        proof {
            use_type_invariant(self);
        }
        self.path.path()
    }

    /// Get root path of source BIDS tree.
    pub fn src(&self) -> (src: &str)
        ensures
            src@ == self@.src,
    {
        self.src.as_str()
    }

    /// Get the link that the tree holds for `entry`, if the source had that
    /// entry when the tree was made.
    pub fn link(&self, entry: DatasetEntry) -> (link: Option<&TempSymlink>)
        ensures
            option_view(link) == self@.link(entry),
            self@.wf(),
    {
        proof {
            use_type_invariant(self);
        }
        match entry {
            DatasetEntry::Description => self.dataset_description.as_ref(),
            DatasetEntry::SourceData => self.sourcedata.as_ref(),
            DatasetEntry::Participants => self.participants_tsv.as_ref(),
        }
    }

    /// What abandoning the tree asks of the filesystem: to remove each link
    /// that it holds, the last made first, and then its directory with all
    /// that is left in it. Whether that succeeds is of no account.
    pub fn release(&self) -> (release: Vec<Action>)
        ensures
            action_views(release@) == self@.release(),
    {
        let mut release: Vec<Action> = Vec::new();
        release_link(&mut release, &self.participants_tsv);
        release_link(&mut release, &self.sourcedata);
        release_link(&mut release, &self.dataset_description);
        push_action(&mut release, self.path.close_all_action());
        release
    }
}

// What is to be done to remove a link that may have been made.
fn release_link(release: &mut Vec<Action>, link: &Option<TempSymlink>)
    ensures
        action_views(final(release)@) == action_views(old(release)@) + link_release(
            option_view(*link),
        ),
{
    match link {
        Some(link) => push_action(release, link.close_action()),
        None => push_action(release, None),
    }
}

// What is to be done to remove a shadow tree that is partly made.
fn release_tree(
    dir: &Option<NamedTempDir>,
    dataset_description: &Option<TempSymlink>,
    sourcedata: &Option<TempSymlink>,
    participants_tsv: &Option<TempSymlink>,
) -> (release: Vec<Action>)
    ensures
        action_views(release@) == tree_release(
            option_view(*dir),
            option_view(*dataset_description),
            option_view(*sourcedata),
            option_view(*participants_tsv),
        ),
{
    let mut release: Vec<Action> = Vec::new();
    release_link(&mut release, participants_tsv);
    release_link(&mut release, sourcedata);
    release_link(&mut release, dataset_description);
    match dir {
        Some(dir) => push_action(&mut release, dir.close_all_action()),
        None => push_action(&mut release, None),
    }
    release
}

impl ShadowBidsSetup {
    #[verifier::type_invariant]
    spec fn well_formed(self) -> bool {
        self@.wf()
    }

    /// The operation that the setup waits for. The caller carries it out and
    /// gives what came of it to [`ShadowBidsSetup::answer`].
    pub fn action(&self) -> (action: Action)
        ensures
            action@ == self@.action(),
    {
        match self.stage {
            SetupStage::CreateDir => Action::CreateDir { path: self.dst.clone() },
            SetupStage::Probe(entry) => Action::Probe {
                path: join(self.src.as_str(), entry.name()),
            },
            SetupStage::Link(entry) => Action::Symlink {
                src: join(self.src.as_str(), entry.name()),
                dst: join(self.dst.as_str(), entry.name()),
            },
        }
    }

    /// Path of the tree that is shadowed.
    pub fn src(&self) -> (src: &str)
        ensures
            src@ == self@.src,
    {
        self.src.as_str()
    }

    /// Path of the shadow tree.
    pub fn dst(&self) -> (dst: &str)
        ensures
            dst@ == self@.dst,
    {
        self.dst.as_str()
    }

    /// What the setup waits for.
    pub fn stage(&self) -> (stage: SetupStage)
        ensures
            stage == self@.stage,
    {
        self.stage
    }

    // How the setup goes on once it is through with `entry`.
    fn after(self, entry: DatasetEntry) -> (progress: ShadowBidsProgress)
        requires
            self@.dir is Some,
        ensures
            progress@ == self@.after(entry),
    {
        proof {
            use_type_invariant(&self);
        }
        match entry.next() {
            Some(next) => ShadowBidsProgress::Pending(
                ShadowBidsSetup { stage: SetupStage::Probe(next), ..self },
            ),
            None => match self.dir {
                Some(dir) => ShadowBidsProgress::Ready(
                    ShadowBids {
                        parent: self.parent,
                        src: self.src,
                        path: dir,
                        dataset_description: self.dataset_description,
                        sourcedata: self.sourcedata,
                        participants_tsv: self.participants_tsv,
                    },
                ),
                None => ShadowBidsProgress::Pending(self),
            },
        }
    }

    // The failure of the setup with `error`.
    fn failed(self, error: FileSystemError) -> (progress: ShadowBidsProgress)
        ensures
            progress@ == self@.failed(error@),
    {
        ShadowBidsProgress::Failed {
            error: BidsError::FileSystem(error),
            release: release_tree(
                &self.dir,
                &self.dataset_description,
                &self.sourcedata,
                &self.participants_tsv,
            ),
        }
    }

    /// Takes what came of the operation that the setup waited for, and goes
    /// on: to the next operation, to the tree that stands, or to a failure.
    pub fn answer(self, reply: Reply) -> (progress: ShadowBidsProgress)
        ensures
            progress@ == self@.answer(reply@),
            self@.wf(),
            progress@.wf(),
    {
        proof {
            use_type_invariant(&self);
        }
        match (self.stage, reply) {
            (SetupStage::CreateDir, Reply::Done(created)) => {
                match NamedTempDir::new(self.dst.clone(), created) {
                    Ok(dir) => ShadowBidsProgress::Pending(
                        ShadowBidsSetup {
                            stage: SetupStage::Probe(DatasetEntry::Description),
                            dir: Some(dir),
                            ..self
                        },
                    ),
                    Err(error) => self.failed(error),
                }
            },
            (SetupStage::Probe(entry), Reply::Exists(present)) => {
                if present {
                    ShadowBidsProgress::Pending(
                        ShadowBidsSetup { stage: SetupStage::Link(entry), ..self },
                    )
                } else {
                    self.after(entry)
                }
            },
            (SetupStage::Link(entry), Reply::Done(created)) => {
                let src = join(self.src.as_str(), entry.name());
                let dst = join(self.dst.as_str(), entry.name());
                match TempSymlink::new(src, dst, created) {
                    Ok(link) => {
                        let linked = match entry {
                            DatasetEntry::Description => ShadowBidsSetup {
                                dataset_description: Some(link),
                                ..self
                            },
                            DatasetEntry::SourceData => ShadowBidsSetup {
                                sourcedata: Some(link),
                                ..self
                            },
                            DatasetEntry::Participants => ShadowBidsSetup {
                                participants_tsv: Some(link),
                                ..self
                            },
                        };
                        linked.after(entry)
                    },
                    Err(error) => self.failed(error),
                }
            },
            (_, _) => ShadowBidsProgress::Pending(self),
        }
    }
}

/// Where a setup stands after a run of replies, each given to the setup
/// that the one before has left. A setup that has ended reads no more.
pub open spec fn run_setup(progress: ShadowBidsProgressView, replies: Seq<ReplyView>) -> ShadowBidsProgressView
    decreases replies.len(),
{
    if replies.len() == 0 {
        progress
    } else {
        match progress {
            ShadowBidsProgressView::Pending(setup) => run_setup(
                setup.answer(replies[0]),
                replies.skip(1),
            ),
            ended => ended,
        }
    }
}

/// What a filesystem in which every link can be created answers when an
/// entry is taken up: that it exists and the link is made, or that it does
/// not exist.
pub open spec fn entry_replies(present: bool) -> Seq<ReplyView> {
    if present {
        seq![ReplyView::Exists(true), ReplyView::Done(Ok(()))]
    } else {
        seq![ReplyView::Exists(false)]
    }
}

/// What a filesystem in which every creation succeeds answers to a whole
/// setup, for a source that has the dataset-level entries that the three
/// flags say.
pub open spec fn shadow_replies(description: bool, sourcedata: bool, participants: bool) -> Seq<
    ReplyView,
> {
    seq![ReplyView::Done(Ok(()))] + entry_replies(description) + entry_replies(sourcedata)
        + entry_replies(participants)
}

/// The link for `entry` in the shadow at `dst` of `src`, if the entry
/// exists.
pub open spec fn link_if(present: bool, src: Seq<char>, dst: Seq<char>, entry: DatasetEntry) -> Option<
    TempSymlinkView,
> {
    if present {
        Some(entry_link(src, dst, entry))
    } else {
        None
    }
}

/// The shadow at `dst` of a source `src` that has the dataset-level entries
/// that the three flags say.
pub open spec fn shadow_of(
    parent: Option<Seq<char>>,
    src: Seq<char>,
    dst: Seq<char>,
    description: bool,
    sourcedata: bool,
    participants: bool,
) -> ShadowBidsView {
    ShadowBidsView {
        parent,
        src,
        path: NamedTempDirView { closed: false, path: dst },
        dataset_description: link_if(description, src, dst, DatasetEntry::Description),
        sourcedata: link_if(sourcedata, src, dst, DatasetEntry::SourceData),
        participants_tsv: link_if(participants, src, dst, DatasetEntry::Participants),
    }
}

/// A run through `first + second` is a run through `first` and then, from
/// where that has led, through `second`.
pub proof fn lemma_run_setup_concat(
    progress: ShadowBidsProgressView,
    first: Seq<ReplyView>,
    second: Seq<ReplyView>,
)
    ensures
        run_setup(progress, first + second) == run_setup(run_setup(progress, first), second),
    decreases first.len(),
{
    if first.len() > 0 {
        assert((first + second).skip(1) =~= first.skip(1) + second);
        match progress {
            ShadowBidsProgressView::Pending(setup) => {
                lemma_run_setup_concat(setup.answer(first[0]), first.skip(1), second);
            },
            _ => {
                lemma_run_setup_ended(progress, first);
                lemma_run_setup_ended(progress, second);
                lemma_run_setup_ended(progress, first + second);
            },
        }
    }
}

/// A setup that has ended stays as it is, whatever is said to it.
pub proof fn lemma_run_setup_ended(progress: ShadowBidsProgressView, replies: Seq<ReplyView>)
    requires
        !(progress is Pending),
    ensures
        run_setup(progress, replies) == progress,
{
}

/// An answer leaves a well-formed setup well formed, and a tree that it
/// completes is well formed too.
pub proof fn lemma_answer_keeps_well_formed(setup: ShadowBidsSetupView, reply: ReplyView)
    requires
        setup.wf(),
    ensures
        setup.answer(reply).wf(),
{
}

// Taking up one entry, in a filesystem in which the link can be created.
proof fn lemma_take_up_entry(setup: ShadowBidsSetupView, entry: DatasetEntry, present: bool)
    requires
        setup.stage == SetupStage::Probe(entry),
    ensures
        run_setup(ShadowBidsProgressView::Pending(setup), entry_replies(present)) == if present {
            setup.with_link(entry, entry_link(setup.src, setup.dst, entry)).after(entry)
        } else {
            setup.after(entry)
        },
{
    let replies = entry_replies(present);
    let answered = setup.answer(replies[0]);
    if present {
        let linking = ShadowBidsSetupView { stage: SetupStage::Link(entry), ..setup };
        let rest = replies.skip(1);
        let linked = linking.answer(rest[0]);
        assert(answered == ShadowBidsProgressView::Pending(linking));
        assert(run_setup(linked, rest.skip(1)) == linked);
        assert(run_setup(answered, rest) == linked);
    } else {
        assert(run_setup(answered, replies.skip(1)) == answered);
    }
}

/// Whichever of the dataset-level entries the source has, a setup in which
/// every creation succeeds ends with a shadow tree that holds a link for
/// each entry that exists and nothing for one that does not. A missing entry
/// is no failure.
pub proof fn lemma_shadow_links_what_exists(
    parent: Option<Seq<char>>,
    src: Seq<char>,
    dst: Seq<char>,
    description: bool,
    sourcedata: bool,
    participants: bool,
)
    ensures
        run_setup(
            ShadowBidsProgressView::Pending(fresh_setup(parent, src, dst)),
            shadow_replies(description, sourcedata, participants),
        ) == ShadowBidsProgressView::Ready(
            shadow_of(parent, src, dst, description, sourcedata, participants),
        ),
        shadow_of(parent, src, dst, description, sourcedata, participants).wf(),
{
    let start = ShadowBidsProgressView::Pending(fresh_setup(parent, src, dst));
    let create = seq![ReplyView::Done(Ok(()))];
    let first = entry_replies(description);
    let second = entry_replies(sourcedata);
    let third = entry_replies(participants);

    // The directory.
    let made = ShadowBidsSetupView {
        stage: SetupStage::Probe(DatasetEntry::Description),
        dir: Some(NamedTempDirView { closed: false, path: dst }),
        ..fresh_setup(parent, src, dst)
    };
    let after_create = run_setup(start, create);
    assert(after_create == ShadowBidsProgressView::Pending(made)) by {
        let created = fresh_setup(parent, src, dst).answer(create[0]);
        assert(run_setup(created, create.skip(1)) == created);
    }

    // The three entries, one after the other.
    let described = ShadowBidsSetupView {
        stage: SetupStage::Probe(DatasetEntry::SourceData),
        dataset_description: link_if(description, src, dst, DatasetEntry::Description),
        ..made
    };
    let after_first = run_setup(after_create, first);
    assert(after_first == ShadowBidsProgressView::Pending(described)) by {
        lemma_take_up_entry(made, DatasetEntry::Description, description);
    }
    let sourced = ShadowBidsSetupView {
        stage: SetupStage::Probe(DatasetEntry::Participants),
        sourcedata: link_if(sourcedata, src, dst, DatasetEntry::SourceData),
        ..described
    };
    let after_second = run_setup(after_first, second);
    assert(after_second == ShadowBidsProgressView::Pending(sourced)) by {
        lemma_take_up_entry(described, DatasetEntry::SourceData, sourcedata);
    }
    let after_third = run_setup(after_second, third);
    assert(after_third == ShadowBidsProgressView::Ready(
        shadow_of(parent, src, dst, description, sourcedata, participants),
    )) by {
        lemma_take_up_entry(sourced, DatasetEntry::Participants, participants);
    }

    // All of it in one run.
    lemma_run_setup_concat(start, create, first);
    lemma_run_setup_concat(start, create + first, second);
    lemma_run_setup_concat(start, create + first + second, third);
}

} // verus!
