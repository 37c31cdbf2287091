//! The link that exposes one participant's data inside a shadow tree.

use crate::action::{Action, ActionView, Reply, ReplyView};
use crate::bids::temp::{FileSystemErrorView, TempSymlink, TempSymlinkView};
use crate::bids::{BidsError, BidsErrorView, ShadowBids, ShadowBidsView};
use crate::path::{join, join_spec, participant_dir, participant_dir_spec};
use crate::views::option_view;
use std::sync::Arc;
use vstd::prelude::*;

verus! {

/// Symlink to a participant's BIDS-formatted data, inside a shadow tree. It
/// holds a counted reference to that tree, so that the tree is not given up
/// while the link exists.
#[derive(Debug)]
pub struct BidsParticipant {
    // The shadow tree that holds the link.
    parent: Arc<ShadowBids>,
    // The link itself.
    path: TempSymlink,
}

/// What a [`BidsParticipant`] holds.
pub struct BidsParticipantView {
    /// The shadow tree that holds the link.
    pub parent: ShadowBidsView,
    /// The link itself.
    pub path: TempSymlinkView,
}

impl View for BidsParticipant {
    type V = BidsParticipantView;

    closed spec fn view(&self) -> BidsParticipantView {
        BidsParticipantView { parent: (*self.parent)@, path: self.path@ }
    }
}

/// Where the data of `participant` lie in the tree at `root`.
pub open spec fn participant_path(root: Seq<char>, participant: Seq<char>) -> Seq<char> {
    join_spec(root, participant_dir_spec(participant))
}

/// The link to the data of `participant` in the shadow tree `parent`, newly
/// made.
pub open spec fn participant_link(parent: ShadowBidsView, participant: Seq<char>) -> TempSymlinkView {
    TempSymlinkView {
        closed: false,
        src_path: participant_path(parent.src, participant),
        dst_path: participant_path(parent.path.path, participant),
    }
}

/// What the setup of a participant's link waits for.
#[derive(Debug, Clone, Copy, PartialEq, Eq, Structural)]
pub enum ParticipantStage {
    /// It is to be found out whether the source has the participant.
    Probe,
    /// The link to the participant's data is to be created.
    Link,
}

/// A [`BidsParticipant`] in the making.
#[derive(Debug)]
pub struct BidsParticipantSetup {
    participant: String,
    parent: Arc<ShadowBids>,
    stage: ParticipantStage,
}

/// What a [`BidsParticipantSetup`] holds.
pub struct BidsParticipantSetupView {
    /// The identifier of the participant.
    pub participant: Seq<char>,
    /// The shadow tree that is to hold the link.
    pub parent: ShadowBidsView,
    /// What the setup waits for.
    pub stage: ParticipantStage,
}

impl View for BidsParticipantSetup {
    type V = BidsParticipantSetupView;

    closed spec fn view(&self) -> BidsParticipantSetupView {
        BidsParticipantSetupView {
            participant: self.participant@,
            parent: (*self.parent)@,
            stage: self.stage,
        }
    }
}

/// How far the setup of a participant's link has come after an answer.
#[derive(Debug)]
pub enum BidsParticipantProgress {
    /// There is more to do: the setup names it.
    Pending(BidsParticipantSetup),
    /// The link stands.
    Ready(BidsParticipant),
    /// The setup has failed with `error`, and has made nothing. The
    /// reference to the shadow tree comes back with it.
    Failed { error: BidsError, parent: Arc<ShadowBids> },
}

/// What a [`BidsParticipantProgress`] holds.
pub enum BidsParticipantProgressView {
    Pending(BidsParticipantSetupView),
    Ready(BidsParticipantView),
    Failed { error: BidsErrorView, parent: ShadowBidsView },
}

impl View for BidsParticipantProgress {
    type V = BidsParticipantProgressView;

    open spec fn view(&self) -> BidsParticipantProgressView {
        match *self {
            BidsParticipantProgress::Pending(setup) => BidsParticipantProgressView::Pending(setup@),
            BidsParticipantProgress::Ready(link) => BidsParticipantProgressView::Ready(link@),
            BidsParticipantProgress::Failed { error, parent } => BidsParticipantProgressView::Failed {
                error: error@,
                parent: (*parent)@,
            },
        }
    }
}

impl BidsParticipantSetupView {
    /// The operation that the setup waits for.
    pub open spec fn action(self) -> ActionView {
        match self.stage {
            ParticipantStage::Probe => ActionView::Probe {
                path: participant_path(self.parent.src, self.participant),
            },
            ParticipantStage::Link => ActionView::Symlink {
                src: participant_path(self.parent.src, self.participant),
                dst: participant_path(self.parent.path.path, self.participant),
            },
        }
    }

    /// How the setup goes on after `reply`.
    ///
    /// The reply counts only if it is of the kind that the awaited operation
    /// brings; any other leaves the setup where it is. A participant that the
    /// source lacks ends the setup before any link is asked for.
    pub open spec fn answer(self, reply: ReplyView) -> BidsParticipantProgressView {
        match (self.stage, reply) {
            (ParticipantStage::Probe, ReplyView::Exists(true)) => BidsParticipantProgressView::Pending(
                BidsParticipantSetupView { stage: ParticipantStage::Link, ..self },
            ),
            (ParticipantStage::Probe, ReplyView::Exists(false)) => BidsParticipantProgressView::Failed {
                error: BidsErrorView::MissingParticipant {
                    bids_src: self.parent.src,
                    participant: self.participant,
                },
                parent: self.parent,
            },
            (ParticipantStage::Link, ReplyView::Done(Ok(_))) => BidsParticipantProgressView::Ready(
                BidsParticipantView {
                    parent: self.parent,
                    path: participant_link(self.parent, self.participant),
                },
            ),
            (ParticipantStage::Link, ReplyView::Done(Err(source))) => BidsParticipantProgressView::Failed {
                error: BidsErrorView::FileSystem(
                    FileSystemErrorView::SymlinkCreateError {
                        src_path: participant_path(self.parent.src, self.participant),
                        dst_path: participant_path(self.parent.path.path, self.participant),
                        source,
                    },
                ),
                parent: self.parent,
            },
            _ => BidsParticipantProgressView::Pending(self),
        }
    }
}

/// The setup of the link to `participant` in `parent`, before anything is
/// asked.
pub open spec fn new_participant(participant: Seq<char>, parent: ShadowBidsView) -> BidsParticipantSetupView {
    BidsParticipantSetupView { participant, parent, stage: ParticipantStage::Probe }
}

impl BidsParticipant {
    /// Sets out to create a symlink to a BIDS participant inside a parent
    /// BIDS tree.
    pub fn new(participant: &str, parent: Arc<ShadowBids>) -> (setup: BidsParticipantSetup)
        ensures
            setup@ == new_participant(participant@, (*parent)@),
    {
        BidsParticipantSetup {
            participant: String::from_str(participant),
            parent,
            stage: ParticipantStage::Probe,
        }
    }

    /// Get parent BIDS directory tree root for this participant.
    pub fn parent(&self) -> (parent: &Arc<ShadowBids>)
        ensures
            (**parent)@ == self@.parent,
    {
        &self.parent
    }

    /// Get path to root of this participant's data within the shadow bids
    /// tree.
    pub fn path(&self) -> (path: &str)
        ensures
            path@ == self@.path.dst_path,
    {
        self.path.dst_path()
    }

    /// Get path to root of this participant's data within the source bids
    /// tree.
    pub fn src(&self) -> (src: &str)
        ensures
            src@ == self@.path.src_path,
    {
        self.path.src_path()
    }

    /// What abandoning the link asks of the filesystem: to remove it.
    /// Whether that succeeds is of no account. The shadow tree is not
    /// touched: it is for whoever gives up the last reference to it.
    pub fn release(&self) -> (action: Option<Action>)
        ensures
            option_view(action) == if self@.path.closed {
                None
            } else {
                Some(ActionView::RemoveFile { path: self@.path.dst_path })
            },
    {
        self.path.close_action()
    }
}

impl BidsParticipantSetup {
    /// The operation that the setup waits for. The caller carries it out and
    /// gives what came of it to [`BidsParticipantSetup::answer`].
    pub fn action(&self) -> (action: Action)
        ensures
            action@ == self@.action(),
    {
        let name = participant_dir(self.participant.as_str());
        let src = join(self.parent.src(), name.as_str());
        match self.stage {
            ParticipantStage::Probe => Action::Probe { path: src },
            ParticipantStage::Link => Action::Symlink {
                src,
                dst: join(self.parent.path(), name.as_str()),
            },
        }
    }

    /// What the setup waits for.
    pub fn stage(&self) -> (stage: ParticipantStage)
        ensures
            stage == self@.stage,
    {
        self.stage
    }

    /// Takes what came of the operation that the setup waited for, and goes
    /// on: to the next operation, to the link that stands, or to a failure.
    pub fn answer(self, reply: Reply) -> (progress: BidsParticipantProgress)
        ensures
            progress@ == self@.answer(reply@),
    {
        match (self.stage, reply) {
            (ParticipantStage::Probe, Reply::Exists(present)) => {
                if present {
                    BidsParticipantProgress::Pending(
                        BidsParticipantSetup { stage: ParticipantStage::Link, ..self },
                    )
                } else {
                    BidsParticipantProgress::Failed {
                        error: BidsError::MissingParticipant {
                            bids_src: String::from_str(self.parent.src()),
                            participant: self.participant,
                        },
                        parent: self.parent,
                    }
                }
            },
            (ParticipantStage::Link, Reply::Done(created)) => {
                let name = participant_dir(self.participant.as_str());
                let src = join(self.parent.src(), name.as_str());
                let dst = join(self.parent.path(), name.as_str());
                match TempSymlink::new(src, dst, created) {
                    Ok(path) => BidsParticipantProgress::Ready(
                        BidsParticipant { parent: self.parent, path },
                    ),
                    Err(error) => BidsParticipantProgress::Failed {
                        error: BidsError::FileSystem(error),
                        parent: self.parent,
                    },
                }
            },
            (_, _) => BidsParticipantProgress::Pending(self),
        }
    }
}

/// Setting up the link for a participant that the source lacks asks for one
/// probe and then fails as a missing participant, naming the source and the
/// participant. No link is ever asked for.
pub proof fn lemma_missing_participant_fails(participant: Seq<char>, parent: ShadowBidsView)
    ensures
        new_participant(participant, parent).action() == (ActionView::Probe {
            path: participant_path(parent.src, participant),
        }),
        new_participant(participant, parent).answer(ReplyView::Exists(false)) == (
        BidsParticipantProgressView::Failed {
            error: BidsErrorView::MissingParticipant { bids_src: parent.src, participant },
            parent,
        }),
{
}

} // verus!
