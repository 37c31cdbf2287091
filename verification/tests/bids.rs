use mriqc1::action::{Action, Reply};
use mriqc1::bids::temp::FileSystemError;
use mriqc1::bids::{
    BidsError, BidsParticipant, BidsParticipantProgress, DatasetEntry, ParticipantStage,
    SetupStage, ShadowBids, ShadowBidsProgress, ShadowBidsSetup,
};
use std::io::{Error, ErrorKind};
use std::sync::Arc;

const ENTRIES: [DatasetEntry; 3] =
    [DatasetEntry::Description, DatasetEntry::SourceData, DatasetEntry::Participants];

fn pending(progress: ShadowBidsProgress) -> ShadowBidsSetup {
    match progress {
        ShadowBidsProgress::Pending(setup) => setup,
        other => panic!("the setup has ended: {:?}", other),
    }
}

// Runs a setup against a source that has the entries named in `present`, in
// a filesystem where every creation succeeds. Records what was asked.
fn run(setup: ShadowBidsSetup, present: [bool; 3], asked: &mut Vec<String>) -> ShadowBids {
    let mut setup = setup;
    loop {
        let reply = match setup.action() {
            Action::CreateDir { path } => {
                asked.push(format!("mkdir {}", path));
                Reply::Done(Ok(()))
            }
            Action::Probe { path } => {
                asked.push(format!("probe {}", path));
                let entry = ENTRIES.iter().position(|e| path.ends_with(e.name())).unwrap();
                Reply::Exists(present[entry])
            }
            Action::Symlink { src, dst } => {
                asked.push(format!("link {} -> {}", dst, src));
                Reply::Done(Ok(()))
            }
            other => panic!("unexpected action {:?}", other),
        };
        match setup.answer(reply) {
            ShadowBidsProgress::Pending(next) => setup = next,
            ShadowBidsProgress::Ready(shadow) => return shadow,
            ShadowBidsProgress::Failed { error, .. } => panic!("the setup failed: {:?}", error),
        }
    }
}

fn shadow(present: [bool; 3]) -> ShadowBids {
    let setup = ShadowBids::new("/data/bids".to_string(), "/work/shadow".to_string(), None).unwrap();
    run(setup, present, &mut Vec::new())
}

#[test]
fn entry_names_and_order() {
    assert_eq!(DatasetEntry::Description.name(), "dataset_description.json");
    assert_eq!(DatasetEntry::SourceData.name(), "sourcedata");
    assert_eq!(DatasetEntry::Participants.name(), "participants.tsv");
    assert_eq!(DatasetEntry::Description.next(), Some(DatasetEntry::SourceData));
    assert_eq!(DatasetEntry::SourceData.next(), Some(DatasetEntry::Participants));
    assert_eq!(DatasetEntry::Participants.next(), None);
}

#[test]
fn shadow_without_parent_goes_to_the_destination_as_given() {
    let setup =
        ShadowBids::new("/data/bids".to_string(), "/work/a/shadow".to_string(), None).unwrap();
    assert_eq!(setup.src(), "/data/bids");
    assert_eq!(setup.dst(), "/work/a/shadow");
    assert_eq!(setup.stage(), SetupStage::CreateDir);
    match setup.action() {
        Action::CreateDir { path } => assert_eq!(path, "/work/a/shadow"),
        other => panic!("unexpected action {:?}", other),
    }
}

#[test]
fn shadow_with_parent_goes_inside_the_parent() {
    let setup = ShadowBids::new(
        "/data/bids".to_string(),
        "bids".to_string(),
        Some("/tmp/.tmpAbC".to_string()),
    )
    .unwrap();
    assert_eq!(setup.dst(), "/tmp/.tmpAbC/bids");
    let shadow = run(setup, [false, false, false], &mut Vec::new());
    assert_eq!(shadow.parent(), Some("/tmp/.tmpAbC"));
    assert_eq!(shadow.path(), "/tmp/.tmpAbC/bids");
    assert_eq!(shadow.src(), "/data/bids");
}

#[test]
fn shadow_with_parent_refuses_a_destination_with_a_parent() {
    for dst in ["a/b", "/abs", "dir/", "/"] {
        let made = ShadowBids::new(
            "/data/bids".to_string(),
            dst.to_string(),
            Some("/tmp/x".to_string()),
        );
        match made {
            Err(BidsError::HasParent { path }) => assert_eq!(path, dst),
            other => panic!("expected a refusal of {:?}, got {:?}", dst, other),
        }
    }
}

#[test]
fn shadow_links_exactly_the_entries_that_exist() {
    for mask in 0..8 {
        let present = [mask & 1 != 0, mask & 2 != 0, mask & 4 != 0];
        let mut asked = Vec::new();
        let setup =
            ShadowBids::new("/data/bids".to_string(), "/work/shadow".to_string(), None).unwrap();
        let shadow = run(setup, present, &mut asked);
        let mut expected = vec!["mkdir /work/shadow".to_string()];
        for (i, entry) in ENTRIES.iter().enumerate() {
            let name = entry.name();
            expected.push(format!("probe /data/bids/{}", name));
            match shadow.link(*entry) {
                Some(link) => {
                    assert!(present[i]);
                    assert!(!link.is_closed());
                    assert_eq!(link.src_path(), format!("/data/bids/{}", name));
                    assert_eq!(link.dst_path(), format!("/work/shadow/{}", name));
                    expected.push(format!("link /work/shadow/{} -> /data/bids/{}", name, name));
                }
                None => assert!(!present[i]),
            }
        }
        assert_eq!(asked, expected);
        assert_eq!(shadow.path(), "/work/shadow");
        assert_eq!(shadow.src(), "/data/bids");
        assert_eq!(shadow.parent(), None);
    }
}

#[test]
fn shadow_setup_fails_when_the_directory_cannot_be_created() {
    let setup = ShadowBids::new("/data/bids".to_string(), "/work/shadow".to_string(), None).unwrap();
    match setup.answer(Reply::Done(Err(Error::from(ErrorKind::AlreadyExists)))) {
        ShadowBidsProgress::Failed {
            error: BidsError::FileSystem(FileSystemError::DirCreateError { path, source }),
            release,
        } => {
            assert_eq!(path, "/work/shadow");
            assert_eq!(source.kind(), ErrorKind::AlreadyExists);
            assert!(release.is_empty());
        }
        other => panic!("expected a failed creation, got {:?}", other),
    }
}

#[test]
fn shadow_setup_fails_when_a_link_cannot_be_created_and_names_what_to_remove() {
    let setup = ShadowBids::new("/data/bids".to_string(), "/work/shadow".to_string(), None).unwrap();
    let setup = pending(setup.answer(Reply::Done(Ok(()))));
    assert_eq!(setup.stage(), SetupStage::Probe(DatasetEntry::Description));
    let setup = pending(setup.answer(Reply::Exists(true)));
    assert_eq!(setup.stage(), SetupStage::Link(DatasetEntry::Description));
    let setup = pending(setup.answer(Reply::Done(Ok(()))));
    let setup = pending(setup.answer(Reply::Exists(true)));
    assert_eq!(setup.stage(), SetupStage::Link(DatasetEntry::SourceData));
    match setup.answer(Reply::Done(Err(Error::from(ErrorKind::PermissionDenied)))) {
        ShadowBidsProgress::Failed {
            error: BidsError::FileSystem(FileSystemError::SymlinkCreateError { src_path, dst_path, source }),
            release,
        } => {
            assert_eq!(src_path, "/data/bids/sourcedata");
            assert_eq!(dst_path, "/work/shadow/sourcedata");
            assert_eq!(source.kind(), ErrorKind::PermissionDenied);
            assert_eq!(release.len(), 2);
            match &release[0] {
                Action::RemoveFile { path } => {
                    assert_eq!(path, "/work/shadow/dataset_description.json")
                }
                other => panic!("unexpected action {:?}", other),
            }
            match &release[1] {
                Action::RemoveDirAll { path } => assert_eq!(path, "/work/shadow"),
                other => panic!("unexpected action {:?}", other),
            }
        }
        other => panic!("expected a failed link, got {:?}", other),
    }
}

#[test]
fn shadow_setup_ignores_a_reply_of_the_wrong_kind() {
    let setup = ShadowBids::new("/data/bids".to_string(), "/work/shadow".to_string(), None).unwrap();
    let setup = pending(setup.answer(Reply::Exists(true)));
    assert_eq!(setup.stage(), SetupStage::CreateDir);
    let setup = pending(setup.answer(Reply::Spawned(Ok(Some(1)))));
    assert_eq!(setup.stage(), SetupStage::CreateDir);
    let setup = pending(setup.answer(Reply::Done(Ok(()))));
    let setup = pending(setup.answer(Reply::Done(Ok(()))));
    assert_eq!(setup.stage(), SetupStage::Probe(DatasetEntry::Description));
    let setup = pending(setup.answer(Reply::Path(Ok("/x".to_string()))));
    assert_eq!(setup.stage(), SetupStage::Probe(DatasetEntry::Description));
}

#[test]
fn shadow_release_removes_links_last_made_first_then_the_directory() {
    let release = shadow([true, true, true]).release();
    let described: Vec<String> = release.iter().map(|action| format!("{:?}", action)).collect();
    assert_eq!(
        described,
        vec![
            "RemoveFile { path: \"/work/shadow/participants.tsv\" }",
            "RemoveFile { path: \"/work/shadow/sourcedata\" }",
            "RemoveFile { path: \"/work/shadow/dataset_description.json\" }",
            "RemoveDirAll { path: \"/work/shadow\" }",
        ]
    );
    let release = shadow([false, true, false]).release();
    let described: Vec<String> = release.iter().map(|action| format!("{:?}", action)).collect();
    assert_eq!(
        described,
        vec![
            "RemoveFile { path: \"/work/shadow/sourcedata\" }",
            "RemoveDirAll { path: \"/work/shadow\" }",
        ]
    );
}

#[test]
fn new_with_parent_names_the_shadow_after_the_resolved_source() {
    let setup = ShadowBids::new_with_parent(
        "../study/./bids".to_string(),
        "/tmp/.tmpXyZ".to_string(),
        Ok("/data/study/bids".to_string()),
    )
    .unwrap();
    assert_eq!(setup.src(), "../study/./bids");
    assert_eq!(setup.dst(), "/tmp/.tmpXyZ/bids");
}

#[test]
fn new_with_parent_fails_when_the_source_cannot_be_resolved() {
    let made = ShadowBids::new_with_parent(
        "/nowhere".to_string(),
        "/tmp/.tmpXyZ".to_string(),
        Err(Error::from(ErrorKind::NotFound)),
    );
    match made {
        Err(BidsError::Canonicalize { bids_src, source }) => {
            assert_eq!(bids_src, "/nowhere");
            assert_eq!(source.unwrap().kind(), ErrorKind::NotFound);
        }
        other => panic!("expected a failure to resolve, got {:?}", other),
    }
}

#[test]
fn new_with_parent_fails_when_the_source_is_the_root() {
    let made =
        ShadowBids::new_with_parent("/".to_string(), "/tmp/x".to_string(), Ok("/".to_string()));
    match made {
        Err(BidsError::Canonicalize { bids_src, source }) => {
            assert_eq!(bids_src, "/");
            assert!(source.is_none());
        }
        other => panic!("expected a failure to resolve, got {:?}", other),
    }
}

#[test]
fn participant_is_probed_then_linked() {
    let parent = Arc::new(shadow([true, false, true]));
    let setup = BidsParticipant::new("001", parent.clone());
    assert_eq!(setup.stage(), ParticipantStage::Probe);
    match setup.action() {
        Action::Probe { path } => assert_eq!(path, "/data/bids/sub-001"),
        other => panic!("unexpected action {:?}", other),
    }
    let setup = match setup.answer(Reply::Exists(true)) {
        BidsParticipantProgress::Pending(setup) => setup,
        other => panic!("unexpected progress {:?}", other),
    };
    assert_eq!(setup.stage(), ParticipantStage::Link);
    match setup.action() {
        Action::Symlink { src, dst } => {
            assert_eq!(src, "/data/bids/sub-001");
            assert_eq!(dst, "/work/shadow/sub-001");
        }
        other => panic!("unexpected action {:?}", other),
    }
    let link = match setup.answer(Reply::Done(Ok(()))) {
        BidsParticipantProgress::Ready(link) => link,
        other => panic!("unexpected progress {:?}", other),
    };
    assert_eq!(link.src(), "/data/bids/sub-001");
    assert_eq!(link.path(), "/work/shadow/sub-001");
    assert!(Arc::ptr_eq(link.parent(), &parent));
    assert_eq!(Arc::strong_count(&parent), 2);
    match link.release() {
        Some(Action::RemoveFile { path }) => assert_eq!(path, "/work/shadow/sub-001"),
        other => panic!("unexpected action {:?}", other),
    }
}

#[test]
fn missing_participant_fails_before_any_link_is_asked_for() {
    let parent = Arc::new(shadow([true, true, true]));
    let setup = BidsParticipant::new("003", parent.clone());
    assert!(matches!(setup.action(), Action::Probe { .. }));
    match setup.answer(Reply::Exists(false)) {
        BidsParticipantProgress::Failed {
            error: BidsError::MissingParticipant { bids_src, participant },
            parent: returned,
        } => {
            assert_eq!(bids_src, "/data/bids");
            assert_eq!(participant, "003");
            assert!(Arc::ptr_eq(&returned, &parent));
        }
        other => panic!("expected a missing participant, got {:?}", other),
    }
}

#[test]
fn participant_link_that_cannot_be_created_fails() {
    let parent = Arc::new(shadow([false, false, false]));
    let setup = BidsParticipant::new("001", parent);
    let setup = match setup.answer(Reply::Exists(true)) {
        BidsParticipantProgress::Pending(setup) => setup,
        other => panic!("unexpected progress {:?}", other),
    };
    match setup.answer(Reply::Done(Err(Error::from(ErrorKind::AlreadyExists)))) {
        BidsParticipantProgress::Failed {
            error: BidsError::FileSystem(FileSystemError::SymlinkCreateError { src_path, dst_path, source }),
            ..
        } => {
            assert_eq!(src_path, "/data/bids/sub-001");
            assert_eq!(dst_path, "/work/shadow/sub-001");
            assert_eq!(source.kind(), ErrorKind::AlreadyExists);
        }
        other => panic!("expected a failed link, got {:?}", other),
    }
}

#[test]
fn participant_setup_ignores_a_reply_of_the_wrong_kind() {
    let parent = Arc::new(shadow([false, false, false]));
    let setup = BidsParticipant::new("001", parent);
    let setup = match setup.answer(Reply::Done(Ok(()))) {
        BidsParticipantProgress::Pending(setup) => setup,
        other => panic!("unexpected progress {:?}", other),
    };
    assert_eq!(setup.stage(), ParticipantStage::Probe);
}
