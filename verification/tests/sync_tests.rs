use modpack_sync::error::ErrorKind;
use modpack_sync::fetch::FetchError;
use modpack_sync::modinfo::{ManifestError, Mod, ModpackConfig};
use modpack_sync::sync::{
    Sync, SyncAction, SyncEvent, SyncStage, ACTIVE_MANIFEST, CANDIDATE_MANIFEST, MODS_DIR,
};

fn pack(name: &str, checksum: &str) -> Mod {
    let mut m = Mod::new(name.to_string(), name.to_string());
    m.checksum = Some(checksum.to_string());
    m
}

fn listing(mods: Vec<Mod>) -> ModpackConfig {
    ModpackConfig { format: Some(3), metadata: None, mods }
}

fn old_listing() -> ModpackConfig {
    listing(vec![pack("A", "sha1"), pack("B", "sha2")])
}

fn new_listing() -> ModpackConfig {
    listing(vec![pack("A", "sha1"), pack("B", "sha3"), pack("C", "sha4")])
}

fn lines(log: &[&str]) -> Vec<String> {
    log.iter().map(|l| l.to_string()).collect()
}

fn reconciling() -> Sync {
    let mut sync = Sync::new();
    let out = sync.step(SyncEvent::Start);
    assert_eq!(out.log, lines(&["Starting update process"]));
    assert_eq!(
        out.action,
        SyncAction::FetchCandidate {
            url: "mods.json".to_string(),
            filename: "mods.json.new".to_string()
        }
    );
    assert_eq!(sync.stage, SyncStage::FetchingCandidate);
    let out = sync.step(SyncEvent::CandidateFetched);
    assert!(out.log.is_empty());
    assert_eq!(
        out.action,
        SyncAction::ReadManifests {
            active: "mods.json".to_string(),
            candidate: "mods.json.new".to_string()
        }
    );
    assert_eq!(sync.stage, SyncStage::Reconciling);
    sync
}

#[test]
fn manifest_file_names() {
    assert_eq!(ACTIVE_MANIFEST, "mods.json");
    assert_eq!(CANDIDATE_MANIFEST, "mods.json.new");
    assert_eq!(MODS_DIR, "base10/mods/");
}

#[test]
fn new_pass_is_idle() {
    let sync = Sync::new();
    assert_eq!(sync.stage, SyncStage::Idle);
    assert!(sync.removals.is_empty() && sync.fetches.is_empty());
    assert_eq!(sync.next, 0);
}

#[test]
fn full_pass_removes_fetches_and_promotes() {
    let mut sync = reconciling();
    let out =
        sync.step(SyncEvent::ManifestsRead { active: Ok(old_listing()), candidate: Ok(new_listing()) });
    assert_eq!(sync.removals, lines(&["B"]));
    assert_eq!(sync.fetches.len(), 2);
    assert_eq!(out.log, lines(&["Removing old mod B"]));
    assert_eq!(out.action, SyncAction::Remove { filename: "B.pak".to_string() });
    assert_eq!(sync.stage, SyncStage::Removing);

    let out = sync.step(SyncEvent::Removed);
    assert_eq!(out.log, lines(&["Finished removing old mods", "Downloading new mod B"]));
    assert_eq!(
        out.action,
        SyncAction::Fetch { url: "files/B.pak".to_string(), filename: "B.pak".to_string() }
    );
    assert_eq!((sync.stage, sync.next), (SyncStage::Fetching, 0));

    let out = sync.step(SyncEvent::Fetched);
    assert_eq!(out.log, lines(&["Downloading new mod C"]));
    assert_eq!(
        out.action,
        SyncAction::Fetch { url: "files/C.pak".to_string(), filename: "C.pak".to_string() }
    );
    assert_eq!((sync.stage, sync.next), (SyncStage::Fetching, 1));

    let out = sync.step(SyncEvent::Fetched);
    assert!(out.log.is_empty());
    assert_eq!(
        out.action,
        SyncAction::Promote { from: "mods.json.new".to_string(), to: "mods.json".to_string() }
    );
    assert_eq!(sync.stage, SyncStage::Promoting);

    let out = sync.step(SyncEvent::Promoted);
    assert_eq!(out.action, SyncAction::Finish);
    assert_eq!(sync.stage, SyncStage::Idle);
}

#[test]
fn failed_fetch_leaves_the_active_manifest_unpromoted() {
    let mut sync = reconciling();
    sync.step(SyncEvent::ManifestsRead { active: Ok(old_listing()), candidate: Ok(new_listing()) });
    sync.step(SyncEvent::Removed);
    // B succeeds, C fails.
    let out = sync.step(SyncEvent::Fetched);
    assert_eq!(
        out.action,
        SyncAction::Fetch { url: "files/C.pak".to_string(), filename: "C.pak".to_string() }
    );
    let out = sync.step(SyncEvent::FetchFailed {
        error: FetchError::TransportError,
        message: "Error while downloading file".to_string(),
    });
    assert_eq!(
        out.action,
        SyncAction::Fail {
            kind: ErrorKind::TransportError,
            message: "Error while downloading file".to_string()
        }
    );
    assert_eq!(sync.stage, SyncStage::Failed);
    // Nothing that is reported afterwards leads to promotion.
    for event in [
        SyncEvent::Fetched,
        SyncEvent::Promoted,
        SyncEvent::Removed,
        SyncEvent::CandidateFetched,
        SyncEvent::Start,
    ] {
        let out = sync.step(event);
        assert_eq!(out.action, SyncAction::Nothing);
        assert_eq!(sync.stage, SyncStage::Failed);
    }
    // A new pass over what is installed by now asks for C alone.
    let installed = listing(vec![pack("A", "sha1"), pack("B", "sha3")]);
    let mut retry = reconciling();
    let out =
        retry.step(SyncEvent::ManifestsRead { active: Ok(installed), candidate: Ok(new_listing()) });
    assert!(retry.removals.is_empty());
    assert_eq!(retry.fetches.len(), 1);
    assert_eq!(retry.fetches[0].name, "C");
    assert_eq!(
        out.action,
        SyncAction::Fetch { url: "files/C.pak".to_string(), filename: "C.pak".to_string() }
    );
}

#[test]
fn unchanged_manifest_goes_straight_to_promotion() {
    for _ in 0..2 {
        let mut sync = reconciling();
        let out = sync.step(SyncEvent::ManifestsRead {
            active: Ok(new_listing()),
            candidate: Ok(new_listing()),
        });
        assert!(sync.removals.is_empty() && sync.fetches.is_empty());
        assert_eq!(out.log, lines(&["Finished removing old mods"]));
        assert_eq!(
            out.action,
            SyncAction::Promote { from: "mods.json.new".to_string(), to: "mods.json".to_string() }
        );
        assert_eq!(sync.stage, SyncStage::Promoting);
    }
}

#[test]
fn candidate_that_cannot_be_fetched_fails_the_pass() {
    let mut sync = Sync::new();
    sync.step(SyncEvent::Start);
    let out = sync.step(SyncEvent::CandidateFailed {
        error: FetchError::ServerError,
        message: "Error downloading file!".to_string(),
    });
    assert!(out.log.is_empty());
    assert_eq!(
        out.action,
        SyncAction::Fail { kind: ErrorKind::ServerError, message: "Error downloading file!".to_string() }
    );
    assert_eq!(sync.stage, SyncStage::Failed);
    assert!(sync.removals.is_empty() && sync.fetches.is_empty());
}

#[test]
fn refused_candidate_fails_the_pass_before_any_removal() {
    let mut sync = reconciling();
    let out = sync.step(SyncEvent::ManifestsRead {
        active: Ok(old_listing()),
        candidate: Err(ManifestError::UnsupportedFormat),
    });
    assert_eq!(
        out.action,
        SyncAction::Fail {
            kind: ErrorKind::UnsupportedFormat,
            message: "Unsupported modpack metadata version!  Please upgrade the launcher"
                .to_string()
        }
    );
    assert_eq!(sync.stage, SyncStage::Failed);
    assert!(sync.removals.is_empty() && sync.fetches.is_empty());

    let mut other = reconciling();
    let out = other.step(SyncEvent::ManifestsRead {
        active: Ok(old_listing()),
        candidate: Err(ManifestError::MalformedManifest("expected `,`".to_string())),
    });
    assert_eq!(
        out.action,
        SyncAction::Fail { kind: ErrorKind::MalformedManifest, message: "expected `,`".to_string() }
    );
    assert_eq!(other.stage, SyncStage::Failed);
}

#[test]
fn unreadable_active_manifest_counts_as_first_sync() {
    let mut sync = reconciling();
    let out = sync.step(SyncEvent::ManifestsRead {
        active: Err(ManifestError::MalformedManifest("No such file".to_string())),
        candidate: Ok(new_listing()),
    });
    assert!(sync.removals.is_empty());
    let names: Vec<&str> = sync.fetches.iter().map(|o| o.name.as_str()).collect();
    assert_eq!(names, vec!["A", "B", "C"]);
    assert_eq!(out.log, lines(&["Finished removing old mods", "Downloading new mod A"]));
    assert_eq!(
        out.action,
        SyncAction::Fetch { url: "files/A.pak".to_string(), filename: "A.pak".to_string() }
    );
    // Also where the active manifest is of a format that is not supported.
    let mut other = reconciling();
    other.step(SyncEvent::ManifestsRead {
        active: Err(ManifestError::UnsupportedFormat),
        candidate: Ok(new_listing()),
    });
    assert_eq!(other.fetches.len(), 3);
}

#[test]
fn failed_removal_is_logged_and_the_pass_goes_on() {
    let active = listing(vec![pack("X", "1"), pack("Y", "2")]);
    let candidate = listing(vec![pack("Z", "3")]);
    let mut sync = reconciling();
    let out = sync.step(SyncEvent::ManifestsRead { active: Ok(active), candidate: Ok(candidate) });
    assert_eq!(out.action, SyncAction::Remove { filename: "X.pak".to_string() });
    let out = sync.step(SyncEvent::RemoveFailed);
    assert_eq!(out.log, lines(&["Failed to remove file!", "Removing old mod Y"]));
    assert_eq!(out.action, SyncAction::Remove { filename: "Y.pak".to_string() });
    assert_eq!((sync.stage, sync.next), (SyncStage::Removing, 1));
    let out = sync.step(SyncEvent::RemoveFailed);
    assert_eq!(
        out.log,
        lines(&["Failed to remove file!", "Finished removing old mods", "Downloading new mod Z"])
    );
    assert_eq!(
        out.action,
        SyncAction::Fetch { url: "files/Z.pak".to_string(), filename: "Z.pak".to_string() }
    );
}

#[test]
fn promotion_that_fails_fails_the_pass() {
    let mut sync = reconciling();
    sync.step(SyncEvent::ManifestsRead { active: Ok(new_listing()), candidate: Ok(new_listing()) });
    let out = sync.step(SyncEvent::PromoteFailed);
    assert_eq!(
        out.action,
        SyncAction::Fail {
            kind: ErrorKind::IoError,
            message: "Failed to replace the installed mod list!".to_string()
        }
    );
    assert_eq!(sync.stage, SyncStage::Failed);
}

#[test]
fn sync_events_out_of_turn_change_nothing() {
    let mut sync = Sync::new();
    for event in [
        SyncEvent::CandidateFetched,
        SyncEvent::Removed,
        SyncEvent::RemoveFailed,
        SyncEvent::Fetched,
        SyncEvent::Promoted,
        SyncEvent::PromoteFailed,
        SyncEvent::ManifestsRead { active: Ok(old_listing()), candidate: Ok(new_listing()) },
    ] {
        let out = sync.step(event);
        assert!(out.log.is_empty());
        assert_eq!(out.action, SyncAction::Nothing);
        assert_eq!(sync, Sync::new());
    }
}

#[test]
fn a_pass_can_follow_a_pass() {
    let mut sync = reconciling();
    sync.step(SyncEvent::ManifestsRead { active: Ok(new_listing()), candidate: Ok(new_listing()) });
    sync.step(SyncEvent::Promoted);
    assert_eq!(sync.stage, SyncStage::Idle);
    let out = sync.step(SyncEvent::Start);
    assert_eq!(
        out.action,
        SyncAction::FetchCandidate {
            url: "mods.json".to_string(),
            filename: "mods.json.new".to_string()
        }
    );
    assert_eq!(sync.stage, SyncStage::FetchingCandidate);
}
