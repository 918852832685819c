use m4::fts::{FTSMessage, FirstTimeSetup, StepAction, StepMessage};
use m4::util::FsSnapshot;

fn valid_fs() -> FsSnapshot {
    let mut fs = FsSnapshot::new();
    fs.record_existing("/games/mm".to_string());
    fs.record_existing("/games/mm/DivaMegaMix.exe".to_string());
    fs
}

#[test]
fn wizard_starts_at_welcome() {
    let fts = FirstTimeSetup::new();
    let fs = FsSnapshot::new();
    assert_eq!(fts.position(), 0);
    assert!(!fts.has_prev());
    assert!(fts.can_continue(&fs));
    assert_eq!(fts.game_dir(), "");
}

#[test]
fn back_from_welcome_stays_at_welcome() {
    let mut fts = FirstTimeSetup::new();
    let fs = FsSnapshot::new();
    let act = fts.update(&fs, FTSMessage::PrevClicked);
    assert_eq!(act, StepAction::Nothing);
    assert_eq!(fts.position(), 0);
}

#[test]
fn advance_gated_by_directory_validity() {
    let mut fts = FirstTimeSetup::new();
    let fs = valid_fs();
    fts.update(&fs, FTSMessage::NextClicked);
    assert_eq!(fts.position(), 1);
    // No directory has been chosen yet, so forward navigation is blocked.
    assert!(!fts.can_continue(&fs));
    fts.update(&fs, FTSMessage::NextClicked);
    assert_eq!(fts.position(), 1);
    // A directory missing the game executable keeps it shut.
    fts.update(
        &fs,
        FTSMessage::FtsStepMsg(StepMessage::GameDirChanged("/games/other".to_string())),
    );
    assert!(!fts.can_continue(&fs));
    // A valid directory opens it.
    fts.update(
        &fs,
        FTSMessage::FtsStepMsg(StepMessage::GameDirChanged("/games/mm".to_string())),
    );
    assert_eq!(fts.game_dir(), "/games/mm");
    assert!(fts.can_continue(&fs));
    fts.update(&fs, FTSMessage::NextClicked);
    assert_eq!(fts.position(), 2);
}

#[test]
fn advance_never_passes_the_last_step() {
    let mut fts = FirstTimeSetup::new();
    let fs = valid_fs();
    fts.update(&fs, FTSMessage::NextClicked);
    fts.update(
        &fs,
        FTSMessage::FtsStepMsg(StepMessage::GameDirChanged("/games/mm".to_string())),
    );
    fts.update(&fs, FTSMessage::NextClicked);
    assert_eq!(fts.position(), 2);
    // The final step's continue gate is always shut.
    assert!(!fts.can_continue(&fs));
    fts.update(&fs, FTSMessage::NextClicked);
    assert_eq!(fts.position(), 2);
}

#[test]
fn back_navigation_walks_to_welcome() {
    let mut fts = FirstTimeSetup::new();
    let fs = valid_fs();
    fts.update(&fs, FTSMessage::NextClicked);
    assert_eq!(fts.position(), 1);
    assert!(fts.has_prev());
    fts.update(&fs, FTSMessage::PrevClicked);
    assert_eq!(fts.position(), 0);
    fts.update(&fs, FTSMessage::PrevClicked);
    assert_eq!(fts.position(), 0);
}

#[test]
fn browse_requests_the_directory_picker() {
    let mut fts = FirstTimeSetup::new();
    let fs = FsSnapshot::new();
    fts.update(&fs, FTSMessage::NextClicked);
    let act = fts.update(&fs, FTSMessage::FtsStepMsg(StepMessage::BrowseClicked));
    assert_eq!(act, StepAction::OpenDirectoryPicker);
}

#[test]
fn cancelled_picker_clears_the_directory() {
    let mut fts = FirstTimeSetup::new();
    let fs = valid_fs();
    fts.update(&fs, FTSMessage::NextClicked);
    fts.update(
        &fs,
        FTSMessage::FtsStepMsg(StepMessage::GameDirChanged("/games/mm".to_string())),
    );
    assert!(fts.can_continue(&fs));
    let act = fts.update(&fs, FTSMessage::FtsStepMsg(StepMessage::BrowseClicked));
    assert_eq!(act, StepAction::OpenDirectoryPicker);
    // The picker was cancelled: the completion message carries the empty
    // string.
    fts.update(
        &fs,
        FTSMessage::FtsStepMsg(StepMessage::GameDirChanged(String::new())),
    );
    assert_eq!(fts.game_dir(), "");
    assert!(!fts.can_continue(&fs));
}

#[test]
fn directory_change_ignored_off_the_selection_step() {
    let mut fts = FirstTimeSetup::new();
    let fs = valid_fs();
    let act = fts.update(
        &fs,
        FTSMessage::FtsStepMsg(StepMessage::GameDirChanged("/games/mm".to_string())),
    );
    assert_eq!(act, StepAction::Nothing);
    assert_eq!(fts.position(), 0);
    assert_eq!(fts.game_dir(), "");
}

#[test]
fn done_signal_changes_nothing() {
    let mut fts = FirstTimeSetup::new();
    let fs = FsSnapshot::new();
    let act = fts.update(&fs, FTSMessage::FtsDone);
    assert_eq!(act, StepAction::Nothing);
    assert_eq!(fts.position(), 0);
}
