use m4::fts::{FTSMessage, StepMessage};
use m4::m4::{M4Action, M4State, Message, M4};
use m4::m4_settings::{LoadError, LoadErrorType, M4Settings};
use m4::util::FsSnapshot;

fn valid_fs() -> FsSnapshot {
    let mut fs = FsSnapshot::new();
    fs.record_existing("/games/mm".to_string());
    fs.record_existing("/games/mm/DivaMegaMix.exe".to_string());
    fs
}

fn settings_with(dir: &str) -> M4Settings {
    M4Settings {
        game_dir: dir.to_string(),
    }
}

#[test]
fn startup_shows_loading_and_requests_the_load() {
    let (app, action) = M4::new();
    assert_eq!(action, M4Action::LoadSettings);
    assert!(matches!(app.state(), M4State::LoadingScreen));
    assert_eq!(app.settings().game_dir, "");
}

#[test]
fn title_is_fixed() {
    let (app, _) = M4::new();
    assert_eq!(app.title(), "M4");
}

#[test]
fn fresh_install_enters_setup_at_welcome() {
    let fs = FsSnapshot::new();
    let (mut app, _) = M4::new();
    let act = app.update(
        &fs,
        Message::LoadedSettings(Err(LoadError(LoadErrorType::FileNotFound))),
    );
    assert_eq!(act, M4Action::Nothing);
    assert!(matches!(app.state(), M4State::FirstTimeSetup));
    assert_eq!(app.fts().position(), 0);
    assert!(!app.fts().has_prev());
    assert!(app.fts().can_continue(&fs));
}

#[test]
fn unreadable_settings_file_shows_the_error_screen() {
    let fs = FsSnapshot::new();
    let (mut app, _) = M4::new();
    app.update(
        &fs,
        Message::LoadedSettings(Err(LoadError(LoadErrorType::CantOpenFile))),
    );
    match app.state() {
        M4State::ErrorScreen(m) => assert_eq!(m, "Cannot open settings file!"),
        _ => panic!("expected the error screen"),
    }
}

#[test]
fn empty_game_dir_enters_setup() {
    let fs = valid_fs();
    let (mut app, _) = M4::new();
    app.update(&fs, Message::LoadedSettings(Ok(settings_with(""))));
    assert!(matches!(app.state(), M4State::FirstTimeSetup));
}

#[test]
fn valid_game_dir_goes_home() {
    let fs = valid_fs();
    let (mut app, _) = M4::new();
    app.update(&fs, Message::LoadedSettings(Ok(settings_with("/games/mm"))));
    assert!(matches!(app.state(), M4State::Home));
    assert_eq!(app.settings().game_dir, "/games/mm");
}

#[test]
fn invalid_game_dir_enters_setup() {
    let mut fs = FsSnapshot::new();
    fs.record_existing("/games/mm".to_string());
    let (mut app, _) = M4::new();
    app.update(&fs, Message::LoadedSettings(Ok(settings_with("/games/mm"))));
    assert!(matches!(app.state(), M4State::FirstTimeSetup));
}

#[test]
fn wizard_messages_flow_through_the_application() {
    let fs = valid_fs();
    let (mut app, _) = M4::new();
    app.update(
        &fs,
        Message::LoadedSettings(Err(LoadError(LoadErrorType::FileNotFound))),
    );
    app.update(&fs, Message::FTSMessage(FTSMessage::NextClicked));
    assert_eq!(app.fts().position(), 1);
    let act = app.update(
        &fs,
        Message::FTSMessage(FTSMessage::FtsStepMsg(StepMessage::BrowseClicked)),
    );
    assert_eq!(act, M4Action::OpenDirectoryPicker);
    app.update(
        &fs,
        Message::FTSMessage(FTSMessage::FtsStepMsg(StepMessage::GameDirChanged(
            "/games/mm".to_string(),
        ))),
    );
    assert_eq!(app.fts().game_dir(), "/games/mm");
    assert!(matches!(app.state(), M4State::FirstTimeSetup));
}

#[test]
fn wizard_messages_are_noops_outside_setup() {
    let fs = valid_fs();
    let (mut app, _) = M4::new();
    app.update(&fs, Message::LoadedSettings(Ok(settings_with("/games/mm"))));
    assert!(matches!(app.state(), M4State::Home));
    let act = app.update(&fs, Message::FTSMessage(FTSMessage::NextClicked));
    assert_eq!(act, M4Action::Nothing);
    assert!(matches!(app.state(), M4State::Home));
    assert_eq!(app.fts().position(), 0);
}
