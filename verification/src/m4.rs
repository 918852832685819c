//! The top-level application controller: a state machine driven by the
//! settings-load outcome and install-directory validity, delegating to the
//! first-time-setup wizard while it is active.

use vstd::prelude::*;
use vstd::string::*;
use crate::fts;
use crate::fts::{FirstTimeSetup, StepAction, fts_update_spec};
use crate::m4_settings::{LoadError, LoadErrorType, M4Settings};
use crate::util::{FsSnapshot, spec_is_valid_install_dir, is_valid_megamix_dir};

verus! {

/// The top-level application state.
#[derive(PartialEq)]
pub enum M4State {
    /// The settings load is still in flight.
    LoadingScreen,
    /// A full-screen error message.
    ErrorScreen(String),
    /// The first-time-setup wizard is active.
    FirstTimeSetup,
    /// The main screen: a valid configuration was found.
    Home,
}

/// A message to the application controller.
#[derive(Debug)]
pub enum Message {
    /// The settings load finished with this outcome.
    LoadedSettings(Result<M4Settings, LoadError>),
    /// A wizard message to forward while setup is active.
    FTSMessage(fts::FTSMessage),
}

/// What the caller must do after the controller handled a message: nothing,
/// start the asynchronous settings load, or open the system directory
/// picker.
#[derive(Debug, Clone, Copy, PartialEq, Eq, Structural)]
pub enum M4Action {
    Nothing,
    LoadSettings,
    OpenDirectoryPicker,
}

/// The application-level action a wizard step action asks for.
pub open spec fn m4_action_of_step(sact: StepAction) -> M4Action {
    match sact {
        StepAction::Nothing => M4Action::Nothing,
        StepAction::OpenDirectoryPicker => M4Action::OpenDirectoryPicker,
    }
}

/// The application controller.
pub struct M4 {
    state: M4State,
    settings: M4Settings,
    fts: FirstTimeSetup,
}

impl M4 {
    /// The current application state.
    pub closed spec fn spec_state(self) -> M4State {
        self.state
    }

    /// The settings record as last loaded.
    pub closed spec fn spec_settings(self) -> M4Settings {
        self.settings
    }

    /// The wizard controller.
    pub closed spec fn spec_fts(self) -> FirstTimeSetup {
        self.fts
    }

    /// The wrapped wizard is well-formed.
    pub open spec fn wf(self) -> bool {
        self.spec_fts().wf()
    }

    /// A fresh application: loading screen shown, default settings, wizard
    /// at its first step; the caller is asked to start the settings load.
    pub fn new() -> (r: (M4, M4Action))
        ensures
            r.0.wf(),
            r.0.spec_state() is LoadingScreen,
            r.0.spec_settings().game_dir@ == Seq::<char>::empty(),
            r.0.spec_fts().steps().current_index() == 0,
            r.0.spec_fts().steps().current_step() is Welcome,
            r.1 is LoadSettings,
    {
        let m4 = M4 {
            state: M4State::LoadingScreen,
            settings: M4Settings::new(),
            fts: FirstTimeSetup::new(),
        };
        (m4, M4Action::LoadSettings)
    }

    /// The window title.
    pub fn title(&self) -> (r: String)
        ensures
            r@ == "M4"@,
    {
        "M4".to_owned()
    }

    /// Handle one message.
    ///
    /// A load outcome selects the next state: an unopenable file shows the
    /// error screen, an absent file or a missing or invalid game directory
    /// enters first-time setup, and a valid game directory goes home. A
    /// wizard message is forwarded only while setup is active and is a
    /// defensive no-op in every other state.
    pub fn update(&mut self, fs: &FsSnapshot, message: Message) -> (act: M4Action)
        requires
            old(self).wf(),
        ensures
            final(self).wf(),
            message matches Message::LoadedSettings(outcome) ==> {
                &&& act is Nothing
                &&& final(self).spec_fts() == old(self).spec_fts()
                &&& (outcome matches Err(e) ==> {
                    &&& final(self).spec_settings() == old(self).spec_settings()
                    &&& (e.0 is CantOpenFile ==> {
                        &&& final(self).spec_state() matches M4State::ErrorScreen(m)
                        &&& m@ == "Cannot open settings file!"@
                    })
                    &&& (e.0 is FileNotFound ==> final(self).spec_state() is FirstTimeSetup)
                })
                &&& (outcome matches Ok(s) ==> {
                    &&& final(self).spec_settings() == s
                    &&& (s.game_dir@.len() == 0 ==> final(self).spec_state() is FirstTimeSetup)
                    &&& (s.game_dir@.len() > 0 && spec_is_valid_install_dir(*fs, s.game_dir@)
                        ==> final(self).spec_state() is Home)
                    &&& (s.game_dir@.len() > 0 && !spec_is_valid_install_dir(*fs, s.game_dir@)
                        ==> final(self).spec_state() is FirstTimeSetup)
                })
            },
            message matches Message::FTSMessage(fmsg) ==> {
                &&& final(self).spec_settings() == old(self).spec_settings()
                &&& (!(old(self).spec_state() is FirstTimeSetup) ==> act is Nothing && *final(self)
                    == *old(self))
                &&& (old(self).spec_state() is FirstTimeSetup ==> {
                    &&& final(self).spec_state() is FirstTimeSetup
                    &&& exists|sact: StepAction|
                        fts_update_spec(
                            old(self).spec_fts(),
                            *fs,
                            fmsg,
                            final(self).spec_fts(),
                            sact,
                        ) && act == m4_action_of_step(sact)
                })
            },
    {
        match message {
            Message::LoadedSettings(outcome) => {
                match outcome {
                    Err(e) => {
                        match e.0 {
                            LoadErrorType::CantOpenFile => {
                                self.state = M4State::ErrorScreen(
                                    "Cannot open settings file!".to_owned(),
                                );
                            },
                            LoadErrorType::FileNotFound => {
                                self.state = M4State::FirstTimeSetup;
                            },
                        }
                    },
                    Ok(s) => {
                        self.settings = s;
                        if self.settings.game_dir.as_str().is_empty() {
                            self.state = M4State::FirstTimeSetup;
                        } else if is_valid_megamix_dir(fs, &self.settings.game_dir) {
                            self.state = M4State::Home;
                        } else {
                            self.state = M4State::FirstTimeSetup;
                        }
                    },
                }
                M4Action::Nothing
            },
            Message::FTSMessage(fmsg) => {
                let in_setup = match &self.state {
                    M4State::FirstTimeSetup => true,
                    _ => false,
                };
                if in_setup {
                    let sact = self.fts.update(fs, fmsg);
                    let ret = match sact {
                        StepAction::Nothing => M4Action::Nothing,
                        StepAction::OpenDirectoryPicker => M4Action::OpenDirectoryPicker,
                    };
                    proof {
                        assert(ret == m4_action_of_step(sact));
                        assert(exists|sa: StepAction|
                            fts_update_spec(
                                old(self).spec_fts(),
                                *fs,
                                fmsg,
                                self.spec_fts(),
                                sa,
                            ) && ret == m4_action_of_step(sa)) by {
                            assert(fts_update_spec(
                                old(self).spec_fts(),
                                *fs,
                                fmsg,
                                self.spec_fts(),
                                sact,
                            ) && ret == m4_action_of_step(sact));
                        }
                    }
                    ret
                } else {
                    M4Action::Nothing
                }
            },
        }
    }

    /// The current application state, for display.
    pub fn state(&self) -> (r: &M4State)
        ensures
            *r == self.spec_state(),
    {
        &self.state
    }

    /// The settings record as last loaded.
    pub fn settings(&self) -> (r: &M4Settings)
        ensures
            *r == self.spec_settings(),
    {
        &self.settings
    }

    /// The wizard controller, for display.
    pub fn fts(&self) -> (r: &FirstTimeSetup)
        ensures
            *r == self.spec_fts(),
    {
        &self.fts
    }
}

} // verus!
