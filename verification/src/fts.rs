//! The first-time-setup wizard: an ordered, closed sequence of steps with
//! per-step validation gating forward and back navigation, and a controller
//! that routes Previous/Next clicks and step-local messages.

use vstd::prelude::*;
use vstd::pervasive::VecAdditionalExecFns;
use crate::util::{
    FsSnapshot, spec_is_valid_install_dir, is_valid_megamix_dir, join_path, game_exe_name,
    lemma_empty_path_never_valid,
};

verus! {

/// A message addressed to the current step.
#[derive(Debug, Clone)]
pub enum StepMessage {
    /// The directory string on the selection step was edited or filled in.
    GameDirChanged(String),
    /// The user asked to browse for the directory with the system picker.
    BrowseClicked,
}

/// What the caller must do after a step handled a message; the directory
/// picker is an operating-system service the caller invokes, reporting the
/// choice back as a `GameDirChanged` message (with the empty string on
/// cancellation or failure).
#[derive(Debug, Clone, Copy, PartialEq, Eq, Structural)]
pub enum StepAction {
    Nothing,
    OpenDirectoryPicker,
}

/// One wizard step.
pub enum Step {
    Welcome,
    FindGameDirectory { dir: String },
    End,
}

impl Step {
    /// Whether this step lets the user continue: always from the welcome
    /// step, never from the final step, and from the directory-selection step
    /// exactly when the held directory is a valid install directory.
    pub open spec fn spec_can_continue(self, fs: FsSnapshot) -> bool {
        match self {
            Step::Welcome => true,
            Step::FindGameDirectory { dir } => spec_is_valid_install_dir(fs, dir@),
            Step::End => false,
        }
    }

    /// Whether this step lets the user go back: from every step but the
    /// first.
    pub open spec fn spec_can_go_back(self) -> bool {
        !(self is Welcome)
    }

    /// Whether this step lets the user continue, judged against the
    /// filesystem snapshot `fs`.
    pub fn can_continue(&self, fs: &FsSnapshot) -> (r: bool)
        ensures
            r == self.spec_can_continue(*fs),
    {
        match self {
            Step::Welcome => true,
            Step::FindGameDirectory { dir } => is_valid_megamix_dir(fs, dir),
            Step::End => false,
        }
    }

    /// Whether this step lets the user go back.
    pub fn can_go_back(&self) -> (r: bool)
        ensures
            r == self.spec_can_go_back(),
    {
        match self {
            Step::Welcome => false,
            _ => true,
        }
    }

    /// Handle a step-local message: a directory change replaces the held
    /// directory string when this is the directory-selection step and is
    /// ignored elsewhere; a browse request asks the caller to open the
    /// system directory picker.
    pub fn update(&mut self, msg: StepMessage) -> (act: StepAction)
        ensures
            msg matches StepMessage::GameDirChanged(input) ==> {
                &&& act is Nothing
                &&& *old(self) is FindGameDirectory ==> *final(self) == (Step::FindGameDirectory {
                    dir: input,
                })
                &&& !(*old(self) is FindGameDirectory) ==> *final(self) == *old(self)
            },
            msg is BrowseClicked ==> act is OpenDirectoryPicker && *final(self) == *old(self),
    {
        match msg {
            StepMessage::GameDirChanged(input) => {
                let is_dir_step = match self {
                    Step::FindGameDirectory { .. } => true,
                    _ => false,
                };
                if is_dir_step {
                    *self = Step::FindGameDirectory { dir: input };
                }
                StepAction::Nothing
            },
            StepMessage::BrowseClicked => StepAction::OpenDirectoryPicker,
        }
    }
}

/// The ordered step sequence with its current position.
pub struct Steps {
    steps: Vec<Step>,
    current: usize,
}

impl Steps {
    /// The steps in order.
    pub closed spec fn steps_seq(self) -> Seq<Step> {
        self.steps@
    }

    /// The position of the current step.
    pub closed spec fn current_index(self) -> int {
        self.current as int
    }

    /// How many steps the sequence holds.
    pub open spec fn num_steps(self) -> int {
        self.steps_seq().len() as int
    }

    /// The current step.
    pub open spec fn current_step(self) -> Step {
        self.steps_seq()[self.current_index()]
    }

    /// The sequence is the closed wizard order — welcome, directory
    /// selection, end — and the current position is in bounds.
    pub open spec fn wf(self) -> bool {
        &&& self.steps_seq().len() == 3
        &&& self.steps_seq()[0] is Welcome
        &&& self.steps_seq()[1] is FindGameDirectory
        &&& self.steps_seq()[2] is End
        &&& 0 <= self.current_index() < 3
    }

    /// Forward navigation is allowed: a step follows and the current step's
    /// continue gate is open.
    pub open spec fn spec_can_continue(self, fs: FsSnapshot) -> bool {
        self.current_index() + 1 < self.num_steps() && self.current_step().spec_can_continue(fs)
    }

    /// Back navigation is allowed: a step precedes and the current step's
    /// back gate is open.
    pub open spec fn spec_has_prev(self) -> bool {
        self.current_index() > 0 && self.current_step().spec_can_go_back()
    }

    /// The wizard order: welcome, directory selection (starting empty), end;
    /// positioned at the welcome step.
    pub fn new() -> (r: Self)
        ensures
            r.wf(),
            r.current_index() == 0,
            r.current_step() is Welcome,
            r.steps_seq()[1] matches Step::FindGameDirectory { dir } && dir@ == Seq::<
                char,
            >::empty(),
    {
        let mut steps: Vec<Step> = Vec::new();
        steps.push(Step::Welcome);
        steps.push(Step::FindGameDirectory { dir: String::new() });
        steps.push(Step::End);
        Steps { steps, current: 0 }
    }

    /// Route a message to the current step only; every other step is left as
    /// it is, and the position does not move.
    pub fn update(&mut self, msg: StepMessage) -> (act: StepAction)
        requires
            old(self).wf(),
        ensures
            final(self).wf(),
            final(self).current_index() == old(self).current_index(),
            final(self).num_steps() == old(self).num_steps(),
            forall|i: int|
                0 <= i < old(self).num_steps() && i != old(self).current_index()
                    ==> final(self).steps_seq()[i] == old(self).steps_seq()[i],
            msg matches StepMessage::GameDirChanged(input) ==> {
                &&& act is Nothing
                &&& old(self).current_step() is FindGameDirectory ==> final(self).current_step()
                    == (Step::FindGameDirectory { dir: input })
                &&& !(old(self).current_step() is FindGameDirectory) ==> final(self).current_step()
                    == old(self).current_step()
            },
            msg is BrowseClicked ==> act is OpenDirectoryPicker && final(self).current_step()
                == old(self).current_step(),
    {
        let cur = self.current;
        let ghost prior = self.steps@;
        let mut step = self.steps.remove(cur);
        let act = step.update(msg);
        self.steps.insert(cur, step);
        proof {
            assert(self.steps@ =~= prior.update(cur as int, self.steps@[cur as int]));
        }
        act
    }

    /// Move to the next step when one follows and the current step's
    /// continue gate is open; otherwise stay. The position never passes the
    /// last step.
    pub fn advance(&mut self, fs: &FsSnapshot)
        requires
            old(self).wf(),
        ensures
            final(self).wf(),
            final(self).steps_seq() == old(self).steps_seq(),
            old(self).spec_can_continue(*fs) ==> final(self).current_index() == old(self).current_index() + 1,
            !old(self).spec_can_continue(*fs) ==> *final(self) == *old(self),
            final(self).current_index() < final(self).num_steps(),
    {
        if self.can_continue(fs) {
            self.current = self.current + 1;
        }
    }

    /// Move to the previous step when one precedes and the current step's
    /// back gate is open; otherwise stay. The position never drops below the
    /// first step.
    pub fn go_back(&mut self)
        requires
            old(self).wf(),
        ensures
            final(self).wf(),
            final(self).steps_seq() == old(self).steps_seq(),
            old(self).spec_has_prev() ==> final(self).current_index() == old(self).current_index()
                - 1,
            !old(self).spec_has_prev() ==> *final(self) == *old(self),
            final(self).current_index() >= 0,
            old(self).current_index() == 0 ==> final(self).current_index() == 0,
    {
        if self.has_prev() {
            self.current = self.current - 1;
        }
    }

    /// Whether back navigation is allowed from the current step.
    pub fn has_prev(&self) -> (r: bool)
        requires
            self.wf(),
        ensures
            r == self.spec_has_prev(),
    {
        if self.current > 0 {
            let step = &self.steps[self.current];
            step.can_go_back()
        } else {
            false
        }
    }

    /// Whether forward navigation is allowed from the current step.
    pub fn can_continue(&self, fs: &FsSnapshot) -> (r: bool)
        requires
            self.wf(),
        ensures
            r == self.spec_can_continue(*fs),
    {
        if self.current + 1 < self.steps.len() {
            let step = &self.steps[self.current];
            step.can_continue(fs)
        } else {
            false
        }
    }

    /// The position of the current step.
    pub fn position(&self) -> (r: usize)
        ensures
            r as int == self.current_index(),
    {
        self.current
    }

    /// The directory string held by the directory-selection step.
    pub fn game_dir(&self) -> (r: &String)
        requires
            self.wf(),
        ensures
            self.steps_seq()[1] matches Step::FindGameDirectory { dir } && r@ == dir@,
    {
        match &self.steps[1] {
            Step::FindGameDirectory { dir } => dir,
            _ => vstd::pervasive::unreached(),
        }
    }
}

/// A message to the wizard controller.
#[derive(Debug, Clone)]
pub enum FTSMessage {
    PrevClicked,
    NextClicked,
    FtsStepMsg(StepMessage),
    /// Declared for a parent-facing completion signal; nothing emits it yet.
    FtsDone,
}

/// The wizard controller: the step sequence behind Previous/Next controls.
pub struct FirstTimeSetup {
    steps: Steps,
}

/// What one wizard update does: `post` and `act` are the controller and
/// requested action after `pre` handled `message` against the filesystem
/// snapshot `fs`. Previous and Next move through the sequence exactly when
/// their gates allow and request nothing; a step-local message reaches the
/// current step only, and only a browse request asks for the directory
/// picker; the declared completion signal does nothing.
pub open spec fn fts_update_spec(
    pre: FirstTimeSetup,
    fs: FsSnapshot,
    message: FTSMessage,
    post: FirstTimeSetup,
    act: StepAction,
) -> bool {
    &&& post.steps().num_steps() == pre.steps().num_steps()
    &&& (message is PrevClicked ==> {
        &&& act is Nothing
        &&& post.steps().steps_seq() == pre.steps().steps_seq()
        &&& (pre.steps().spec_has_prev() ==> post.steps().current_index() == pre.steps().current_index() - 1)
        &&& (!pre.steps().spec_has_prev() ==> post.steps() == pre.steps())
        &&& (pre.steps().current_index() == 0 ==> post.steps().current_index() == 0)
    })
    &&& (message is NextClicked ==> {
        &&& act is Nothing
        &&& post.steps().steps_seq() == pre.steps().steps_seq()
        &&& (pre.steps().spec_can_continue(fs) ==> post.steps().current_index() == pre.steps().current_index() + 1)
        &&& (!pre.steps().spec_can_continue(fs) ==> post.steps() == pre.steps())
        &&& post.steps().current_index() < post.steps().num_steps()
    })
    &&& (message matches FTSMessage::FtsStepMsg(smsg) ==> {
        &&& post.steps().current_index() == pre.steps().current_index()
        &&& forall|i: int|
            0 <= i < pre.steps().num_steps() && i != pre.steps().current_index()
                ==> post.steps().steps_seq()[i] == pre.steps().steps_seq()[i]
        &&& (smsg matches StepMessage::GameDirChanged(input) ==> {
            &&& act is Nothing
            &&& (pre.steps().current_step() is FindGameDirectory ==> post.steps().current_step() == (Step::FindGameDirectory { dir: input }))
            &&& (!(pre.steps().current_step() is FindGameDirectory) ==> post.steps().current_step() == pre.steps().current_step())
        })
        &&& (smsg is BrowseClicked ==> act is OpenDirectoryPicker && post.steps().current_step() == pre.steps().current_step())
    })
    &&& (message is FtsDone ==> act is Nothing && post == pre)
}

impl FirstTimeSetup {
    /// The wrapped step sequence.
    pub closed spec fn steps(self) -> Steps {
        self.steps
    }

    /// The wrapped step sequence is well-formed.
    pub open spec fn wf(self) -> bool {
        self.steps().wf()
    }

    /// A wizard at the welcome step with an empty directory selection.
    pub fn new() -> (r: Self)
        ensures
            r.wf(),
            r.steps().current_index() == 0,
            r.steps().current_step() is Welcome,
            r.steps().steps_seq()[1] matches Step::FindGameDirectory { dir } && dir@ == Seq::<
                char,
            >::empty(),
    {
        FirstTimeSetup { steps: Steps::new() }
    }

    /// Route a wizard message: Previous and Next move through the sequence
    /// under its gates, and a step-local message goes to the current step,
    /// whose requested action is handed back to the caller.
    pub fn update(&mut self, fs: &FsSnapshot, message: FTSMessage) -> (act: StepAction)
        requires
            old(self).wf(),
        ensures
            final(self).wf(),
            fts_update_spec(*old(self), *fs, message, *final(self), act),
    {
        match message {
            FTSMessage::PrevClicked => {
                self.steps.go_back();
                StepAction::Nothing
            },
            FTSMessage::NextClicked => {
                self.steps.advance(fs);
                StepAction::Nothing
            },
            FTSMessage::FtsStepMsg(smsg) => self.steps.update(smsg),
            FTSMessage::FtsDone => StepAction::Nothing,
        }
    }

    /// Whether back navigation is allowed from the current step.
    pub fn has_prev(&self) -> (r: bool)
        requires
            self.wf(),
        ensures
            r == self.steps().spec_has_prev(),
    {
        self.steps.has_prev()
    }

    /// Whether forward navigation is allowed from the current step.
    pub fn can_continue(&self, fs: &FsSnapshot) -> (r: bool)
        requires
            self.wf(),
        ensures
            r == self.steps().spec_can_continue(*fs),
    {
        self.steps.can_continue(fs)
    }

    /// The position of the current step.
    pub fn position(&self) -> (r: usize)
        ensures
            r as int == self.steps().current_index(),
    {
        self.steps.position()
    }

    /// The directory string held by the directory-selection step.
    pub fn game_dir(&self) -> (r: &String)
        requires
            self.wf(),
        ensures
            self.steps().steps_seq()[1] matches Step::FindGameDirectory { dir } && r@ == dir@,
    {
        self.steps.game_dir()
    }
}

/// On the directory-selection step the continue gate is exactly install-
/// directory validity: it is shut for the empty string and whenever the game
/// executable is absent from the chosen directory, and open once the held
/// directory is valid.
pub proof fn lemma_find_game_directory_gate(fs: FsSnapshot, dir: String)
    requires
        fs.wf(),
    ensures
        (Step::FindGameDirectory { dir }).spec_can_continue(fs) == spec_is_valid_install_dir(
            fs,
            dir@,
        ),
        dir@.len() == 0 ==> !(Step::FindGameDirectory { dir }).spec_can_continue(fs),
        !fs.contains_path(join_path(dir@, game_exe_name())) ==> !(Step::FindGameDirectory {
            dir,
        }).spec_can_continue(fs),
{
    if dir@.len() == 0 {
        assert(dir@ =~= Seq::<char>::empty());
        lemma_empty_path_never_valid(fs);
    }
}

} // verus!
