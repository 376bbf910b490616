//! The installation orchestrator.
//!
//! A single invocation drives a fixed step sequence: operating-system gate,
//! game-path resolution, BepInEx installation, launch-option setup, one game
//! launch, mod installation, completion signal. Each step may end the whole
//! invocation early with one terminal [`InstallResult`].
//!
//! The orchestrator is a state machine over plain values. [`Installer::next_action`]
//! names the outside work the embedding shell must perform next (a collaborator
//! call, a notification, or stopping with the terminal result), and
//! [`Installer::step`] consumes the outcome of that work as an [`InstallEvent`].
//! The shell performs the effects; the sequencing and the error-code contract
//! are verified here.
//!
//! Re-entry is stateless: the caller supplies the game path and two booleans
//! ("launch option already set", "game already launched once") afresh on every
//! invocation, and those flags alone decide which steps are skipped.

use vstd::prelude::*;

use crate::util::Os;
use crate::util::spec_os_from_ident;

verus! {

/// Progress tags emitted to the UI shell as steps begin or complete.
///
/// The numeric encoding ([`InstallSteps::code`]) is a cross-boundary contract
/// shared with the shell's mirrored definition and must stay stable.
#[derive(Clone, Copy, PartialEq, Eq, Structural, Debug)]
pub enum InstallSteps {
    DownloadBepInEx,
    InstallBepInEx,
    LaunchOption,
    LaunchGame,
    DownloadWbmZip,
    InstallWbm,
    Done,
}

impl InstallSteps {
    /// The wire encoding of each progress tag: its position in the declaration.
    pub open spec fn spec_code(self) -> int {
        match self {
            InstallSteps::DownloadBepInEx => 0,
            InstallSteps::InstallBepInEx => 1,
            InstallSteps::LaunchOption => 2,
            InstallSteps::LaunchGame => 3,
            InstallSteps::DownloadWbmZip => 4,
            InstallSteps::InstallWbm => 5,
            InstallSteps::Done => 6,
        }
    }

    /// Encodes the tag for the UI shell.
    pub fn code(&self) -> (c: i64)
        ensures
            c == self.spec_code(),
    {
        match self {
            InstallSteps::DownloadBepInEx => 0,
            InstallSteps::InstallBepInEx => 1,
            InstallSteps::LaunchOption => 2,
            InstallSteps::LaunchGame => 3,
            InstallSteps::DownloadWbmZip => 4,
            InstallSteps::InstallWbm => 5,
            InstallSteps::Done => 6,
        }
    }
}

/// The terminal outcome of one orchestrator invocation: exactly one value
/// per invocation.
///
/// The numeric encoding ([`InstallResult::code`]) is a cross-boundary contract
/// shared with the UI shell's mirrored definition and must stay stable.
#[derive(Clone, Copy, PartialEq, Eq, Structural, Debug)]
pub enum InstallResult {
    NoErr,
    FailedToGetGamePath,
    UnsupportedOS,
    BepInExDownloadFailed,
    BepInExUnzipFailed,
    SetLaunchOption,
    LaunchGame,
    WBMDownloadFailed,
    WBMRemoveFailed,
    WBMDirectoryCreationFailed,
    WBMUnzipFailed,
}

impl InstallResult {
    /// The wire encoding of each outcome: its position in the declaration.
    pub open spec fn spec_code(self) -> int {
        match self {
            InstallResult::NoErr => 0,
            InstallResult::FailedToGetGamePath => 1,
            InstallResult::UnsupportedOS => 2,
            InstallResult::BepInExDownloadFailed => 3,
            InstallResult::BepInExUnzipFailed => 4,
            InstallResult::SetLaunchOption => 5,
            InstallResult::LaunchGame => 6,
            InstallResult::WBMDownloadFailed => 7,
            InstallResult::WBMRemoveFailed => 8,
            InstallResult::WBMDirectoryCreationFailed => 9,
            InstallResult::WBMUnzipFailed => 10,
        }
    }

    /// Encodes the outcome for the UI shell.
    pub fn code(&self) -> (c: i64)
        ensures
            c == self.spec_code(),
    {
        match self {
            InstallResult::NoErr => 0,
            InstallResult::FailedToGetGamePath => 1,
            InstallResult::UnsupportedOS => 2,
            InstallResult::BepInExDownloadFailed => 3,
            InstallResult::BepInExUnzipFailed => 4,
            InstallResult::SetLaunchOption => 5,
            InstallResult::LaunchGame => 6,
            InstallResult::WBMDownloadFailed => 7,
            InstallResult::WBMRemoveFailed => 8,
            InstallResult::WBMDirectoryCreationFailed => 9,
            InstallResult::WBMUnzipFailed => 10,
        }
    }
}

/// How the BepInEx-installer collaborator failed.
#[derive(Clone, Copy, PartialEq, Eq, Structural, Debug)]
pub enum BepInExError {
    DownloadFailed,
    UnzipFailed,
}

/// How the mod-installer collaborator failed.
#[derive(Clone, Copy, PartialEq, Eq, Structural, Debug)]
pub enum ModInstallError {
    DownloadFailed,
    RemoveFailed,
    DirectoryCreationFailed,
    UnzipFailed,
}

/// The stage an invocation is currently at.
#[derive(Clone, Copy, PartialEq, Eq, Structural, Debug)]
pub enum InstallPhase {
    /// Waiting for the default game path to be resolved.
    ResolvePath,
    /// Waiting for the BepInEx-installer collaborator.
    BepInEx,
    /// Waiting for the launch-option collaborator.
    LaunchOption,
    /// Waiting for the "launch the game once" collaborator.
    LaunchGame,
    /// Waiting for the mod-installer collaborator.
    ModInstall,
    /// Waiting for the completion notification to be emitted.
    EmitDone,
    /// The invocation has its terminal result.
    Finished(InstallResult),
}

/// The outside work the orchestrator asks the embedding shell to perform next.
#[derive(Clone, Copy, PartialEq, Eq, Structural, Debug)]
pub enum InstallAction {
    /// Look up the platform default game path and check it exists on disk.
    ResolveDefaultPath,
    /// Invoke the BepInEx-installer collaborator with the resolved game path.
    InstallBepInEx,
    /// Invoke the launch-option collaborator. Launch options are a
    /// Unix/Steam concern: on the windows branch the collaborator is
    /// expected to succeed without doing anything.
    SetupLaunchOption,
    /// Invoke the "launch the game once" collaborator.
    LaunchGameOnce,
    /// Invoke the mod-installer collaborator with the resolved game path.
    InstallMod,
    /// Emit the `Done` progress notification to the UI shell.
    EmitDone,
    /// Stop and report the terminal result to the caller.
    Finish(InstallResult),
}

/// The outcome of the outside work the shell was asked to perform.
#[derive(Debug)]
pub enum InstallEvent {
    /// The default-path resolver finished: the discovered path, or `None`.
    PathResolved(Option<String>),
    /// The BepInEx-installer collaborator finished.
    BepInExFinished(Result<(), BepInExError>),
    /// The launch-option collaborator finished; `true` on success.
    LaunchOptionFinished(bool),
    /// The "launch the game once" collaborator finished; `true` on success.
    GameLaunched(bool),
    /// The mod-installer collaborator finished.
    ModInstallFinished(Result<(), ModInstallError>),
    /// The `Done` notification was emitted.
    DoneEmitted,
}

/// The first working phase once the game path is known: BepInEx installation
/// unless the launch option is already set (a set launch option implies
/// BepInEx was installed by an earlier run), then launch-option setup unless
/// the game was already launched once, then the unconditional game launch.
pub open spec fn spec_after_path(is_launch_option_set: bool, was_game_launched: bool) -> InstallPhase {
    if !is_launch_option_set {
        InstallPhase::BepInEx
    } else if !was_game_launched {
        InstallPhase::LaunchOption
    } else {
        InstallPhase::LaunchGame
    }
}

/// One orchestrator invocation: the caller-supplied arguments plus the
/// current phase. The resolved game path is read-only after resolution.
pub struct Installer {
    /// The game install directory: caller-supplied, or filled in by the
    /// default-path resolver when the caller supplied an empty string.
    pub game_path: String,
    /// Caller flag: the platform launch option is already set, so BepInEx
    /// installation is skipped entirely.
    pub is_launch_option_set: bool,
    /// Caller flag: the game was already launched once after BepInEx
    /// installation, so launch-option setup is skipped.
    pub was_game_launched: bool,
    /// The stage the invocation is at.
    pub phase: InstallPhase,
}

impl Installer {
    /// The state a fresh invocation starts in: an unsupported operating
    /// system fails immediately, an empty game path asks for resolution,
    /// and otherwise work begins at the first non-skipped step.
    pub open spec fn spec_new(os: Os, game_path: String, is_launch_option_set: bool, was_game_launched: bool) -> Installer {
        Installer {
            game_path,
            is_launch_option_set,
            was_game_launched,
            phase: if os is Unsupported {
                InstallPhase::Finished(InstallResult::UnsupportedOS)
            } else if game_path@.len() == 0 {
                InstallPhase::ResolvePath
            } else {
                spec_after_path(is_launch_option_set, was_game_launched)
            },
        }
    }

    /// Starts an invocation from the caller's arguments and the platform
    /// identifier reported by the runtime. An empty `game_path` means
    /// "resolve the platform default".
    pub fn new(os_ident: &str, game_path: String, is_launch_option_set: bool, was_game_launched: bool) -> (r: Installer)
        ensures
            r == Installer::spec_new(spec_os_from_ident(os_ident@), game_path, is_launch_option_set, was_game_launched),
            r.wf(),
    {
        let os = Os::from_ident(os_ident);
        let phase = if matches!(os, Os::Unsupported) {
            InstallPhase::Finished(InstallResult::UnsupportedOS)
        } else if game_path.as_str().is_empty() {
            InstallPhase::ResolvePath
        } else if !is_launch_option_set {
            InstallPhase::BepInEx
        } else if !was_game_launched {
            InstallPhase::LaunchOption
        } else {
            InstallPhase::LaunchGame
        };
        Installer { game_path, is_launch_option_set, was_game_launched, phase }
    }

    /// The well-formedness every reachable state satisfies: the skip flags
    /// are honoured — with the launch option already set the BepInEx phase
    /// is never entered, and with the game already launched the
    /// launch-option phase is never entered.
    pub open spec fn wf(self) -> bool {
        &&& (self.is_launch_option_set ==> self.phase != InstallPhase::BepInEx)
        &&& (self.was_game_launched ==> self.phase != InstallPhase::LaunchOption)
    }

    /// The outside work to perform in each phase.
    pub open spec fn spec_next_action(self) -> InstallAction {
        match self.phase {
            InstallPhase::ResolvePath => InstallAction::ResolveDefaultPath,
            InstallPhase::BepInEx => InstallAction::InstallBepInEx,
            InstallPhase::LaunchOption => InstallAction::SetupLaunchOption,
            InstallPhase::LaunchGame => InstallAction::LaunchGameOnce,
            InstallPhase::ModInstall => InstallAction::InstallMod,
            InstallPhase::EmitDone => InstallAction::EmitDone,
            InstallPhase::Finished(result) => InstallAction::Finish(result),
        }
    }

    /// Names the outside work the shell must perform next.
    pub fn next_action(&self) -> (a: InstallAction)
        ensures
            a == self.spec_next_action(),
    {
        match &self.phase {
            InstallPhase::ResolvePath => InstallAction::ResolveDefaultPath,
            InstallPhase::BepInEx => InstallAction::InstallBepInEx,
            InstallPhase::LaunchOption => InstallAction::SetupLaunchOption,
            InstallPhase::LaunchGame => InstallAction::LaunchGameOnce,
            InstallPhase::ModInstall => InstallAction::InstallMod,
            InstallPhase::EmitDone => InstallAction::EmitDone,
            InstallPhase::Finished(result) => InstallAction::Finish(*result),
        }
    }

    /// The resolved game path, handed to the BepInEx and mod installers.
    pub fn game_path(&self) -> (p: &str)
        ensures
            p@ == self.game_path@,
    {
        self.game_path.as_str()
    }

    /// The transition relation: how each phase consumes the outcome of its
    /// outside work. A failure outcome moves straight to `Finished` with the
    /// step's single result code; an event that does not belong to the
    /// current phase changes nothing; a finished invocation never changes.
    pub open spec fn spec_step(self, event: InstallEvent) -> Installer {
        match self.phase {
            InstallPhase::ResolvePath => match event {
                InstallEvent::PathResolved(found) => match found {
                    None => self.with_phase(InstallPhase::Finished(InstallResult::FailedToGetGamePath)),
                    Some(path) => Installer {
                        game_path: path,
                        is_launch_option_set: self.is_launch_option_set,
                        was_game_launched: self.was_game_launched,
                        phase: spec_after_path(self.is_launch_option_set, self.was_game_launched),
                    },
                },
                _ => self,
            },
            InstallPhase::BepInEx => match event {
                InstallEvent::BepInExFinished(outcome) => match outcome {
                    Ok(()) => self.with_phase(
                        if !self.was_game_launched {
                            InstallPhase::LaunchOption
                        } else {
                            InstallPhase::LaunchGame
                        },
                    ),
                    Err(BepInExError::DownloadFailed) => self.with_phase(InstallPhase::Finished(InstallResult::BepInExDownloadFailed)),
                    Err(BepInExError::UnzipFailed) => self.with_phase(InstallPhase::Finished(InstallResult::BepInExUnzipFailed)),
                },
                _ => self,
            },
            InstallPhase::LaunchOption => match event {
                InstallEvent::LaunchOptionFinished(ok) => self.with_phase(
                    if ok {
                        InstallPhase::LaunchGame
                    } else {
                        InstallPhase::Finished(InstallResult::SetLaunchOption)
                    },
                ),
                _ => self,
            },
            InstallPhase::LaunchGame => match event {
                InstallEvent::GameLaunched(ok) => self.with_phase(
                    if ok {
                        InstallPhase::ModInstall
                    } else {
                        InstallPhase::Finished(InstallResult::LaunchGame)
                    },
                ),
                _ => self,
            },
            InstallPhase::ModInstall => match event {
                InstallEvent::ModInstallFinished(outcome) => match outcome {
                    Ok(()) => self.with_phase(InstallPhase::EmitDone),
                    Err(ModInstallError::DownloadFailed) => self.with_phase(InstallPhase::Finished(InstallResult::WBMDownloadFailed)),
                    Err(ModInstallError::RemoveFailed) => self.with_phase(InstallPhase::Finished(InstallResult::WBMRemoveFailed)),
                    Err(ModInstallError::DirectoryCreationFailed) => self.with_phase(InstallPhase::Finished(InstallResult::WBMDirectoryCreationFailed)),
                    Err(ModInstallError::UnzipFailed) => self.with_phase(InstallPhase::Finished(InstallResult::WBMUnzipFailed)),
                },
                _ => self,
            },
            InstallPhase::EmitDone => match event {
                InstallEvent::DoneEmitted => self.with_phase(InstallPhase::Finished(InstallResult::NoErr)),
                _ => self,
            },
            InstallPhase::Finished(_) => self,
        }
    }

    /// The same state with another phase.
    pub open spec fn with_phase(self, phase: InstallPhase) -> Installer {
        Installer {
            game_path: self.game_path,
            is_launch_option_set: self.is_launch_option_set,
            was_game_launched: self.was_game_launched,
            phase,
        }
    }

    /// Consumes the outcome of the last action and moves to the next phase.
    pub fn step(self, event: InstallEvent) -> (r: Installer)
        ensures
            r == self.spec_step(event),
    {
        let Installer { game_path, is_launch_option_set, was_game_launched, phase } = self;
        match (phase, event) {
            (InstallPhase::ResolvePath, InstallEvent::PathResolved(found)) => match found {
                None => Installer {
                    game_path,
                    is_launch_option_set,
                    was_game_launched,
                    phase: InstallPhase::Finished(InstallResult::FailedToGetGamePath),
                },
                Some(path) => Installer {
                    game_path: path,
                    is_launch_option_set,
                    was_game_launched,
                    phase: if !is_launch_option_set {
                        InstallPhase::BepInEx
                    } else if !was_game_launched {
                        InstallPhase::LaunchOption
                    } else {
                        InstallPhase::LaunchGame
                    },
                },
            },
            (InstallPhase::BepInEx, InstallEvent::BepInExFinished(outcome)) => {
                let phase = match outcome {
                    Ok(()) => if !was_game_launched {
                        InstallPhase::LaunchOption
                    } else {
                        InstallPhase::LaunchGame
                    },
                    Err(BepInExError::DownloadFailed) => InstallPhase::Finished(InstallResult::BepInExDownloadFailed),
                    Err(BepInExError::UnzipFailed) => InstallPhase::Finished(InstallResult::BepInExUnzipFailed),
                };
                Installer { game_path, is_launch_option_set, was_game_launched, phase }
            },
            (InstallPhase::LaunchOption, InstallEvent::LaunchOptionFinished(ok)) => {
                let phase = if ok {
                    InstallPhase::LaunchGame
                } else {
                    InstallPhase::Finished(InstallResult::SetLaunchOption)
                };
                Installer { game_path, is_launch_option_set, was_game_launched, phase }
            },
            (InstallPhase::LaunchGame, InstallEvent::GameLaunched(ok)) => {
                let phase = if ok {
                    InstallPhase::ModInstall
                } else {
                    InstallPhase::Finished(InstallResult::LaunchGame)
                };
                Installer { game_path, is_launch_option_set, was_game_launched, phase }
            },
            (InstallPhase::ModInstall, InstallEvent::ModInstallFinished(outcome)) => {
                let phase = match outcome {
                    Ok(()) => InstallPhase::EmitDone,
                    Err(ModInstallError::DownloadFailed) => InstallPhase::Finished(InstallResult::WBMDownloadFailed),
                    Err(ModInstallError::RemoveFailed) => InstallPhase::Finished(InstallResult::WBMRemoveFailed),
                    Err(ModInstallError::DirectoryCreationFailed) => InstallPhase::Finished(InstallResult::WBMDirectoryCreationFailed),
                    Err(ModInstallError::UnzipFailed) => InstallPhase::Finished(InstallResult::WBMUnzipFailed),
                };
                Installer { game_path, is_launch_option_set, was_game_launched, phase }
            },
            (InstallPhase::EmitDone, InstallEvent::DoneEmitted) => Installer {
                game_path,
                is_launch_option_set,
                was_game_launched,
                phase: InstallPhase::Finished(InstallResult::NoErr),
            },
            (phase, _) => Installer { game_path, is_launch_option_set, was_game_launched, phase },
        }
    }

    /// The state after a whole sequence of events, applied in order.
    pub open spec fn spec_run(self, events: Seq<InstallEvent>) -> Installer
        decreases events.len(),
    {
        if events.len() == 0 {
            self
        } else {
            self.spec_step(events[0]).spec_run(events.drop_first())
        }
    }
}

/// Every transition preserves well-formedness, so every state reachable
/// from [`Installer::new`] honours the skip flags.
pub proof fn lemma_step_preserves_wf(m: Installer, event: InstallEvent)
    requires
        m.wf(),
    ensures
        m.spec_step(event).wf(),
{
}

/// A finished invocation is terminal: no event changes it, and its only
/// remaining action is to report the terminal result — it performs no
/// further filesystem or network work.
pub proof fn lemma_finished_is_terminal(m: Installer, event: InstallEvent)
    requires
        m.phase is Finished,
    ensures
        m.spec_step(event) == m,
        m.spec_next_action() == InstallAction::Finish(m.phase->0),
{
}

/// A finished invocation stays unchanged under any whole sequence of events.
pub proof fn lemma_run_from_finished(m: Installer, events: Seq<InstallEvent>)
    requires
        m.phase is Finished,
    ensures
        m.spec_run(events) == m,
    decreases events.len(),
{
    if events.len() > 0 {
        lemma_finished_is_terminal(m, events[0]);
        lemma_run_from_finished(m, events.drop_first());
    }
}

/// Any unsupported operating-system identifier is rejected immediately: the
/// invocation starts finished with `UnsupportedOS`, asks for no collaborator
/// call, and no later event changes that — so it has no filesystem or
/// network side effects at all.
pub proof fn lemma_unsupported_os_rejected(
    game_path: String,
    is_launch_option_set: bool,
    was_game_launched: bool,
    events: Seq<InstallEvent>,
)
    ensures
        ({
            let m = Installer::spec_new(Os::Unsupported, game_path, is_launch_option_set, was_game_launched);
            &&& m.phase == InstallPhase::Finished(InstallResult::UnsupportedOS)
            &&& m.spec_next_action() == InstallAction::Finish(InstallResult::UnsupportedOS)
            &&& m.spec_run(events) == m
        }),
{
    let m = Installer::spec_new(Os::Unsupported, game_path, is_launch_option_set, was_game_launched);
    lemma_run_from_finished(m, events);
}

/// On a supported operating system with no game path supplied, the first
/// and only action is path resolution, and when no default is discoverable
/// the invocation finishes with `FailedToGetGamePath` before any other step
/// — in particular before any download — begins.
pub proof fn lemma_no_default_path_fails_first(
    os: Os,
    game_path: String,
    is_launch_option_set: bool,
    was_game_launched: bool,
    events: Seq<InstallEvent>,
)
    requires
        os !is Unsupported,
        game_path@.len() == 0,
    ensures
        ({
            let m = Installer::spec_new(os, game_path, is_launch_option_set, was_game_launched);
            let failed = m.spec_step(InstallEvent::PathResolved(None));
            &&& m.phase == InstallPhase::ResolvePath
            &&& m.spec_next_action() == InstallAction::ResolveDefaultPath
            &&& failed.phase == InstallPhase::Finished(InstallResult::FailedToGetGamePath)
            &&& failed.spec_run(events) == failed
        }),
{
    let m = Installer::spec_new(os, game_path, is_launch_option_set, was_game_launched);
    lemma_run_from_finished(m.spec_step(InstallEvent::PathResolved(None)), events);
}

/// With the launch option already set, no reachable state ever asks for the
/// BepInEx-installer collaborator.
pub proof fn lemma_launch_option_set_skips_bepinex(m: Installer)
    requires
        m.wf(),
        m.is_launch_option_set,
    ensures
        m.spec_next_action() != InstallAction::InstallBepInEx,
{
}

/// With the game already launched once, no reachable state ever asks for
/// the launch-option collaborator.
pub proof fn lemma_game_launched_skips_launch_option(m: Installer)
    requires
        m.wf(),
        m.was_game_launched,
    ensures
        m.spec_next_action() != InstallAction::SetupLaunchOption,
{
}

/// The `Done` notification is asked for only in the dedicated phase that
/// follows a successful mod installation, and acknowledging it finishes the
/// invocation with `NoErr`: on a successful run, `Done` is emitted exactly
/// once and nothing comes after it.
pub proof fn lemma_done_emitted_once_then_finished(m: Installer, events: Seq<InstallEvent>)
    requires
        m.spec_next_action() == InstallAction::EmitDone,
    ensures
        m.phase == InstallPhase::EmitDone,
        ({
            let done = m.spec_step(InstallEvent::DoneEmitted);
            &&& done.phase == InstallPhase::Finished(InstallResult::NoErr)
            &&& done.spec_run(events) == done
        }),
{
    lemma_run_from_finished(m.spec_step(InstallEvent::DoneEmitted), events);
}

} // verus!
