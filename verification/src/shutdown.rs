//! What happens when the main window is asked to close.
//!
//! The close is held back, every helper is stopped, the settings are read,
//! and then the application either restarts itself or lets the close go
//! through. The caller does the work of each phase and reports back; the
//! phases only move forward.

use vstd::prelude::*;
use crate::settings::{document_flags, flag_at, settings_of, AppSettings};
use crate::supervisor::SupervisorError;

verus! {

/// Where the handling of one close request stands.
#[derive(Clone, Copy, Debug, PartialEq, Eq, Structural)]
pub enum ClosePhase {
    /// The close is held back and the helpers are being stopped.
    Stopping,
    /// The helpers are stopped and the settings are being read.
    Deciding,
    /// The application restarts itself; the close stays held back.
    Restarting,
    /// The close goes through and the application ends.
    Terminating,
}

/// What the caller has to do in a phase.
#[derive(Clone, Copy, Debug, PartialEq, Eq, Structural)]
pub enum CloseAction {
    /// Hold the close back and stop every helper, whatever each stop says.
    SuppressCloseAndStopHelpers,
    /// Read the persisted settings text.
    ReadSettings,
    /// Restart the application.
    Restart,
    /// Let the close go through.
    ReleaseClose,
}

/// What the caller reports back while a close is handled.
pub enum CloseEvent {
    /// Every helper was asked to stop; the outcomes, one for each helper.
    HelpersStopped(Vec<Result<(), SupervisorError>>),
    /// The persisted settings text, or `None` where the file is missing or
    /// cannot be read.
    SettingsRead(Option<String>),
}

/// The text that a settings report carries.
pub open spec fn text_view(text: Option<String>) -> Option<Seq<char>> {
    match text {
        Some(t) => Some(t@),
        None => None,
    }
}

/// The phase that ends a close, given whether the application relaunches.
pub open spec fn decision(relaunch: bool) -> ClosePhase {
    if relaunch {
        ClosePhase::Restarting
    } else {
        ClosePhase::Terminating
    }
}

/// The phase after `event` arrived in `phase`.
///
/// The report on the helpers moves on to the decision whatever the
/// outcomes were. The settings decide between restart and termination. An
/// event that the phase does not await changes nothing.
pub open spec fn close_transition(phase: ClosePhase, event: CloseEvent) -> ClosePhase {
    match (phase, event) {
        (ClosePhase::Stopping, CloseEvent::HelpersStopped(_)) => ClosePhase::Deciding,
        (ClosePhase::Deciding, CloseEvent::SettingsRead(text)) => decision(
            settings_of(text_view(text)).relaunch_on_close,
        ),
        _ => phase,
    }
}

/// How far a phase is along the way.
pub open spec fn phase_rank(phase: ClosePhase) -> int {
    match phase {
        ClosePhase::Stopping => 0,
        ClosePhase::Deciding => 1,
        ClosePhase::Restarting => 2,
        ClosePhase::Terminating => 2,
    }
}

/// What the caller has to do in `phase`.
pub open spec fn action_in(phase: ClosePhase) -> CloseAction {
    match phase {
        ClosePhase::Stopping => CloseAction::SuppressCloseAndStopHelpers,
        ClosePhase::Deciding => CloseAction::ReadSettings,
        ClosePhase::Restarting => CloseAction::Restart,
        ClosePhase::Terminating => CloseAction::ReleaseClose,
    }
}

/// The phase that ends the handling of a close, given the outcomes of the
/// stops and the persisted settings text.
pub open spec fn close_outcome(
    outcomes: Vec<Result<(), SupervisorError>>,
    text: Option<String>,
) -> ClosePhase {
    close_transition(
        close_transition(ClosePhase::Stopping, CloseEvent::HelpersStopped(outcomes)),
        CloseEvent::SettingsRead(text),
    )
}

/// `picked` lists, in rising order, exactly the positions of the failed
/// outcomes.
pub open spec fn lists_failures(
    outcomes: Seq<Result<(), SupervisorError>>,
    picked: Seq<usize>,
) -> bool {
    &&& forall|k: int| 0 <= k < picked.len() ==> (#[trigger] picked[k]) < outcomes.len()
        && outcomes[picked[k] as int] is Err
    &&& forall|j: int, k: int| 0 <= j < k < picked.len() ==> picked[j] < picked[k]
    &&& forall|i: int| 0 <= i < outcomes.len() && (#[trigger] outcomes[i]) is Err ==> picked.contains(i as usize)
}

/// The phase in which the handling of every close request begins.
pub fn begin_close() -> (phase: ClosePhase)
    ensures
        phase == ClosePhase::Stopping,
{
    ClosePhase::Stopping
}

/// What the caller has to do in `phase`.
pub fn pending_action(phase: ClosePhase) -> (action: CloseAction)
    ensures
        action == action_in(phase),
{
    match phase {
        ClosePhase::Stopping => CloseAction::SuppressCloseAndStopHelpers,
        ClosePhase::Deciding => CloseAction::ReadSettings,
        ClosePhase::Restarting => CloseAction::Restart,
        ClosePhase::Terminating => CloseAction::ReleaseClose,
    }
}

/// The phase that ends a close, given whether the application relaunches.
pub fn decide_close(relaunch: bool) -> (phase: ClosePhase)
    ensures
        phase == decision(relaunch),
{
    if relaunch {
        ClosePhase::Restarting
    } else {
        ClosePhase::Terminating
    }
}

/// Whether the application relaunches on close, by the persisted settings
/// text. `None` stands for a file that is missing or cannot be read.
pub fn relaunch_on_close(text: Option<&str>) -> (relaunch: bool)
    ensures
        relaunch == settings_of(
            match text {
                Some(t) => Some(t@),
                None => None,
            },
        ).relaunch_on_close,
{
    AppSettings::from_text(text).relaunch_on_close
}

/// Takes one step in the handling of a close and returns the phase that
/// follows.
pub fn close_step(phase: ClosePhase, event: CloseEvent) -> (next: ClosePhase)
    ensures
        next == close_transition(phase, event),
{
    match (phase, event) {
        (ClosePhase::Stopping, CloseEvent::HelpersStopped(_)) => ClosePhase::Deciding,
        (ClosePhase::Deciding, CloseEvent::SettingsRead(text)) => {
            let relaunch = match &text {
                Some(t) => relaunch_on_close(Some(t.as_str())),
                None => relaunch_on_close(None),
            };
            decide_close(relaunch)
        },
        (phase, _) => phase,
    }
}

/// The positions of the stops that failed, in order, for the caller to log.
pub fn failed_stops(outcomes: &Vec<Result<(), SupervisorError>>) -> (picked: Vec<usize>)
    ensures
        lists_failures(outcomes@, picked@),
{
    let mut picked: Vec<usize> = Vec::new();
    let mut i: usize = 0;
    while i < outcomes.len()
        invariant
            i <= outcomes.len(),
            forall|k: int| 0 <= k < picked@.len() ==> (#[trigger] picked@[k]) < i
                && outcomes@[picked@[k] as int] is Err,
            forall|j: int, k: int| 0 <= j < k < picked@.len() ==> picked@[j] < picked@[k],
            forall|m: int| 0 <= m < i && (#[trigger] outcomes@[m]) is Err ==> picked@.contains(m as usize),
        decreases outcomes.len() - i,
    {
        if outcomes[i].is_err() {
            let ghost before = picked@;
            picked.push(i);
            proof {
                assert(picked@[before.len() as int] == i);
                assert forall|m: int| 0 <= m < i + 1 && (#[trigger] outcomes@[m]) is Err implies picked@.contains(m as usize) by {
                    if m < i {
                        let k = choose|k: int| 0 <= k < before.len() && before[k] == m as usize;
                        assert(picked@[k] == m as usize);
                    }
                }
            }
        }
        i = i + 1;
    }
    picked
}

/// The phases only move forward, and an ended close stays ended.
pub proof fn lemma_close_moves_forward(phase: ClosePhase, event: CloseEvent)
    ensures
        phase_rank(close_transition(phase, event)) >= phase_rank(phase),
        phase_rank(phase) == 2 ==> close_transition(phase, event) == phase,
{
}

/// A close always ends in a restart or in termination, and failed stops
/// have no part in which: the outcome is the decision that the settings
/// give.
pub proof fn lemma_close_ends_by_settings(
    outcomes: Vec<Result<(), SupervisorError>>,
    text: Option<String>,
)
    ensures
        close_outcome(outcomes, text) == decision(settings_of(text_view(text)).relaunch_on_close),
        close_outcome(outcomes, text) == ClosePhase::Restarting || close_outcome(outcomes, text)
            == ClosePhase::Terminating,
{
}

/// Without a readable settings file the application restarts.
pub proof fn lemma_missing_settings_restart(outcomes: Vec<Result<(), SupervisorError>>)
    ensures
        close_outcome(outcomes, None) == ClosePhase::Restarting,
{
}

/// With settings that are not JSON, or that do not hold the relaunch flag
/// as a boolean, the application restarts.
pub proof fn lemma_unusable_settings_restart(
    outcomes: Vec<Result<(), SupervisorError>>,
    text: String,
)
    requires
        match document_flags(text@) {
            None => true,
            Some(flags) => flag_at(flags, "relaunchOnClose"@) is None,
        },
    ensures
        close_outcome(outcomes, Some(text)) == ClosePhase::Restarting,
{
}

/// With settings that hold the relaunch flag as a boolean, the flag
/// decides: `false` lets the application end, `true` restarts it.
pub proof fn lemma_explicit_flag_decides(
    outcomes: Vec<Result<(), SupervisorError>>,
    text: String,
    flags: Map<Seq<char>, bool>,
    flag: bool,
)
    requires
        document_flags(text@) == Some(flags),
        flag_at(flags, "relaunchOnClose"@) == Some(flag),
    ensures
        close_outcome(outcomes, Some(text)) == decision(flag),
        !flag ==> close_outcome(outcomes, Some(text)) == ClosePhase::Terminating,
{
}

} // verus!
