//! Start, stop and liveness of one supervised helper process.
//!
//! A slot owns at most one process handle. The slot never creates, probes or
//! kills a process itself: a start is a short run of steps in which the slot
//! says what it awaits and the caller answers with what happened, and a stop
//! hands the handle out to be killed. A caller that holds the slot behind a
//! lock keeps the lock for the whole run.

use vstd::prelude::*;
use vstd::string::*;

verus! {

/// The process-creation flag that keeps a helper from opening a console
/// window.
pub const CREATE_NO_WINDOW: u32 = 0x0800_0000;

/// The helpers that are supervised.
#[derive(Clone, Copy, Debug, PartialEq, Eq, Structural)]
pub enum SlotId {
    InputBlocker,
    ConnectionControl,
}

/// What a non-blocking probe of a process reports.
#[derive(Clone, Copy, Debug, PartialEq, Eq, Structural)]
pub enum Liveness {
    /// The process has not exited.
    Running,
    /// The process has exited.
    Exited,
    /// The probe itself failed.
    Unknown,
}

/// Why a supervisor operation failed, with the text of the underlying error.
#[derive(Clone, Debug, PartialEq, Eq)]
pub enum SupervisorError {
    /// The packaged executable could not be located.
    ResourceResolution(String),
    /// The operating system refused to create the process.
    Spawn(String),
    /// The process could not be killed.
    Kill(String),
}

/// What a start run awaits from the caller, or how it ended.
#[derive(Debug, PartialEq, Eq)]
pub enum StartPhase {
    /// The path of the slot's executable is to be resolved.
    AwaitResolution,
    /// The process behind the slot's handle is to be probed.
    AwaitProbe,
    /// The executable at the slot's path is to be spawned.
    AwaitSpawn,
    /// The run is over.
    Finished(Result<(), SupervisorError>),
}

/// What the caller reports back during a start run.
pub enum StartEvent<H> {
    /// The executable's path, or why it could not be resolved.
    Resolved(Result<String, String>),
    /// What the probe of the slot's process said.
    Probed(Liveness),
    /// The handle of the new process, or why none was created.
    Spawned(Result<H, String>),
}

/// One supervised helper process.
pub struct HelperSlot<H> {
    name: String,
    resource: String,
    executable_path: Option<String>,
    handle: Option<H>,
}

/// What a slot holds.
pub struct SlotState<H> {
    /// The helper's name.
    pub name: Seq<char>,
    /// The name under which the executable is packaged.
    pub resource: Seq<char>,
    /// The executable's path as last resolved.
    pub executable_path: Option<Seq<char>>,
    /// The handle of the process believed to be running.
    pub handle: Option<H>,
}

impl<H> View for HelperSlot<H> {
    type V = SlotState<H>;

    closed spec fn view(&self) -> SlotState<H> {
        SlotState {
            name: self.name@,
            resource: self.resource@,
            executable_path: match self.executable_path {
                Some(p) => Some(p@),
                None => None,
            },
            handle: self.handle,
        }
    }
}

impl SlotId {
    /// The helper's name.
    pub open spec fn name_spec(self) -> Seq<char> {
        match self {
            SlotId::InputBlocker => "input-blocker"@,
            SlotId::ConnectionControl => "connection-control"@,
        }
    }

    /// The name under which the helper's executable is packaged.
    pub open spec fn resource_spec(self) -> Seq<char> {
        match self {
            SlotId::InputBlocker => "keyblocker.exe"@,
            SlotId::ConnectionControl => "windowsCC.exe"@,
        }
    }

    /// The helper's name.
    pub fn name(self) -> (r: &'static str)
        ensures
            r@ == self.name_spec(),
    {
        match self {
            SlotId::InputBlocker => "input-blocker",
            SlotId::ConnectionControl => "connection-control",
        }
    }

    /// The name under which the helper's executable is packaged.
    pub fn resource(self) -> (r: &'static str)
        ensures
            r@ == self.resource_spec(),
    {
        match self {
            SlotId::InputBlocker => "keyblocker.exe",
            SlotId::ConnectionControl => "windowsCC.exe",
        }
    }
}

impl SupervisorError {
    /// The text of the underlying error.
    pub open spec fn text_spec(self) -> String {
        match self {
            SupervisorError::ResourceResolution(why) => why,
            SupervisorError::Spawn(why) => why,
            SupervisorError::Kill(why) => why,
        }
    }

    /// The text of the underlying error, as it is reported to the caller of
    /// a command.
    pub fn into_text(self) -> (text: String)
        ensures
            text == self.text_spec(),
    {
        match self {
            SupervisorError::ResourceResolution(why) => why,
            SupervisorError::Spawn(why) => why,
            SupervisorError::Kill(why) => why,
        }
    }
}

/// Whether a probe's report lets the process count as alive. Only a process
/// known to have exited does not.
pub open spec fn counts_as_alive(liveness: Liveness) -> bool {
    liveness != Liveness::Exited
}

/// One step of a start run: the slot and the phase after `event` arrived in
/// `phase`.
///
/// A resolved path is recorded, and leads to a probe where the slot holds a
/// handle and to a spawn where it holds none. A probed process that counts as
/// alive ends the run with success and no spawn; one that has exited has its
/// handle dropped and leads to a spawn. A spawned process is recorded and ends
/// the run with success. A failed resolution or spawn ends the run with its
/// error and leaves the slot as it was. An event that the phase does not
/// await changes nothing.
pub open spec fn start_transition<H>(
    slot: SlotState<H>,
    phase: StartPhase,
    event: StartEvent<H>,
) -> (SlotState<H>, StartPhase) {
    match (phase, event) {
        (StartPhase::AwaitResolution, StartEvent::Resolved(Ok(path))) => (
            SlotState { executable_path: Some(path@), ..slot },
            if slot.handle is Some {
                StartPhase::AwaitProbe
            } else {
                StartPhase::AwaitSpawn
            },
        ),
        (StartPhase::AwaitResolution, StartEvent::Resolved(Err(why))) => (
            slot,
            StartPhase::Finished(Err(SupervisorError::ResourceResolution(why))),
        ),
        (StartPhase::AwaitProbe, StartEvent::Probed(liveness)) => if slot.handle is Some
            && counts_as_alive(liveness) {
            (slot, StartPhase::Finished(Ok(())))
        } else {
            (SlotState { handle: None, ..slot }, StartPhase::AwaitSpawn)
        },
        (StartPhase::AwaitSpawn, StartEvent::Spawned(Ok(handle))) => (
            SlotState { handle: Some(handle), ..slot },
            StartPhase::Finished(Ok(())),
        ),
        (StartPhase::AwaitSpawn, StartEvent::Spawned(Err(why))) => (
            slot,
            StartPhase::Finished(Err(SupervisorError::Spawn(why))),
        ),
        _ => (slot, phase),
    }
}

/// The slot after a stop: as before, without a handle.
pub open spec fn stopped<H>(slot: SlotState<H>) -> SlotState<H> {
    SlotState { handle: None, ..slot }
}

/// What a stop reports, given how the kill of the released process went
/// (`None` where there was no process to kill).
pub open spec fn stop_outcome(killed: Option<Result<(), String>>) -> Result<(), SupervisorError> {
    match killed {
        Some(Err(why)) => Err(SupervisorError::Kill(why)),
        _ => Ok(()),
    }
}

impl<H> HelperSlot<H> {
    /// An empty slot for a helper packaged under `resource`.
    pub fn new(name: String, resource: String) -> (slot: Self)
        ensures
            slot@ == (SlotState::<H> {
                name: name@,
                resource: resource@,
                executable_path: None,
                handle: None,
            }),
    {
        HelperSlot { name, resource, executable_path: None, handle: None }
    }

    /// An empty slot for one of the known helpers.
    pub fn for_helper(id: SlotId) -> (slot: Self)
        ensures
            slot@ == (SlotState::<H> {
                name: id.name_spec(),
                resource: id.resource_spec(),
                executable_path: None,
                handle: None,
            }),
    {
        HelperSlot {
            name: String::from_str(id.name()),
            resource: String::from_str(id.resource()),
            executable_path: None,
            handle: None,
        }
    }

    /// The helper's name.
    pub fn name(&self) -> (r: &str)
        ensures
            r@ == self@.name,
    {
        self.name.as_str()
    }

    /// The name under which the executable is packaged.
    pub fn resource(&self) -> (r: &str)
        ensures
            r@ == self@.resource,
    {
        self.resource.as_str()
    }

    /// The executable's path as the last start resolved it.
    pub fn executable_path(&self) -> (r: Option<&str>)
        ensures
            match self@.executable_path {
                Some(p) => r matches Some(s) && s@ == p,
                None => r is None,
            },
    {
        match &self.executable_path {
            Some(p) => Some(p.as_str()),
            None => None,
        }
    }

    /// Whether the slot holds a handle. The process is not probed.
    pub fn is_running(&self) -> (r: bool)
        ensures
            r == self@.handle is Some,
    {
        self.handle.is_some()
    }

    /// The handle, for the caller to probe the process behind it.
    pub fn handle_mut(&mut self) -> (r: Option<&mut H>)
        ensures
            match old(self)@.handle {
                Some(h) => r matches Some(held) && *held == h && final(self)@ == (SlotState {
                    handle: Some(*final(held)),
                    ..old(self)@
                }),
                None => r is None && final(self)@ == old(self)@,
            },
    {
        self.handle.as_mut()
    }

    /// The phase in which every start run begins.
    pub fn begin_start(&self) -> (phase: StartPhase)
        ensures
            phase == StartPhase::AwaitResolution,
    {
        StartPhase::AwaitResolution
    }

    /// Takes one step of a start run and returns the phase that follows.
    pub fn start_step(&mut self, phase: StartPhase, event: StartEvent<H>) -> (next: StartPhase)
        ensures
            (final(self)@, next) == start_transition(old(self)@, phase, event),
    {
        match (phase, event) {
            (StartPhase::AwaitResolution, StartEvent::Resolved(Ok(path))) => {
                self.executable_path = Some(path);
                if self.handle.is_some() {
                    StartPhase::AwaitProbe
                } else {
                    StartPhase::AwaitSpawn
                }
            },
            (StartPhase::AwaitResolution, StartEvent::Resolved(Err(why))) => StartPhase::Finished(
                Err(SupervisorError::ResourceResolution(why)),
            ),
            (StartPhase::AwaitProbe, StartEvent::Probed(liveness)) => {
                if self.handle.is_some() && liveness != Liveness::Exited {
                    StartPhase::Finished(Ok(()))
                } else {
                    self.handle = None;
                    StartPhase::AwaitSpawn
                }
            },
            (StartPhase::AwaitSpawn, StartEvent::Spawned(Ok(handle))) => {
                self.handle = Some(handle);
                StartPhase::Finished(Ok(()))
            },
            (StartPhase::AwaitSpawn, StartEvent::Spawned(Err(why))) => StartPhase::Finished(
                Err(SupervisorError::Spawn(why)),
            ),
            (phase, _) => phase,
        }
    }

    /// Clears the slot and hands out the handle it held, for the caller to
    /// kill the process behind it. On an empty slot nothing changes.
    pub fn stop(&mut self) -> (released: Option<H>)
        ensures
            released == old(self)@.handle,
            final(self)@ == stopped(old(self)@),
            old(self)@.handle is None ==> final(self)@ == old(self)@,
    {
        self.handle.take()
    }
}

/// What a stop reports: failure only where a process was released and the
/// kill failed.
pub fn stop_result(killed: Option<Result<(), String>>) -> (r: Result<(), SupervisorError>)
    ensures
        r == stop_outcome(killed),
{
    match killed {
        Some(Err(why)) => Err(SupervisorError::Kill(why)),
        _ => Ok(()),
    }
}

/// A whole start run on `slot`, where resolution answers `resolved`, a probe
/// would report `liveness` and a spawn would answer `spawned`: the slot
/// afterwards, the phase reached, and whether a spawn was asked for.
pub open spec fn start_run<H>(
    slot: SlotState<H>,
    resolved: Result<String, String>,
    liveness: Liveness,
    spawned: Result<H, String>,
) -> (SlotState<H>, StartPhase, bool) {
    let (s1, p1) = start_transition(slot, StartPhase::AwaitResolution, StartEvent::Resolved(resolved));
    let (s2, p2) = if p1 == StartPhase::AwaitProbe {
        start_transition(s1, p1, StartEvent::Probed(liveness))
    } else {
        (s1, p1)
    };
    if p2 == StartPhase::AwaitSpawn {
        let (s3, p3) = start_transition(s2, p2, StartEvent::Spawned(spawned));
        (s3, p3, true)
    } else {
        (s2, p2, false)
    }
}

/// Every start run ends, after at most three steps, whatever the answers.
pub proof fn lemma_start_run_finishes<H>(
    slot: SlotState<H>,
    resolved: Result<String, String>,
    liveness: Liveness,
    spawned: Result<H, String>,
)
    ensures
        start_run(slot, resolved, liveness, spawned).1 is Finished,
{
}

/// A start on a slot whose process counts as alive asks for no spawn, keeps
/// the handle, and succeeds.
pub proof fn lemma_live_helper_is_not_respawned<H>(
    slot: SlotState<H>,
    path: String,
    liveness: Liveness,
    spawned: Result<H, String>,
)
    requires
        slot.handle is Some,
        counts_as_alive(liveness),
    ensures
        start_run(slot, Ok(path), liveness, spawned) == (
            SlotState { executable_path: Some(path@), ..slot },
            StartPhase::Finished(Ok(())),
            false,
        ),
{
}

/// Of two starts on an empty slot, one after the other, only the first
/// spawns: while its process counts as alive the second asks for no spawn,
/// and the slot still holds the first one's handle.
pub proof fn lemma_second_start_spawns_nothing<H>(
    slot: SlotState<H>,
    first_path: String,
    first: H,
    second_path: String,
    liveness: Liveness,
    second: Result<H, String>,
)
    requires
        slot.handle is None,
        counts_as_alive(liveness),
    ensures
        ({
            let after_first = start_run(slot, Ok(first_path), liveness, Ok(first));
            let after_second = start_run(after_first.0, Ok(second_path), liveness, second);
            &&& after_first.2
            &&& after_first.0.handle == Some(first)
            &&& !after_second.2
            &&& after_second.0.handle == Some(first)
            &&& after_second.1 == StartPhase::Finished(Ok(()))
        }),
{
}

/// A start on a slot whose process has exited drops the stale handle even
/// where the spawn then fails, so the slot no longer counts as running.
pub proof fn lemma_stale_handle_is_dropped<H>(
    slot: SlotState<H>,
    path: String,
    why: String,
)
    requires
        slot.handle is Some,
    ensures
        start_run(slot, Ok(path), Liveness::Exited, Err(why)) == (
            SlotState { executable_path: Some(path@), handle: None, ..slot },
            StartPhase::Finished(Err(SupervisorError::Spawn(why))),
            true,
        ),
{
}

/// A start fails only with the error of the step that failed, and then
/// records no new handle.
pub proof fn lemma_start_failures<H>(
    slot: SlotState<H>,
    resolved: Result<String, String>,
    liveness: Liveness,
    spawned: Result<H, String>,
)
    ensures
        ({
            let run = start_run(slot, resolved, liveness, spawned);
            &&& resolved matches Err(why) ==> run == (
                slot,
                StartPhase::Finished(Err(SupervisorError::ResourceResolution(why))),
                false,
            )
            &&& run.1 matches StartPhase::Finished(Err(SupervisorError::Spawn(why))) ==> spawned
                == Err::<H, String>(why) && run.2 && run.0.handle is None
            &&& run.1 == StartPhase::Finished(Ok(())) ==> resolved is Ok && run.0.handle is Some
        }),
{
}

/// Stopping is idempotent: a stopped slot holds no handle, a second stop
/// changes nothing and releases nothing, and a stop that releases nothing
/// succeeds.
pub proof fn lemma_stop_is_idempotent<H>(slot: SlotState<H>)
    ensures
        stopped(slot).handle is None,
        stopped(stopped(slot)) == stopped(slot),
        stop_outcome(None) == Ok::<(), SupervisorError>(()),
{
}

/// A stop that follows a start that spawned releases the spawned process.
pub proof fn lemma_stop_observes_started_process<H>(
    slot: SlotState<H>,
    path: String,
    liveness: Liveness,
    handle: H,
)
    requires
        slot.handle is None,
    ensures
        start_run(slot, Ok(path), liveness, Ok(handle)).0.handle == Some(handle),
        stopped(start_run(slot, Ok(path), liveness, Ok(handle)).0).handle is None,
{
}

} // verus!
