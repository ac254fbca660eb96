//! The self-update protocol as an ordered list of named steps.
//!
//! The coordinator decides; the host acts. The host asks for the pending
//! step, performs it, and reports the outcome. A failed step ends the session:
//! no later step is handed out, and nothing that an earlier step produced is
//! touched, so a backup that was made stays where it is.

use vstd::prelude::*;
use vstd::string::*;
use crate::extract::{has_separator, last_separator, parent, parent_path};
use crate::runtime::{records, with_role, AgentInfoView, FeatType, RuntimeInfo, RuntimeInfoView, State};

verus! {

/// The number of steps of the protocol.
pub const STEP_COUNT: u8 = 7;

/// The argument with which a freshly installed binary is started so that it
/// takes the controller role.
pub const CONTROLLER_ARGUMENT: &'static str = "controller";

/// The steps of the protocol in the order in which they run.
#[derive(Debug, Clone, Copy, PartialEq, Eq, Structural)]
pub enum UpdateStep {
    /// Find the install directory from the location of the running binary.
    ResolveInstallDirectory,
    /// Make sure the storage can hold a backup copy and the new payload.
    CheckCapacity,
    /// Copy the current binary and its resources to the backup location.
    Backup,
    /// Fetch the release payload.
    Download,
    /// Unpack the payload into the install directory.
    Extract,
    /// Stop the running controller and start the new one.
    Relaunch,
    /// Record in the registry that an update is in flight.
    MarkUpdating,
}

/// Why an update was rejected or ended early.
#[derive(Debug, Clone, Copy, PartialEq, Eq, Structural)]
pub enum UpdateError {
    /// The download location lies outside the allowed release host.
    IntegrityError,
    /// The storage cannot hold a backup copy plus the new payload.
    CapacityError { free: u64, backup_size: u64, payload_size: u64 },
    /// The storage could not be accessed during the named step.
    IoError { step: UpdateStep },
    /// The payload could not be fetched.
    NetworkError,
    /// A process could not be stopped or started.
    ProcessControlError,
    /// The reported outcome does not belong to the pending step.
    UnexpectedOutcome { step: UpdateStep },
    /// The session has run all its steps or was ended by a failure.
    NoStepPending,
}

/// What the host reports after it has worked on the pending step.
#[derive(Debug)]
pub enum StepOutcome {
    /// The install directory was found; the backup goes to the location
    /// beside it.
    Resolved { install_directory: String, backup_location: String },
    /// The storage was measured, in bytes.
    Measured { free: u64, backup_size: u64, payload_size: u64 },
    /// The step was carried out.
    Done,
    /// The step failed.
    Failed,
}

/// The step that runs after `completed` steps have succeeded.
pub open spec fn step_at(completed: nat) -> UpdateStep {
    if completed == 0 {
        UpdateStep::ResolveInstallDirectory
    } else if completed == 1 {
        UpdateStep::CheckCapacity
    } else if completed == 2 {
        UpdateStep::Backup
    } else if completed == 3 {
        UpdateStep::Download
    } else if completed == 4 {
        UpdateStep::Extract
    } else if completed == 5 {
        UpdateStep::Relaunch
    } else {
        UpdateStep::MarkUpdating
    }
}

/// The number of steps that run before `step`.
pub open spec fn position(step: UpdateStep) -> nat {
    match step {
        UpdateStep::ResolveInstallDirectory => 0,
        UpdateStep::CheckCapacity => 1,
        UpdateStep::Backup => 2,
        UpdateStep::Download => 3,
        UpdateStep::Extract => 4,
        UpdateStep::Relaunch => 5,
        UpdateStep::MarkUpdating => 6,
    }
}

/// The error that a failure of `step` is reported as.
pub open spec fn failure_of(step: UpdateStep) -> UpdateError {
    match step {
        UpdateStep::Download => UpdateError::NetworkError,
        UpdateStep::Relaunch => UpdateError::ProcessControlError,
        _ => UpdateError::IoError { step },
    }
}

/// Whether `free` bytes hold a backup copy and the new payload.
pub open spec fn sufficient(free: u64, backup_size: u64, payload_size: u64) -> bool {
    free >= backup_size + payload_size
}

/// Whether a download location is allowed: it begins with `prefix`.
pub open spec fn allowed(url: Seq<char>, prefix: Seq<char>) -> bool {
    prefix.is_prefix_of(url)
}

/// The steps that a request for `url` runs, in order: all of them for an
/// allowed location, none otherwise.
pub open spec fn planned(url: Seq<char>, prefix: Seq<char>) -> Seq<UpdateStep> {
    if allowed(url, prefix) {
        Seq::new(STEP_COUNT as nat, |i: int| step_at(i as nat))
    } else {
        Seq::empty()
    }
}

impl UpdateStep {
    /// The step that runs after `completed` steps, if one is left.
    pub fn at(completed: u8) -> (r: Option<UpdateStep>)
        ensures
            r == if completed < STEP_COUNT {
                Some(step_at(completed as nat))
            } else {
                None
            },
    {
        match completed {
            0 => Some(UpdateStep::ResolveInstallDirectory),
            1 => Some(UpdateStep::CheckCapacity),
            2 => Some(UpdateStep::Backup),
            3 => Some(UpdateStep::Download),
            4 => Some(UpdateStep::Extract),
            5 => Some(UpdateStep::Relaunch),
            6 => Some(UpdateStep::MarkUpdating),
            _ => None,
        }
    }

    /// The number of steps that run before this one.
    pub fn index(&self) -> (r: u8)
        ensures
            r == position(*self),
            r < STEP_COUNT,
            step_at(r as nat) == *self,
    {
        match self {
            UpdateStep::ResolveInstallDirectory => 0,
            UpdateStep::CheckCapacity => 1,
            UpdateStep::Backup => 2,
            UpdateStep::Download => 3,
            UpdateStep::Extract => 4,
            UpdateStep::Relaunch => 5,
            UpdateStep::MarkUpdating => 6,
        }
    }

    /// The error that a failure of this step is reported as.
    pub fn failure(&self) -> (r: UpdateError)
        ensures
            r == failure_of(*self),
    {
        match self {
            UpdateStep::Download => UpdateError::NetworkError,
            UpdateStep::Relaunch => UpdateError::ProcessControlError,
            _ => UpdateError::IoError { step: *self },
        }
    }
}

/// Whether `url` begins with `prefix`.
pub fn is_allowed(url: &str, prefix: &str) -> (r: bool)
    ensures
        r == allowed(url@, prefix@),
{
    let n: usize = prefix.unicode_len();
    if url.unicode_len() < n {
        return false;
    }
    let mut i: usize = 0;
    while i < n
        invariant
            i <= n,
            n == prefix@.len(),
            n <= url@.len(),
            forall|k: int| 0 <= k < i ==> url@[k] == prefix@[k],
        decreases n - i,
    {
        if url.get_char(i) != prefix.get_char(i) {
            assert(url@.subrange(0, n as int)[i as int] != prefix@[i as int]);
            return false;
        }
        i += 1;
    }
    assert(prefix@ =~= url@.subrange(0, n as int));
    true
}

/// The install directory of a binary: the directory that holds it, or
/// nothing for a location without a `/`.
pub open spec fn install_directory(binary: Seq<char>) -> Option<Seq<char>> {
    if last_separator(binary) < 0 {
        None
    } else {
        Some(parent(binary))
    }
}

/// The install directory of the binary at `binary_path`.
pub fn install_directory_of(binary_path: &str) -> (r: Option<String>)
    ensures
        r.is_some() == install_directory(binary_path@).is_some(),
        r.is_some() ==> r.unwrap()@ == install_directory(binary_path@).unwrap(),
{
    let directory = parent_path(binary_path);
    if has_separator(binary_path) {
        Some(directory)
    } else {
        None
    }
}

/// Whether `free` bytes hold a backup copy and the new payload.
pub fn has_capacity(free: u64, backup_size: u64, payload_size: u64) -> (r: bool)
    ensures
        r == sufficient(free, backup_size, payload_size),
{
    match backup_size.checked_add(payload_size) {
        Some(needed) => free >= needed,
        None => false,
    }
}

/// The places an update works on. The directories are known once the first
/// step has found them.
#[derive(Debug)]
pub struct UpdateSession {
    pub binary_source_url: String,
    pub install_directory: Option<String>,
    pub backup_location: Option<String>,
}

/// One run of the protocol: the session, how many steps have succeeded, and
/// the failure that ended it, if one did.
#[derive(Debug)]
pub struct UpdateCoordinator {
    session: UpdateSession,
    completed: u8,
    failure: Option<UpdateError>,
}

/// What a coordinator says.
pub struct UpdateView {
    pub binary_source_url: Seq<char>,
    pub install_directory: Option<Seq<char>>,
    pub backup_location: Option<Seq<char>>,
    pub completed: nat,
    pub failure: Option<UpdateError>,
}

/// The step that the host has to perform next, if the session still runs.
pub open spec fn pending(v: UpdateView) -> Option<UpdateStep> {
    if v.failure.is_some() || v.completed >= STEP_COUNT {
        None
    } else {
        Some(step_at(v.completed))
    }
}

/// The session after a failure ended it.
pub open spec fn ended(v: UpdateView, error: UpdateError) -> UpdateView {
    UpdateView { failure: Some(error), ..v }
}

/// The session after its pending step succeeded.
pub open spec fn stepped(v: UpdateView) -> UpdateView {
    UpdateView { completed: v.completed + 1, ..v }
}

/// The session after the host reported `outcome`, and what the report is
/// answered with.
pub open spec fn advanced(v: UpdateView, outcome: StepOutcome) -> (UpdateView, Result<(), UpdateError>) {
    match pending(v) {
        None => (v, Err(UpdateError::NoStepPending)),
        Some(step) => match outcome {
            StepOutcome::Failed => (ended(v, failure_of(step)), Err(failure_of(step))),
            StepOutcome::Resolved { install_directory, backup_location } => {
                if step == UpdateStep::ResolveInstallDirectory {
                    (
                        UpdateView {
                            install_directory: Some(install_directory@),
                            backup_location: Some(backup_location@),
                            ..stepped(v)
                        },
                        Ok(()),
                    )
                } else {
                    (v, Err(UpdateError::UnexpectedOutcome { step }))
                }
            },
            StepOutcome::Measured { free, backup_size, payload_size } => {
                if step != UpdateStep::CheckCapacity {
                    (v, Err(UpdateError::UnexpectedOutcome { step }))
                } else if sufficient(free, backup_size, payload_size) {
                    (stepped(v), Ok(()))
                } else {
                    let error = UpdateError::CapacityError { free, backup_size, payload_size };
                    (ended(v, error), Err(error))
                }
            },
            StepOutcome::Done => {
                if step == UpdateStep::ResolveInstallDirectory || step == UpdateStep::CheckCapacity {
                    (v, Err(UpdateError::UnexpectedOutcome { step }))
                } else {
                    (stepped(v), Ok(()))
                }
            },
        },
    }
}

/// The registry after the marking step was applied to it: the lifecycle state
/// is `Updating` when that step is the pending one, and nothing changes
/// otherwise.
pub open spec fn marked(v: UpdateView, info: RuntimeInfoView) -> RuntimeInfoView {
    if pending(v) == Some(UpdateStep::MarkUpdating) {
        RuntimeInfoView { state: State::Updating, ..info }
    } else {
        info
    }
}

/// Whether the backup of this session has been made.
pub open spec fn backup_made(v: UpdateView) -> bool {
    v.completed > position(UpdateStep::Backup)
}

/// Whether the payload of this session has been unpacked.
pub open spec fn extracted(v: UpdateView) -> bool {
    v.completed > position(UpdateStep::Extract)
}

fn text_of(s: &Option<String>) -> (r: Option<String>)
    ensures
        r.is_some() == s.is_some(),
        r.is_some() ==> r.unwrap()@ == s.unwrap()@,
{
    match s {
        Some(text) => Some(text.clone()),
        None => None,
    }
}

impl View for UpdateCoordinator {
    type V = UpdateView;

    closed spec fn view(&self) -> UpdateView {
        UpdateView {
            binary_source_url: self.session.binary_source_url@,
            install_directory: match self.session.install_directory {
                Some(text) => Some(text@),
                None => None,
            },
            backup_location: match self.session.backup_location {
                Some(text) => Some(text@),
                None => None,
            },
            completed: self.completed as nat,
            failure: self.failure,
        }
    }
}

impl UpdateCoordinator {
    /// Opens a session for the payload at `binary_source_url`.
    ///
    /// A location that does not begin with `allowed_prefix` is rejected here,
    /// before any step can be handed out.
    pub fn begin(binary_source_url: String, allowed_prefix: &str) -> (r: Result<UpdateCoordinator, UpdateError>)
        ensures
            r.is_ok() == allowed(binary_source_url@, allowed_prefix@),
            r.is_err() ==> r == Err::<UpdateCoordinator, UpdateError>(UpdateError::IntegrityError),
            r.is_ok() ==> r.unwrap()@ == (UpdateView {
                binary_source_url: binary_source_url@,
                install_directory: None,
                backup_location: None,
                completed: 0,
                failure: None,
            }),
    {
        if !is_allowed(binary_source_url.as_str(), allowed_prefix) {
            return Err(UpdateError::IntegrityError);
        }
        Ok(
            UpdateCoordinator {
                session: UpdateSession {
                    binary_source_url,
                    install_directory: None,
                    backup_location: None,
                },
                completed: 0,
                failure: None,
            },
        )
    }

    /// The steps that a request for `binary_source_url` runs, in order.
    pub fn plan(binary_source_url: &str, allowed_prefix: &str) -> (steps: Vec<UpdateStep>)
        ensures
            steps@ == planned(binary_source_url@, allowed_prefix@),
    {
        let mut steps: Vec<UpdateStep> = Vec::new();
        if is_allowed(binary_source_url, allowed_prefix) {
            steps.push(UpdateStep::ResolveInstallDirectory);
            steps.push(UpdateStep::CheckCapacity);
            steps.push(UpdateStep::Backup);
            steps.push(UpdateStep::Download);
            steps.push(UpdateStep::Extract);
            steps.push(UpdateStep::Relaunch);
            steps.push(UpdateStep::MarkUpdating);
        }
        assert(steps@ =~= planned(binary_source_url@, allowed_prefix@));
        steps
    }

    /// The step that the host has to perform next, if the session still runs.
    pub fn next_step(&self) -> (r: Option<UpdateStep>)
        ensures
            r == pending(self@),
    {
        if self.failure.is_some() {
            None
        } else {
            UpdateStep::at(self.completed)
        }
    }

    /// The failure that ended the session, if one did.
    pub fn failure(&self) -> (r: Option<UpdateError>)
        ensures
            r == self@.failure,
    {
        self.failure
    }

    /// The number of steps that have succeeded.
    pub fn completed(&self) -> (r: u8)
        ensures
            r == self@.completed,
    {
        self.completed
    }

    /// The places this session works on.
    pub fn session(&self) -> (r: UpdateSession)
        ensures
            r.binary_source_url@ == self@.binary_source_url,
            r.install_directory.is_some() == self@.install_directory.is_some(),
            r.install_directory.is_some() ==> r.install_directory.unwrap()@
                == self@.install_directory.unwrap(),
            r.backup_location.is_some() == self@.backup_location.is_some(),
            r.backup_location.is_some() ==> r.backup_location.unwrap()@ == self@.backup_location.unwrap(),
    {
        UpdateSession {
            binary_source_url: self.session.binary_source_url.clone(),
            install_directory: text_of(&self.session.install_directory),
            backup_location: text_of(&self.session.backup_location),
        }
    }

    /// Takes in the outcome of the pending step.
    ///
    /// A success moves the session to the next step. A failure, or a
    /// measurement that shows too little room, ends the session with the
    /// error of that step. A report that does not belong to the pending step
    /// is refused and changes nothing.
    pub fn advance(&mut self, outcome: StepOutcome) -> (r: Result<(), UpdateError>)
        ensures
            (final(self)@, r) == advanced(old(self)@, outcome),
    {
        let step = match self.next_step() {
            Some(step) => step,
            None => {
                return Err(UpdateError::NoStepPending);
            },
        };
        match outcome {
            StepOutcome::Failed => {
                let error = step.failure();
                self.failure = Some(error);
                Err(error)
            },
            StepOutcome::Resolved { install_directory, backup_location } => {
                if step == UpdateStep::ResolveInstallDirectory {
                    self.session.install_directory = Some(install_directory);
                    self.session.backup_location = Some(backup_location);
                    self.completed = self.completed + 1;
                    Ok(())
                } else {
                    Err(UpdateError::UnexpectedOutcome { step })
                }
            },
            StepOutcome::Measured { free, backup_size, payload_size } => {
                if step != UpdateStep::CheckCapacity {
                    Err(UpdateError::UnexpectedOutcome { step })
                } else if has_capacity(free, backup_size, payload_size) {
                    self.completed = self.completed + 1;
                    Ok(())
                } else {
                    let error = UpdateError::CapacityError { free, backup_size, payload_size };
                    self.failure = Some(error);
                    Err(error)
                }
            },
            StepOutcome::Done => {
                if step == UpdateStep::ResolveInstallDirectory || step == UpdateStep::CheckCapacity {
                    Err(UpdateError::UnexpectedOutcome { step })
                } else {
                    self.completed = self.completed + 1;
                    Ok(())
                }
            },
        }
    }

    /// Applies the marking step to the registry: when that step is the
    /// pending one the lifecycle state becomes `Updating`; at any other point
    /// of the session the registry is left as it is. The records are never
    /// touched. Says whether the state was set.
    pub fn mark(&self, runtime_info: &mut RuntimeInfo) -> (applied: bool)
        ensures
            applied == (pending(self@) == Some(UpdateStep::MarkUpdating)),
            final(runtime_info)@ == marked(self@, old(runtime_info)@),
    {
        match self.next_step() {
            Some(UpdateStep::MarkUpdating) => {
                runtime_info.update_state(State::Updating);
                true
            },
            _ => false,
        }
    }
}

/// The process ids of the controller-role records, in registry order: the
/// processes that the relaunch step asks to end. Agent-role records are not
/// looked at.
pub open spec fn controllers(s: Seq<AgentInfoView>) -> Seq<u32> {
    with_role(s, FeatType::Controller).map_values(|r: AgentInfoView| r.process_id)
}

/// The processes that the relaunch step has to end before it starts the new
/// controller.
pub fn relaunch_targets(runtime_info: &RuntimeInfo) -> (targets: Vec<u32>)
    ensures
        targets@ == controllers(runtime_info@.agent_infos),
{
    let found = runtime_info.filter_process_infos(FeatType::Controller);
    let mut targets: Vec<u32> = Vec::new();
    let mut i: usize = 0;
    while i < found.len()
        invariant
            i <= found.len(),
            targets@ == records(found@).take(i as int).map_values(|r: AgentInfoView| r.process_id),
        decreases found.len() - i,
    {
        targets.push(found[i].process_id);
        assert(records(found@).take(i + 1).map_values(|r: AgentInfoView| r.process_id) =~= records(
            found@,
        ).take(i as int).map_values(|r: AgentInfoView| r.process_id).push(found@[i as int].process_id));
        i += 1;
    }
    assert(records(found@).take(found@.len() as int) =~= records(found@));
    targets
}

/// A request for a location outside the allowed prefix runs no step: in
/// particular it makes no backup and unpacks nothing.
pub proof fn lemma_rejected_request_runs_nothing(url: Seq<char>, prefix: Seq<char>)
    requires
        !allowed(url, prefix),
    ensures
        planned(url, prefix).len() == 0,
        !planned(url, prefix).contains(UpdateStep::Backup),
        !planned(url, prefix).contains(UpdateStep::Extract),
{
}

/// A request for an allowed location runs the seven steps in their order.
pub proof fn lemma_allowed_request_runs_every_step(url: Seq<char>, prefix: Seq<char>, step: UpdateStep)
    requires
        allowed(url, prefix),
    ensures
        planned(url, prefix).len() == STEP_COUNT,
        planned(url, prefix)[position(step) as int] == step,
{
}

/// A download that fails ends the session with a network error. The backup
/// that the earlier step made is still recorded at its location, nothing was
/// unpacked, no further step is pending, and marking leaves the registry, and
/// with it the lifecycle state, as it was.
pub proof fn lemma_failed_download_keeps_backup(v: UpdateView, info: RuntimeInfoView)
    requires
        pending(v) == Some(UpdateStep::Download),
    ensures
        advanced(v, StepOutcome::Failed).1 == Err::<(), UpdateError>(UpdateError::NetworkError),
        backup_made(v),
        backup_made(advanced(v, StepOutcome::Failed).0),
        advanced(v, StepOutcome::Failed).0.backup_location == v.backup_location,
        !extracted(advanced(v, StepOutcome::Failed).0),
        pending(advanced(v, StepOutcome::Failed).0).is_none(),
        marked(advanced(v, StepOutcome::Failed).0, info) == info,
{
}

/// Whichever step fails after the backup was made, the session ends with
/// that step's error, the backup stays recorded at its location, no step is
/// handed out any more, and marking leaves the registry as it was: nothing is
/// restored and nothing is cleaned up.
pub proof fn lemma_failure_keeps_backup(v: UpdateView, info: RuntimeInfoView)
    requires
        pending(v).is_some(),
        backup_made(v),
    ensures
        advanced(v, StepOutcome::Failed).1 == Err::<(), UpdateError>(failure_of(pending(v).unwrap())),
        backup_made(advanced(v, StepOutcome::Failed).0),
        advanced(v, StepOutcome::Failed).0.backup_location == v.backup_location,
        extracted(advanced(v, StepOutcome::Failed).0) == extracted(v),
        pending(advanced(v, StepOutcome::Failed).0).is_none(),
        marked(advanced(v, StepOutcome::Failed).0, info) == info,
{
}

/// Whatever is reported to a session that has no step pending, the session
/// stays as it is and the report is refused.
pub proof fn lemma_ended_session_stays(v: UpdateView, outcome: StepOutcome)
    requires
        pending(v).is_none(),
    ensures
        advanced(v, outcome) == (v, Err::<(), UpdateError>(UpdateError::NoStepPending)),
{
}

/// A report never undoes a step and never ends a session without an error:
/// the count of succeeded steps grows by one exactly when the report is
/// accepted, and stays otherwise.
pub proof fn lemma_advance_is_monotone(v: UpdateView, outcome: StepOutcome)
    ensures
        advanced(v, outcome).1.is_ok() ==> advanced(v, outcome).0.completed == v.completed + 1,
        advanced(v, outcome).1.is_err() ==> advanced(v, outcome).0.completed == v.completed,
        v.failure.is_some() ==> advanced(v, outcome).0.failure == v.failure,
        backup_made(v) ==> advanced(v, outcome).0.backup_location == v.backup_location,
{
}

/// Only the marking step changes the lifecycle state, and it never touches
/// the records.
pub proof fn lemma_mark_changes_state_only(v: UpdateView, info: RuntimeInfoView)
    ensures
        marked(v, info).agent_infos == info.agent_infos,
        marked(v, info).state != info.state ==> pending(v) == Some(UpdateStep::MarkUpdating),
{
}

} // verus!
