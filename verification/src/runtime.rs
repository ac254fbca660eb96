//! The shared registry of supervised processes and the lifecycle state.
//!
//! A [`RuntimeInfo`] is the value that cooperating processes keep in shared
//! storage. Everything here works on the value in memory: whoever holds the
//! cross-process lock loads it, applies one of these operations and stores it
//! again.

use vstd::prelude::*;
use crate::seq_lemmas::{lemma_filter_all, lemma_filter_none, lemma_filter_twice};

verus! {

/// The lifecycle state of a deployment.
#[derive(Debug, Clone, Copy, PartialEq, Eq, Structural)]
pub enum State {
    /// Steady-state supervision.
    Default,
    /// An update is in flight.
    Updating,
}

/// The role a supervised process plays.
#[derive(Debug, Clone, Copy, PartialEq, Eq, Structural)]
pub enum FeatType {
    /// The long-running node process.
    Agent,
    /// The supervising process.
    Controller,
}

/// A point in time together with the offset of the clock that recorded it:
/// seconds and nanoseconds since the Unix epoch, and the offset east of UTC.
#[derive(Debug, Clone, Copy, PartialEq, Eq, Structural)]
pub struct Timestamp {
    pub seconds: i64,
    pub nanoseconds: u32,
    pub offset_seconds: i32,
}

impl Timestamp {
    /// A timestamp is well formed when its offset is less than a day in either
    /// direction and its nanoseconds stay below two seconds (the second
    /// second being a leap second).
    pub open spec fn wf(&self) -> bool {
        &&& -86_400 < self.offset_seconds < 86_400
        &&& self.nanoseconds < 2_000_000_000
    }

    /// Builds a timestamp, or nothing when the parts are out of range.
    pub fn new(seconds: i64, nanoseconds: u32, offset_seconds: i32) -> (r: Option<Timestamp>)
        ensures
            r.is_some() <==> (Timestamp { seconds, nanoseconds, offset_seconds }).wf(),
            r.is_some() ==> r.unwrap() == (Timestamp { seconds, nanoseconds, offset_seconds }),
    {
        if -86_400 < offset_seconds && offset_seconds < 86_400 && nanoseconds < 2_000_000_000 {
            Some(Timestamp { seconds, nanoseconds, offset_seconds })
        } else {
            None
        }
    }
}

/// One supervised process as recorded in the registry.
///
/// Process identifiers are recycled by the host, so a record is not a unique
/// key: stale records are removed, never assumed absent.
#[derive(Debug, PartialEq, Eq)]
pub struct AgentInfo {
    pub process_id: u32,
    pub feat_type: FeatType,
    pub executed_at: Timestamp,
    pub version: String,
}

/// What a record says, with the version as a sequence of characters.
pub struct AgentInfoView {
    pub process_id: u32,
    pub feat_type: FeatType,
    pub executed_at: Timestamp,
    pub version: Seq<char>,
}

impl View for AgentInfo {
    type V = AgentInfoView;

    open spec fn view(&self) -> AgentInfoView {
        AgentInfoView {
            process_id: self.process_id,
            feat_type: self.feat_type,
            executed_at: self.executed_at,
            version: self.version@,
        }
    }
}

impl Clone for AgentInfo {
    fn clone(&self) -> (r: Self)
        ensures
            r == *self,
    {
        AgentInfo {
            process_id: self.process_id,
            feat_type: self.feat_type,
            executed_at: self.executed_at,
            version: self.version.clone(),
        }
    }
}

/// The views of a sequence of records, in the same order.
pub open spec fn records(s: Seq<AgentInfo>) -> Seq<AgentInfoView> {
    s.map_values(|a: AgentInfo| a@)
}

/// The records of `s` whose process id differs from `process_id`, in order.
pub open spec fn without_process(s: Seq<AgentInfoView>, process_id: u32) -> Seq<AgentInfoView> {
    s.filter(|r: AgentInfoView| r.process_id != process_id)
}

/// The records of `s` that carry `process_id`, in order.
pub open spec fn of_process(s: Seq<AgentInfoView>, process_id: u32) -> Seq<AgentInfoView> {
    s.filter(|r: AgentInfoView| r.process_id == process_id)
}

/// The records of `s` that play the role `feat_type`, in order.
pub open spec fn with_role(s: Seq<AgentInfoView>, feat_type: FeatType) -> Seq<AgentInfoView> {
    s.filter(|r: AgentInfoView| r.feat_type == feat_type)
}

/// The persisted aggregate: the lifecycle state and the recorded processes in
/// the order in which they were added.
#[derive(Debug, PartialEq, Eq)]
pub struct RuntimeInfo {
    pub state: State,
    pub agent_infos: Vec<AgentInfo>,
}

/// What a [`RuntimeInfo`] says.
pub struct RuntimeInfoView {
    pub state: State,
    pub agent_infos: Seq<AgentInfoView>,
}

impl View for RuntimeInfo {
    type V = RuntimeInfoView;

    open spec fn view(&self) -> RuntimeInfoView {
        RuntimeInfoView { state: self.state, agent_infos: records(self.agent_infos@) }
    }
}

/// The content of a registry that has never been written: steady state, no
/// process recorded.
pub open spec fn default_view() -> RuntimeInfoView {
    RuntimeInfoView { state: State::Default, agent_infos: Seq::empty() }
}

/// The views of a sequence with one more record are the views of the
/// sequence with the view of that record added.
pub proof fn lemma_records_push(s: Seq<AgentInfo>, a: AgentInfo)
    ensures
        records(s.push(a)) == records(s).push(a@),
{
    assert(records(s.push(a)) =~= records(s).push(a@));
}

/// Taking one more record of a sequence adds the view of that record to the
/// views taken so far, whether the views are taken before or after.
pub proof fn lemma_records_take_next(s: Seq<AgentInfo>, i: int)
    requires
        0 <= i < s.len(),
    ensures
        records(s.take(i + 1)) == records(s.take(i)).push(s[i]@),
        records(s).take(i + 1) == records(s).take(i).push(s[i]@),
        records(s.take(i)) == records(s).take(i),
{
    assert(s.take(i + 1) =~= s.take(i).push(s[i]));
    lemma_records_push(s.take(i), s[i]);
    assert(records(s).take(i + 1) =~= records(s).take(i).push(s[i]@));
    assert(records(s.take(i)) =~= records(s).take(i));
}

impl RuntimeInfo {
    /// The registry that has never been written: steady state, no process
    /// recorded.
    pub fn default() -> (r: Self)
        ensures
            r@ == default_view(),
    {
        let r = RuntimeInfo { state: State::Default, agent_infos: Vec::new() };
        assert(r@.agent_infos =~= Seq::empty());
        r
    }

    /// Adds a record at the end of the registry.
    pub fn add_agent_info(&mut self, agent_info: AgentInfo)
        ensures
            final(self)@.state == old(self)@.state,
            final(self)@.agent_infos == old(self)@.agent_infos.push(agent_info@),
    {
        proof {
            lemma_records_push(self.agent_infos@, agent_info);
        }
        self.agent_infos.push(agent_info);
    }

    /// Removes every record that carries `process_id`; the others keep their
    /// order.
    pub fn remove_agent_info(&mut self, process_id: u32)
        ensures
            final(self)@.state == old(self)@.state,
            final(self)@.agent_infos == without_process(old(self)@.agent_infos, process_id),
    {
        let mut kept: Vec<AgentInfo> = Vec::new();
        let n: usize = self.agent_infos.len();
        let mut i: usize = 0;
        proof {
            reveal(Seq::filter);
            assert(records(self.agent_infos@).take(0) =~= Seq::empty());
            assert(records(kept@) =~= Seq::empty());
        }
        while i < n
            invariant
                n == self.agent_infos.len(),
                i <= n,
                *self == *old(self),
                records(kept@) == without_process(records(self.agent_infos@).take(i as int), process_id),
            decreases n - i,
        {
            proof {
                lemma_records_take_next(self.agent_infos@, i as int);
                records(self.agent_infos@).take(i as int).lemma_filter_push(
                    self.agent_infos@[i as int]@,
                    |r: AgentInfoView| r.process_id != process_id,
                );
            }
            if self.agent_infos[i].process_id != process_id {
                let record = self.agent_infos[i].clone();
                proof {
                    lemma_records_push(kept@, record);
                }
                kept.push(record);
            }
            i += 1;
        }
        proof {
            assert(records(self.agent_infos@).take(n as int) =~= records(self.agent_infos@));
        }
        self.agent_infos = kept;
    }

    /// The records that play the role `feat_type`, in registry order. The
    /// registry is only read.
    pub fn filter_process_infos(&self, feat_type: FeatType) -> (found: Vec<AgentInfo>)
        ensures
            records(found@) == with_role(self@.agent_infos, feat_type),
    {
        let mut found: Vec<AgentInfo> = Vec::new();
        let n: usize = self.agent_infos.len();
        let mut i: usize = 0;
        proof {
            reveal(Seq::filter);
            assert(records(self.agent_infos@).take(0) =~= Seq::empty());
            assert(records(found@) =~= Seq::empty());
        }
        while i < n
            invariant
                n == self.agent_infos.len(),
                i <= n,
                records(found@) == with_role(records(self.agent_infos@).take(i as int), feat_type),
            decreases n - i,
        {
            proof {
                lemma_records_take_next(self.agent_infos@, i as int);
                records(self.agent_infos@).take(i as int).lemma_filter_push(
                    self.agent_infos@[i as int]@,
                    |r: AgentInfoView| r.feat_type == feat_type,
                );
            }
            if self.agent_infos[i].feat_type == feat_type {
                let record = self.agent_infos[i].clone();
                proof {
                    lemma_records_push(found@, record);
                }
                found.push(record);
            }
            i += 1;
        }
        proof {
            assert(records(self.agent_infos@).take(n as int) =~= records(self.agent_infos@));
        }
        found
    }

    /// Reconciles one record with what the host reported about its process.
    ///
    /// `running` is the outcome of the liveness probe of
    /// `process_info.process_id`. A process that runs leaves the registry as
    /// it is; for one that does not, every record with its process id is
    /// removed. The probe's outcome is handed back.
    pub fn is_running_or_remove_if_stopped(&mut self, process_info: &AgentInfo, running: bool) -> (alive: bool)
        ensures
            alive == running,
            final(self)@.state == old(self)@.state,
            running ==> final(self)@ == old(self)@,
            !running ==> final(self)@.agent_infos == without_process(
                old(self)@.agent_infos,
                process_info.process_id,
            ),
    {
        if !running {
            self.remove_agent_info(process_info.process_id);
        }
        running
    }

    /// Sets the lifecycle state and leaves the records alone.
    pub fn update_state(&mut self, state: State)
        ensures
            final(self)@.state == state,
            final(self)@.agent_infos == old(self)@.agent_infos,
    {
        self.state = state;
    }

    /// The registry that a load yields.
    ///
    /// What was stored is handed out as it is. Storage that does not exist
    /// yet, or whose content is not a registry, counts as no prior state and
    /// yields a fresh default: corruption never blocks progress. Only a
    /// failure to access the storage reaches the caller.
    pub fn load(outcome: ReadOutcome) -> (r: Result<RuntimeInfo, RuntimeError>)
        ensures
            match outcome {
                ReadOutcome::Stored(stored) => r.is_ok() && r.unwrap() == stored,
                ReadOutcome::Absent => r.is_ok() && r.unwrap()@ == default_view(),
                ReadOutcome::Corrupt(_) => r.is_ok() && r.unwrap()@ == default_view(),
                ReadOutcome::Failed(error) => r.is_err() && r.unwrap_err() == RuntimeError::FileError(
                    error,
                ),
            },
    {
        match outcome {
            ReadOutcome::Stored(stored) => Ok(stored),
            ReadOutcome::Absent => Ok(RuntimeInfo::default()),
            ReadOutcome::Corrupt(_) => Ok(RuntimeInfo::default()),
            ReadOutcome::Failed(error) => Err(RuntimeError::FileError(error)),
        }
    }

    /// The lenient load: the value that was read, or a fresh default when
    /// reading failed for whatever reason. No failure reaches the caller.
    pub fn load_or_default(read: Result<RuntimeInfo, RuntimeError>) -> (info: RuntimeInfo)
        ensures
            match read {
                Ok(stored) => info == stored,
                Err(_) => info@ == default_view(),
            },
    {
        match read {
            Ok(stored) => stored,
            Err(_) => RuntimeInfo::default(),
        }
    }
}

/// `std::io::Error`, carried through as it comes from the storage. Nothing
/// is claimed of what it holds.
#[verifier::external_type_specification]
#[verifier::external_body]
pub struct ExIoError(std::io::Error);

/// `serde_json::Error`, carried through as it comes from the JSON reader.
/// Nothing is claimed of what it holds.
#[verifier::external_type_specification]
#[verifier::external_body]
pub struct ExJsonError(serde_json::Error);

/// What reading the storage came to.
#[derive(Debug)]
pub enum ReadOutcome {
    /// The storage held this registry.
    Stored(RuntimeInfo),
    /// The storage does not exist yet.
    Absent,
    /// The content of the storage is not a registry.
    Corrupt(serde_json::Error),
    /// The storage could not be accessed.
    Failed(std::io::Error),
}

/// Why the persisted registry could not be read or written.
#[derive(Debug)]
pub enum RuntimeError {
    /// The storage could not be opened or accessed.
    FileError(std::io::Error),
    /// The stored content is not a registry.
    JsonParseError(serde_json::Error),
}

impl From<std::io::Error> for RuntimeError {
    fn from(error: std::io::Error) -> (r: RuntimeError) {
        RuntimeError::FileError(error)
    }
}

impl vstd::std_specs::convert::FromSpecImpl<std::io::Error> for RuntimeError {
    open spec fn obeys_from_spec() -> bool {
        true
    }

    open spec fn from_spec(error: std::io::Error) -> RuntimeError {
        RuntimeError::FileError(error)
    }
}

impl From<serde_json::Error> for RuntimeError {
    fn from(error: serde_json::Error) -> (r: RuntimeError) {
        RuntimeError::JsonParseError(error)
    }
}

impl vstd::std_specs::convert::FromSpecImpl<serde_json::Error> for RuntimeError {
    open spec fn obeys_from_spec() -> bool {
        true
    }

    open spec fn from_spec(error: serde_json::Error) -> RuntimeError {
        RuntimeError::JsonParseError(error)
    }
}

/// Receives what the launcher observes of the agent's life.
pub trait AgentEventListener {
    /// The registry content as this listener holds it.
    spec fn registry(&self) -> RuntimeInfoView;

    /// An agent process was started and is described by `agent_info`.
    fn on_agent_started(&mut self, agent_info: AgentInfo)
        ensures
            final(self).registry().state == old(self).registry().state,
            final(self).registry().agent_infos == old(self).registry().agent_infos.push(agent_info@),
    ;

    /// The agent process `process_id` has ended.
    fn on_agent_terminated(&mut self, process_id: u32)
        ensures
            final(self).registry().state == old(self).registry().state,
            final(self).registry().agent_infos == without_process(
                old(self).registry().agent_infos,
                process_id,
            ),
    ;
}

impl AgentEventListener for RuntimeInfo {
    open spec fn registry(&self) -> RuntimeInfoView {
        self@
    }

    fn on_agent_started(&mut self, agent_info: AgentInfo) {
        self.add_agent_info(agent_info);
    }

    fn on_agent_terminated(&mut self, process_id: u32) {
        self.remove_agent_info(process_id);
    }
}

/// Once the records of a process are removed none is left, and the records of
/// every other process are all still there, in their old order.
pub proof fn lemma_removed_process_is_gone(s: Seq<AgentInfoView>, process_id: u32)
    ensures
        of_process(without_process(s, process_id), process_id) == Seq::<AgentInfoView>::empty(),
        forall|other: u32|
            other != process_id ==> #[trigger] of_process(without_process(s, process_id), other)
                == of_process(s, other),
{
    lemma_filter_twice(
        s,
        |r: AgentInfoView| r.process_id != process_id,
        |r: AgentInfoView| r.process_id == process_id,
        |r: AgentInfoView| false,
    );
    lemma_filter_none(s, |r: AgentInfoView| false);
    assert forall|other: u32| other != process_id implies #[trigger] of_process(
        without_process(s, process_id),
        other,
    ) == of_process(s, other) by {
        lemma_filter_twice(
            s,
            |r: AgentInfoView| r.process_id != process_id,
            |r: AgentInfoView| r.process_id == other,
            |r: AgentInfoView| r.process_id == other,
        );
    }
}

/// Removing the records of a process a second time changes nothing: a stale
/// record is removed exactly once.
pub proof fn lemma_remove_is_idempotent(s: Seq<AgentInfoView>, process_id: u32)
    ensures
        without_process(without_process(s, process_id), process_id) == without_process(s, process_id),
{
    lemma_filter_twice(
        s,
        |r: AgentInfoView| r.process_id != process_id,
        |r: AgentInfoView| r.process_id != process_id,
        |r: AgentInfoView| r.process_id != process_id,
    );
}

/// Removing the records of a process that has none leaves the registry as
/// it is.
pub proof fn lemma_remove_absent_process(s: Seq<AgentInfoView>, process_id: u32)
    requires
        forall|i: int| 0 <= i < s.len() ==> (#[trigger] s[i]).process_id != process_id,
    ensures
        without_process(s, process_id) == s,
{
    lemma_filter_all(s, |r: AgentInfoView| r.process_id != process_id);
}

} // verus!
