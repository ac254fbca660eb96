//! The policy of the steady state: keep exactly one agent alive.
//!
//! One supervision cycle reconciles the registry with what the host reports
//! about the recorded processes and decides whether an agent has to be
//! launched. Probing and launching are the host's work; the cycle takes their
//! outcomes as values.

use vstd::prelude::*;
use crate::runtime::{
    records, with_role, without_process, AgentInfo, AgentInfoView, FeatType, RuntimeError,
    RuntimeInfo, RuntimeInfoView, State,
};
use crate::seq_lemmas::{
    lemma_filter_all, lemma_filter_keeps, lemma_filter_member, lemma_filter_pointwise,
    lemma_filter_twice,
};

verus! {

/// Why the host could not start or stop a process.
#[derive(Debug, Clone, Copy, PartialEq, Eq, Structural)]
pub enum AgentManagerError {
    /// The agent process could not be spawned.
    LaunchFailed,
    /// The termination request could not be delivered to the process.
    TerminateFailed { process_id: u32 },
}

/// Why a supervision cycle ended early.
#[derive(Debug)]
pub enum DefaultError {
    /// Starting or stopping the agent failed.
    AgentError(AgentManagerError),
    /// The registry could not be read or written.
    RuntimeError(RuntimeError),
}

impl From<AgentManagerError> for DefaultError {
    fn from(error: AgentManagerError) -> (r: DefaultError) {
        DefaultError::AgentError(error)
    }
}

impl vstd::std_specs::convert::FromSpecImpl<AgentManagerError> for DefaultError {
    open spec fn obeys_from_spec() -> bool {
        true
    }

    open spec fn from_spec(error: AgentManagerError) -> DefaultError {
        DefaultError::AgentError(error)
    }
}

impl From<RuntimeError> for DefaultError {
    fn from(error: RuntimeError) -> (r: DefaultError) {
        DefaultError::RuntimeError(error)
    }
}

impl vstd::std_specs::convert::FromSpecImpl<RuntimeError> for DefaultError {
    open spec fn obeys_from_spec() -> bool {
        true
    }

    open spec fn from_spec(error: RuntimeError) -> DefaultError {
        DefaultError::RuntimeError(error)
    }
}

/// What a cycle asks of the host once the registry is reconciled.
#[derive(Debug, Clone, Copy, PartialEq, Eq, Structural)]
pub enum Decision {
    /// No agent is alive: launch one.
    Launch,
    /// Exactly one agent is alive: nothing to do.
    Keep,
    /// More than one agent is alive. Nothing is killed and nothing is
    /// launched; the anomaly is to be reported and left to later cycles.
    Anomaly,
}

/// Whether some record of `agents` carries `process_id`.
pub open spec fn recorded(agents: Seq<AgentInfoView>, process_id: u32) -> bool {
    exists|i: int| 0 <= i < agents.len() && agents[i].process_id == process_id
}

/// Whether the host reported the record's process as running.
pub open spec fn is_live(record: AgentInfoView, running: Seq<u32>) -> bool {
    running.contains(record.process_id)
}

/// Whether `record` stays in the registry once the processes of `agents` have
/// been probed: it goes exactly when its process id is that of a probed
/// record and the process does not run.
pub open spec fn stays(record: AgentInfoView, agents: Seq<AgentInfoView>, running: Seq<u32>) -> bool {
    is_live(record, running) || !recorded(agents, record.process_id)
}

/// The registry after the processes of `agents` have been probed.
pub open spec fn pruned_by(
    s: Seq<AgentInfoView>,
    agents: Seq<AgentInfoView>,
    running: Seq<u32>,
) -> Seq<AgentInfoView> {
    s.filter(|r: AgentInfoView| stays(r, agents, running))
}

/// The registry after one cycle has probed every agent-role record.
pub open spec fn pruned(s: Seq<AgentInfoView>, running: Seq<u32>) -> Seq<AgentInfoView> {
    pruned_by(s, with_role(s, FeatType::Agent), running)
}

/// The agent-role records whose process runs, in registry order.
pub open spec fn live_agents(s: Seq<AgentInfoView>, running: Seq<u32>) -> Seq<AgentInfoView> {
    s.filter(|r: AgentInfoView| r.feat_type == FeatType::Agent && is_live(r, running))
}

/// The decision that the number of live agents calls for.
pub open spec fn decide(live: nat) -> Decision {
    if live == 0 {
        Decision::Launch
    } else if live == 1 {
        Decision::Keep
    } else {
        Decision::Anomaly
    }
}

proof fn lemma_prune_nothing_probed(s: Seq<AgentInfoView>, running: Seq<u32>)
    ensures
        pruned_by(s, Seq::empty(), running) == s,
{
    lemma_filter_all(s, |r: AgentInfoView| stays(r, Seq::empty(), running));
}

proof fn lemma_prune_step(
    s: Seq<AgentInfoView>,
    probed: Seq<AgentInfoView>,
    next: AgentInfoView,
    running: Seq<u32>,
)
    ensures
        pruned_by(s, probed.push(next), running) == if is_live(next, running) {
            pruned_by(s, probed, running)
        } else {
            without_process(pruned_by(s, probed, running), next.process_id)
        },
{
    let more = probed.push(next);
    assert forall|p: u32| recorded(more, p) == (recorded(probed, p) || p == next.process_id) by {
        if recorded(probed, p) {
            let i = choose|i: int| 0 <= i < probed.len() && probed[i].process_id == p;
            assert(more[i].process_id == p);
        }
        if p == next.process_id {
            assert(more[probed.len() as int].process_id == p);
        }
        if recorded(more, p) {
            let i = choose|i: int| 0 <= i < more.len() && more[i].process_id == p;
            if i < probed.len() {
                assert(probed[i].process_id == p);
            }
        }
    }
    if is_live(next, running) {
        lemma_filter_pointwise(
            s,
            |r: AgentInfoView| stays(r, more, running),
            |r: AgentInfoView| stays(r, probed, running),
        );
    } else {
        lemma_filter_twice(
            s,
            |r: AgentInfoView| stays(r, probed, running),
            |r: AgentInfoView| r.process_id != next.process_id,
            |r: AgentInfoView| stays(r, more, running),
        );
    }
}

/// After a cycle the agent-role records are exactly those that ran before
/// it, in their old order.
pub proof fn lemma_pruned_agents(s: Seq<AgentInfoView>, running: Seq<u32>)
    ensures
        with_role(pruned(s, running), FeatType::Agent) == live_agents(s, running),
{
    let agents = with_role(s, FeatType::Agent);
    assert forall|i: int| 0 <= i < s.len() && (#[trigger] s[i]).feat_type == FeatType::Agent implies recorded(
        agents,
        s[i].process_id,
    ) by {
        lemma_filter_keeps(s, |r: AgentInfoView| r.feat_type == FeatType::Agent, i);
    }
    lemma_filter_twice(
        s,
        |r: AgentInfoView| stays(r, agents, running),
        |r: AgentInfoView| r.feat_type == FeatType::Agent,
        |r: AgentInfoView| r.feat_type == FeatType::Agent && is_live(r, running),
    );
}

/// Whether `process_id` occurs in `running`.
pub fn contains_process(running: &Vec<u32>, process_id: u32) -> (found: bool)
    ensures
        found == running@.contains(process_id),
{
    let mut i: usize = 0;
    while i < running.len()
        invariant
            i <= running.len(),
            forall|k: int| 0 <= k < i ==> running@[k] != process_id,
        decreases running.len() - i,
    {
        if running[i] == process_id {
            return true;
        }
        i += 1;
    }
    false
}

/// The steady-state policy of the controller.
#[derive(Debug, Clone, Copy, PartialEq, Eq, Structural)]
pub struct DefaultState {}

impl DefaultState {
    /// The policy. It holds no state of its own: the registry is handed to
    /// each evaluation.
    pub fn new() -> (r: Self)
        ensures
            r == (DefaultState {  }),
    {
        DefaultState {  }
    }

    /// Runs the reconciling half of one cycle.
    ///
    /// `running` lists the process ids that the host reported as running.
    /// Every agent-role record is checked against it: a record whose process
    /// does not run is removed, together with any other record of the same
    /// process id. Nothing else changes. The decision follows from the number
    /// of agent-role records that are left, all of them alive.
    pub fn execute(&self, runtime_info: &mut RuntimeInfo, running: &Vec<u32>) -> (decision: Decision)
        ensures
            final(runtime_info)@.state == old(runtime_info)@.state,
            final(runtime_info)@.agent_infos == pruned(old(runtime_info)@.agent_infos, running@),
            with_role(final(runtime_info)@.agent_infos, FeatType::Agent) == live_agents(
                old(runtime_info)@.agent_infos,
                running@,
            ),
            decision == decide(live_agents(old(runtime_info)@.agent_infos, running@).len()),
    {
        let ghost before = runtime_info@.agent_infos;
        let agents = runtime_info.filter_process_infos(FeatType::Agent);
        let m: usize = agents.len();
        let mut j: usize = 0;
        proof {
            lemma_prune_nothing_probed(before, running@);
            assert(records(agents@).take(0) =~= Seq::empty());
        }
        while j < m
            invariant
                m == agents.len(),
                j <= m,
                runtime_info@.state == old(runtime_info)@.state,
                before == old(runtime_info)@.agent_infos,
                records(agents@) == with_role(before, FeatType::Agent),
                runtime_info@.agent_infos == pruned_by(before, records(agents@).take(j as int), running@),
            decreases m - j,
        {
            let alive = contains_process(running, agents[j].process_id);
            proof {
                lemma_prune_step(before, records(agents@).take(j as int), agents@[j as int]@, running@);
                assert(records(agents@).take(j + 1) =~= records(agents@).take(j as int).push(
                    agents@[j as int]@,
                ));
            }
            runtime_info.is_running_or_remove_if_stopped(&agents[j], alive);
            j += 1;
        }
        proof {
            assert(records(agents@).take(m as int) =~= records(agents@));
            lemma_pruned_agents(before, running@);
        }
        let live = runtime_info.filter_process_infos(FeatType::Agent);
        assert(records(live@).len() == live@.len());
        if live.len() == 0 {
            Decision::Launch
        } else if live.len() == 1 {
            Decision::Keep
        } else {
            Decision::Anomaly
        }
    }

    /// Takes in the outcome of a launch that [`Decision::Launch`] asked for:
    /// the record of a started agent joins the registry, a failure leaves the
    /// registry as it was and ends the cycle with that failure.
    pub fn launched(
        &self,
        runtime_info: &mut RuntimeInfo,
        outcome: Result<AgentInfo, AgentManagerError>,
    ) -> (r: Result<(), DefaultError>)
        ensures
            final(runtime_info)@.state == old(runtime_info)@.state,
            match outcome {
                Ok(record) => r.is_ok() && final(runtime_info)@.agent_infos == old(
                    runtime_info,
                )@.agent_infos.push(record@),
                Err(error) => r == Err::<(), DefaultError>(DefaultError::AgentError(error))
                    && final(runtime_info)@ == old(runtime_info)@,
            },
    {
        match outcome {
            Ok(record) => {
                runtime_info.add_agent_info(record);
                Ok(())
            },
            Err(error) => Err(DefaultError::AgentError(error)),
        }
    }
}

/// Whether some record of role `feat_type` belongs to a running process.
pub open spec fn role_runs(s: Seq<AgentInfoView>, feat_type: FeatType, running: Seq<u32>) -> bool {
    exists|i: int| 0 <= i < s.len() && s[i].feat_type == feat_type && is_live(s[i], running)
}

/// The health check that ends an update: a controller and an agent are both
/// recorded and running.
pub open spec fn healthy(s: Seq<AgentInfoView>, running: Seq<u32>) -> bool {
    role_runs(s, FeatType::Controller, running) && role_runs(s, FeatType::Agent, running)
}

/// The registry after the health check: an update in flight is over once the
/// pair is healthy; in every other case nothing changes.
pub open spec fn confirmed(v: RuntimeInfoView, running: Seq<u32>) -> RuntimeInfoView {
    if v.state == State::Updating && healthy(v.agent_infos, running) {
        RuntimeInfoView { state: State::Default, ..v }
    } else {
        v
    }
}

/// Whether some record of role `feat_type` belongs to a running process.
pub fn any_running(runtime_info: &RuntimeInfo, feat_type: FeatType, running: &Vec<u32>) -> (found: bool)
    ensures
        found == role_runs(runtime_info@.agent_infos, feat_type, running@),
{
    let n: usize = runtime_info.agent_infos.len();
    let mut i: usize = 0;
    while i < n
        invariant
            n == runtime_info.agent_infos.len(),
            i <= n,
            forall|k: int|
                0 <= k < i ==> !(runtime_info@.agent_infos[k].feat_type == feat_type && is_live(
                    #[trigger] runtime_info@.agent_infos[k],
                    running@,
                )),
        decreases n - i,
    {
        if runtime_info.agent_infos[i].feat_type == feat_type && contains_process(
            running,
            runtime_info.agent_infos[i].process_id,
        ) {
            assert(runtime_info@.agent_infos[i as int] == runtime_info.agent_infos@[i as int]@);
            return true;
        }
        assert(runtime_info@.agent_infos[i as int] == runtime_info.agent_infos@[i as int]@);
        i += 1;
    }
    false
}

impl DefaultState {
    /// Ends an update in flight once a controller and an agent are both
    /// recorded and running. Safe to run in every cycle: in the steady state,
    /// or while the pair is not healthy, nothing changes. Says whether the
    /// lifecycle state went back to the steady state.
    pub fn confirm_update(&self, runtime_info: &mut RuntimeInfo, running: &Vec<u32>) -> (ended: bool)
        ensures
            final(runtime_info)@ == confirmed(old(runtime_info)@, running@),
            ended == (old(runtime_info)@.state == State::Updating && healthy(
                old(runtime_info)@.agent_infos,
                running@,
            )),
    {
        if runtime_info.state == State::Updating && any_running(
            runtime_info,
            FeatType::Controller,
            running,
        ) && any_running(runtime_info, FeatType::Agent, running) {
            runtime_info.update_state(State::Default);
            true
        } else {
            false
        }
    }
}

impl DefaultState {
    /// One whole evaluation of the lifecycle: the health check that ends an
    /// update, then the reconciling of the registry and the decision.
    pub fn evaluate(&self, runtime_info: &mut RuntimeInfo, running: &Vec<u32>) -> (decision: Decision)
        ensures
            final(runtime_info)@.state == confirmed(old(runtime_info)@, running@).state,
            final(runtime_info)@.agent_infos == pruned(old(runtime_info)@.agent_infos, running@),
            decision == decide(live_agents(old(runtime_info)@.agent_infos, running@).len()),
    {
        self.confirm_update(runtime_info, running);
        self.execute(runtime_info, running)
    }
}

/// Running the health check a second time changes nothing.
pub proof fn lemma_confirm_is_idempotent(v: RuntimeInfoView, running: Seq<u32>)
    ensures
        confirmed(confirmed(v, running), running) == confirmed(v, running),
{
}

/// With no agent alive, a cycle decides to launch, and once the launched
/// agent is recorded it is the only agent-role record of the registry.
pub proof fn lemma_cycle_without_live_agent(
    s: Seq<AgentInfoView>,
    running: Seq<u32>,
    launched: AgentInfoView,
)
    requires
        live_agents(s, running).len() == 0,
        launched.feat_type == FeatType::Agent,
    ensures
        decide(live_agents(s, running).len()) == Decision::Launch,
        with_role(pruned(s, running).push(launched), FeatType::Agent) == seq![launched],
{
    lemma_pruned_agents(s, running);
    pruned(s, running).lemma_filter_push(launched, |r: AgentInfoView| r.feat_type == FeatType::Agent);
    assert(live_agents(s, running) =~= Seq::empty());
    assert(Seq::<AgentInfoView>::empty().push(launched) =~= seq![launched]);
}

/// With two or more agents recorded and all of them alive, a cycle reports
/// the anomaly and leaves the registry exactly as it was.
pub proof fn lemma_cycle_with_several_live_agents(s: Seq<AgentInfoView>, running: Seq<u32>)
    requires
        with_role(s, FeatType::Agent).len() >= 2,
        forall|i: int|
            0 <= i < s.len() && (#[trigger] s[i]).feat_type == FeatType::Agent ==> is_live(s[i], running),
    ensures
        decide(live_agents(s, running).len()) == Decision::Anomaly,
        pruned(s, running) == s,
{
    let agents = with_role(s, FeatType::Agent);
    lemma_filter_pointwise(
        s,
        |r: AgentInfoView| r.feat_type == FeatType::Agent && is_live(r, running),
        |r: AgentInfoView| r.feat_type == FeatType::Agent,
    );
    assert forall|i: int| 0 <= i < s.len() implies stays(#[trigger] s[i], agents, running) by {
        if recorded(agents, s[i].process_id) {
            let j = choose|j: int| 0 <= j < agents.len() && agents[j].process_id == s[i].process_id;
            lemma_filter_member(s, |r: AgentInfoView| r.feat_type == FeatType::Agent, j);
            let k = choose|k: int| 0 <= k < s.len() && s[k] == agents[j];
            assert(is_live(s[k], running));
        }
    }
    lemma_filter_all(s, |r: AgentInfoView| stays(r, agents, running));
}

/// A cycle never removes a record whose process runs.
pub proof fn lemma_cycle_keeps_the_living(s: Seq<AgentInfoView>, running: Seq<u32>, i: int)
    requires
        0 <= i < s.len(),
        is_live(s[i], running),
    ensures
        pruned(s, running).contains(s[i]),
{
    lemma_filter_keeps(s, |r: AgentInfoView| stays(r, with_role(s, FeatType::Agent), running), i);
}

} // verus!
