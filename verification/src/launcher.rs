//! Starting and stopping the supervised agent, as far as it can be decided
//! without touching a process.
//!
//! The launcher says what the host is to do and records what the host did.
//! Where a service manager outside this program already starts the agent on
//! demand, the launcher asks for nothing, so that the agent is never started
//! twice.

use vstd::prelude::*;
use crate::runtime::{AgentInfo, AgentInfoView, FeatType, RuntimeInfo, Timestamp};

verus! {

/// What the host is to do when an agent has to be launched.
#[derive(Debug, Clone, Copy, PartialEq, Eq, Structural)]
pub enum LaunchRequest {
    /// Spawn the agent as a detached process that outlives the controller.
    Spawn,
    /// Do nothing: the service manager starts the agent.
    Nothing,
}

/// A request to end a process. The request is sent and not waited for;
/// whether the process has ended shows in a later probe.
#[derive(Debug, Clone, Copy, PartialEq, Eq, Structural)]
pub struct TerminationRequest {
    pub process_id: u32,
    pub graceful: bool,
    pub wait: bool,
}

/// The launcher of the agent.
#[derive(Debug, Clone, Copy, PartialEq, Eq, Structural)]
pub struct AgentLauncher {
    pub service_managed: bool,
}

impl AgentLauncher {
    /// A launcher for a host on which a service manager starts the agent
    /// (`service_managed`), or for one on which the controller does.
    pub fn new(service_managed: bool) -> (r: Self)
        ensures
            r.service_managed == service_managed,
    {
        AgentLauncher { service_managed }
    }

    /// What the host is to do to launch the agent.
    pub fn launch(&self) -> (request: LaunchRequest)
        ensures
            request == if self.service_managed {
                LaunchRequest::Nothing
            } else {
                LaunchRequest::Spawn
            },
    {
        if self.service_managed {
            LaunchRequest::Nothing
        } else {
            LaunchRequest::Spawn
        }
    }

    /// Records the agent that the host has spawned: a record of the agent
    /// role with the given process id, start time and version joins the
    /// registry at its end, and is handed back.
    pub fn register(
        &self,
        runtime_info: &mut RuntimeInfo,
        process_id: u32,
        executed_at: Timestamp,
        version: String,
    ) -> (record: AgentInfo)
        ensures
            record@ == (AgentInfoView {
                process_id,
                feat_type: FeatType::Agent,
                executed_at,
                version: version@,
            }),
            final(runtime_info)@.state == old(runtime_info)@.state,
            final(runtime_info)@.agent_infos == old(runtime_info)@.agent_infos.push(record@),
    {
        let record = AgentInfo { process_id, feat_type: FeatType::Agent, executed_at, version };
        runtime_info.add_agent_info(record.clone());
        record
    }

    /// The request that ends the process of a record: graceful, and not
    /// waited for. The registry is not touched; a later probe of the process
    /// removes the record once the process is gone.
    pub fn terminate(&self, process_info: &AgentInfo) -> (request: TerminationRequest)
        ensures
            request == (TerminationRequest {
                process_id: process_info.process_id,
                graceful: true,
                wait: false,
            }),
    {
        TerminationRequest { process_id: process_info.process_id, graceful: true, wait: false }
    }
}

} // verus!
