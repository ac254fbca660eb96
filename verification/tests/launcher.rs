use nodex::default_state::{Decision, DefaultState};
use nodex::launcher::{AgentLauncher, LaunchRequest, TerminationRequest};
use nodex::runtime::{AgentInfo, FeatType, RuntimeInfo, State, Timestamp};

fn stamp() -> Timestamp {
    Timestamp { seconds: 1_720_000_000, nanoseconds: 250, offset_seconds: -18_000 }
}

fn record(process_id: u32, feat_type: FeatType) -> AgentInfo {
    AgentInfo { process_id, feat_type, executed_at: stamp(), version: "3.2.1".to_string() }
}

#[test]
fn launcher_spawns_unless_a_service_manager_does() {
    assert_eq!(AgentLauncher::new(false).launch(), LaunchRequest::Spawn);
    assert_eq!(AgentLauncher::new(true).launch(), LaunchRequest::Nothing);
}

#[test]
fn spawned_agent_is_registered_with_the_agent_role() {
    let mut info = RuntimeInfo { state: State::Updating, agent_infos: vec![record(1, FeatType::Controller)] };
    let registered = AgentLauncher::new(false).register(&mut info, 77, stamp(), "3.2.1".to_string());
    assert_eq!(registered, record(77, FeatType::Agent));
    assert_eq!(info.agent_infos, vec![record(1, FeatType::Controller), record(77, FeatType::Agent)]);
    assert_eq!(info.state, State::Updating);
}

#[test]
fn termination_is_graceful_and_not_waited_for() {
    let info = RuntimeInfo { state: State::Default, agent_infos: vec![record(9, FeatType::Agent)] };
    assert_eq!(
        AgentLauncher::new(false).terminate(&info.agent_infos[0]),
        TerminationRequest { process_id: 9, graceful: true, wait: false }
    );
    assert_eq!(info.agent_infos, vec![record(9, FeatType::Agent)]);
}

#[test]
fn one_cycle_from_no_live_agent_ends_with_exactly_one_agent() {
    let policy = DefaultState::new();
    let launcher = AgentLauncher::new(false);
    let mut info = RuntimeInfo {
        state: State::Default,
        agent_infos: vec![record(5, FeatType::Agent), record(6, FeatType::Controller)],
    };
    assert_eq!(policy.evaluate(&mut info, &vec![6]), Decision::Launch);
    assert_eq!(launcher.launch(), LaunchRequest::Spawn);
    launcher.register(&mut info, 8, stamp(), "3.2.1".to_string());
    assert_eq!(info.filter_process_infos(FeatType::Agent), vec![record(8, FeatType::Agent)]);
    assert_eq!(policy.evaluate(&mut info, &vec![6, 8]), Decision::Keep);
    assert_eq!(info.agent_infos, vec![record(6, FeatType::Controller), record(8, FeatType::Agent)]);
}

#[test]
fn evaluation_ends_an_update_and_reconciles_in_one_pass() {
    let policy = DefaultState::new();
    let mut info = RuntimeInfo {
        state: State::Updating,
        agent_infos: vec![
            record(1, FeatType::Agent),
            record(2, FeatType::Agent),
            record(3, FeatType::Controller),
        ],
    };
    assert_eq!(policy.evaluate(&mut info, &vec![2, 3]), Decision::Keep);
    assert_eq!(info.state, State::Default);
    assert_eq!(info.agent_infos, vec![record(2, FeatType::Agent), record(3, FeatType::Controller)]);
}

#[test]
fn evaluation_keeps_an_update_in_flight_without_a_controller() {
    let policy = DefaultState::new();
    let mut info = RuntimeInfo { state: State::Updating, agent_infos: vec![record(1, FeatType::Agent)] };
    assert_eq!(policy.evaluate(&mut info, &vec![1]), Decision::Keep);
    assert_eq!(info.state, State::Updating);
}
