use nodex::runtime::{AgentInfo, FeatType, RuntimeInfo, State, Timestamp};
use nodex::update::{
    has_capacity, install_directory_of, is_allowed, relaunch_targets, StepOutcome, UpdateCoordinator, UpdateError,
    UpdateStep, CONTROLLER_ARGUMENT, STEP_COUNT,
};

const PREFIX: &str = "https://releases.example.org/nodex/";
const GOOD_URL: &str = "https://releases.example.org/nodex/v3.1.0/nodex-agent.zip";

fn record(process_id: u32, feat_type: FeatType) -> AgentInfo {
    AgentInfo {
        process_id,
        feat_type,
        executed_at: Timestamp { seconds: 10, nanoseconds: 0, offset_seconds: 0 },
        version: "3.0.0".to_string(),
    }
}

fn resolved() -> StepOutcome {
    StepOutcome::Resolved {
        install_directory: "/opt/nodex".to_string(),
        backup_location: "/opt/nodex/backup".to_string(),
    }
}

fn measured(free: u64) -> StepOutcome {
    StepOutcome::Measured { free, backup_size: 400, payload_size: 600 }
}

fn session_at_download() -> UpdateCoordinator {
    let mut session = UpdateCoordinator::begin(GOOD_URL.to_string(), PREFIX).unwrap();
    assert_eq!(session.advance(resolved()), Ok(()));
    assert_eq!(session.advance(measured(1000)), Ok(()));
    assert_eq!(session.advance(StepOutcome::Done), Ok(()));
    assert_eq!(session.next_step(), Some(UpdateStep::Download));
    session
}

#[test]
fn request_outside_the_allowed_prefix_is_rejected_before_any_step() {
    let rejected = UpdateCoordinator::begin("https://evil.example.org/nodex.zip".to_string(), PREFIX);
    assert!(matches!(rejected, Err(UpdateError::IntegrityError)));
    assert!(UpdateCoordinator::plan("https://evil.example.org/nodex.zip", PREFIX).is_empty());
}

#[test]
fn request_inside_the_allowed_prefix_plans_the_seven_steps_in_order() {
    assert_eq!(
        UpdateCoordinator::plan(GOOD_URL, PREFIX),
        vec![
            UpdateStep::ResolveInstallDirectory,
            UpdateStep::CheckCapacity,
            UpdateStep::Backup,
            UpdateStep::Download,
            UpdateStep::Extract,
            UpdateStep::Relaunch,
            UpdateStep::MarkUpdating,
        ]
    );
    assert_eq!(STEP_COUNT, 7);
}

#[test]
fn allow_list_compares_the_beginning_of_the_location() {
    assert!(is_allowed(GOOD_URL, PREFIX));
    assert!(is_allowed(PREFIX, PREFIX));
    assert!(is_allowed("anything", ""));
    assert!(!is_allowed("https://releases.example.org/nodex", PREFIX));
    assert!(!is_allowed("http://releases.example.org/nodex/v1.zip", PREFIX));
    assert!(!is_allowed("", PREFIX));
    assert!(!is_allowed("x https://releases.example.org/nodex/v1.zip", PREFIX));
}

#[test]
fn allow_list_compares_characters_not_bytes() {
    assert!(is_allowed("h\u{e9}llo/w\u{f6}rld", "h\u{e9}llo/"));
    assert!(!is_allowed("hello/world", "h\u{e9}llo/"));
    assert!(!is_allowed("h\u{e9}", "h\u{e9}llo"));
}

#[test]
fn fresh_session_waits_for_the_install_directory() {
    let session = UpdateCoordinator::begin(GOOD_URL.to_string(), PREFIX).unwrap();
    assert_eq!(session.next_step(), Some(UpdateStep::ResolveInstallDirectory));
    assert_eq!(session.completed(), 0);
    assert_eq!(session.failure(), None);
    let places = session.session();
    assert_eq!(places.binary_source_url, GOOD_URL);
    assert_eq!(places.install_directory, None);
    assert_eq!(places.backup_location, None);
}

#[test]
fn session_runs_its_steps_in_order() {
    let mut session = UpdateCoordinator::begin(GOOD_URL.to_string(), PREFIX).unwrap();
    assert_eq!(session.advance(resolved()), Ok(()));
    assert_eq!(session.next_step(), Some(UpdateStep::CheckCapacity));
    assert_eq!(session.session().install_directory, Some("/opt/nodex".to_string()));
    assert_eq!(session.session().backup_location, Some("/opt/nodex/backup".to_string()));
    assert_eq!(session.advance(measured(1000)), Ok(()));
    assert_eq!(session.next_step(), Some(UpdateStep::Backup));
    assert_eq!(session.advance(StepOutcome::Done), Ok(()));
    assert_eq!(session.next_step(), Some(UpdateStep::Download));
    assert_eq!(session.advance(StepOutcome::Done), Ok(()));
    assert_eq!(session.next_step(), Some(UpdateStep::Extract));
    assert_eq!(session.advance(StepOutcome::Done), Ok(()));
    assert_eq!(session.next_step(), Some(UpdateStep::Relaunch));
    assert_eq!(session.advance(StepOutcome::Done), Ok(()));
    assert_eq!(session.next_step(), Some(UpdateStep::MarkUpdating));
    assert_eq!(session.advance(StepOutcome::Done), Ok(()));
    assert_eq!(session.next_step(), None);
    assert_eq!(session.completed(), 7);
    assert_eq!(session.failure(), None);
    assert_eq!(session.advance(StepOutcome::Done), Err(UpdateError::NoStepPending));
    assert_eq!(session.completed(), 7);
}

#[test]
fn failed_download_keeps_the_backup_and_the_steady_state() {
    let mut session = session_at_download();
    let mut info = RuntimeInfo { state: State::Default, agent_infos: vec![record(1, FeatType::Agent)] };
    assert_eq!(session.advance(StepOutcome::Failed), Err(UpdateError::NetworkError));
    assert_eq!(session.failure(), Some(UpdateError::NetworkError));
    assert_eq!(session.next_step(), None);
    assert_eq!(session.completed(), 3);
    assert_eq!(session.session().backup_location, Some("/opt/nodex/backup".to_string()));
    assert!(!session.mark(&mut info));
    assert_eq!(info.state, State::Default);
    assert_eq!(info.agent_infos, vec![record(1, FeatType::Agent)]);
    assert_eq!(session.advance(StepOutcome::Done), Err(UpdateError::NoStepPending));
    assert_eq!(session.completed(), 3);
}

#[test]
fn each_step_fails_with_its_own_error() {
    let mut session = UpdateCoordinator::begin(GOOD_URL.to_string(), PREFIX).unwrap();
    assert_eq!(
        session.advance(StepOutcome::Failed),
        Err(UpdateError::IoError { step: UpdateStep::ResolveInstallDirectory })
    );

    let mut session = UpdateCoordinator::begin(GOOD_URL.to_string(), PREFIX).unwrap();
    session.advance(resolved()).unwrap();
    assert_eq!(
        session.advance(StepOutcome::Failed),
        Err(UpdateError::IoError { step: UpdateStep::CheckCapacity })
    );

    let mut session = UpdateCoordinator::begin(GOOD_URL.to_string(), PREFIX).unwrap();
    session.advance(resolved()).unwrap();
    session.advance(measured(1000)).unwrap();
    assert_eq!(session.advance(StepOutcome::Failed), Err(UpdateError::IoError { step: UpdateStep::Backup }));
    assert_eq!(session.completed(), 2);

    let mut session = session_at_download();
    session.advance(StepOutcome::Done).unwrap();
    assert_eq!(session.advance(StepOutcome::Failed), Err(UpdateError::IoError { step: UpdateStep::Extract }));

    let mut session = session_at_download();
    session.advance(StepOutcome::Done).unwrap();
    session.advance(StepOutcome::Done).unwrap();
    assert_eq!(session.advance(StepOutcome::Failed), Err(UpdateError::ProcessControlError));

    let mut session = session_at_download();
    session.advance(StepOutcome::Done).unwrap();
    session.advance(StepOutcome::Done).unwrap();
    session.advance(StepOutcome::Done).unwrap();
    assert_eq!(
        session.advance(StepOutcome::Failed),
        Err(UpdateError::IoError { step: UpdateStep::MarkUpdating })
    );
}

#[test]
fn too_little_room_ends_the_session_before_the_backup() {
    let mut session = UpdateCoordinator::begin(GOOD_URL.to_string(), PREFIX).unwrap();
    session.advance(resolved()).unwrap();
    let refused = UpdateError::CapacityError { free: 999, backup_size: 400, payload_size: 600 };
    assert_eq!(session.advance(measured(999)), Err(refused));
    assert_eq!(session.failure(), Some(refused));
    assert_eq!(session.next_step(), None);
    assert_eq!(session.completed(), 1);
}

#[test]
fn capacity_is_the_sum_of_backup_and_payload() {
    assert!(has_capacity(1000, 400, 600));
    assert!(!has_capacity(999, 400, 600));
    assert!(has_capacity(0, 0, 0));
    assert!(has_capacity(u64::MAX, u64::MAX, 0));
    assert!(!has_capacity(u64::MAX, u64::MAX, 1));
    assert!(!has_capacity(u64::MAX, u64::MAX, u64::MAX));
}

#[test]
fn report_that_does_not_fit_the_step_is_refused_and_changes_nothing() {
    let mut session = UpdateCoordinator::begin(GOOD_URL.to_string(), PREFIX).unwrap();
    assert_eq!(
        session.advance(StepOutcome::Done),
        Err(UpdateError::UnexpectedOutcome { step: UpdateStep::ResolveInstallDirectory })
    );
    assert_eq!(
        session.advance(measured(1000)),
        Err(UpdateError::UnexpectedOutcome { step: UpdateStep::ResolveInstallDirectory })
    );
    assert_eq!(session.next_step(), Some(UpdateStep::ResolveInstallDirectory));
    assert_eq!(session.failure(), None);
    session.advance(resolved()).unwrap();
    assert_eq!(
        session.advance(resolved()),
        Err(UpdateError::UnexpectedOutcome { step: UpdateStep::CheckCapacity })
    );
    assert_eq!(
        session.advance(StepOutcome::Done),
        Err(UpdateError::UnexpectedOutcome { step: UpdateStep::CheckCapacity })
    );
    session.advance(measured(1000)).unwrap();
    assert_eq!(
        session.advance(measured(1000)),
        Err(UpdateError::UnexpectedOutcome { step: UpdateStep::Backup })
    );
    assert_eq!(session.next_step(), Some(UpdateStep::Backup));
}

#[test]
fn marking_sets_the_state_only_at_the_last_step() {
    let mut session = session_at_download();
    let mut info = RuntimeInfo { state: State::Default, agent_infos: vec![record(1, FeatType::Agent)] };
    assert!(!session.mark(&mut info));
    assert_eq!(info.state, State::Default);
    session.advance(StepOutcome::Done).unwrap();
    session.advance(StepOutcome::Done).unwrap();
    assert!(!session.mark(&mut info));
    session.advance(StepOutcome::Done).unwrap();
    assert_eq!(session.next_step(), Some(UpdateStep::MarkUpdating));
    assert!(session.mark(&mut info));
    assert_eq!(info.state, State::Updating);
    assert_eq!(info.agent_infos, vec![record(1, FeatType::Agent)]);
    session.advance(StepOutcome::Done).unwrap();
    assert!(!session.mark(&mut info));
}

#[test]
fn relaunch_ends_the_controllers_and_no_agent() {
    let info = RuntimeInfo {
        state: State::Default,
        agent_infos: vec![
            record(1, FeatType::Agent),
            record(2, FeatType::Controller),
            record(3, FeatType::Agent),
            record(4, FeatType::Controller),
        ],
    };
    assert_eq!(relaunch_targets(&info), vec![2, 4]);
    assert!(relaunch_targets(&RuntimeInfo::default()).is_empty());
    assert_eq!(CONTROLLER_ARGUMENT, "controller");
}

#[test]
fn steps_know_their_place_and_their_failure() {
    assert_eq!(UpdateStep::at(0), Some(UpdateStep::ResolveInstallDirectory));
    assert_eq!(UpdateStep::at(3), Some(UpdateStep::Download));
    assert_eq!(UpdateStep::at(6), Some(UpdateStep::MarkUpdating));
    assert_eq!(UpdateStep::at(7), None);
    assert_eq!(UpdateStep::at(255), None);
    assert_eq!(UpdateStep::Backup.index(), 2);
    assert_eq!(UpdateStep::MarkUpdating.index(), 6);
    assert_eq!(UpdateStep::Download.failure(), UpdateError::NetworkError);
    assert_eq!(UpdateStep::Relaunch.failure(), UpdateError::ProcessControlError);
    assert_eq!(UpdateStep::Backup.failure(), UpdateError::IoError { step: UpdateStep::Backup });
}

#[test]
fn install_directory_is_the_one_that_holds_the_binary() {
    assert_eq!(install_directory_of("/opt/nodex/bin/nodex-agent"), Some("/opt/nodex/bin".to_string()));
    assert_eq!(install_directory_of("/nodex-agent"), Some("".to_string()));
    assert_eq!(install_directory_of("bin/nodex-agent"), Some("bin".to_string()));
    assert_eq!(install_directory_of("nodex-agent"), None);
    assert_eq!(install_directory_of(""), None);
}
