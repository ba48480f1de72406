use remote_kernel::coordinator::{
    Action, Coordinator, Event, ExecutionError, Stage, StageKind,
};
use remote_kernel::launch::{LaunchError, LaunchRequest};
use remote_kernel::phase::PhaseKind;
use remote_kernel::session::{ChannelAddress, ExecuteRequest, ReceiveDisposition};
use remote_kernel::watch::BuildError;

const READY_LINE: &str = "data: {\"phase\": \"ready\", \"message\": \"up\", \"url\": \"https://env.example/x\", \"token\": \"abc\", \"image\": \"i\", \"repo_url\": \"r\", \"binder_ref_url\": \"b\", \"binder_launch_host\": \"h\", \"binder_request\": \"q\", \"binder_persistent_request\": \"p\"}";

const KERNEL_BODY: &str = "{\"id\": \"k-17\", \"name\": \"python\", \"last_activity\": \"2024-01-01T00:00:00Z\", \"execution_state\": \"starting\", \"connections\": 0}";

fn line(text: &str) -> Event {
    Event::BuildLine(text.to_string())
}

fn up_to_sent() -> Vec<Event> {
    vec![
        line("data: {\"phase\": \"waiting\", \"message\": \"w\"}"),
        line(":keepalive"),
        line("data: {\"phase\": \"building\", \"message\": \"b\"}"),
        line(READY_LINE),
        Event::LaunchResponded { status: 201, body: KERNEL_BODY.to_string() },
        Event::ChannelOpened,
        Event::RequestSent,
    ]
}

fn expected_up_to_sent() -> Vec<Action> {
    vec![
        Action::ReadBuildLine,
        Action::ReadBuildLine,
        Action::ReadBuildLine,
        Action::PostLaunch(LaunchRequest {
            url: "https://env.example/x/api/kernels".to_string(),
            authorization: "token abc".to_string(),
            body: "{\"name\":\"python\"}".to_string(),
        }),
        Action::OpenChannel(ChannelAddress {
            base_url: "https://env.example/x".to_string(),
            kernel_id: "k-17".to_string(),
            auth_token: "abc".to_string(),
        }),
        Action::StartReceivingAndSend(ExecuteRequest {
            code: "2 + 2".to_string(),
            silent: false,
            store_history: false,
            allow_stdin: false,
            stop_on_error: false,
            user_expressions: None,
        }),
        Action::AwaitResult { deadline_millis: 500 },
    ]
}

#[test]
fn new_coordinator_watches_the_build() {
    let coordinator = Coordinator::new("2 + 2", "python", 500);
    assert_eq!(coordinator.stage_kind(), StageKind::WatchingBuild);
    assert!(!coordinator.channel_open());
    assert_eq!(coordinator.build_phase(), None);
}

#[test]
fn build_progress_is_observable() {
    let coordinator = Coordinator::new("2 + 2", "python", 500);
    let (coordinator, action) = coordinator.step(line("data: {\"phase\": \"fetching\"}"));
    assert_eq!(action, Action::ReadBuildLine);
    assert_eq!(coordinator.build_phase(), Some(PhaseKind::Fetching));
    let (coordinator, action) = coordinator.step(line(": comment"));
    assert_eq!(action, Action::ReadBuildLine);
    assert_eq!(coordinator.build_phase(), Some(PhaseKind::Fetching));
    let (coordinator, action) = coordinator.step(line("does not parse"));
    assert_eq!(action, Action::ReadBuildLine);
    assert_eq!(coordinator.build_phase(), Some(PhaseKind::Fetching));
    assert_eq!(coordinator.stage_kind(), StageKind::WatchingBuild);
}

#[test]
fn ready_build_leads_to_authorized_launch() {
    let coordinator = Coordinator::new("2 + 2", "python", 500);
    let events = vec![
        line("data: {\"phase\": \"waiting\"}"),
        line("data: {\"phase\": \"building\"}"),
        line(READY_LINE),
    ];
    let (coordinator, actions) = coordinator.run(&events);
    assert_eq!(coordinator.stage_kind(), StageKind::Launching);
    assert_eq!(actions.len(), 3);
    match &actions[2] {
        Action::PostLaunch(request) => {
            assert_eq!(request.authorization, "token abc");
            assert_eq!(request.url, "https://env.example/x/api/kernels");
        }
        other => panic!("unexpected action {:?}", other),
    }
}

#[test]
fn build_stream_that_ends_early_is_not_ready() {
    let coordinator = Coordinator::new("2 + 2", "python", 500);
    let events = vec![
        line("data: {\"phase\": \"waiting\"}"),
        line("data: {\"phase\": \"building\"}"),
        Event::BuildStreamEnded,
    ];
    let (coordinator, actions) = coordinator.run(&events);
    assert_eq!(
        actions[2],
        Action::Report(Err(ExecutionError::Build(BuildError::NotReady)))
    );
    assert_eq!(coordinator.stage_kind(), StageKind::Finished);

    let (coordinator, action) = Coordinator::new("1", "python", 1).step(Event::BuildStreamEnded);
    assert_eq!(action, Action::Report(Err(ExecutionError::Build(BuildError::NotReady))));
    assert_eq!(coordinator.stage_kind(), StageKind::Finished);
}

#[test]
fn failed_build_is_reported_with_its_reason() {
    let coordinator = Coordinator::new("2 + 2", "python", 500);
    let (coordinator, action) =
        coordinator.step(line("data: {\"phase\": \"failed\", \"message\": \"no such repo\"}"));
    assert_eq!(
        action,
        Action::Report(Err(ExecutionError::Build(BuildError::Failed(Some(
            "no such repo".to_string()
        )))))
    );
    assert_eq!(coordinator.stage_kind(), StageKind::Finished);
}

#[test]
fn rejected_launch_is_reported_with_the_body() {
    let coordinator = Coordinator::new("2 + 2", "python", 500);
    let events = vec![
        line(READY_LINE),
        Event::LaunchResponded { status: 403, body: "forbidden: bad token".to_string() },
    ];
    let (coordinator, actions) = coordinator.run(&events);
    assert_eq!(
        actions[1],
        Action::Report(Err(ExecutionError::Launch(LaunchError::Rejected {
            status: 403,
            body: "forbidden: bad token".to_string(),
        })))
    );
    assert_eq!(coordinator.stage_kind(), StageKind::Finished);
    assert!(!coordinator.channel_open());
}

#[test]
fn unreadable_launch_answer_is_reported() {
    let coordinator = Coordinator::new("2 + 2", "python", 500);
    let events =
        vec![line(READY_LINE), Event::LaunchResponded { status: 200, body: "[]".to_string() }];
    let (_, actions) = coordinator.run(&events);
    assert_eq!(
        actions[1],
        Action::Report(Err(ExecutionError::Launch(LaunchError::Undecodable {
            body: "[]".to_string(),
        })))
    );
}

#[test]
fn execution_reports_the_result_and_closes_the_channel() {
    let coordinator = Coordinator::new("2 + 2", "python", 500);
    let mut events = up_to_sent();
    events.push(Event::ReceiveEnded(ReceiveDisposition::Result("4".to_string())));
    events.push(Event::ChannelClosed);
    let (coordinator, actions) = coordinator.run(&events);
    let mut expected = expected_up_to_sent();
    expected.push(Action::CloseChannel);
    expected.push(Action::Report(Ok("4".to_string())));
    assert_eq!(actions, expected);
    assert_eq!(coordinator.stage_kind(), StageKind::Finished);
    assert!(!coordinator.channel_open());
}

#[test]
fn missing_result_times_out_and_closes_the_channel() {
    let coordinator = Coordinator::new("2 + 2", "python", 500);
    let mut events = up_to_sent();
    events.push(Event::DeadlineElapsed);
    let (coordinator, actions) = coordinator.run(&events);
    let mut expected = expected_up_to_sent();
    expected.push(Action::CloseChannel);
    assert_eq!(actions, expected);
    assert_eq!(coordinator.stage_kind(), StageKind::Closing);
    assert!(coordinator.channel_open());

    let (coordinator, action) = coordinator.step(Event::ChannelClosed);
    assert_eq!(action, Action::Report(Err(ExecutionError::Timeout)));
    assert_eq!(coordinator.stage_kind(), StageKind::Finished);
    assert!(!coordinator.channel_open());

    let later = vec![
        Event::ChannelOpened,
        Event::RequestSent,
        Event::ReceiveEnded(ReceiveDisposition::Result("4".to_string())),
        Event::DeadlineElapsed,
        Event::ChannelClosed,
        line(READY_LINE),
    ];
    let (coordinator, actions) = coordinator.run(&later);
    assert_eq!(actions.len(), later.len());
    for action in &actions {
        assert_eq!(action, &Action::Ignore);
    }
    assert_eq!(coordinator.stage_kind(), StageKind::Finished);
    assert!(!coordinator.channel_open());
}

#[test]
fn wait_that_ends_without_result_leaves_the_deadline() {
    let coordinator = Coordinator::new("2 + 2", "python", 250);
    let mut events = up_to_sent();
    events.push(Event::ReceiveEnded(ReceiveDisposition::ChannelClosed));
    events.push(Event::ReceiveEnded(ReceiveDisposition::ReadError("reset".to_string())));
    events.push(Event::DeadlineElapsed);
    events.push(Event::ChannelClosed);
    let (coordinator, actions) = coordinator.run(&events);
    assert_eq!(actions[6], Action::AwaitResult { deadline_millis: 250 });
    assert_eq!(actions[7], Action::AwaitDeadline);
    assert_eq!(actions[8], Action::AwaitDeadline);
    assert_eq!(actions[9], Action::CloseChannel);
    assert_eq!(actions[10], Action::Report(Err(ExecutionError::Timeout)));
    assert_eq!(coordinator.stage_kind(), StageKind::Finished);
}

#[test]
fn result_before_the_send_completes_is_not_lost() {
    let coordinator = Coordinator::new("2 + 2", "python", 500);
    let mut events = up_to_sent();
    events.pop();
    events.push(Event::ReceiveEnded(ReceiveDisposition::Result("4".to_string())));
    events.push(Event::RequestSent);
    events.push(Event::ChannelClosed);
    let (_, actions) = coordinator.run(&events);
    assert_eq!(actions[6], Action::CloseChannel);
    assert_eq!(actions[7], Action::Ignore);
    assert_eq!(actions[8], Action::Report(Ok("4".to_string())));
}

#[test]
fn transport_failure_before_the_channel_is_reported_at_once() {
    let (coordinator, action) = Coordinator::new("1", "python", 500)
        .step(Event::TransportFailed("dns".to_string()));
    assert_eq!(action, Action::Report(Err(ExecutionError::Transport("dns".to_string()))));
    assert_eq!(coordinator.stage_kind(), StageKind::Finished);

    let events = vec![line(READY_LINE), Event::TransportFailed("refused".to_string())];
    let (_, actions) = Coordinator::new("1", "python", 500).run(&events);
    assert_eq!(
        actions[1],
        Action::Report(Err(ExecutionError::Transport("refused".to_string())))
    );

    let events = vec![
        line(READY_LINE),
        Event::LaunchResponded { status: 200, body: KERNEL_BODY.to_string() },
        Event::TransportFailed("handshake".to_string()),
    ];
    let (coordinator, actions) = Coordinator::new("1", "python", 500).run(&events);
    assert_eq!(
        actions[2],
        Action::Report(Err(ExecutionError::Transport("handshake".to_string())))
    );
    assert!(!coordinator.channel_open());
}

#[test]
fn transport_failure_with_the_channel_open_closes_it_first() {
    let mut events = up_to_sent();
    events.push(Event::TransportFailed("reset".to_string()));
    events.push(Event::ChannelClosed);
    let (coordinator, actions) = Coordinator::new("2 + 2", "python", 500).run(&events);
    assert_eq!(actions[7], Action::CloseChannel);
    assert_eq!(actions[8], Action::Report(Err(ExecutionError::Transport("reset".to_string()))));
    assert!(!coordinator.channel_open());

    let mut events = up_to_sent();
    events.pop();
    events.push(Event::TransportFailed("send failed".to_string()));
    let (coordinator, actions) = Coordinator::new("2 + 2", "python", 500).run(&events);
    assert_eq!(actions[6], Action::CloseChannel);
    assert_eq!(coordinator.stage_kind(), StageKind::Closing);
}

#[test]
fn failure_to_close_is_reported() {
    let mut events = up_to_sent();
    events.push(Event::DeadlineElapsed);
    events.push(Event::TransportFailed("close failed".to_string()));
    let (coordinator, actions) = Coordinator::new("2 + 2", "python", 500).run(&events);
    assert_eq!(
        actions[8],
        Action::Report(Err(ExecutionError::Transport("close failed".to_string())))
    );
    assert_eq!(coordinator.stage_kind(), StageKind::Finished);
}

#[test]
fn events_out_of_place_are_ignored() {
    let coordinator = Coordinator::new("2 + 2", "python", 500);
    let events = vec![
        Event::ChannelOpened,
        Event::RequestSent,
        Event::DeadlineElapsed,
        Event::ChannelClosed,
        Event::LaunchResponded { status: 200, body: KERNEL_BODY.to_string() },
        Event::ReceiveEnded(ReceiveDisposition::Result("4".to_string())),
    ];
    let (coordinator, actions) = coordinator.run(&events);
    for action in &actions {
        assert_eq!(action, &Action::Ignore);
    }
    assert_eq!(coordinator, Coordinator::new("2 + 2", "python", 500));
}

#[test]
fn errors_describe_themselves() {
    assert_eq!(
        ExecutionError::Build(BuildError::NotReady).describe(),
        "environment did not become ready"
    );
    assert_eq!(ExecutionError::Build(BuildError::Failed(None)).describe(), "build failed");
    assert_eq!(
        ExecutionError::Build(BuildError::Failed(Some("x".to_string()))).describe(),
        "build failed: x"
    );
    assert_eq!(
        ExecutionError::Launch(LaunchError::Rejected { status: 500, body: "oops".to_string() })
            .describe(),
        "kernel launch was rejected: oops"
    );
    assert_eq!(
        ExecutionError::Launch(LaunchError::Undecodable { body: "[]".to_string() }).describe(),
        "kernel launch answer could not be read: []"
    );
    assert_eq!(
        ExecutionError::Launch(LaunchError::Unencodable).describe(),
        "kernel launch request could not be written"
    );
    assert_eq!(
        ExecutionError::Transport("reset".to_string()).describe(),
        "transport failed: reset"
    );
    assert_eq!(ExecutionError::Timeout.describe(), "timed out waiting for the result");
}

#[test]
fn stage_holds_what_the_execution_needs_next() {
    let coordinator = Coordinator::new("2 + 2", "python", 500);
    assert!(matches!(coordinator.stage(), Stage::WatchingBuild(_)));
    let (coordinator, _) = coordinator.step(line(READY_LINE));
    match coordinator.stage() {
        Stage::Launching(environment) => {
            assert_eq!(environment.base_url(), "https://env.example/x");
            assert_eq!(environment.auth_token(), "abc");
        }
        other => panic!("unexpected stage {:?}", other),
    }
    let mut events = up_to_sent();
    events.remove(0);
    events.remove(0);
    events.remove(0);
    events.remove(0);
    events.push(Event::DeadlineElapsed);
    let (coordinator, _) = coordinator.run(&events);
    assert_eq!(coordinator.stage(), &Stage::Closing(Err(ExecutionError::Timeout)));
}
