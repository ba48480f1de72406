use remote_kernel::environment::EnvironmentHandle;
use remote_kernel::launch::kernel_from;
use remote_kernel::phase::PhaseEvent;
use remote_kernel::session::{
    channel_address, receive_all, receive_step, result_text, ChannelAddress, ExecuteRequest,
    ExecutionState, Inbound, MediaItem, ReceiveDisposition, ReceiveStep, SessionMessage,
};

fn result(text: &str) -> Inbound {
    Inbound::Message(SessionMessage::ExecuteResult {
        data: vec![MediaItem::Plain(text.to_string())],
    })
}

fn status(execution_state: ExecutionState) -> Inbound {
    Inbound::Message(SessionMessage::Status { execution_state })
}

#[test]
fn plain_request_sets_no_flag() {
    assert_eq!(
        ExecuteRequest::for_code("2 + 2"),
        ExecuteRequest {
            code: "2 + 2".to_string(),
            silent: false,
            store_history: false,
            allow_stdin: false,
            stop_on_error: false,
            user_expressions: None,
        }
    );
}

#[test]
fn result_text_is_the_first_plain_rendering() {
    assert_eq!(result_text(&vec![MediaItem::Plain("4".to_string())]), "4");
    assert_eq!(
        result_text(&vec![MediaItem::Plain("4".to_string()), MediaItem::Other]),
        "4"
    );
    assert_eq!(
        result_text(&vec![MediaItem::Plain("a".to_string()), MediaItem::Plain("b".to_string())]),
        "a"
    );
}

#[test]
fn result_text_of_unknown_rendering() {
    assert_eq!(result_text(&vec![]), "\u{1F937} Unknown media type");
    assert_eq!(result_text(&vec![MediaItem::Other]), "\u{1F937} Unknown media type");
    assert_eq!(
        result_text(&vec![MediaItem::Other, MediaItem::Plain("4".to_string())]),
        "\u{1F937} Unknown media type"
    );
}

#[test]
fn execute_result_ends_the_wait() {
    assert_eq!(
        receive_step(&result("4")),
        ReceiveStep::Done(ReceiveDisposition::Result("4".to_string()))
    );
}

#[test]
fn status_is_progress() {
    assert_eq!(
        receive_step(&status(ExecutionState::Busy)),
        ReceiveStep::Progress(ExecutionState::Busy)
    );
    assert_eq!(
        receive_step(&status(ExecutionState::Idle)),
        ReceiveStep::Progress(ExecutionState::Idle)
    );
}

#[test]
fn other_messages_are_passed_over() {
    assert_eq!(receive_step(&Inbound::Message(SessionMessage::Other)), ReceiveStep::Continue);
    assert_eq!(
        receive_step(&Inbound::Message(SessionMessage::ExecuteRequest(
            ExecuteRequest::for_code("1")
        ))),
        ReceiveStep::Continue
    );
}

#[test]
fn read_error_and_close_end_the_wait_without_result() {
    assert_eq!(
        receive_step(&Inbound::ReadError("reset".to_string())),
        ReceiveStep::Done(ReceiveDisposition::ReadError("reset".to_string()))
    );
    assert_eq!(
        receive_step(&Inbound::Closed),
        ReceiveStep::Done(ReceiveDisposition::ChannelClosed)
    );
}

#[test]
fn wait_ends_at_the_first_result() {
    let reads = vec![
        status(ExecutionState::Busy),
        Inbound::Message(SessionMessage::Other),
        result("4"),
        status(ExecutionState::Idle),
        result("5"),
    ];
    assert_eq!(receive_all(&reads), ReceiveDisposition::Result("4".to_string()));
}

#[test]
fn wait_without_result_ends_closed() {
    assert_eq!(receive_all(&vec![]), ReceiveDisposition::ChannelClosed);
    let reads = vec![status(ExecutionState::Busy), status(ExecutionState::Idle)];
    assert_eq!(receive_all(&reads), ReceiveDisposition::ChannelClosed);
    let reads = vec![status(ExecutionState::Busy), Inbound::Closed, result("4")];
    assert_eq!(receive_all(&reads), ReceiveDisposition::ChannelClosed);
}

#[test]
fn wait_ends_at_a_read_error() {
    let reads = vec![
        status(ExecutionState::Busy),
        Inbound::ReadError("broken pipe".to_string()),
        result("4"),
    ];
    assert_eq!(receive_all(&reads), ReceiveDisposition::ReadError("broken pipe".to_string()));
}

#[test]
fn channel_address_joins_environment_and_kernel() {
    let environment = EnvironmentHandle::from_event(PhaseEvent::Ready {
        url: "https://env.example/x".to_string(),
        token: "abc".to_string(),
    })
    .unwrap();
    let kernel = kernel_from(String::new(), Ok("k-17".to_string())).unwrap();
    assert_eq!(
        channel_address(&environment, &kernel),
        ChannelAddress {
            base_url: "https://env.example/x".to_string(),
            kernel_id: "k-17".to_string(),
            auth_token: "abc".to_string(),
        }
    );
}
