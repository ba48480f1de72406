use remote_kernel::build_stream::{
    decode_line, is_noise_line, read_events, read_line, read_lines, reading_of, ParseError,
};
use remote_kernel::lines::split_lines;
use remote_kernel::phase::{PhaseEvent, PhaseKind};

#[test]
fn empty_line_is_noise() {
    assert!(is_noise_line(""));
    assert_eq!(read_line(""), None);
}

#[test]
fn keepalive_line_is_noise() {
    assert!(is_noise_line(":keepalive"));
    assert_eq!(read_line(":keepalive"), None);
}

#[test]
fn comment_line_is_noise() {
    assert!(is_noise_line(": a comment"));
    assert!(is_noise_line(":"));
    assert_eq!(read_line(": a comment"), None);
}

#[test]
fn data_line_is_not_noise() {
    assert!(!is_noise_line("data: {}"));
    assert!(!is_noise_line(" :keepalive"));
    assert!(!is_noise_line("keepalive"));
}

#[test]
fn waiting_line_decodes() {
    let reading = decode_line("data: {\"phase\": \"waiting\", \"message\": \"in queue\"}");
    assert_eq!(
        reading,
        Ok(PhaseEvent::Waiting { message: Some("in queue".to_string()) })
    );
}

#[test]
fn ready_line_decodes_to_url_and_token() {
    let line = "data: {\"phase\": \"ready\", \"message\": \"up\", \"url\": \"https://env.example/x\", \"token\": \"abc\", \"image\": \"i\", \"repo_url\": \"r\", \"binder_ref_url\": \"b\", \"binder_launch_host\": \"h\", \"binder_request\": \"q\", \"binder_persistent_request\": \"p\"}";
    let reading = decode_line(line);
    assert_eq!(
        reading,
        Ok(PhaseEvent::Ready { url: "https://env.example/x".to_string(), token: "abc".to_string() })
    );
    assert_eq!(reading.unwrap().kind(), PhaseKind::Ready);
}

#[test]
fn failed_line_without_message_decodes() {
    assert_eq!(decode_line("data: {\"phase\": \"failed\"}"), Ok(PhaseEvent::Failed { message: None }));
}

#[test]
fn malformed_line_is_a_parse_error_with_the_line() {
    let reading = decode_line("data: {not json");
    assert_eq!(reading, Err(ParseError { line: "data: {not json".to_string() }));
    let reading = decode_line("phase: waiting");
    assert_eq!(reading, Err(ParseError { line: "phase: waiting".to_string() }));
}

#[test]
fn decoding_twice_gives_equal_events() {
    let line = "data: {\"phase\": \"building\", \"message\": \"step 1\"}";
    assert_eq!(decode_line(line), decode_line(line));
}

#[test]
fn lines_are_split_at_line_feeds() {
    assert_eq!(split_lines("a\nb\r\n\nc"), vec!["a", "b", "", "c"]);
    assert_eq!(split_lines(""), Vec::<String>::new());
    assert_eq!(split_lines("\n"), vec![""]);
    assert_eq!(split_lines("x\r"), vec!["x\r"]);
    assert_eq!(split_lines("x\r\n"), vec!["x"]);
}

#[test]
fn events_are_read_from_a_body() {
    let body = ":keepalive\n\ndata: {\"phase\": \"waiting\"}\n: note\ngarbage\ndata: {\"phase\": \"fetching\", \"message\": \"m\"}\n";
    let readings = read_events(body);
    assert_eq!(readings.len(), 3);
    assert_eq!(readings[0], Ok(PhaseEvent::Waiting { message: None }));
    assert_eq!(readings[1], Err(ParseError { line: "garbage".to_string() }));
    assert_eq!(readings[2], Ok(PhaseEvent::Fetching { message: Some("m".to_string()) }));
}

#[test]
fn reading_of_a_decoded_event_is_the_event() {
    let event = PhaseEvent::Launching { message: Some("pod".to_string()) };
    assert_eq!(
        reading_of("data: ...", Ok(event.clone())),
        Ok(PhaseEvent::Launching { message: Some("pod".to_string()) })
    );
    assert_eq!(event.clone(), event);
}

#[test]
fn reading_of_a_failed_decoding_carries_the_line() {
    assert_eq!(
        reading_of("data: oops", Err(anyhow::Error::msg("Invalid response format"))),
        Err(ParseError { line: "data: oops".to_string() })
    );
}

#[test]
fn every_phase_decodes_to_its_event() {
    let cases = [
        ("waiting", PhaseKind::Waiting),
        ("building", PhaseKind::Building),
        ("built", PhaseKind::Built),
        ("fetching", PhaseKind::Fetching),
        ("launching", PhaseKind::Launching),
        ("failed", PhaseKind::Failed),
        ("unknown", PhaseKind::Unknown),
    ];
    for (name, kind) in cases {
        let line = format!("data: {{\"phase\": \"{}\", \"message\": \"m\"}}", name);
        let event = decode_line(&line).unwrap();
        assert_eq!(event.kind(), kind);
    }
    assert_eq!(
        decode_line("data: {\"phase\": \"built\", \"message\": \"m\", \"imageName\": \"img\"}"),
        Ok(PhaseEvent::Built { message: Some("m".to_string()) })
    );
}

#[test]
fn unnamed_phase_is_a_parse_error() {
    let line = "data: {\"phase\": \"resting\", \"message\": \"m\"}";
    assert_eq!(decode_line(line), Err(ParseError { line: line.to_string() }));
}

#[test]
fn read_lines_skips_noise_only() {
    let lines = vec![
        String::new(),
        "data: {\"phase\": \"waiting\"}".to_string(),
        ":keepalive".to_string(),
        "broken".to_string(),
    ];
    let readings = read_lines(&lines);
    assert_eq!(
        readings,
        vec![
            Ok(PhaseEvent::Waiting { message: None }),
            Err(ParseError { line: "broken".to_string() }),
        ]
    );
    let mut with_noise = lines.clone();
    with_noise.insert(1, ": more noise".to_string());
    with_noise.push(String::new());
    assert_eq!(read_lines(&with_noise), readings);
}
