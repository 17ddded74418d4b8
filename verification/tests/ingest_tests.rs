use chat_tts::ingest::IngestAction;
use chat_tts::ingest::ReadEvent;
use chat_tts::ingest::auth_sequence;
use chat_tts::ingest::ingest_step;
use chat_tts::ingest::is_ping_probe;
use chat_tts::ingest::keep_alive_reply;
use chat_tts::ingest::strip_channel_hashes;
use chat_tts::ingest::utterance_of;
use chat_tts::parse_message;

#[test]
fn ping_line_triggers_exactly_one_keep_alive_reply() {
    let ev = ReadEvent::Line("PING :tmi.twitch.tv".to_string());
    let a = ingest_step(false, ev, false);
    assert!(matches!(a, IngestAction::ReplyKeepAlive));
    assert_eq!(keep_alive_reply(), "PONG\r\n");
}

#[test]
fn ping_line_never_forwards_a_message() {
    for before in [false, true] {
        for after in [false, true] {
            let ev = ReadEvent::Line("PING :tmi.twitch.tv".to_string());
            let a = ingest_step(before, ev, after);
            assert!(!matches!(a, IngestAction::Forward(_)));
        }
    }
}

#[test]
fn is_ping_probe_checks_the_line_start() {
    assert!(is_ping_probe("PING :tmi.twitch.tv"));
    assert!(is_ping_probe("PING"));
    assert!(!is_ping_probe("PIN"));
    assert!(!is_ping_probe(" PING"));
    assert!(!is_ping_probe(":a!a@a PRIVMSG #c :PING"));
}

#[test]
fn cancelled_before_stops_without_reading_the_line() {
    let ev = ReadEvent::Line(":bar!bar@x PRIVMSG #c :hi".to_string());
    assert!(matches!(ingest_step(true, ev, false), IngestAction::StopCancelled));
}

#[test]
fn cancelled_after_keep_alive_check_stops() {
    let ev = ReadEvent::Line(":bar!bar@x PRIVMSG #c :hi".to_string());
    assert!(matches!(ingest_step(false, ev, true), IngestAction::StopCancelled));
}

#[test]
fn closed_connection_is_a_normal_stop() {
    assert!(matches!(ingest_step(false, ReadEvent::Closed, false), IngestAction::StopClosed));
}

#[test]
fn read_failure_stops_and_reports() {
    assert!(matches!(ingest_step(false, ReadEvent::Failed, false), IngestAction::StopFailed));
}

#[test]
fn parsable_line_is_forwarded_with_its_fields() {
    let ev = ReadEvent::Line("@display-name=Foo;x :bar!bar@x PRIVMSG #c :hello".to_string());
    match ingest_step(false, ev, false) {
        IngestAction::Forward(m) => {
            assert_eq!(m.username, "Foo");
            assert_eq!(m.content, "hello");
        }
        other => panic!("expected a forward, got {:?}", action_name(&other)),
    }
}

fn action_name(a: &IngestAction) -> &'static str {
    match a {
        IngestAction::StopCancelled => "StopCancelled",
        IngestAction::StopClosed => "StopClosed",
        IngestAction::StopFailed => "StopFailed",
        IngestAction::ReplyKeepAlive => "ReplyKeepAlive",
        IngestAction::Forward(_) => "Forward",
        IngestAction::Ignore => "Ignore",
    }
}

#[test]
fn unparsable_line_is_silently_ignored() {
    let ev = ReadEvent::Line(":tmi.twitch.tv 001 justinfan12345 :Welcome".to_string());
    assert!(matches!(ingest_step(false, ev, false), IngestAction::Ignore));
}

#[test]
fn utterance_names_the_speaker_and_the_words() {
    let m = parse_message(":bar!bar@x PRIVMSG #c :hi").expect("a chat message");
    assert_eq!(utterance_of(&m), "user bar said hi");
}

#[test]
fn a_stretch_of_lines_yields_utterances_in_order_and_counts_probes() {
    let lines: Vec<String> = vec![
        "PING :tmi.twitch.tv",
        "@display-name=Foo;x :bar!bar@x PRIVMSG #c :hello",
        ":tmi.twitch.tv 001 nick :Welcome",
        ":bar!bar@x PRIVMSG #c :again",
        "PING :tmi.twitch.tv",
    ]
    .into_iter()
    .map(String::from)
    .collect();
    let (utterances, replies) = chat_tts::ingest::ingest_batch(lines);
    assert_eq!(utterances, vec!["user Foo said hello", "user bar said again"]);
    assert_eq!(replies, 2);
}

#[test]
fn an_empty_stretch_yields_nothing() {
    let (utterances, replies) = chat_tts::ingest::ingest_batch(Vec::new());
    assert!(utterances.is_empty());
    assert_eq!(replies, 0);
}

#[test]
fn auth_sequence_sends_the_four_lines_in_order() {
    let lines = auth_sequence("somechannel", None);
    assert_eq!(lines.len(), 4);
    assert_eq!(lines[0], "PASS SCHMOOPIIE\r\n");
    assert_eq!(lines[1], "NICK justinfan12345\r\n");
    assert_eq!(lines[2], "JOIN #somechannel\r\n");
    assert_eq!(lines[3], "CAP REQ :twitch.tv/tags twitch.tv/commands twitch.tv/membership\r\n");
}

#[test]
fn auth_sequence_takes_the_given_nickname_and_strips_hashes() {
    let lines = auth_sequence("##chan", Some("viewer"));
    assert_eq!(lines[1], "NICK viewer\r\n");
    assert_eq!(lines[2], "JOIN #chan\r\n");
}

#[test]
fn strip_channel_hashes_removes_only_leading_hashes() {
    assert_eq!(strip_channel_hashes("#chan"), "chan");
    assert_eq!(strip_channel_hashes("###chan"), "chan");
    assert_eq!(strip_channel_hashes("chan#x"), "chan#x");
    assert_eq!(strip_channel_hashes("###"), "");
    assert_eq!(strip_channel_hashes(""), "");
}
