use chat_tts::parse_message;
use chat_tts::parse::trim_str;

#[test]
fn display_name_line_parses_to_tag_value() {
    let line = "@display-name=Foo;other=1 :bar!bar@bar.tmi.twitch.tv PRIVMSG #chan :hello there";
    let m = parse_message(line).expect("a chat message");
    assert_eq!(m.username, "Foo");
    assert_eq!(m.content, "hello there");
}

#[test]
fn no_tag_line_falls_back_to_source_name() {
    let line = ":bar!bar@bar.tmi.twitch.tv PRIVMSG #chan :hi";
    let m = parse_message(line).expect("a chat message");
    assert_eq!(m.username, "bar");
    assert_eq!(m.content, "hi");
}

#[test]
fn keep_alive_probe_line_parses_to_nothing() {
    assert!(parse_message("PING :tmi.twitch.tv").is_none());
}

#[test]
fn display_name_wins_over_source_name() {
    let line = "@display-name=Shown;id=1 :account!account@host PRIVMSG #c :text";
    let m = parse_message(line).expect("a chat message");
    assert_eq!(m.username, "Shown");
}

#[test]
fn display_name_without_semicolon_runs_to_line_end() {
    let line = "@display-name=Foo :bar!b@x PRIVMSG #c :hi";
    let m = parse_message(line).expect("a chat message");
    assert_eq!(m.username, "Foo :bar!b@x PRIVMSG #c :hi");
    assert_eq!(m.content, "hi");
}

#[test]
fn empty_display_name_value_falls_back() {
    let line = "@display-name=;id=1 :bar!bar@host PRIVMSG #c :hi";
    let m = parse_message(line).expect("a chat message");
    assert_eq!(m.username, "bar");
}

#[test]
fn content_is_trimmed_of_surrounding_whitespace() {
    let line = ":a!a@a PRIVMSG #chan :   spaced out   ";
    let m = parse_message(line).expect("a chat message");
    assert_eq!(m.content, "spaced out");
}

#[test]
fn trailing_line_terminator_is_trimmed() {
    let line = ":bar!bar@x PRIVMSG #c :hi\r\n";
    let m = parse_message(line).expect("a chat message");
    assert_eq!(m.content, "hi");
}

#[test]
fn line_without_payload_yields_nothing() {
    assert!(parse_message("@display-name=Foo;x :a!a@a JOIN #chan").is_none());
}

#[test]
fn line_without_extractable_name_yields_nothing() {
    assert!(parse_message("PRIVMSG #chan :hello").is_none());
}

#[test]
fn empty_line_yields_nothing() {
    assert!(parse_message("").is_none());
}

#[test]
fn payload_of_only_whitespace_yields_empty_content() {
    let line = ":a!a@a PRIVMSG #chan :   ";
    let m = parse_message(line).expect("a chat message");
    assert_eq!(m.content, "");
}

#[test]
fn colon_directly_after_command_is_no_match() {
    // the command needs at least one character before the payload colon
    assert!(parse_message(":a!a@a PRIVMSG :hello").is_none());
}

#[test]
fn source_name_needs_a_bang_after_the_colon() {
    // a colon with no later bang gives no source name
    assert!(parse_message(":noname PRIVMSG #c :hi").is_none());
}

#[test]
fn later_source_match_is_found_when_first_colon_fails() {
    // the first colon is directly followed by the bang, so the name is
    // taken from the next matching position
    let line = ":!x :real!r@h PRIVMSG #c :ok";
    let m = parse_message(line).expect("a chat message");
    assert_eq!(m.username, "real");
}

#[test]
fn trim_removes_unicode_whitespace() {
    assert_eq!(trim_str("\u{a0}\u{3000} mid \u{2028}\t"), "mid");
    assert_eq!(trim_str(""), "");
    assert_eq!(trim_str("   "), "");
    assert_eq!(trim_str("x"), "x");
}

#[test]
fn non_ascii_names_and_content_survive() {
    let line = "@display-name=Ünïcødé;x :b!b@h PRIVMSG #c :héllo wörld";
    let m = parse_message(line).expect("a chat message");
    assert_eq!(m.username, "Ünïcødé");
    assert_eq!(m.content, "héllo wörld");
}
