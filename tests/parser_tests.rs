use twitch_chat::{get_command, parse, Command, IrcMessage};

fn pair(k: &str, v: &str) -> (String, String) {
    (k.to_string(), v.to_string())
}

fn strings(v: &[&str]) -> Vec<String> {
    v.iter().map(|s| s.to_string()).collect()
}

fn parsed(line: &str) -> IrcMessage {
    match parse(line) {
        Some(m) => m,
        None => panic!("line did not parse: {}", line),
    }
}

#[test]
fn round_trip_shape() {
    let line = "@badge-info=;display-name=Foo;mod=0;subscriber=1 :foo!foo@foo.tmi.twitch.tv PRIVMSG #bar :hello world";
    let m = parsed(line);
    assert_eq!(m.raw, line);
    assert_eq!(
        m.tags,
        vec![
            pair("badge-info", ""),
            pair("display-name", "Foo"),
            pair("mod", "0"),
            pair("subscriber", "1"),
        ]
    );
    assert_eq!(m.prefix, Some("foo!foo@foo.tmi.twitch.tv".to_string()));
    assert_eq!(m.command, Some(Command::PrivMsg));
    assert_eq!(m.params, strings(&["#bar", "hello world"]));
}

#[test]
fn trailing_param_spaces_preserved() {
    let m = parsed("PRIVMSG #chan :a  b   c ");
    assert_eq!(m.params, strings(&["#chan", "a  b   c "]));
}

#[test]
fn trailing_param_only() {
    let m = parsed("FOO :x y");
    assert_eq!(m.params, strings(&["x y"]));
}

#[test]
fn no_tags_line() {
    let m = parsed("PING :tmi.twitch.tv");
    assert!(m.tags.is_empty());
    assert_eq!(m.prefix, None);
    assert_eq!(m.command, Some(Command::Ping));
    assert_eq!(m.params, strings(&["tmi.twitch.tv"]));
}

#[test]
fn unrecognized_command_preserved() {
    let m = parsed(":tmi.twitch.tv NOTICE * :Login authentication failed");
    assert_eq!(m.command, Some(Command::Other("NOTICE".to_string())));
    assert_eq!(m.prefix, Some("tmi.twitch.tv".to_string()));
    assert_eq!(m.params, strings(&["*", "Login authentication failed"]));
}

#[test]
fn empty_line_fails() {
    assert!(parse("").is_none());
}

#[test]
fn tags_without_space_fail() {
    assert!(parse("@a=b").is_none());
}

#[test]
fn prefix_without_space_fails() {
    assert!(parse(":tmi.twitch.tv").is_none());
}

#[test]
fn tags_and_whitespace_only_fail() {
    assert!(parse("@a=b   ").is_none());
    assert!(parse("@a=b :pre ").is_none());
}

#[test]
fn short_form_command() {
    let m = parsed("PING");
    assert_eq!(m.command, Some(Command::Ping));
    assert!(m.params.is_empty());
}

#[test]
fn middle_params_without_trailing() {
    let m = parsed("CAP * ACK   twitch.tv/tags");
    assert_eq!(m.command, Some(Command::Other("CAP".to_string())));
    assert_eq!(m.params, strings(&["*", "ACK", "twitch.tv/tags"]));
}

#[test]
fn last_param_trailing_space_dropped() {
    let m = parsed("JOIN #chan ");
    assert_eq!(m.params, strings(&["#chan"]));
}

#[test]
fn duplicate_tag_last_wins() {
    let m = parsed("@a=1;b=2;a=3 PING");
    assert_eq!(m.tags, vec![pair("a", "3"), pair("b", "2")]);
    assert_eq!(m.get_tag("a"), Some("3".to_string()));
}

#[test]
fn bare_tag_has_empty_value() {
    let m = parsed("@flag;k=v PING");
    assert_eq!(m.tags, vec![pair("flag", ""), pair("k", "v")]);
}

#[test]
fn tag_value_split_at_first_equals() {
    let m = parsed("@a=b=c PING");
    assert_eq!(m.get_tag("a"), Some("b=c".to_string()));
}

#[test]
fn whitespace_after_tags_skipped() {
    let m = parsed("@a=1 \t :pre  PONG  x");
    assert_eq!(m.prefix, Some("pre".to_string()));
    assert_eq!(m.command, Some(Command::Pong));
    assert_eq!(m.params, strings(&["x"]));
}

#[test]
fn get_command_tokens() {
    assert_eq!(get_command(&"PRIVMSG".to_string()), Command::PrivMsg);
    assert_eq!(get_command(&"USERNOTICE".to_string()), Command::UserNotice);
    assert_eq!(get_command(&"PING".to_string()), Command::Ping);
    assert_eq!(get_command(&"PONG".to_string()), Command::Pong);
    assert_eq!(get_command(&"privmsg".to_string()), Command::Other("privmsg".to_string()));
}

#[test]
fn missing_tag_lookup_is_none() {
    let m = parsed("@a=1 PING");
    assert_eq!(m.get_tag("b"), None);
}
