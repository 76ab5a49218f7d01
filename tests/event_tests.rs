use twitch_chat::{parse, ChatError, Command, Event, EventType, IrcMessage};

fn message(tags: &[(&str, &str)], command: Command, params: &[&str]) -> IrcMessage {
    IrcMessage {
        raw: String::new(),
        tags: tags.iter().map(|(k, v)| (k.to_string(), v.to_string())).collect(),
        prefix: None,
        command: Some(command),
        params: params.iter().map(|p| p.to_string()).collect(),
    }
}

fn event(m: &IrcMessage) -> Event {
    match Event::from_message(m) {
        Ok(e) => e,
        Err(err) => panic!("classification failed: {:?}", err),
    }
}

#[test]
fn privmsg_event() {
    let m = parse("@badge-info=;display-name=Foo;mod=0;subscriber=1 :foo!foo@foo.tmi.twitch.tv PRIVMSG #bar :hello world").unwrap();
    let e = event(&m);
    assert_eq!(e.event_type, EventType::Message);
    assert_eq!(e.username, "Foo");
    assert!(!e.moderator);
    assert!(e.subscriber);
    assert_eq!(e.tier, None);
    assert_eq!(e.message, Some("hello world".to_string()));
}

#[test]
fn classifier_defaults() {
    let m = message(&[("display-name", "Foo")], Command::UserNotice, &["#bar"]);
    let e = event(&m);
    assert_eq!(e.event_type, EventType::Message);
    assert_eq!(e.tier, None);
    assert_eq!(e.message, None);
}

#[test]
fn unknown_msg_id_is_message() {
    let m = message(&[("display-name", "Foo"), ("msg-id", "bitsbadgetier")], Command::UserNotice, &["#bar"]);
    assert_eq!(event(&m).event_type, EventType::Message);
}

#[test]
fn notice_kinds() {
    let cases = [
        ("raid", EventType::Raid),
        ("resub", EventType::Resub),
        ("sub", EventType::Sub),
        ("subgift", EventType::SubGift),
    ];
    for (id, kind) in cases {
        let m = message(
            &[("display-name", "Foo"), ("msg-id", id), ("msg-param-sub-plan", "1000")],
            Command::UserNotice,
            &["#bar"],
        );
        let e = event(&m);
        assert_eq!(e.event_type, kind);
        assert_eq!(e.tier, Some("1000".to_string()));
    }
}

#[test]
fn raid_without_plan_has_no_tier() {
    let m = message(&[("display-name", "Foo"), ("msg-id", "raid")], Command::UserNotice, &["#bar"]);
    let e = event(&m);
    assert_eq!(e.event_type, EventType::Raid);
    assert_eq!(e.tier, None);
}

#[test]
fn privmsg_ignores_notice_tags() {
    let m = message(
        &[("display-name", "Foo"), ("msg-id", "sub"), ("msg-param-sub-plan", "Prime")],
        Command::PrivMsg,
        &["#bar", "hi"],
    );
    let e = event(&m);
    assert_eq!(e.event_type, EventType::Message);
    assert_eq!(e.tier, None);
}

#[test]
fn boolean_tag_parsing() {
    let cases = [(Some("1"), true), (Some("0"), false), (None, false), (Some("yes"), false), (Some("11"), false)];
    for (value, expected) in cases {
        let mut tags = vec![("display-name", "Foo")];
        if let Some(v) = value {
            tags.push(("mod", v));
            tags.push(("subscriber", v));
        }
        let e = event(&message(&tags, Command::PrivMsg, &["#bar", "x"]));
        assert_eq!(e.moderator, expected);
        assert_eq!(e.subscriber, expected);
    }
}

#[test]
fn missing_required_tag_fails() {
    let m = message(&[("mod", "1")], Command::PrivMsg, &["#bar", "hi"]);
    assert_eq!(Event::from_message(&m), Err(ChatError::MissingRequiredTag));
}

#[test]
fn classify_idempotent() {
    let m = message(
        &[("display-name", "Foo"), ("msg-id", "resub"), ("msg-param-sub-plan", "2000"), ("mod", "1")],
        Command::UserNotice,
        &["#bar", "great stream  "],
    );
    let a = Event::from_message(&m);
    let b = Event::from_message(&m);
    assert_eq!(a, b);
}

#[test]
fn message_trailing_whitespace_trimmed() {
    let m = message(&[("display-name", "Foo")], Command::PrivMsg, &["#bar", "  hi there \t\r\n"]);
    assert_eq!(event(&m).message, Some("  hi there".to_string()));
}

#[test]
fn whitespace_only_message_is_empty() {
    let m = message(&[("display-name", "Foo")], Command::PrivMsg, &["#bar", "   "]);
    assert_eq!(event(&m).message, Some(String::new()));
}

#[test]
fn get_tag_returns_value() {
    let m = message(&[("display-name", "Foo"), ("color", "#FF0000")], Command::PrivMsg, &[]);
    assert_eq!(m.get_tag("color"), Some("#FF0000".to_string()));
    assert_eq!(m.get_tag("badges"), None);
}
