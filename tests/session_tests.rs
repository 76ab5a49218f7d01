use twitch_chat::{pong_line, route, Action, ChatError, Config, EventType};

#[test]
fn ping_gets_pong() {
    assert_eq!(route("PING :tmi.twitch.tv"), Ok(Action::ReplyPong));
    assert_eq!(pong_line(), "PONG :tmi.twitch.tv");
}

#[test]
fn privmsg_is_dispatched() {
    match route("@display-name=Foo;mod=1 :foo!foo@foo.tmi.twitch.tv PRIVMSG #bar :hey") {
        Ok(Action::Dispatch(e)) => {
            assert_eq!(e.event_type, EventType::Message);
            assert_eq!(e.username, "Foo");
            assert!(e.moderator);
            assert_eq!(e.message, Some("hey".to_string()));
        }
        other => panic!("unexpected: {:?}", other),
    }
}

#[test]
fn usernotice_is_dispatched() {
    match route("@display-name=Bar;msg-id=subgift;msg-param-sub-plan=1000 :tmi.twitch.tv USERNOTICE #bar") {
        Ok(Action::Dispatch(e)) => {
            assert_eq!(e.event_type, EventType::SubGift);
            assert_eq!(e.username, "Bar");
            assert_eq!(e.tier, Some("1000".to_string()));
            assert_eq!(e.message, None);
        }
        other => panic!("unexpected: {:?}", other),
    }
}

#[test]
fn other_commands_ignored() {
    assert_eq!(route(":tmi.twitch.tv NOTICE * :hi"), Ok(Action::Ignore));
    assert_eq!(route("PONG :tmi.twitch.tv"), Ok(Action::Ignore));
}

#[test]
fn unparsable_line_reported() {
    assert_eq!(route(""), Err(ChatError::UnparsableLine));
    assert_eq!(route("@a=b"), Err(ChatError::UnparsableLine));
}

#[test]
fn missing_display_name_reported() {
    assert_eq!(route(":foo PRIVMSG #bar :hi"), Err(ChatError::MissingRequiredTag));
}

#[test]
fn config_new_keeps_fields() {
    let c = Config::new(true, "chan", "user", "oauth:abc");
    assert!(c.debug);
    assert_eq!(c.channel, "chan");
    assert_eq!(c.username, "user");
    assert_eq!(c.token, "oauth:abc");
}

#[test]
fn login_lines_in_order() {
    let c = Config::new(false, "chan", "user", "oauth:abc");
    assert_eq!(
        c.login_lines(),
        vec![
            "CAP REQ :twitch.tv/tags twitch.tv/commands twitch.tv/membership".to_string(),
            "PASS oauth:abc".to_string(),
            "NICK user".to_string(),
            "JOIN #chan".to_string(),
        ]
    );
}
