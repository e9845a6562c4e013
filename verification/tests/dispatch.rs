use irc_client::channel::{ChannelMessage, ChannelMode, ChannelStatus, Mode, UserStatus};
use irc_client::event::Event;
use irc_client::prelude::{Command, Message, Response, Server};
use irc_client::server::ConnectionStatus;

fn text(s: &str) -> String {
    s.to_string()
}

fn list(items: &[&str]) -> Vec<String> {
    items.iter().map(|a| a.to_string()).collect()
}

fn sorted(mut names: Vec<String>) -> Vec<String> {
    names.sort();
    names
}

fn message(prefix: Option<&str>, command: Command, args: &[&str], suffix: Option<&str>) -> Message {
    Message {
        prefix: prefix.map(text),
        command,
        args: list(args),
        suffix: suffix.map(text),
        modes: Vec::new(),
    }
}

fn reply(res: Response, args: &[&str], suffix: Option<&str>) -> Message {
    message(Some("irc.example.org"), Command::Response(res), args, suffix)
}

fn mode_message(channel: &str, raw: &[&str], modes: Vec<Mode>) -> Message {
    let mut args = vec![text(channel)];
    args.extend(list(raw));
    Message {
        prefix: Some(text("op!o@host")),
        command: Command::ChannelMODE,
        args,
        suffix: None,
        modes,
    }
}

fn misc(prefix: Option<&str>, name: &str, args: &[&str], suffix: Option<&str>) -> Event {
    Event::Misc(prefix.map(text), text(name), list(args), suffix.map(text))
}

/// The rosters among the events, by channel, with their names in order.
fn rosters(events: &[Event]) -> Vec<(String, Vec<String>)> {
    let mut found = Vec::new();
    for event in events {
        if let Event::NewUsers(channel, names) = event {
            found.push((channel.clone(), sorted(names.clone())));
        }
    }
    found.sort();
    found
}

#[test]
fn pass_through_keeps_prefix_name_arguments_and_suffix() {
    let mut server = Server::new();
    let events = server.handle_message(
        message(Some("a!b@c"), Command::KICK, &["#a", "bob"], Some("bye")),
        "1",
    );
    assert_eq!(events, vec![misc(Some("a!b@c"), "KICK", &["#a", "bob"], Some("bye"))]);
    let events = server.handle_message(message(None, Command::PING, &[], None), "1");
    assert_eq!(events, vec![misc(None, "PING", &[], None)]);
    assert!(server.channel_names().is_empty());
}

#[test]
fn commands_are_reported_under_their_names() {
    let named = [
        (Command::PASS, "PASS"),
        (Command::USER, "USER"),
        (Command::OPER, "OPER"),
        (Command::UserMODE, "UserMODE"),
        (Command::SERVICE, "SERVICE"),
        (Command::SQUIT, "SQUIT"),
        (Command::NAMES, "NAMES"),
        (Command::LIST, "LIST"),
        (Command::INVITE, "INVITE"),
        (Command::KICK, "KICK"),
        (Command::MOTD, "MOTD"),
        (Command::LUSERS, "LUSERS"),
        (Command::VERSION, "VERSION"),
        (Command::STATS, "STATS"),
        (Command::LINKS, "LINKS"),
        (Command::TIME, "TIME"),
        (Command::CONNECT, "CONNECT"),
        (Command::TRACE, "TRACE"),
        (Command::ADMIN, "ADMIN"),
        (Command::INFO, "INFO"),
        (Command::SERVLIST, "SERVLIST"),
        (Command::SQUERY, "SQUERY"),
        (Command::WHO, "WHO"),
        (Command::WHOIS, "WHOIS"),
        (Command::WHOWAS, "WHOWAS"),
        (Command::KILL, "KILL"),
        (Command::PING, "PING"),
        (Command::PONG, "PONG"),
        (Command::ERROR, "ERROR"),
        (Command::AWAY, "AWAY"),
        (Command::REHASH, "REHASH"),
        (Command::DIE, "DIE"),
        (Command::RESTART, "RESTART"),
        (Command::SUMMON, "SUMMON"),
        (Command::USERS, "USERS"),
        (Command::WALLOPS, "WALLOPS"),
        (Command::USERHOST, "USERHOST"),
        (Command::ISON, "ISON"),
        (Command::SAJOIN, "SAJOIN"),
        (Command::SAMODE, "SAMODE"),
        (Command::SANICK, "SANICK"),
        (Command::SAPART, "SAPART"),
        (Command::SAQUIT, "SAQUIT"),
        (Command::NICKSERV, "NICKSERV"),
        (Command::CHANSERV, "CHANSERV"),
        (Command::OPERSERV, "OPERSERV"),
        (Command::BOTSERV, "BOTSERV"),
        (Command::HOSTSERV, "HOSTSERV"),
        (Command::MEMOSERV, "MEMOSERV"),
        (Command::CAP, "CAP"),
        (Command::AUTHENTICATE, "AUTHENTICATE"),
        (Command::ACCOUNT, "ACCOUNT"),
        (Command::METADATA, "METADATA"),
        (Command::MONITOR, "MONITOR"),
        (Command::BATCH, "BATCH"),
        (Command::CHGHOST, "CHGHOST"),
        (Command::Raw, "Raw"),
    ];
    let mut server = Server::new();
    for (command, name) in named {
        assert_eq!(command.name(), name);
        let events = server.handle_message(message(Some("p"), command, &["x"], Some("y")), "1");
        assert_eq!(events, vec![misc(Some("p"), name, &["x"], Some("y"))]);
    }
    assert_eq!(Command::NICK.name(), "NICK");
    assert_eq!(Command::JOIN.name(), "JOIN");
    assert_eq!(Command::PART.name(), "PART");
    assert_eq!(Command::QUIT.name(), "QUIT");
    assert_eq!(Command::PRIVMSG.name(), "PRIVMSG");
    assert_eq!(Command::NOTICE.name(), "NOTICE");
    assert_eq!(Command::TOPIC.name(), "TOPIC");
    assert_eq!(Command::ChannelMODE.name(), "ChannelMODE");
    assert_eq!(Command::Response(Response::RPL_WELCOME).name(), "RPL_WELCOME");
}

#[test]
fn replies_are_reported_under_their_names() {
    let named = [
        (Response::RPL_YOURHOST, "RPL_YOURHOST"),
        (Response::RPL_CREATED, "RPL_CREATED"),
        (Response::RPL_MYINFO, "RPL_MYINFO"),
        (Response::RPL_ISUPPORT, "RPL_ISUPPORT"),
        (Response::RPL_AWAY, "RPL_AWAY"),
        (Response::RPL_UNAWAY, "RPL_UNAWAY"),
        (Response::RPL_NOWAWAY, "RPL_NOWAWAY"),
        (Response::RPL_WHOISUSER, "RPL_WHOISUSER"),
        (Response::RPL_TOPICWHOTIME, "RPL_TOPICWHOTIME"),
        (Response::RPL_MOTDSTART, "RPL_MOTDSTART"),
        (Response::RPL_ADMINLOC1, "RPL_ADMINLOC1"),
        (Response::RPL_ADMINLOC2, "RPL_ADMINLOC2"),
        (Response::RPL_LUSERCLIENT, "RPL_LUSERCLIENT"),
        (Response::RPL_SASLSUCCESS, "RPL_SASLSUCCESS"),
        (Response::ERR_NOSUCHNICK, "ERR_NOSUCHNICK"),
        (Response::ERR_NICKNAMEINUSE, "ERR_NICKNAMEINUSE"),
        (Response::ERR_CHANOPRIVSNEEDED, "ERR_CHANOPRIVSNEEDED"),
        (Response::ERR_SASLALREADY, "ERR_SASLALREADY"),
    ];
    let mut server = Server::new();
    for (res, name) in named {
        assert_eq!(res.name(), name);
        let events = server.handle_message(reply(res, &["me", "x"], Some("text")), "1");
        assert_eq!(
            events,
            vec![misc(Some("irc.example.org"), name, &["me", "x"], Some("text"))]
        );
    }
    assert_eq!(Response::RPL_NAMREPLY.name(), "RPL_NAMREPLY");
    assert_eq!(Response::RPL_ENDOFMOTD.name(), "RPL_ENDOFMOTD");
    assert!(server.channel_names().is_empty());
    assert_eq!(server.connection_status(), ConnectionStatus::NotConnected);
}

#[test]
fn response_can_be_called_on_its_own() {
    let mut server = Server::new();
    let events = server.response(Response::RPL_LIST, None, list(&["#a", "3"]), Some(text("t")));
    assert_eq!(events, vec![misc(None, "RPL_LIST", &["#a", "3"], Some("t"))]);
}

#[test]
fn welcome_without_text_greets_with_nothing() {
    let mut server = Server::new();
    let events = server.handle_message(reply(Response::RPL_WELCOME, &["me"], None), "1");
    assert_eq!(events, vec![Event::Welcome(text(""))]);
    assert_eq!(server.connection_status(), ConnectionStatus::Connected);
}

#[test]
fn motd_is_gathered_in_silence_and_told_at_its_end() {
    let mut server = Server::new();
    assert!(server.handle_message(reply(Response::RPL_MOTD, &["me"], Some("- line1")), "1").is_empty());
    assert!(server.handle_message(reply(Response::RPL_MOTD, &["me"], Some("- line2\n")), "1").is_empty());
    assert!(server.handle_message(reply(Response::RPL_MOTD, &["me"], None), "1").is_empty());
    let events = server.handle_message(reply(Response::RPL_ENDOFMOTD, &["me"], Some("End")), "1");
    assert_eq!(events, vec![Event::Motd(text("- line1\n- line2\n"))]);
    assert_eq!(server.get_motd(), "- line1\n- line2\n");
    let again = server.handle_message(reply(Response::RPL_ENDOFMOTD, &["me"], None), "1");
    assert_eq!(again, vec![Event::Motd(text("- line1\n- line2\n"))]);
}

#[test]
fn names_come_in_fragments() {
    let mut server = Server::new();
    assert!(server
        .handle_message(reply(Response::RPL_NAMREPLY, &["me", "=", "#a"], Some("alice bob")), "1")
        .is_empty());
    assert!(server
        .handle_message(reply(Response::RPL_NAMREPLY, &["me", "=", "#a"], Some("bob carol")), "1")
        .is_empty());
    let events = server.handle_message(reply(Response::RPL_ENDOFNAMES, &["me", "#a"], None), "1");
    assert_eq!(
        rosters(&events),
        vec![(text("#a"), list(&["alice", "bob", "carol"]))]
    );
    assert_eq!(events.len(), 1);
}

#[test]
fn end_of_names_of_an_unknown_channel_tells_nothing() {
    let mut server = Server::new();
    assert!(server
        .handle_message(reply(Response::RPL_ENDOFNAMES, &["me", "#a"], None), "1")
        .is_empty());
    assert!(server.handle_message(reply(Response::RPL_ENDOFNAMES, &[], None), "1").is_empty());
    assert!(!server.has_channel("#a"));
}

#[test]
fn names_without_channel_or_list_are_dropped() {
    let mut server = Server::new();
    assert!(server
        .handle_message(reply(Response::RPL_NAMREPLY, &[], Some("alice")), "1")
        .is_empty());
    assert!(server
        .handle_message(reply(Response::RPL_NAMREPLY, &["me", "=", "#a"], None), "1")
        .is_empty());
    assert!(server.channel_names().is_empty());
}

#[test]
fn topic_reply_sets_the_topic_and_is_reported() {
    let mut server = Server::new();
    let events =
        server.handle_message(reply(Response::RPL_TOPIC, &["me", "#a"], Some("the topic")), "1");
    assert_eq!(
        events,
        vec![misc(Some("irc.example.org"), "RPL_TOPIC", &["me", "#a"], Some("the topic"))]
    );
    assert_eq!(server.channel("#a").unwrap().topic(), "the topic");
    server.handle_message(reply(Response::RPL_TOPIC, &["me", "#a"], None), "1");
    assert_eq!(server.channel("#a").unwrap().topic(), "");
    server.handle_message(reply(Response::RPL_TOPIC, &[], Some("lost")), "1");
    assert_eq!(server.channel_names(), vec![text("#a")]);
}

#[test]
fn topic_command_sets_the_topic_and_is_reported() {
    let mut server = Server::new();
    let events = server.handle_message(
        message(Some("alice!a@h"), Command::TOPIC, &["#a"], Some("new topic")),
        "1",
    );
    assert_eq!(events, vec![misc(Some("alice!a@h"), "TOPIC", &["#a"], Some("new topic"))]);
    assert_eq!(server.channel("#a").unwrap().topic(), "new topic");
    let asked = server.handle_message(message(None, Command::TOPIC, &["#b"], None), "1");
    assert_eq!(asked, vec![misc(None, "TOPIC", &["#b"], None)]);
    assert!(!server.has_channel("#b"));
}

#[test]
fn join_tells_the_roster_when_somebody_new_came() {
    let mut server = Server::new();
    let events =
        server.handle_message(message(Some("alice!a@h"), Command::JOIN, &["#a"], None), "1");
    assert_eq!(events, vec![Event::NewUsers(text("#a"), list(&["alice"]))]);
    let again =
        server.handle_message(message(Some("alice!a@h"), Command::JOIN, &["#a"], None), "1");
    assert!(again.is_empty());
    let second =
        server.handle_message(message(Some("bob"), Command::JOIN, &[], Some("#a")), "1");
    assert_eq!(rosters(&second), vec![(text("#a"), list(&["alice", "bob"]))]);
    assert_eq!(server.channels_of("bob"), vec![text("#a")]);
}

#[test]
fn join_without_channel_or_sender_adds_nobody() {
    let mut server = Server::new();
    assert!(server.handle_message(message(Some("alice"), Command::JOIN, &[], None), "1").is_empty());
    assert!(server.channel_names().is_empty());
    assert!(server.handle_message(message(None, Command::JOIN, &["#a"], None), "1").is_empty());
    assert_eq!(server.users_of("#a"), Some(vec![]));
}

#[test]
fn part_refreshes_the_rosters_and_is_reported() {
    let mut server = Server::new();
    server.add_users("#a", "alice bob");
    server.add_users("#b", "carol");
    let events = server.handle_message(
        message(Some("alice!a@h"), Command::PART, &["#a"], Some("bye")),
        "1",
    );
    assert_eq!(events.len(), 2);
    assert_eq!(events[0], Event::NewUsers(text("#a"), list(&["bob"])));
    assert_eq!(events[1], misc(Some("alice!a@h"), "PART", &["#a"], Some("bye")));
    assert!(server.channels_of("alice").is_empty());
}

#[test]
fn quit_refreshes_every_roster_of_the_user() {
    let mut server = Server::new();
    server.add_users("#a", "alice bob");
    server.add_users("#b", "alice");
    server.add_users("#c", "bob");
    let events =
        server.handle_message(message(Some("alice!a@h"), Command::QUIT, &[], Some("gone")), "1");
    assert_eq!(
        rosters(&events),
        vec![(text("#a"), list(&["bob"])), (text("#b"), list(&[]))]
    );
    assert_eq!(events.len(), 2);
    let again =
        server.handle_message(message(Some("alice!a@h"), Command::QUIT, &[], None), "1");
    assert!(again.is_empty());
    let nobody = server.handle_message(message(None, Command::QUIT, &[], None), "1");
    assert!(nobody.is_empty());
    assert_eq!(server.users_of("#c"), Some(vec![text("bob")]));
}

#[test]
fn nick_is_reported_after_the_rosters() {
    let mut server = Server::new();
    server.add_users("#a", "alice");
    let events =
        server.handle_message(message(Some("alice!a@h"), Command::NICK, &["ally"], None), "1");
    assert_eq!(
        events,
        vec![
            Event::NewUsers(text("#a"), list(&["ally"])),
            misc(Some("alice!a@h"), "NICK", &["ally"], None),
        ]
    );
}

#[test]
fn nick_without_a_new_name_is_only_reported() {
    let mut server = Server::new();
    server.add_users("#a", "alice");
    let events = server.handle_message(message(Some("alice!a@h"), Command::NICK, &[], None), "1");
    assert_eq!(events, vec![misc(Some("alice!a@h"), "NICK", &[], None)]);
    assert_eq!(server.users_of("#a"), Some(vec![text("alice")]));
}

#[test]
fn rename_keeps_the_privileges_of_the_user() {
    let mut server = Server::new();
    server.add_users("#x", "alice bob");
    server.add_users("#y", "bob");
    let granted = server.handle_message(
        mode_message(
            "#x",
            &["+o", "alice"],
            vec![Mode::Plus(ChannelMode::Oper, Some(text("alice")))],
        ),
        "1",
    );
    assert_eq!(rosters(&granted), vec![(text("#x"), list(&["alice", "bob"]))]);
    server.handle_message(message(Some("alice!a@h"), Command::NICK, &[], Some("ally")), "2");
    let channel = server.channel("#x").unwrap();
    assert_eq!(channel.user_status("ally"), Some(vec![UserStatus::Oper]));
    assert_eq!(channel.user_status("alice"), None);
    assert_eq!(channel.user_status("bob"), Some(vec![]));
    assert_eq!(server.users_of("#y"), Some(vec![text("bob")]));
    assert_eq!(server.channels_of("ally"), vec![text("#x")]);
}

#[test]
fn mode_batch_without_privileges_is_reported_as_it_came() {
    let mut server = Server::new();
    server.add_users("#a", "alice");
    let events = server.handle_message(
        mode_message(
            "#a",
            &["+b-b+i", "*!*@evil.example", "*!*@none.example"],
            vec![
                Mode::Plus(ChannelMode::Ban, Some(text("*!*@evil.example"))),
                Mode::Minus(ChannelMode::Ban, Some(text("*!*@none.example"))),
                Mode::Plus(ChannelMode::InviteOnly, None),
            ],
        ),
        "1",
    );
    assert_eq!(
        events,
        vec![misc(
            Some("op!o@host"),
            "ChannelMODE",
            &["#a", "+b-b+i", "*!*@evil.example", "*!*@none.example"],
            None
        )]
    );
    assert_eq!(
        server.channel("#a").unwrap().status(),
        vec![ChannelStatus::InviteOnly, ChannelStatus::Ban(text("*!*@evil.example"))]
    );
}

#[test]
fn ban_sent_twice_is_listed_once() {
    let mut server = Server::new();
    server.ensure_channel("#a");
    for _ in 0..2 {
        server.handle_message(
            mode_message(
                "#a",
                &["+b", "*!*@evil.example"],
                vec![Mode::Plus(ChannelMode::Ban, Some(text("*!*@evil.example")))],
            ),
            "1",
        );
    }
    assert_eq!(
        server.channel("#a").unwrap().status(),
        vec![ChannelStatus::Ban(text("*!*@evil.example"))]
    );
}

#[test]
fn one_unknown_mode_does_not_stop_the_batch() {
    let mut server = Server::new();
    server.add_users("#a", "alice");
    let events = server.handle_message(
        mode_message(
            "#a",
            &["+zv", "alice"],
            vec![
                Mode::Plus(ChannelMode::Unknown('z'), None),
                Mode::Plus(ChannelMode::Voice, Some(text("alice"))),
            ],
        ),
        "1",
    );
    assert_eq!(events, vec![Event::NewUsers(text("#a"), list(&["alice"]))]);
    assert_eq!(
        server.channel("#a").unwrap().user_status("alice"),
        Some(vec![UserStatus::Voice])
    );
}

#[test]
fn modes_of_an_unknown_channel_are_only_reported() {
    let mut server = Server::new();
    let events = server.handle_message(
        mode_message("#a", &["+i"], vec![Mode::Plus(ChannelMode::InviteOnly, None)]),
        "1",
    );
    assert_eq!(events, vec![misc(Some("op!o@host"), "ChannelMODE", &["#a", "+i"], None)]);
    assert!(!server.has_channel("#a"));
    assert_eq!(
        server.change_user_chan_mode("#a", vec![Mode::Plus(ChannelMode::Secret, None)]),
        None
    );
}

#[test]
fn change_user_chan_mode_says_whether_privileges_changed() {
    let mut server = Server::new();
    server.add_users("#a", "alice");
    assert_eq!(
        server.change_user_chan_mode("#a", vec![Mode::Plus(ChannelMode::Secret, None)]),
        Some(false)
    );
    assert_eq!(
        server.change_user_chan_mode(
            "#a",
            vec![Mode::Plus(ChannelMode::Admin, Some(text("alice")))]
        ),
        Some(true)
    );
    assert_eq!(server.channels_of("alice"), vec![text("#a")]);
}

#[test]
fn privmsg_to_a_known_channel_is_recorded_and_told() {
    let mut server = Server::new();
    server.ensure_channel("#a");
    let events = server.handle_message(
        message(Some("alice!a@h"), Command::PRIVMSG, &["#a"], Some("hello there")),
        "1700000000",
    );
    let expected = ChannelMessage {
        time_stamp: text("1700000000"),
        user_name: text("alice"),
        content: text("hello there"),
    };
    assert_eq!(events, vec![Event::NewMessage(text("#a"), expected.clone())]);
    assert_eq!(server.channel("#a").unwrap().messages(), &vec![expected]);
}

#[test]
fn privmsg_without_sender_is_from_unknown() {
    let mut server = Server::new();
    server.ensure_channel("#a");
    let events =
        server.handle_message(message(None, Command::PRIVMSG, &["#a", "hi"], None), "5");
    assert_eq!(
        events,
        vec![Event::NewMessage(
            text("#a"),
            ChannelMessage { time_stamp: text("5"), user_name: text("Unknown"), content: text("hi") }
        )]
    );
}

#[test]
fn privmsg_to_an_unknown_channel_is_dropped() {
    let mut server = Server::new();
    server.ensure_channel("#a");
    let events = server.handle_message(
        message(Some("alice!a@h"), Command::PRIVMSG, &["#b"], Some("hello")),
        "1",
    );
    assert!(events.is_empty());
    assert!(!server.has_channel("#b"));
    assert!(server.channel("#a").unwrap().messages().is_empty());
    let short = server.handle_message(message(Some("alice"), Command::PRIVMSG, &["#a"], None), "1");
    assert!(short.is_empty());
    assert_eq!(
        server.new_message(Some(text("alice!a@h")), text("#b"), text("hello"), "1"),
        None
    );
}

#[test]
fn notice_to_auth_only_moves_the_phase() {
    let mut server = Server::new();
    let events = server.handle_message(
        message(Some("irc.example.org"), Command::NOTICE, &["AUTH"], Some("*** Looking up")),
        "1",
    );
    assert!(events.is_empty());
    assert_eq!(server.connection_status(), ConnectionStatus::Authenticating);
}

#[test]
fn notice_to_a_channel_is_a_message() {
    let mut server = Server::new();
    server.ensure_channel("&local");
    let events = server.handle_message(
        message(Some("bot!b@h"), Command::NOTICE, &["&local"], Some("note")),
        "9",
    );
    assert_eq!(
        events,
        vec![Event::NewMessage(
            text("&local"),
            ChannelMessage { time_stamp: text("9"), user_name: text("bot"), content: text("note") }
        )]
    );
    let unknown = server.handle_message(
        message(Some("bot!b@h"), Command::NOTICE, &["#nowhere"], Some("note")),
        "9",
    );
    assert!(unknown.is_empty());
}

#[test]
fn other_notices_are_reported_as_they_came() {
    let mut server = Server::new();
    let events = server.handle_message(
        message(Some("bot!b@h"), Command::NOTICE, &["me"], Some("note")),
        "9",
    );
    assert_eq!(events, vec![misc(Some("bot!b@h"), "NOTICE", &["me"], Some("note"))]);
    let short = server.handle_message(message(None, Command::NOTICE, &["AUTH"], None), "9");
    assert_eq!(short, vec![misc(None, "NOTICE", &["AUTH"], None)]);
    assert_eq!(server.connection_status(), ConnectionStatus::NotConnected);
}

#[test]
fn session_stays_usable_after_dropped_messages() {
    let mut server = Server::new();
    server.handle_message(message(None, Command::PRIVMSG, &["#a", "x"], None), "1");
    server.handle_message(message(None, Command::NICK, &[], None), "1");
    server.handle_message(reply(Response::RPL_NAMREPLY, &[], None), "1");
    let events = server.handle_message(reply(Response::RPL_WELCOME, &["me"], Some("hi")), "1");
    assert_eq!(events, vec![Event::Welcome(text("hi"))]);
}

#[test]
fn auth_notice_after_the_greeting_does_not_move_the_phase_back() {
    let mut server = Server::new();
    server.handle_message(reply(Response::RPL_WELCOME, &["me"], Some("hi")), "1");
    let events = server.handle_message(
        message(Some("irc.example.org"), Command::NOTICE, &["AUTH"], Some("*** late")),
        "2",
    );
    assert!(events.is_empty());
    assert_eq!(server.connection_status(), ConnectionStatus::Connected);
}

#[test]
fn granting_what_is_held_still_tells_the_roster_once() {
    let mut server = Server::new();
    server.add_users("#a", "alice bob");
    server.change_user_chan_mode(
        "#a",
        vec![Mode::Plus(ChannelMode::Oper, Some(text("alice")))],
    );
    let batch = || {
        vec![
            Mode::Plus(ChannelMode::Oper, Some(text("alice"))),
            Mode::Plus(ChannelMode::Oper, Some(text("alice"))),
        ]
    };
    let events = server.handle_message(mode_message("#a", &["+oo", "alice", "alice"], batch()), "1");
    assert_eq!(rosters(&events), vec![(text("#a"), list(&["alice", "bob"]))]);
    assert_eq!(events.len(), 1);
    assert_eq!(server.change_user_chan_mode("#a", batch()), Some(true));
    assert_eq!(
        server.channel("#a").unwrap().user_status("alice"),
        Some(vec![UserStatus::Oper])
    );
}

#[test]
fn several_privilege_changes_tell_the_roster_once_after_all_of_them() {
    let mut server = Server::new();
    server.add_users("#a", "alice bob");
    let events = server.handle_message(
        mode_message(
            "#a",
            &["+o+v", "alice", "bob"],
            vec![
                Mode::Plus(ChannelMode::Oper, Some(text("alice"))),
                Mode::Plus(ChannelMode::Voice, Some(text("bob"))),
            ],
        ),
        "1",
    );
    assert_eq!(events, vec![Event::NewUsers(text("#a"), list(&["alice", "bob"]))]);
    let channel = server.channel("#a").unwrap();
    assert_eq!(channel.user_status("alice"), Some(vec![UserStatus::Oper]));
    assert_eq!(channel.user_status("bob"), Some(vec![UserStatus::Voice]));
}

#[test]
fn a_privilege_for_a_stranger_is_only_reported() {
    let mut server = Server::new();
    server.add_users("#a", "alice");
    let events = server.handle_message(
        mode_message(
            "#a",
            &["+o", "carol"],
            vec![Mode::Plus(ChannelMode::Oper, Some(text("carol")))],
        ),
        "1",
    );
    assert_eq!(events, vec![misc(Some("op!o@host"), "ChannelMODE", &["#a", "+o", "carol"], None)]);
    assert_eq!(server.users_of("#a"), Some(vec![text("alice")]));
    assert_eq!(
        server.change_user_chan_mode("#a", vec![Mode::Minus(ChannelMode::Voice, None)]),
        Some(false)
    );
}

#[test]
fn motd_replies_keep_their_blank_lines() {
    let mut server = Server::new();
    assert!(server
        .handle_message(reply(Response::RPL_MOTD, &["me"], Some("- a\n\n")), "1")
        .is_empty());
    assert!(server.handle_message(reply(Response::RPL_MOTD, &["me"], Some("")), "1").is_empty());
    assert!(server.handle_message(reply(Response::RPL_MOTD, &["me"], Some("- b")), "1").is_empty());
    let events = server.handle_message(reply(Response::RPL_ENDOFMOTD, &["me"], None), "1");
    assert_eq!(events, vec![Event::Motd(text("- a\n\n- b\n"))]);
}
