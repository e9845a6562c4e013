use irc_client::event::Event;
use irc_client::message::{Command, Message, Response};
use irc_client::server::{ConnectionStatus, Server};

fn text(s: &str) -> String {
    s.to_string()
}

fn reply(res: Response, args: &[&str], suffix: Option<&str>) -> Message {
    Message {
        prefix: None,
        command: Command::Response(res),
        args: args.iter().map(|a| a.to_string()).collect(),
        suffix: suffix.map(|s| s.to_string()),
        modes: Vec::new(),
    }
}

fn command(prefix: Option<&str>, command: Command, args: &[&str], suffix: Option<&str>) -> Message {
    Message {
        prefix: prefix.map(|s| s.to_string()),
        command,
        args: args.iter().map(|a| a.to_string()).collect(),
        suffix: suffix.map(|s| s.to_string()),
        modes: Vec::new(),
    }
}

fn sorted(mut names: Vec<String>) -> Vec<String> {
    names.sort();
    names
}

#[test]
fn welcome_connects_and_is_told_once() {
    let mut server = Server::new();
    assert_eq!(server.connection_status(), ConnectionStatus::NotConnected);
    let events = server.handle_message(reply(Response::RPL_WELCOME, &["me"], Some("hi")), "1");
    assert_eq!(events, vec![Event::Welcome(text("hi"))]);
    assert_eq!(server.connection_status(), ConnectionStatus::Connected);
    assert_eq!(server.welcome_msg(), "hi");
}

#[test]
fn names_are_gathered_and_told_at_their_end() {
    let mut server = Server::new();
    let first = server.handle_message(
        reply(Response::RPL_NAMREPLY, &["me", "=", "#a"], Some("alice bob")),
        "1",
    );
    assert!(first.is_empty());
    let second = server.handle_message(
        reply(Response::RPL_ENDOFNAMES, &["me", "#a"], Some("End of /NAMES list.")),
        "2",
    );
    assert_eq!(second.len(), 1);
    match &second[0] {
        Event::NewUsers(channel, names) => {
            assert_eq!(channel, "#a");
            assert_eq!(sorted(names.clone()), vec![text("alice"), text("bob")]);
        }
        other => panic!("unexpected event {:?}", other),
    }
}

#[test]
fn motd_lines_are_joined() {
    let mut server = Server::new();
    server.add_motd(text("line1"));
    server.add_motd(text("line2"));
    assert_eq!(server.get_motd(), "line1\nline2\n");
}

#[test]
fn nick_change_reaches_only_the_channels_of_the_user() {
    let mut server = Server::new();
    server.add_users("#a", "alice bob");
    server.add_users("#b", "alice");
    server.add_users("#c", "carol");
    let events = server.handle_message(
        command(Some("alice!a@host"), Command::NICK, &[], Some("ally")),
        "1",
    );
    let mut told: Vec<String> = Vec::new();
    for event in &events {
        if let Event::NewUsers(channel, names) = event {
            assert!(names.contains(&text("ally")));
            assert!(!names.contains(&text("alice")));
            told.push(channel.clone());
        }
    }
    assert_eq!(sorted(told), vec![text("#a"), text("#b")]);
    assert_eq!(sorted(server.users_of("#c").unwrap()), vec![text("carol")]);
    assert_eq!(sorted(server.users_of("#a").unwrap()), vec![text("ally"), text("bob")]);
}

#[test]
fn new_session_is_empty() {
    let server = Server::new();
    assert_eq!(server.connection_status(), ConnectionStatus::NotConnected);
    assert_eq!(server.get_motd(), "");
    assert_eq!(server.welcome_msg(), "");
    assert!(server.channel_names().is_empty());
    assert!(!server.has_channel("#a"));
    assert_eq!(server.users_of("#a"), None);
    assert!(server.channel("#a").is_none());
}

#[test]
fn motd_line_with_its_own_ending_gets_no_second_one() {
    let mut server = Server::new();
    server.add_motd(text("line1\n"));
    assert_eq!(server.get_motd(), "line1\n");
    server.add_motd(text("line2"));
    assert_eq!(server.get_motd(), "line1\nline2\n");
}

#[test]
fn motd_line_with_several_endings_keeps_one() {
    let mut server = Server::new();
    server.add_motd(text("a\n\n"));
    assert_eq!(server.get_motd(), "a\n");
    server.add_motd(text("b\n\n\n"));
    assert_eq!(server.get_motd(), "a\nb\n");
}

#[test]
fn motd_line_of_nothing_is_a_blank_line() {
    let mut server = Server::new();
    server.add_motd(text("line1"));
    server.add_motd(text(""));
    assert_eq!(server.get_motd(), "line1\n\n");
    server.add_motd(text("line2"));
    assert_eq!(server.get_motd(), "line1\n\nline2\n");
}

#[test]
fn motd_line_of_line_feeds_is_one_blank_line() {
    let mut server = Server::new();
    server.add_motd(text("line1"));
    server.add_motd(text("\n"));
    assert_eq!(server.get_motd(), "line1\n\n");
    server.add_motd(text("\n\n\n"));
    assert_eq!(server.get_motd(), "line1\n\n\n");
}

#[test]
fn motd_that_starts_with_nothing_starts_with_a_blank_line() {
    let mut server = Server::new();
    server.add_motd(text(""));
    assert_eq!(server.get_motd(), "\n");
    server.add_motd(text("line"));
    assert_eq!(server.get_motd(), "\nline\n");
}

#[test]
fn motd_keeps_line_feeds_inside_a_line() {
    let mut server = Server::new();
    server.add_motd(text("a\n\nb"));
    assert_eq!(server.get_motd(), "a\n\nb\n");
}

#[test]
fn motd_ends_in_exactly_one_line_feed_after_every_line_that_is_not_blank() {
    let mut server = Server::new();
    for line in ["a", "b\n", "c\n\n", "d\n\ne", "f\r\n"] {
        let before = server.get_motd();
        server.add_motd(text(line));
        let motd = server.get_motd();
        assert!(motd.starts_with(&before));
        assert!(motd.ends_with('\n'));
        assert!(!motd.ends_with("\n\n"));
    }
    assert_eq!(server.get_motd(), "a\nb\nc\nd\n\ne\nf\r\n");
}

#[test]
fn motd_ends_in_a_line_feed_after_every_append() {
    let mut server = Server::new();
    for line in ["", "a", "\n", "b\n", "", "", "c"] {
        let before = server.get_motd();
        server.add_motd(text(line));
        let motd = server.get_motd();
        assert!(motd.starts_with(&before));
        assert!(motd.ends_with('\n'));
        assert!(motd.len() > before.len());
    }
    assert_eq!(server.get_motd(), "\na\n\nb\n\n\nc\n");
}

#[test]
fn motd_line_without_line_feed_is_appended_whole() {
    for line in ["", "a", "two words", "tab\there", "ünïcode"] {
        let mut server = Server::new();
        server.add_motd(text("before"));
        server.add_motd(text(line));
        assert_eq!(server.get_motd(), format!("before\n{}\n", line));
        assert_eq!(server.connection_status(), ConnectionStatus::NotConnected);
        assert_eq!(server.welcome_msg(), "");
        assert!(server.channel_names().is_empty());
    }
}

#[test]
fn add_welcome_keeps_the_last_greeting() {
    let mut server = Server::new();
    server.add_welcome("hello");
    server.add_welcome("hello again");
    assert_eq!(server.welcome_msg(), "hello again");
    assert_eq!(server.connection_status(), ConnectionStatus::Connected);
}

#[test]
fn note_authenticating_moves_the_phase() {
    let mut server = Server::new();
    server.note_authenticating();
    assert_eq!(server.connection_status(), ConnectionStatus::Authenticating);
}

#[test]
fn ensure_channel_never_replaces_a_channel() {
    let mut server = Server::new();
    server.add_users("#a", "alice");
    server.add_ch_topic("#a", "topic");
    server.ensure_channel("#a");
    server.ensure_channel("#b");
    assert_eq!(server.channel_names(), vec![text("#a"), text("#b")]);
    assert_eq!(server.users_of("#a"), Some(vec![text("alice")]));
    assert_eq!(server.channel("#a").unwrap().topic(), "topic");
    assert_eq!(server.users_of("#b"), Some(vec![]));
    assert_eq!(server.channel("#b").unwrap().name(), "#b");
}

#[test]
fn channel_names_are_kept_as_they_are_written() {
    let mut server = Server::new();
    server.ensure_channel("#Rust");
    server.ensure_channel("#rust");
    assert_eq!(server.channel_names(), vec![text("#Rust"), text("#rust")]);
}

#[test]
fn add_users_counts_the_new_members_of_that_channel() {
    let mut server = Server::new();
    assert_eq!(server.add_users("#a", "alice bob"), 2);
    assert_eq!(server.add_users("#a", "bob carol bob"), 1);
    assert_eq!(server.add_users("#b", "alice"), 1);
    assert_eq!(server.add_users("#b", ""), 0);
    assert_eq!(
        sorted(server.users_of("#a").unwrap()),
        vec![text("alice"), text("bob"), text("carol")]
    );
    assert_eq!(server.users_of("#b"), Some(vec![text("alice")]));
}

#[test]
fn index_follows_joins_departures_and_renames() {
    let mut server = Server::new();
    server.add_users("#a", "alice bob");
    server.add_users("#b", "alice carol");
    server.add_users("#c", "bob");
    assert_eq!(sorted(server.channels_of("alice")), vec![text("#a"), text("#b")]);
    assert_eq!(sorted(server.channels_of("bob")), vec![text("#a"), text("#c")]);
    assert_eq!(server.channels_of("carol"), vec![text("#b")]);
    assert!(server.channels_of("dave").is_empty());

    let changed = server.change_nick("alice", "bob");
    assert_eq!(sorted(changed), vec![text("#a"), text("#b")]);
    assert!(server.channels_of("alice").is_empty());
    assert_eq!(sorted(server.channels_of("bob")), vec![text("#a"), text("#b"), text("#c")]);
    assert_eq!(server.users_of("#a"), Some(vec![text("bob")]));

    let left = server.remove_user("bob");
    assert_eq!(sorted(left), vec![text("#a"), text("#b"), text("#c")]);
    assert!(server.channels_of("bob").is_empty());
    assert_eq!(server.channels_of("carol"), vec![text("#b")]);
    assert_eq!(server.users_of("#a"), Some(vec![]));
    assert_eq!(server.users_of("#b"), Some(vec![text("carol")]));
    assert_eq!(server.users_of("#c"), Some(vec![]));

    server.add_users("#a", "bob");
    assert_eq!(server.channels_of("bob"), vec![text("#a")]);
}

#[test]
fn remove_user_keeps_the_channels_themselves() {
    let mut server = Server::new();
    server.add_users("#a", "alice");
    server.add_ch_topic("#a", "topic");
    assert_eq!(server.remove_user("alice"), vec![text("#a")]);
    assert!(server.remove_user("alice").is_empty());
    assert!(server.has_channel("#a"));
    assert_eq!(server.channel("#a").unwrap().topic(), "topic");
}

#[test]
fn change_nick_of_a_stranger_changes_nothing() {
    let mut server = Server::new();
    server.add_users("#a", "alice");
    assert!(server.change_nick("bob", "ally").is_empty());
    assert_eq!(server.users_of("#a"), Some(vec![text("alice")]));
    assert!(server.channels_of("ally").is_empty());
}

#[test]
fn change_nick_to_the_same_name_changes_nothing() {
    let mut server = Server::new();
    server.add_users("#a", "alice");
    assert_eq!(server.change_nick("alice", "alice"), vec![text("#a")]);
    assert_eq!(server.users_of("#a"), Some(vec![text("alice")]));
    assert_eq!(server.channels_of("alice"), vec![text("#a")]);
}

#[test]
fn snapshot_shows_the_whole_session() {
    let mut server = Server::new();
    server.add_welcome("hi");
    server.add_motd(text("motd"));
    server.add_users("#a", "alice");
    server.add_ch_topic("#b", "topic b");
    let state = server.get_state();
    assert_eq!(state.welcome_msg, "hi");
    assert_eq!(state.connection_status, ConnectionStatus::Connected);
    assert_eq!(state.motd, "motd\n");
    assert_eq!(state.channels.len(), 2);
    assert_eq!(state.channels[0].name, "#a");
    assert_eq!(state.channels[0].users.len(), 1);
    assert_eq!(state.channels[0].users[0].name, "alice");
    assert_eq!(state.channels[1].name, "#b");
    assert_eq!(state.channels[1].topic, "topic b");
    assert!(state.channels[1].users.is_empty());
}
