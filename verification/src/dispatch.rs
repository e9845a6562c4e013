//! What a session does with one message of the server: how its state moves
//! and which events it hands to the listener.

use vstd::prelude::*;
use crate::channel::{lemma_applied_all_keeps_members, ChannelMessageView, ChannelView};
use crate::event::{event_views, Event, EventView};
use crate::message::{command_name, params_of, Command, Message, MessageView, Response};
use crate::mode::text_of;
use crate::server::{author_of, phase_rank, Server, ServerView};
use crate::text::{nick_of, short_name, words};

verus! {

/// The nickname of the sender; empty where the message names no sender.
pub open spec fn sender_of(prefix: Option<Seq<char>>) -> Seq<char> {
    match prefix {
        Some(p) => nick_of(p),
        None => Seq::empty(),
    }
}

/// The text that may be missing; empty where it is.
pub open spec fn text_or_empty(text: Option<Seq<char>>) -> Seq<char> {
    match text {
        Some(t) => t,
        None => Seq::empty(),
    }
}

/// The last of the arguments.
pub open spec fn last_of(args: Seq<Seq<char>>) -> Option<Seq<char>> {
    if args.len() > 0 {
        Some(args.last())
    } else {
        None
    }
}

/// Whether a target names a channel: it starts with `#` or `&`.
pub open spec fn is_channel_name(target: Seq<char>) -> bool {
    target.len() > 0 && (target[0] == '#' || target[0] == '&')
}

/// The target of the notices that the server sends while it checks who
/// connects.
pub open spec fn auth_target() -> Seq<char> {
    "AUTH"@
}

/// The event that reports a message as it came: sender prefix, name,
/// arguments and trailing text.
pub open spec fn passed_through(
    prefix: Option<Seq<char>>,
    command: Command,
    args: Seq<Seq<char>>,
    suffix: Option<Seq<char>>,
) -> EventView {
    EventView::Misc(prefix, command_name(command), args, suffix)
}

/// The chat message that a `PRIVMSG` or `NOTICE` with two parameters
/// carries, taken at the time `time_stamp`.
pub open spec fn said(msg: MessageView, time_stamp: Seq<char>) -> ChannelMessageView {
    ChannelMessageView {
        time_stamp,
        user_name: author_of(msg.prefix),
        content: msg.params()[1],
    }
}

/// Whether `events` are the rosters of the channels `affected`, one for
/// each and in any order, as they stand in `post`.
pub open spec fn is_refresh(
    events: Seq<EventView>,
    affected: Set<Seq<char>>,
    post: ServerView,
) -> bool {
    &&& affected.finite()
    &&& events.len() == affected.len()
    &&& forall|i: int|
        0 <= i < events.len() ==> affected.contains((#[trigger] events[i]).channel())
            && events[i].is_roster(events[i].channel(), post.members_of(events[i].channel()))
    &&& forall|i: int, j: int|
        0 <= i < j < events.len() ==> (#[trigger] events[i]).channel() != (
        #[trigger] events[j]).channel()
}

/// The session after a numeric reply.
pub open spec fn reply_state(
    pre: ServerView,
    reply: Response,
    args: Seq<Seq<char>>,
    suffix: Option<Seq<char>>,
) -> ServerView {
    match reply {
        Response::RPL_WELCOME => pre.welcomed(text_or_empty(suffix)),
        Response::RPL_TOPIC => match last_of(args) {
            Some(channel) => pre.with_topic(channel, text_or_empty(suffix)),
            None => pre,
        },
        Response::RPL_NAMREPLY => match (last_of(args), suffix) {
            (Some(channel), Some(names)) => pre.joined(channel, words(names).to_set()),
            _ => pre,
        },
        Response::RPL_MOTD => match suffix {
            Some(text) => pre.with_motd(text),
            None => pre,
        },
        _ => pre,
    }
}

/// Whether `events` are what a numeric reply gives rise to.
///
/// The greeting is told as such. Names and lines of the message of the day
/// are gathered in silence, and told as a whole when their end is
/// announced. Every other reply is reported as it came.
pub open spec fn reply_emitted(
    pre: ServerView,
    reply: Response,
    prefix: Option<Seq<char>>,
    args: Seq<Seq<char>>,
    suffix: Option<Seq<char>>,
    events: Seq<EventView>,
) -> bool {
    match reply {
        Response::RPL_WELCOME => events =~= seq![EventView::Welcome(text_or_empty(suffix))],
        Response::RPL_NAMREPLY => events.len() == 0,
        Response::RPL_ENDOFNAMES => match last_of(args) {
            Some(channel) => if pre.has_channel(channel) {
                events.len() == 1 && events[0].is_roster(channel, pre.members_of(channel))
            } else {
                events.len() == 0
            },
            None => events.len() == 0,
        },
        Response::RPL_MOTD => events.len() == 0,
        Response::RPL_ENDOFMOTD => events =~= seq![EventView::Motd(pre.motd)],
        _ => events =~= seq![passed_through(prefix, Command::Response(reply), args, suffix)],
    }
}

/// The session after the message `msg`, which came at the time
/// `time_stamp`.
pub open spec fn next_state(pre: ServerView, msg: MessageView, time_stamp: Seq<char>) -> ServerView {
    let params = msg.params();
    let who = sender_of(msg.prefix);
    match msg.command {
        Command::NICK => if params.len() >= 1 {
            pre.renamed(who, params[0])
        } else {
            pre
        },
        Command::QUIT => pre.without_member(who),
        Command::PART => pre.without_member(who),
        Command::JOIN => if params.len() >= 1 {
            pre.joined(params[0], words(who).to_set())
        } else {
            pre
        },
        Command::PRIVMSG => if params.len() >= 2 {
            pre.with_message(params[0], said(msg, time_stamp))
        } else {
            pre
        },
        Command::NOTICE => if params.len() >= 2 && params[0] == auth_target() {
            pre.authenticating()
        } else if params.len() >= 2 && is_channel_name(params[0]) {
            pre.with_message(params[0], said(msg, time_stamp))
        } else {
            pre
        },
        Command::TOPIC => if params.len() >= 2 {
            pre.with_topic(params[0], params[1])
        } else {
            pre
        },
        Command::ChannelMODE => if params.len() >= 1 {
            pre.with_modes(params[0], msg.modes)
        } else {
            pre
        },
        Command::Response(reply) => reply_state(pre, reply, msg.args, msg.suffix),
        _ => pre,
    }
}

/// Whether `events` are what the message `msg` gives rise to, in the order
/// in which the listener is to hear of them.
///
/// A change of name and a departure refresh the roster of every channel
/// that the sender was in, and are then reported as they came; a quit only
/// refreshes the rosters. A join tells the roster of its channel where
/// somebody new came. A chat message is told where its channel is known. A
/// batch of mode changes tells the roster of its channel, once, where one
/// of the changes speaks of the privileges of a member, and is reported as
/// it came where none does.
/// Whatever has no effect of its own is reported as it came.
pub open spec fn emitted(
    pre: ServerView,
    msg: MessageView,
    time_stamp: Seq<char>,
    events: Seq<EventView>,
) -> bool {
    let params = msg.params();
    let who = sender_of(msg.prefix);
    let post = next_state(pre, msg, time_stamp);
    let report = passed_through(msg.prefix, msg.command, msg.args, msg.suffix);
    match msg.command {
        Command::NICK => events.len() >= 1 && events.last() == report && is_refresh(
            events.drop_last(),
            if params.len() >= 1 {
                pre.channels_of(who)
            } else {
                Set::empty()
            },
            post,
        ),
        Command::PART => events.len() >= 1 && events.last() == report && is_refresh(
            events.drop_last(),
            pre.channels_of(who),
            post,
        ),
        Command::QUIT => is_refresh(events, pre.channels_of(who), post),
        Command::JOIN => if params.len() >= 1 && words(who).to_set().difference(
            pre.members_of(params[0]),
        ).len() > 0 {
            events.len() == 1 && events[0].is_roster(params[0], post.members_of(params[0]))
        } else {
            events.len() == 0
        },
        Command::PRIVMSG => if params.len() >= 2 && pre.has_channel(params[0]) {
            events =~= seq![EventView::NewMessage(params[0], said(msg, time_stamp))]
        } else {
            events.len() == 0
        },
        Command::NOTICE => if params.len() >= 2 && params[0] == auth_target() {
            events.len() == 0
        } else if params.len() >= 2 && is_channel_name(params[0]) {
            if pre.has_channel(params[0]) {
                events =~= seq![EventView::NewMessage(params[0], said(msg, time_stamp))]
            } else {
                events.len() == 0
            }
        } else {
            events =~= seq![report]
        },
        Command::ChannelMODE => if params.len() >= 1 && pre.has_channel(params[0])
            && pre.channels[params[0]].roles_touched(msg.modes) {
            events.len() == 1 && events[0].is_roster(params[0], post.members_of(params[0]))
        } else {
            events =~= seq![report]
        },
        Command::Response(reply) => reply_emitted(
            pre,
            reply,
            msg.prefix,
            msg.args,
            msg.suffix,
            events,
        ),
        _ => events =~= seq![report],
    }
}

/// The channels that a user is a member of are known, before and after the
/// user leaves them or takes another name.
proof fn lemma_known_channels(
    pre: ServerView,
    who: Seq<char>,
    new: Seq<char>,
    channels: Seq<Seq<char>>,
)
    requires
        channels.to_set() == pre.channels_of(who),
    ensures
        forall|i: int| 0 <= i < channels.len() ==> pre.has_channel(#[trigger] channels[i]),
        forall|i: int|
            0 <= i < channels.len() ==> pre.renamed(who, new).has_channel(#[trigger] channels[i]),
        forall|i: int|
            0 <= i < channels.len() ==> pre.without_member(who).has_channel(
                #[trigger] channels[i],
            ),
{
    assert forall|i: int| 0 <= i < channels.len() implies pre.has_channel(
        #[trigger] channels[i],
    ) by {
        assert(channels.to_set().contains(channels[i]));
    }
}

/// Whether a command has no effect of its own on the session.
pub open spec fn is_pass_through(command: Command) -> bool {
    match command {
        Command::NICK => false,
        Command::QUIT => false,
        Command::PART => false,
        Command::JOIN => false,
        Command::PRIVMSG => false,
        Command::NOTICE => false,
        Command::TOPIC => false,
        Command::ChannelMODE => false,
        Command::Response(Response::RPL_WELCOME) => false,
        Command::Response(Response::RPL_TOPIC) => false,
        Command::Response(Response::RPL_NAMREPLY) => false,
        Command::Response(Response::RPL_ENDOFNAMES) => false,
        Command::Response(Response::RPL_MOTD) => false,
        Command::Response(Response::RPL_ENDOFMOTD) => false,
        _ => true,
    }
}

/// A message without effect of its own leaves the session as it is and is
/// reported once, as it came.
pub proof fn lemma_pass_through(
    pre: ServerView,
    msg: MessageView,
    time_stamp: Seq<char>,
    events: Seq<EventView>,
)
    requires
        is_pass_through(msg.command),
        emitted(pre, msg, time_stamp, events),
    ensures
        next_state(pre, msg, time_stamp) == pre,
        events == seq![passed_through(msg.prefix, msg.command, msg.args, msg.suffix)],
{
}

/// No message moves the connection backward, and none but the server's
/// greeting and the notices that go before it moves it at all.
pub proof fn lemma_phase_advances(pre: ServerView, msg: MessageView, time_stamp: Seq<char>)
    ensures
        phase_rank(next_state(pre, msg, time_stamp).connection_status) >= phase_rank(
            pre.connection_status,
        ),
        msg.command != Command::NOTICE && msg.command != Command::Response(Response::RPL_WELCOME)
            ==> next_state(pre, msg, time_stamp).connection_status == pre.connection_status,
{
}

/// What holds of every session holds after every message: each channel
/// stands under its own name and has finitely many members, and there are
/// finitely many channels.
pub proof fn lemma_next_state_wf(pre: ServerView, msg: MessageView, time_stamp: Seq<char>)
    requires
        pre.wf(),
    ensures
        next_state(pre, msg, time_stamp).wf(),
{
    let post = next_state(pre, msg, time_stamp);
    let who = sender_of(msg.prefix);
    lemma_motd_grows(pre, msg, time_stamp);
    vstd::seq_lib::seq_to_set_is_finite(words(who));
    if msg.suffix is Some {
        vstd::seq_lib::seq_to_set_is_finite(words(msg.suffix->0));
    }
    assert(post.channels.dom().finite()) by {
        assert(pre.without_member(who).channels.dom() =~= pre.channels.dom());
        if msg.params().len() >= 1 {
            assert(pre.renamed(who, msg.params()[0]).channels.dom() =~= pre.channels.dom());
        }
    }
    assert forall|c: Seq<char>| #[trigger] post.channels.dom().contains(c) implies post.channels[c].name
        == c && post.channels[c].members().finite() by {
        if pre.channels.dom().contains(c) {
            let before = pre.channels[c];
            before.lemma_joined_members(words(who).to_set());
            if msg.suffix is Some {
                before.lemma_joined_members(words(msg.suffix->0).to_set());
            }
            if before.has_member(who) && msg.params().len() >= 1 {
                before.lemma_renamed(who, msg.params()[0]);
            }
            lemma_applied_all_keeps_members(before, msg.modes);
        } else {
            let before = ChannelView::empty(c);
            before.lemma_joined_members(words(who).to_set());
            if msg.suffix is Some {
                before.lemma_joined_members(words(msg.suffix->0).to_set());
            }
        }
    }
}

/// The message of the day only grows, and after every message it is empty
/// or ends in a line feed.
pub proof fn lemma_motd_grows(pre: ServerView, msg: MessageView, time_stamp: Seq<char>)
    requires
        pre.wf(),
    ensures
        pre.motd.is_prefix_of(next_state(pre, msg, time_stamp).motd),
        next_state(pre, msg, time_stamp).motd.len() == 0 || next_state(
            pre,
            msg,
            time_stamp,
        ).motd.last() == '\n',
{
    if msg.suffix is Some {
        pre.lemma_motd_whole_lines(msg.suffix->0);
    }
}

/// A channel that is known stays known, whatever message comes.
pub proof fn lemma_channels_stay(
    pre: ServerView,
    msg: MessageView,
    time_stamp: Seq<char>,
    channel: Seq<char>,
)
    requires
        pre.has_channel(channel),
    ensures
        next_state(pre, msg, time_stamp).has_channel(channel),
{
}

/// The parameter at place `i`, counting the trailing text as the last.
fn param<'a>(args: &'a Vec<String>, suffix: &'a Option<String>, i: usize) -> (found: Option<
    &'a String,
>)
    ensures
        ({
            let params = params_of(args.deep_view(), text_of(*suffix));
            match found {
                Some(text) => i < params.len() && text@ == params[i as int],
                None => i >= params.len(),
            }
        }),
{
    if i < args.len() {
        Some(&args[i])
    } else if i == args.len() {
        match suffix {
            Some(text) => Some(text),
            None => None,
        }
    } else {
        None
    }
}

/// The last of the arguments.
fn last_arg<'a>(args: &'a Vec<String>) -> (found: Option<&'a String>)
    ensures
        match found {
            Some(text) => last_of(args.deep_view()) == Some(text@),
            None => last_of(args.deep_view()) is None,
        },
{
    let n = args.len();
    if n > 0 {
        Some(&args[n - 1])
    } else {
        None
    }
}

/// The nickname of the sender.
fn sender(prefix: &Option<String>) -> (who: String)
    ensures
        who@ == sender_of(text_of(*prefix)),
{
    match prefix {
        Some(p) => short_name(p.as_str()),
        None => String::new(),
    }
}

/// Whether a target names a channel.
fn names_channel(target: &str) -> (b: bool)
    ensures
        b == is_channel_name(target@),
{
    if target.unicode_len() == 0 {
        false
    } else {
        let first = target.get_char(0);
        first == '#' || first == '&'
    }
}

/// Whether a target is that of the notices sent while the server checks
/// who connects.
fn is_auth(target: &String) -> (b: bool)
    ensures
        b == (target@ == auth_target()),
{
    *target == "AUTH".to_owned()
}

/// What a notice is, by its parameters.
enum Notice {
    /// Sent while the server checks who connects.
    Auth,
    /// Sent to a channel.
    Chat,
    /// Anything else.
    Other,
}

/// What a notice with these parameters is.
fn notice_kind(args: &Vec<String>, suffix: &Option<String>) -> (kind: Notice)
    ensures
        ({
            let params = params_of(args.deep_view(), text_of(*suffix));
            match kind {
                Notice::Auth => params.len() >= 2 && params[0] == auth_target(),
                Notice::Chat => params.len() >= 2 && params[0] != auth_target()
                    && is_channel_name(params[0]),
                Notice::Other => !(params.len() >= 2 && (params[0] == auth_target()
                    || is_channel_name(params[0]))),
            }
        }),
{
    match param(args, suffix, 0) {
        Some(target) => {
            if param(args, suffix, 1).is_none() {
                Notice::Other
            } else if is_auth(target) {
                Notice::Auth
            } else if names_channel(target.as_str()) {
                Notice::Chat
            } else {
                Notice::Other
            }
        },
        None => Notice::Other,
    }
}

impl Server {
    /// The rosters of `channels`, in their order.
    fn refresh(&self, channels: &Vec<String>) -> (events: Vec<Event>)
        requires
            self.wf(),
            channels.deep_view().no_duplicates(),
            forall|i: int|
                0 <= i < channels.deep_view().len() ==> self@.has_channel(
                    #[trigger] channels.deep_view()[i],
                ),
        ensures
            is_refresh(event_views(events@), channels.deep_view().to_set(), self@),
    {
        let ghost all = channels.deep_view();
        let n = channels.len();
        let mut events: Vec<Event> = Vec::new();
        let mut i: usize = 0;
        while i < n
            invariant
                self.wf(),
                i <= n,
                n == channels.len(),
                all == channels.deep_view(),
                forall|k: int| 0 <= k < all.len() ==> self@.has_channel(#[trigger] all[k]),
                events.len() == i,
                forall|k: int|
                    0 <= k < i ==> (#[trigger] event_views(events@)[k]).channel() == all[k]
                        && event_views(events@)[k].is_roster(all[k], self@.members_of(all[k])),
            decreases n - i,
        {
            let ghost before = event_views(events@);
            assert(self@.has_channel(all[i as int]));
            match self.users_of(channels[i].as_str()) {
                Some(names) => {
                    let event = Event::NewUsers(channels[i].clone(), names);
                    events.push(event);
                    assert(event_views(events@) =~= before.push(event@));
                },
                None => {},
            }
            i = i + 1;
        }
        proof {
            all.unique_seq_to_set();
            vstd::seq_lib::seq_to_set_is_finite(all);
        }
        events
    }

    /// The roster of `channel` as a list of events: one event, or none
    /// where no such channel is known.
    fn roster(&self, channel: &String) -> (events: Vec<Event>)
        requires
            self.wf(),
        ensures
            if self@.has_channel(channel@) {
                events.len() == 1 && event_views(events@)[0].is_roster(
                    channel@,
                    self@.members_of(channel@),
                )
            } else {
                events.len() == 0
            },
            event_views(events@).len() == events.len(),
    {
        match self.users_of(channel.as_str()) {
            Some(names) => vec![Event::NewUsers(channel.clone(), names)],
            None => Vec::new(),
        }
    }

    /// Takes a numeric reply of the server and gives the events that it
    /// gives rise to.
    pub fn response(
        &mut self,
        res: Response,
        prefix: Option<String>,
        args: Vec<String>,
        suffix: Option<String>,
    ) -> (events: Vec<Event>)
        requires
            old(self).wf(),
        ensures
            final(self).wf(),
            final(self)@ == reply_state(old(self)@, res, args.deep_view(), text_of(suffix)),
            reply_emitted(
                old(self)@,
                res,
                text_of(prefix),
                args.deep_view(),
                text_of(suffix),
                event_views(events@),
            ),
    {
        match res {
            Response::RPL_WELCOME => {
                let text = match suffix {
                    Some(t) => t,
                    None => String::new(),
                };
                self.add_welcome(text.as_str());
                vec![Event::Welcome(text)]
            },
            Response::RPL_TOPIC => {
                match last_arg(&args) {
                    Some(channel) => {
                        match &suffix {
                            Some(topic) => {
                                self.add_ch_topic(channel.as_str(), topic.as_str());
                            },
                            None => {
                                proof {
                                    reveal_strlit("");
                                    assert(""@ =~= Seq::<char>::empty());
                                }
                                self.add_ch_topic(channel.as_str(), "");
                            },
                        }
                    },
                    None => {},
                }
                vec![Event::Misc(prefix, res.name(), args, suffix)]
            },
            Response::RPL_NAMREPLY => {
                match last_arg(&args) {
                    Some(channel) => match &suffix {
                        Some(names) => {
                            self.add_users(channel.as_str(), names.as_str());
                        },
                        None => {},
                    },
                    None => {},
                }
                Vec::new()
            },
            Response::RPL_ENDOFNAMES => {
                match last_arg(&args) {
                    Some(channel) => self.roster(channel),
                    None => Vec::new(),
                }
            },
            Response::RPL_MOTD => {
                match suffix {
                    Some(text) => {
                        self.add_motd(text);
                    },
                    None => {},
                }
                Vec::new()
            },
            Response::RPL_ENDOFMOTD => vec![Event::Motd(self.get_motd())],
            _ => vec![Event::Misc(prefix, res.name(), args, suffix)],
        }
    }

    /// Takes one message of the server, which came at the time
    /// `time_stamp`, and gives the events that it gives rise to, in the
    /// order in which the listener is to hear of them.
    pub fn handle_message(&mut self, msg: Message, time_stamp: &str) -> (events: Vec<Event>)
        requires
            old(self).wf(),
        ensures
            final(self).wf(),
            final(self)@ == next_state(old(self)@, msg@, time_stamp@),
            emitted(old(self)@, msg@, time_stamp@, event_views(events@)),
    {
        let ghost pre = self@;
        let Message { prefix, command, args, suffix, modes } = msg;
        match command {
            Command::NICK => {
                let mut events = match param(&args, &suffix, 0) {
                    Some(new_name) => {
                        let who = sender(&prefix);
                        let changed = self.change_nick(who.as_str(), new_name.as_str());
                        proof {
                            lemma_known_channels(pre, who@, new_name@, changed.deep_view());
                        }
                        self.refresh(&changed)
                    },
                    None => Vec::new(),
                };
                let ghost rosters = event_views(events@);
                let event = Event::Misc(prefix, command.name(), args, suffix);
                events.push(event);
                proof {
                    assert(event_views(events@).drop_last() =~= rosters);
                }
                events
            },
            Command::PART => {
                let who = sender(&prefix);
                let changed = self.remove_user(who.as_str());
                proof {
                    lemma_known_channels(pre, who@, who@, changed.deep_view());
                }
                let mut events = self.refresh(&changed);
                let ghost rosters = event_views(events@);
                let event = Event::Misc(prefix, command.name(), args, suffix);
                events.push(event);
                proof {
                    assert(event_views(events@).drop_last() =~= rosters);
                }
                events
            },
            Command::QUIT => {
                let who = sender(&prefix);
                let changed = self.remove_user(who.as_str());
                proof {
                    lemma_known_channels(pre, who@, who@, changed.deep_view());
                }
                self.refresh(&changed)
            },
            Command::JOIN => {
                match param(&args, &suffix, 0) {
                    Some(channel) => {
                        let who = sender(&prefix);
                        let count = self.add_users(channel.as_str(), who.as_str());
                        if count > 0 {
                            self.roster(channel)
                        } else {
                            Vec::new()
                        }
                    },
                    None => Vec::new(),
                }
            },
            Command::PRIVMSG => {
                if param(&args, &suffix, 1).is_some() {
                    self.chat(prefix, args, suffix, time_stamp)
                } else {
                    Vec::new()
                }
            },
            Command::NOTICE => {
                match notice_kind(&args, &suffix) {
                    Notice::Auth => {
                        self.note_authenticating();
                        Vec::new()
                    },
                    Notice::Chat => self.chat(prefix, args, suffix, time_stamp),
                    Notice::Other => vec![Event::Misc(prefix, command.name(), args, suffix)],
                }
            },
            Command::TOPIC => {
                match param(&args, &suffix, 0) {
                    Some(channel) => match param(&args, &suffix, 1) {
                        Some(topic) => {
                            self.add_ch_topic(channel.as_str(), topic.as_str());
                        },
                        None => {},
                    },
                    None => {},
                }
                vec![Event::Misc(prefix, command.name(), args, suffix)]
            },
            Command::ChannelMODE => {
                let touched = match param(&args, &suffix, 0) {
                    Some(channel) => {
                        match self.change_user_chan_mode(channel.as_str(), modes) {
                            Some(true) => Some(self.roster(channel)),
                            _ => None,
                        }
                    },
                    None => None,
                };
                match touched {
                    Some(events) => events,
                    None => vec![Event::Misc(prefix, command.name(), args, suffix)],
                }
            },
            Command::Response(res) => self.response(res, prefix, args, suffix),
            _ => vec![Event::Misc(prefix, command.name(), args, suffix)],
        }
    }

    /// Records the chat message of a `PRIVMSG` or `NOTICE` with two
    /// parameters, and tells of it where its channel is known.
    fn chat(
        &mut self,
        prefix: Option<String>,
        args: Vec<String>,
        suffix: Option<String>,
        time_stamp: &str,
    ) -> (events: Vec<Event>)
        requires
            old(self).wf(),
            params_of(args.deep_view(), text_of(suffix)).len() >= 2,
        ensures
            final(self).wf(),
            ({
                let params = params_of(args.deep_view(), text_of(suffix));
                let message = ChannelMessageView {
                    time_stamp: time_stamp@,
                    user_name: author_of(text_of(prefix)),
                    content: params[1],
                };
                &&& final(self)@ == old(self)@.with_message(params[0], message)
                &&& if old(self)@.has_channel(params[0]) {
                    event_views(events@) =~= seq![EventView::NewMessage(params[0], message)]
                } else {
                    event_views(events@).len() == 0
                }
            }),
    {
        let channel = match param(&args, &suffix, 0) {
            Some(text) => text.clone(),
            None => String::new(),
        };
        let content = match param(&args, &suffix, 1) {
            Some(text) => text.clone(),
            None => String::new(),
        };
        match self.new_message(prefix, channel, content, time_stamp) {
            Some(event) => vec![event],
            None => Vec::new(),
        }
    }
}

} // verus!
