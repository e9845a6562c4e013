//! Snapshots: what a session holds at one moment, as plain values.

use vstd::prelude::*;
use crate::channel::{
    message_views, status_views, Channel, ChannelMessage, ChannelStatus, ChannelView, UserStatus,
};
use crate::server::{ConnectionStatus, Server, ServerView};

verus! {

/// A member of a channel at one moment.
#[derive(Clone, Debug, PartialEq, Eq)]
pub struct UserState {
    pub name: String,
    pub status: Vec<UserStatus>,
}

/// A channel at one moment.
#[derive(Clone, Debug, PartialEq, Eq)]
pub struct ChannelState {
    pub name: String,
    pub topic: String,
    pub users: Vec<UserState>,
    pub messages: Vec<ChannelMessage>,
    pub status: Vec<ChannelStatus>,
}

/// A session at one moment.
#[derive(Clone, Debug, PartialEq, Eq)]
pub struct State {
    pub welcome_msg: String,
    pub connection_status: ConnectionStatus,
    pub motd: String,
    pub channels: Vec<ChannelState>,
}

/// The names of a list of members.
pub open spec fn user_names(users: Seq<UserState>) -> Seq<Seq<char>> {
    users.map_values(|user: UserState| user.name@)
}

/// The names of a list of channels.
pub open spec fn channel_names(channels: Seq<ChannelState>) -> Seq<Seq<char>> {
    channels.map_values(|channel: ChannelState| channel.name@)
}

impl ChannelState {
    /// Whether this is the channel `channel`: the same name, topic and
    /// messages, each member once with each of their privileges once, and
    /// each status once.
    pub open spec fn stands_for(&self, channel: ChannelView) -> bool {
        &&& self.name@ == channel.name
        &&& self.topic@ == channel.topic
        &&& user_names(self.users@).no_duplicates()
        &&& user_names(self.users@).to_set() == channel.members()
        &&& forall|i: int|
            0 <= i < self.users@.len() ==> (#[trigger] self.users@[i]).status@.no_duplicates()
                && self.users@[i].status@.to_set() == channel.roles[self.users@[i].name@]
        &&& message_views(self.messages@) == channel.messages
        &&& status_views(self.status@).no_duplicates()
        &&& status_views(self.status@).to_set() == channel.status
    }
}

impl State {
    /// Whether this is the session `session`: the same greeting, phase
    /// and message of the day, and each channel once.
    pub open spec fn stands_for(&self, session: ServerView) -> bool {
        &&& self.welcome_msg@ == session.welcome_msg
        &&& self.connection_status == session.connection_status
        &&& self.motd@ == session.motd
        &&& channel_names(self.channels@).no_duplicates()
        &&& channel_names(self.channels@).to_set() == session.channels.dom()
        &&& forall|i: int|
            0 <= i < self.channels@.len() ==> (#[trigger] self.channels@[i]).stands_for(
                session.channels[self.channels@[i].name@],
            )
    }
}

impl Channel {
    /// The channel as it stands.
    pub fn snapshot(&self) -> (state: ChannelState)
        requires
            self.wf(),
        ensures
            state.stands_for(self@),
    {
        let names = self.users();
        let n = names.len();
        let mut users: Vec<UserState> = Vec::new();
        let mut i: usize = 0;
        while i < n
            invariant
                self.wf(),
                i <= n,
                n == names.len(),
                names.deep_view().to_set() == self@.members(),
                user_names(users@) == names.deep_view().take(i as int),
                forall|k: int|
                    0 <= k < users@.len() ==> (#[trigger] users@[k]).status@.no_duplicates()
                        && users@[k].status@.to_set() == self@.roles[users@[k].name@],
            decreases n - i,
        {
            let ghost before = user_names(users@);
            match self.user_status(names[i].as_str()) {
                Some(status) => {
                    users.push(UserState { name: names[i].clone(), status });
                },
                None => {},
            }
            assert(user_names(users@) =~= before.push(names.deep_view()[i as int]));
            i = i + 1;
        }
        assert(names.deep_view().take(n as int) == names.deep_view());
        let kept = self.messages();
        let m = kept.len();
        let mut messages: Vec<ChannelMessage> = Vec::new();
        let mut j: usize = 0;
        while j < m
            invariant
                j <= m,
                m == kept.len(),
                message_views(messages@) == message_views(kept@).take(j as int),
            decreases m - j,
        {
            let ghost before = message_views(messages@);
            let message = ChannelMessage {
                time_stamp: kept[j].time_stamp.clone(),
                user_name: kept[j].user_name.clone(),
                content: kept[j].content.clone(),
            };
            messages.push(message);
            assert(message_views(messages@) =~= before.push(kept@[j as int]@));
            j = j + 1;
        }
        assert(message_views(kept@).take(m as int) == message_views(kept@));
        ChannelState {
            name: self.name().clone(),
            topic: self.topic().clone(),
            users,
            messages,
            status: self.status(),
        }
    }
}

impl Server {
    /// The session as it stands.
    pub fn get_state(&self) -> (state: State)
        requires
            self.wf(),
        ensures
            state.stands_for(self@),
    {
        proof {
            self.lemma_view_wf();
        }
        let names = self.channel_names();
        let n = names.len();
        let mut channels: Vec<ChannelState> = Vec::new();
        let mut i: usize = 0;
        while i < n
            invariant
                self.wf(),
                self@.wf(),
                i <= n,
                n == names.len(),
                names.deep_view().to_set() == self@.channels.dom(),
                channel_names(channels@) == names.deep_view().take(i as int),
                forall|k: int|
                    0 <= k < channels@.len() ==> (#[trigger] channels@[k]).stands_for(
                        self@.channels[channels@[k].name@],
                    ),
            decreases n - i,
        {
            let ghost before = channel_names(channels@);
            match self.channel(names[i].as_str()) {
                Some(entry) => {
                    channels.push(entry.snapshot());
                },
                None => {},
            }
            assert(channel_names(channels@) =~= before.push(names.deep_view()[i as int]));
            i = i + 1;
        }
        assert(names.deep_view().take(n as int) == names.deep_view());
        State {
            welcome_msg: self.welcome_msg(),
            connection_status: self.connection_status(),
            motd: self.get_motd(),
            channels,
        }
    }
}

} // verus!
