//! The session: connection phase, message of the day and channels, kept in
//! step with the messages of the server.

use vstd::prelude::*;
use crate::channel::{
    lemma_applied_all_keeps_members, Channel, ChannelMessage, ChannelMessageView, ChannelView,
};
use crate::event::{Event, EventView};
use crate::membership::Membership;
use crate::mode::{mode_views, text_of, Mode, ModeView};
use crate::name_map::NameMap;
use crate::text::{
    ends_in_one_line_feed, lemma_terminated, nick_of, short_name, split_names, terminated,
    trim_line_feeds, trimmed, words,
};

verus! {

/// How far the connection has come.
#[derive(Clone, Copy, Debug, PartialEq, Eq, Structural)]
pub enum ConnectionStatus {
    NotConnected,
    Authenticating,
    Connected,
    Idle,
}

/// How far a phase is on the way to a connection that stands.
pub open spec fn phase_rank(status: ConnectionStatus) -> nat {
    match status {
        ConnectionStatus::NotConnected => 0,
        ConnectionStatus::Authenticating => 1,
        ConnectionStatus::Connected => 2,
        ConnectionStatus::Idle => 2,
    }
}

/// What a [`Server`] stands for.
#[verifier::ext_equal]
pub struct ServerView {
    pub welcome_msg: Seq<char>,
    pub connection_status: ConnectionStatus,
    pub motd: Seq<char>,
    pub channels: Map<Seq<char>, ChannelView>,
}

impl ServerView {
    /// The session before any message.
    pub open spec fn initial() -> ServerView {
        ServerView {
            welcome_msg: Seq::empty(),
            connection_status: ConnectionStatus::NotConnected,
            motd: Seq::empty(),
            channels: Map::empty(),
        }
    }

    /// What holds of every session: each channel stands under its own name
    /// and has finitely many members, there are finitely many channels, and
    /// the message of the day is empty or ends in a line feed.
    pub open spec fn wf(self) -> bool {
        &&& self.channels.dom().finite()
        &&& forall|c: Seq<char>| #[trigger]
            self.channels.dom().contains(c) ==> self.channels[c].name == c
                && self.channels[c].members().finite()
        &&& self.motd.len() == 0 || self.motd.last() == '\n'
    }

    /// Whether a channel of that name is known.
    pub open spec fn has_channel(self, channel: Seq<char>) -> bool {
        self.channels.dom().contains(channel)
    }

    /// The members of `channel`; nobody where no such channel is known.
    pub open spec fn members_of(self, channel: Seq<char>) -> Set<Seq<char>> {
        if self.has_channel(channel) {
            self.channels[channel].members()
        } else {
            Set::empty()
        }
    }

    /// Whether `name` is a member of the channel `channel`.
    pub open spec fn is_member(self, name: Seq<char>, channel: Seq<char>) -> bool {
        self.channels.dom().contains(channel) && self.channels[channel].has_member(name)
    }

    /// The channels that `name` is a member of.
    pub open spec fn channels_of(self, name: Seq<char>) -> Set<Seq<char>> {
        Set::new(|channel: Seq<char>| self.is_member(name, channel))
    }

    /// The session in which the channel `channel` is known: a channel that
    /// is new comes empty, one that is there stays as it is.
    pub open spec fn with_channel(self, channel: Seq<char>) -> ServerView {
        if self.has_channel(channel) {
            self
        } else {
            ServerView {
                channels: self.channels.insert(channel, ChannelView::empty(channel)),
                ..self
            }
        }
    }

    /// The session after `names` joined `channel`.
    pub open spec fn joined(self, channel: Seq<char>, names: Set<Seq<char>>) -> ServerView {
        let known = self.with_channel(channel);
        ServerView {
            channels: known.channels.insert(channel, known.channels[channel].joined(names)),
            ..self
        }
    }

    /// The session after the topic of `channel` was set.
    pub open spec fn with_topic(self, channel: Seq<char>, topic: Seq<char>) -> ServerView {
        let known = self.with_channel(channel);
        ServerView {
            channels: known.channels.insert(channel, known.channels[channel].with_topic(topic)),
            ..self
        }
    }

    /// The session after `name` left every channel.
    pub open spec fn without_member(self, name: Seq<char>) -> ServerView {
        ServerView {
            channels: self.channels.map_values(
                |channel: ChannelView| channel.without_member(name),
            ),
            ..self
        }
    }

    /// The session after `old` took the name `new` in every channel that
    /// they are a member of.
    pub open spec fn renamed(self, old: Seq<char>, new: Seq<char>) -> ServerView {
        ServerView {
            channels: self.channels.map_values(|channel: ChannelView| channel.renamed(old, new)),
            ..self
        }
    }

    /// The session after one more line of the message of the day: the
    /// line comes without the line feeds at its end and with one line feed
    /// behind it. A line of nothing comes as a blank line.
    pub open spec fn with_motd(self, text: Seq<char>) -> ServerView {
        ServerView { motd: self.motd + terminated(text), ..self }
    }

    /// The session after the server's greeting.
    pub open spec fn welcomed(self, text: Seq<char>) -> ServerView {
        ServerView {
            welcome_msg: text,
            connection_status: ConnectionStatus::Connected,
            ..self
        }
    }

    /// The session once the server has begun to check who connects. A
    /// connection that has come further stays where it is.
    pub open spec fn authenticating(self) -> ServerView {
        if self.connection_status == ConnectionStatus::NotConnected {
            ServerView { connection_status: ConnectionStatus::Authenticating, ..self }
        } else {
            self
        }
    }

    /// The session after a message to `channel`; unchanged where no such
    /// channel is known.
    pub open spec fn with_message(
        self,
        channel: Seq<char>,
        message: ChannelMessageView,
    ) -> ServerView {
        if self.has_channel(channel) {
            ServerView {
                channels: self.channels.insert(
                    channel,
                    self.channels[channel].with_message(message),
                ),
                ..self
            }
        } else {
            self
        }
    }

    /// The session after a batch of mode changes for `channel`; unchanged
    /// where no such channel is known.
    pub open spec fn with_modes(self, channel: Seq<char>, modes: Seq<ModeView>) -> ServerView {
        if self.has_channel(channel) {
            ServerView {
                channels: self.channels.insert(
                    channel,
                    self.channels[channel].applied_all(modes),
                ),
                ..self
            }
        } else {
            self
        }
    }
}

impl ServerView {
    /// A change of name reaches the channels that the user is in and no
    /// other: there the new name holds what the old one held, and every
    /// other channel stays as it is, so that the new name is added to none.
    pub proof fn lemma_renamed_channel(self, old: Seq<char>, new: Seq<char>, channel: Seq<char>)
        requires
            self.has_channel(channel),
        ensures
            self.renamed(old, new).has_channel(channel),
            self.is_member(old, channel) ==> self.renamed(old, new).is_member(new, channel)
                && self.renamed(old, new).channels[channel].roles[new]
                == self.channels[channel].roles[old],
            self.is_member(old, channel) && old != new ==> !self.renamed(old, new).is_member(
                old,
                channel,
            ),
            !self.is_member(old, channel) ==> self.renamed(old, new).channels[channel]
                == self.channels[channel],
    {
        if self.is_member(old, channel) {
            self.channels[channel].lemma_renamed(old, new);
        }
    }

    /// After a change of name the new name is in the channels of both
    /// names, the old name is in none, and everybody else is where they
    /// were.
    pub proof fn lemma_renamed_channels_of(self, old: Seq<char>, new: Seq<char>)
        requires
            old != new,
        ensures
            self.renamed(old, new).channels_of(new) == self.channels_of(new).union(
                self.channels_of(old),
            ),
            self.renamed(old, new).channels_of(old) == Set::<Seq<char>>::empty(),
            forall|other: Seq<char>|
                other != old && other != new ==> #[trigger] self.renamed(old, new).channels_of(
                    other,
                ) == self.channels_of(other),
    {
    }

    /// After a user left, they are in no channel, and everybody else is
    /// where they were.
    pub proof fn lemma_without_member_channels_of(self, name: Seq<char>)
        ensures
            self.without_member(name).channels_of(name) == Set::<Seq<char>>::empty(),
            forall|other: Seq<char>|
                other != name ==> #[trigger] self.without_member(name).channels_of(other)
                    == self.channels_of(other),
    {
    }

    /// After names joined a channel, they are in that channel besides
    /// those that they were in, and everybody else is where they were.
    pub proof fn lemma_joined_channels_of(self, channel: Seq<char>, names: Set<Seq<char>>)
        ensures
            forall|name: Seq<char>|
                names.contains(name) ==> #[trigger] self.joined(channel, names).channels_of(name)
                    == self.channels_of(name).insert(channel),
            forall|name: Seq<char>|
                !names.contains(name) ==> #[trigger] self.joined(channel, names).channels_of(
                    name,
                ) == self.channels_of(name),
    {
    }

    /// However often and in whatever lists names join a channel, each is
    /// a member of it once: the members are those that were there and those
    /// that joined, and two joins are one join of all the names.
    pub proof fn lemma_joined_again(
        self,
        channel: Seq<char>,
        first: Set<Seq<char>>,
        second: Set<Seq<char>>,
    )
        ensures
            self.joined(channel, first).members_of(channel) == self.members_of(channel).union(
                first,
            ),
            self.joined(channel, first).joined(channel, second) == self.joined(
                channel,
                first.union(second),
            ),
    {
        let known = self.with_channel(channel);
        known.channels[channel].lemma_joined_members(first);
        known.channels[channel].lemma_joined_again(first, second);
        assert(self.joined(channel, first).members_of(channel) =~= self.members_of(channel).union(
            first,
        ));
        assert(self.joined(channel, first).joined(channel, second).channels =~= self.joined(
            channel,
            first.union(second),
        ).channels);
    }

    /// After every line that is appended, the message of the day ends in
    /// a line feed: in exactly one, unless a blank line was appended to a
    /// message that is not empty. What was there before stays in front.
    pub proof fn lemma_motd_whole_lines(self, text: Seq<char>)
        ensures
            self.with_motd(text).motd.len() > 0,
            self.with_motd(text).motd.last() == '\n',
            self.motd.is_prefix_of(self.with_motd(text).motd),
            trimmed(text).len() > 0 || self.motd.len() == 0 ==> ends_in_one_line_feed(
                self.with_motd(text).motd,
            ),
            text.len() == 0 || text.last() != '\n' ==> self.with_motd(text).motd == self.motd
                + text.push('\n'),
    {
        lemma_terminated(self.motd, text);
    }
}

/// The name under which a message without sender is recorded.
pub open spec fn unknown_author() -> Seq<char> {
    "Unknown"@
}

/// The author of a message with that sender prefix: the nickname of the
/// prefix, and a fixed name where there is none.
pub open spec fn author_of(prefix: Option<Seq<char>>) -> Seq<char> {
    match prefix {
        Some(p) => nick_of(p),
        None => unknown_author(),
    }
}

/// What each channel of a table stands for.
spec fn channel_views(channels: Map<Seq<char>, Channel>) -> Map<Seq<char>, ChannelView> {
    channels.map_values(|channel: Channel| channel@)
}

/// A session.
#[derive(Clone, Debug)]
pub struct Server {
    welcome_msg: String,
    connection_status: ConnectionStatus,
    motd: String,
    channels: NameMap<Channel>,
    index: Membership,
}

impl View for Server {
    type V = ServerView;

    closed spec fn view(&self) -> ServerView {
        ServerView {
            welcome_msg: self.welcome_msg@,
            connection_status: self.connection_status,
            motd: self.motd@,
            channels: channel_views(self.channels@),
        }
    }
}

impl Server {
    /// Each channel is held once, under its own name.
    spec fn table_wf(&self) -> bool {
        &&& self.channels.wf()
        &&& forall|i: int|
            0 <= i < self.channels.keys().len() ==> (#[trigger] self.channels.vals()[i]).wf()
                && self.channels.vals()[i]@.name == self.channels.keys()[i]
    }

    /// The index records a user in a channel exactly where they are a
    /// member of it.
    spec fn index_wf(&self) -> bool {
        &&& self.index.wf()
        &&& forall|name: Seq<char>, channel: Seq<char>|
            self.index.channels_of(name).contains(channel) <==> #[trigger] self@.is_member(
                name,
                channel,
            )
    }

    /// The invariant of a session.
    pub closed spec fn wf(&self) -> bool {
        &&& self.table_wf()
        &&& self.index_wf()
        &&& self.motd@.len() == 0 || self.motd@.last() == '\n'
    }

    /// The channels in which the membership index records `name`.
    pub closed spec fn recorded_channels(&self, name: Seq<char>) -> Set<Seq<char>> {
        self.index.channels_of(name)
    }

    /// The membership index agrees with the rosters: it records a user in
    /// exactly the channels whose members include them.
    pub proof fn lemma_index_matches_rosters(&self, name: Seq<char>)
        requires
            self.wf(),
        ensures
            self.recorded_channels(name) == self@.channels_of(name),
    {
    }

    /// Where the index is as it was and everybody is a member of the
    /// channels that they were a member of, the index still agrees with
    /// the rosters.
    proof fn lemma_index_kept(&self, before: &Server)
        requires
            before.index_wf(),
            self.index == before.index,
            forall|name: Seq<char>, channel: Seq<char>| #[trigger]
                self@.is_member(name, channel) == before@.is_member(name, channel),
        ensures
            self.index_wf(),
    {
        assert forall|name: Seq<char>, channel: Seq<char>|
            self.index.channels_of(name).contains(channel) <==> #[trigger] self@.is_member(
                name,
                channel,
            ) by {
            assert(before@.is_member(name, channel) == self@.is_member(name, channel));
        }
    }

    /// What the table says of the view.
    proof fn lemma_table(&self)
        requires
            self.table_wf(),
        ensures
            self@.channels.dom() == self.channels@.dom(),
            self@.channels.dom() == self.channels.keys().to_set(),
            forall|c: Seq<char>| #[trigger]
                self.channels@.dom().contains(c) ==> self@.channels[c] == self.channels@[c]@
                    && self.channels@[c].wf() && self.channels@[c]@.name == c,
            forall|i: int|
                0 <= i < self.channels.keys().len() ==> self@.channels.dom().contains(
                    #[trigger] self.channels.keys()[i],
                ) && self@.channels[self.channels.keys()[i]] == self.channels.vals()[i]@,
    {
        self.channels.lemma_view();
    }

    /// The view of a session obeys what holds of every session.
    pub proof fn lemma_view_wf(&self)
        requires
            self.wf(),
        ensures
            self@.wf(),
    {
        self.lemma_table();
        self.channels.lemma_view();
        assert forall|c: Seq<char>| #[trigger] self@.channels.dom().contains(c) implies self@.channels[c].name
            == c && self@.channels[c].members().finite() by {
            self.channels@[c].lemma_members_finite();
        }
    }

    /// A session before any message.
    pub fn new() -> (server: Server)
        ensures
            server.wf(),
            server@ == ServerView::initial(),
    {
        let server = Server {
            welcome_msg: String::new(),
            connection_status: ConnectionStatus::NotConnected,
            motd: String::new(),
            channels: NameMap::new(),
            index: Membership::new(),
        };
        server
    }

    /// The message of the day, as far as it has come.
    pub fn get_motd(&self) -> (motd: String)
        ensures
            motd@ == self@.motd,
    {
        self.motd.clone()
    }

    /// The server's greeting.
    pub fn welcome_msg(&self) -> (text: String)
        ensures
            text@ == self@.welcome_msg,
    {
        self.welcome_msg.clone()
    }

    /// How far the connection has come.
    pub fn connection_status(&self) -> (status: ConnectionStatus)
        ensures
            status == self@.connection_status,
    {
        self.connection_status
    }

    /// Appends a line to the message of the day. The line is taken
    /// without the line feeds at its end and gets one line feed behind it,
    /// so that a line of nothing comes as a blank line. The message then
    /// ends in exactly one line feed, unless a blank line was appended to a
    /// message that was not empty.
    pub fn add_motd(&mut self, text: String)
        requires
            old(self).wf(),
        ensures
            final(self).wf(),
            final(self)@ == old(self)@.with_motd(text@),
            trimmed(text@).len() > 0 || old(self)@.motd.len() == 0 ==> ends_in_one_line_feed(
                final(self)@.motd,
            ),
    {
        let body = trim_line_feeds(text.as_str());
        proof {
            reveal_strlit("\n");
            lemma_terminated(self.motd@, text@);
            assert(self.motd@ + body@ + "\n"@ =~= self.motd@ + terminated(text@));
        }
        self.motd.append(body.as_str());
        self.motd.append("\n");
        proof {
            self.lemma_index_kept(old(self));
        }
    }

    /// Takes the server's greeting: the connection stands.
    pub fn add_welcome(&mut self, text: &str)
        requires
            old(self).wf(),
        ensures
            final(self).wf(),
            final(self)@ == old(self)@.welcomed(text@),
    {
        self.welcome_msg = text.to_owned();
        self.connection_status = ConnectionStatus::Connected;
        proof {
            self.lemma_index_kept(old(self));
        }
    }

    /// Notes that the server checks who connects, unless the connection
    /// has come further already.
    pub fn note_authenticating(&mut self)
        requires
            old(self).wf(),
        ensures
            final(self).wf(),
            final(self)@ == old(self)@.authenticating(),
    {
        if self.connection_status == ConnectionStatus::NotConnected {
            self.connection_status = ConnectionStatus::Authenticating;
        }
        proof {
            self.lemma_index_kept(old(self));
        }
    }

    /// Makes sure that the channel `channel` is known: a channel that is
    /// new comes empty, one that is there stays as it is.
    pub fn ensure_channel(&mut self, channel: &str)
        requires
            old(self).wf(),
        ensures
            final(self).wf(),
            final(self)@ == old(self)@.with_channel(channel@),
    {
        self.channel_place(channel);
    }

    /// The channel `channel`, if it is known.
    pub fn channel(&self, channel: &str) -> (found: Option<&Channel>)
        requires
            self.wf(),
        ensures
            found is Some == self@.has_channel(channel@),
            found matches Some(entry) ==> entry.wf() && entry@ == self@.channels[channel@],
    {
        proof {
            self.lemma_table();
        }
        let key = channel.to_owned();
        match self.channels.position(&key) {
            Some(at) => {
                let entry = self.channels.value_at(at);
                Some(entry)
            },
            None => None,
        }
    }

    /// The names of the channels that are known, each once.
    pub fn channel_names(&self) -> (names: Vec<String>)
        requires
            self.wf(),
        ensures
            names.deep_view().no_duplicates(),
            names.deep_view().to_set() == self@.channels.dom(),
    {
        let n = self.channels.len();
        let mut names: Vec<String> = Vec::new();
        let mut i: usize = 0;
        while i < n
            invariant
                self.wf(),
                i <= n,
                n == self.channels.keys().len(),
                names.deep_view() == self.channels.keys().take(i as int),
            decreases n - i,
        {
            let ghost before = names.deep_view();
            names.push(self.channels.key_at(i).clone());
            assert(names.deep_view() == before.push(self.channels.keys()[i as int]));
            i = i + 1;
        }
        proof {
            assert(self.channels.keys().take(n as int) == self.channels.keys());
            self.lemma_table();
        }
        names
    }

    /// The channels that `name` is a member of, each once, as the
    /// membership index has them.
    pub fn channels_of(&self, name: &str) -> (channels: Vec<String>)
        requires
            self.wf(),
        ensures
            channels.deep_view().no_duplicates(),
            channels.deep_view().to_set() == self@.channels_of(name@),
    {
        proof {
            self.lemma_index_matches_rosters(name@);
        }
        self.index.get(name)
    }

    /// Makes sure that the channel `channel` is known, and gives its place
    /// in the table.
    fn channel_place(&mut self, channel: &str) -> (at: usize)
        requires
            old(self).wf(),
        ensures
            final(self).wf(),
            final(self)@ == old(self)@.with_channel(channel@),
            at < final(self).channels.keys().len(),
            final(self).channels.keys()[at as int] == channel@,
    {
        let key = channel.to_owned();
        proof {
            self.lemma_table();
        }
        match self.channels.position(&key) {
            Some(at) => at,
            None => {
                let at = self.channels.len();
                self.channels.push(key, Channel::with_name(channel));
                proof {
                    self.lemma_index_kept(old(self));
                }
                at
            },
        }
    }

    /// Sets the topic of `channel`, which becomes known if it was not.
    pub fn add_ch_topic(&mut self, channel: &str, topic: &str)
        requires
            old(self).wf(),
        ensures
            final(self).wf(),
            final(self)@ == old(self)@.with_topic(channel@, topic@),
    {
        let at = self.channel_place(channel);
        let ghost known = *self;
        proof {
            self.lemma_table();
        }
        let entry = self.channels.value_mut(at);
        entry.set_topic(topic);
        proof {
            self.lemma_index_kept(&known);
        }
    }

    /// Lets the names of a name list join `channel`, which becomes known if
    /// it was not; gives the number of those that were no members before.
    pub fn add_users(&mut self, channel: &str, names: &str) -> (count: usize)
        requires
            old(self).wf(),
        ensures
            final(self).wf(),
            final(self)@ == old(self)@.joined(channel@, words(names@).to_set()),
            count == words(names@).to_set().difference(old(self)@.members_of(channel@)).len(),
    {
        let at = self.channel_place(channel);
        let ghost known = *self;
        let ghost joining = words(names@).to_set();
        proof {
            self.lemma_table();
        }
        let entry = self.channels.value_mut(at);
        let count = entry.add_users(names);
        let list = split_names(names);
        let n = list.len();
        let mut i: usize = 0;
        while i < n
            invariant
                self.table_wf(),
                self.index.wf(),
                self@ == old(self)@.joined(channel@, joining),
                i <= n,
                n == list.len(),
                list.deep_view() == words(names@),
                forall|name: Seq<char>| #[trigger]
                    self.index.channels_of(name) == if list.deep_view().take(i as int).to_set().contains(
                        name,
                    ) {
                        known.index.channels_of(name).insert(channel@)
                    } else {
                        known.index.channels_of(name)
                    },
            decreases n - i,
        {
            let ghost all = list.deep_view();
            self.index.add(list[i].as_str(), channel);
            proof {
                assert(all.take(i + 1) == all.take(i as int).push(all[i as int]));
                all.take(i as int).lemma_push_to_set_commute(all[i as int]);
            }
            i = i + 1;
        }
        proof {
            assert(list.deep_view().take(n as int) == list.deep_view());
            assert forall|name: Seq<char>, c: Seq<char>|
                self.index.channels_of(name).contains(c) <==> #[trigger] self@.is_member(
                    name,
                    c,
                ) by {
                assert(known.index.channels_of(name).contains(c) <==> known@.is_member(name, c));
            }
        }
        count
    }

    /// Lets `username` leave every channel that they are a member of, and
    /// gives the names of those channels, each once.
    pub fn remove_user(&mut self, username: &str) -> (changed: Vec<String>)
        requires
            old(self).wf(),
        ensures
            final(self).wf(),
            final(self)@ == old(self)@.without_member(username@),
            changed.deep_view().no_duplicates(),
            changed.deep_view().to_set() == old(self)@.channels_of(username@),
    {
        proof {
            self.lemma_index_matches_rosters(username@);
            self.lemma_table();
        }
        let changed = self.index.take(username);
        let n = changed.len();
        let mut i: usize = 0;
        while i < n
            invariant
                self.table_wf(),
                self.index.wf(),
                self.welcome_msg == old(self).welcome_msg,
                self.connection_status == old(self).connection_status,
                self.motd == old(self).motd,
                i <= n,
                n == changed.len(),
                changed.deep_view().no_duplicates(),
                self@.channels.dom() == old(self)@.channels.dom(),
                forall|c: Seq<char>| #[trigger]
                    self@.channels.dom().contains(c) ==> self@.channels[c] == if changed.deep_view().take(
                        i as int,
                    ).to_set().contains(c) {
                        old(self)@.channels[c].without_member(username@)
                    } else {
                        old(self)@.channels[c]
                    },
                forall|name: Seq<char>| #[trigger]
                    self.index.channels_of(name) == if name == username@ {
                        Set::<Seq<char>>::empty()
                    } else {
                        old(self).index.channels_of(name)
                    },
            decreases n - i,
        {
            let ghost all = changed.deep_view();
            proof {
                self.lemma_table();
                assert(all.take(i + 1) == all.take(i as int).push(all[i as int]));
                all.take(i as int).lemma_push_to_set_commute(all[i as int]);
            }
            match self.channels.position(&changed[i]) {
                Some(at) => {
                    let entry = self.channels.value_mut(at);
                    entry.remove_user(username);
                },
                None => {},
            }
            i = i + 1;
        }
        proof {
            assert(changed.deep_view().take(n as int) == changed.deep_view());
            assert forall|c: Seq<char>| #[trigger] self@.channels.dom().contains(c) implies self@.channels[c]
                == old(self)@.channels[c].without_member(username@) by {
            }
            assert forall|name: Seq<char>, c: Seq<char>|
                self.index.channels_of(name).contains(c) <==> #[trigger] self@.is_member(
                    name,
                    c,
                ) by {
                assert(old(self).index.channels_of(name).contains(c) <==> old(self)@.is_member(
                    name,
                    c,
                ));
            }
        }
        changed
    }

    /// Gives the user `old_name` the name `new_name` in every channel that
    /// they are a member of, with the privileges held there, and gives the
    /// names of those channels, each once.
    pub fn change_nick(&mut self, old_name: &str, new_name: &str) -> (changed: Vec<String>)
        requires
            old(self).wf(),
        ensures
            final(self).wf(),
            final(self)@ == old(self)@.renamed(old_name@, new_name@),
            changed.deep_view().no_duplicates(),
            changed.deep_view().to_set() == old(self)@.channels_of(old_name@),
    {
        proof {
            self.lemma_index_matches_rosters(old_name@);
            self.lemma_table();
        }
        if old_name.to_owned() == new_name.to_owned() {
            proof {
                assert forall|c: Seq<char>| #[trigger] self@.channels.dom().contains(c) implies self@.channels[c]
                    == self@.channels[c].renamed(old_name@, new_name@) by {
                }
            }
            return self.index.get(old_name);
        }
        let changed = self.index.take(old_name);
        let ghost taken = self.index;
        let n = changed.len();
        let mut i: usize = 0;
        while i < n
            invariant
                self.table_wf(),
                self.index == taken,
                self.welcome_msg == old(self).welcome_msg,
                self.connection_status == old(self).connection_status,
                self.motd == old(self).motd,
                i <= n,
                n == changed.len(),
                changed.deep_view().no_duplicates(),
                self@.channels.dom() == old(self)@.channels.dom(),
                forall|c: Seq<char>| #[trigger]
                    self@.channels.dom().contains(c) ==> self@.channels[c] == if changed.deep_view().take(
                        i as int,
                    ).to_set().contains(c) {
                        old(self)@.channels[c].renamed(old_name@, new_name@)
                    } else {
                        old(self)@.channels[c]
                    },
            decreases n - i,
        {
            let ghost all = changed.deep_view();
            proof {
                self.lemma_table();
                assert(all.take(i + 1) == all.take(i as int).push(all[i as int]));
                all.take(i as int).lemma_push_to_set_commute(all[i as int]);
            }
            match self.channels.position(&changed[i]) {
                Some(at) => {
                    let entry = self.channels.value_mut(at);
                    entry.rename_user(old_name, new_name);
                },
                None => {},
            }
            i = i + 1;
        }
        self.index.add_all(new_name, &changed);
        proof {
            assert(changed.deep_view().take(n as int) == changed.deep_view());
            assert forall|name: Seq<char>, c: Seq<char>|
                self.index.channels_of(name).contains(c) <==> #[trigger] self@.is_member(
                    name,
                    c,
                ) by {
                assert(old(self).index.channels_of(name).contains(c) <==> old(self)@.is_member(
                    name,
                    c,
                ));
            }
        }
        changed
    }

    /// Whether a channel of that name is known.
    pub fn has_channel(&self, channel: &str) -> (known: bool)
        requires
            self.wf(),
        ensures
            known == self@.has_channel(channel@),
    {
        proof {
            self.lemma_table();
        }
        let key = channel.to_owned();
        self.channels.position(&key).is_some()
    }

    /// The members of `channel`, each once; `None` where no such channel is
    /// known.
    pub fn users_of(&self, channel: &str) -> (names: Option<Vec<String>>)
        requires
            self.wf(),
        ensures
            names is Some == self@.has_channel(channel@),
            names matches Some(list) ==> list.deep_view().no_duplicates()
                && list.deep_view().to_set() == self@.channels[channel@].members(),
    {
        proof {
            self.lemma_table();
        }
        let key = channel.to_owned();
        match self.channels.position(&key) {
            Some(at) => {
                let entry = self.channels.value_at(at);
                Some(entry.users())
            },
            None => None,
        }
    }

    /// Records a message to `channel` at the time `time_stamp`, and gives
    /// the event that tells of it. Where no such channel is known nothing
    /// is recorded and nothing is told.
    pub fn new_message(
        &mut self,
        prefix: Option<String>,
        channel: String,
        text: String,
        time_stamp: &str,
    ) -> (event: Option<Event>)
        requires
            old(self).wf(),
        ensures
            final(self).wf(),
            final(self)@ == old(self)@.with_message(
                channel@,
                ChannelMessageView {
                    time_stamp: time_stamp@,
                    user_name: author_of(text_of(prefix)),
                    content: text@,
                },
            ),
            match event {
                Some(e) => old(self)@.has_channel(channel@) && e@ == EventView::NewMessage(
                    channel@,
                    ChannelMessageView {
                        time_stamp: time_stamp@,
                        user_name: author_of(text_of(prefix)),
                        content: text@,
                    },
                ),
                None => !old(self)@.has_channel(channel@),
            },
    {
        proof {
            self.lemma_table();
        }
        let user_name = match prefix {
            Some(p) => short_name(p.as_str()),
            None => "Unknown".to_owned(),
        };
        match self.channels.position(&channel) {
            Some(at) => {
                let told = ChannelMessage {
                    time_stamp: time_stamp.to_owned(),
                    user_name: user_name.clone(),
                    content: text.clone(),
                };
                let kept = ChannelMessage {
                    time_stamp: time_stamp.to_owned(),
                    user_name,
                    content: text,
                };
                let entry = self.channels.value_mut(at);
                entry.add_message(kept);
                proof {
                    self.lemma_index_kept(old(self));
                }
                Some(Event::NewMessage(channel, told))
            },
            None => None,
        }
    }

    /// Applies a batch of mode changes to `channel`. Says whether one of
    /// them spoke of the privileges of a member of the channel; `None`,
    /// with nothing changed, where no such channel is known.
    pub fn change_user_chan_mode(&mut self, channel: &str, change: Vec<Mode>) -> (touched: Option<
        bool,
    >)
        requires
            old(self).wf(),
        ensures
            final(self).wf(),
            final(self)@ == old(self)@.with_modes(channel@, mode_views(change@)),
            match touched {
                Some(t) => old(self)@.has_channel(channel@) && t == old(
                    self,
                )@.channels[channel@].roles_touched(mode_views(change@)),
                None => !old(self)@.has_channel(channel@),
            },
    {
        proof {
            self.lemma_table();
        }
        let key = channel.to_owned();
        match self.channels.position(&key) {
            Some(at) => {
                let ghost modes = mode_views(change@);
                let entry = self.channels.value_mut(at);
                let touched = entry.apply_modes(change);
                proof {
                    let before = old(self)@.channels[channel@];
                    lemma_applied_all_keeps_members(before, modes);
                    self.lemma_index_kept(old(self));
                }
                Some(touched)
            },
            None => None,
        }
    }
}

} // verus!
