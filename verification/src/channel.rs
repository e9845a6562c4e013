//! One channel: its topic, its members with their privileges, its status
//! and the messages sent to it.

use vstd::prelude::*;
use crate::mode::{mode_views, privilege_of, status_of, text_of, ModeView, StatusView};
pub use crate::mode::{ChannelMode, ChannelStatus, Mode, UserStatus};
use crate::name_map::NameMap;
use crate::name_set::{lemma_push_unique, NameSet};
use crate::text::{split_names, words};

verus! {

/// A message sent to a channel.
#[derive(Clone, Debug, PartialEq, Eq)]
pub struct ChannelMessage {
    pub time_stamp: String,
    pub user_name: String,
    pub content: String,
}

/// What a [`ChannelMessage`] stands for.
pub struct ChannelMessageView {
    pub time_stamp: Seq<char>,
    pub user_name: Seq<char>,
    pub content: Seq<char>,
}

impl View for ChannelMessage {
    type V = ChannelMessageView;

    open spec fn view(&self) -> ChannelMessageView {
        ChannelMessageView {
            time_stamp: self.time_stamp@,
            user_name: self.user_name@,
            content: self.content@,
        }
    }
}

/// What a [`ChannelUser`] stands for: a name and the privileges held.
#[verifier::ext_equal]
pub struct UserView {
    pub name: Seq<char>,
    pub status: Set<UserStatus>,
}

/// What a [`Channel`] stands for.
///
/// The members are the names that `roles` maps; a member without privileges
/// maps to the empty set.
#[verifier::ext_equal]
pub struct ChannelView {
    pub name: Seq<char>,
    pub topic: Seq<char>,
    pub roles: Map<Seq<char>, Set<UserStatus>>,
    pub status: Set<StatusView>,
    pub messages: Seq<ChannelMessageView>,
}

impl ChannelView {
    /// A channel without topic, members, status or messages.
    pub open spec fn empty(name: Seq<char>) -> ChannelView {
        ChannelView {
            name,
            topic: Seq::empty(),
            roles: Map::empty(),
            status: Set::empty(),
            messages: Seq::empty(),
        }
    }

    /// The names of the members.
    pub open spec fn members(self) -> Set<Seq<char>> {
        self.roles.dom()
    }

    /// Whether `name` is a member.
    pub open spec fn has_member(self, name: Seq<char>) -> bool {
        self.roles.dom().contains(name)
    }

    /// The channel with another topic.
    pub open spec fn with_topic(self, topic: Seq<char>) -> ChannelView {
        ChannelView { topic, ..self }
    }

    /// The channel with one more message behind the others.
    pub open spec fn with_message(self, message: ChannelMessageView) -> ChannelView {
        ChannelView { messages: self.messages.push(message), ..self }
    }

    /// The channel after `name` joined: a new member comes without
    /// privileges, one who is there already stays as they are.
    pub open spec fn with_member(self, name: Seq<char>) -> ChannelView {
        if self.has_member(name) {
            self
        } else {
            ChannelView { roles: self.roles.insert(name, Set::empty()), ..self }
        }
    }

    /// The channel after all of `names` joined.
    pub open spec fn joined(self, names: Set<Seq<char>>) -> ChannelView {
        ChannelView {
            roles: Map::new(
                |n: Seq<char>| self.has_member(n) || names.contains(n),
                |n: Seq<char>|
                    if self.has_member(n) {
                        self.roles[n]
                    } else {
                        Set::empty()
                    },
            ),
            ..self
        }
    }

    /// The channel after `name` left: neither a member nor a holder of
    /// privileges any more.
    pub open spec fn without_member(self, name: Seq<char>) -> ChannelView {
        ChannelView { roles: self.roles.remove(name), ..self }
    }

    /// The channel after the member `old` took the name `new`, which carries
    /// the privileges of `old`. Nothing changes where `old` is no member.
    pub open spec fn renamed(self, old: Seq<char>, new: Seq<char>) -> ChannelView {
        if self.has_member(old) {
            ChannelView { roles: self.roles.remove(old).insert(new, self.roles[old]), ..self }
        } else {
            self
        }
    }

    /// The channel after `kind` was granted. A privilege goes to the member
    /// that the argument names, a status is added to those of the channel,
    /// and what names neither changes nothing.
    pub open spec fn granted(self, kind: ChannelMode, arg: Option<Seq<char>>) -> ChannelView {
        match privilege_of(kind) {
            Some(tag) => match arg {
                Some(name) => if self.has_member(name) {
                    ChannelView {
                        roles: self.roles.insert(name, self.roles[name].insert(tag)),
                        ..self
                    }
                } else {
                    self
                },
                None => self,
            },
            None => match status_of(kind, arg) {
                Some(status) => ChannelView { status: self.status.insert(status), ..self },
                None => self,
            },
        }
    }

    /// The channel after `kind` was revoked.
    pub open spec fn revoked(self, kind: ChannelMode, arg: Option<Seq<char>>) -> ChannelView {
        match privilege_of(kind) {
            Some(tag) => match arg {
                Some(name) => if self.has_member(name) {
                    ChannelView {
                        roles: self.roles.insert(name, self.roles[name].remove(tag)),
                        ..self
                    }
                } else {
                    self
                },
                None => self,
            },
            None => match status_of(kind, arg) {
                Some(status) => ChannelView { status: self.status.remove(status), ..self },
                None => self,
            },
        }
    }

    /// The channel after one change of mode.
    pub open spec fn applied(self, mode: ModeView) -> ChannelView {
        match mode {
            ModeView::Plus(kind, arg) => self.granted(kind, arg),
            ModeView::Minus(kind, arg) => self.revoked(kind, arg),
        }
    }

    /// The channel after a batch of changes, applied one after the other.
    pub open spec fn applied_all(self, modes: Seq<ModeView>) -> ChannelView
        decreases modes.len(),
    {
        if modes.len() == 0 {
            self
        } else {
            self.applied_all(modes.drop_last()).applied(modes.last())
        }
    }

    /// Whether a mode with its argument speaks of the privileges of a
    /// member: the mode is a privilege, and the argument names a member of
    /// the channel. Whether the member holds the privilege does not count.
    pub open spec fn names_member(self, kind: ChannelMode, arg: Option<Seq<char>>) -> bool {
        privilege_of(kind) is Some && arg is Some && self.has_member(arg->0)
    }

    /// Whether a change of mode speaks of the privileges of a member.
    pub open spec fn touches_roles(self, mode: ModeView) -> bool {
        match mode {
            ModeView::Plus(kind, arg) => self.names_member(kind, arg),
            ModeView::Minus(kind, arg) => self.names_member(kind, arg),
        }
    }

    /// Whether one of the changes of a batch speaks of the privileges of a
    /// member of the channel.
    pub open spec fn roles_touched(self, modes: Seq<ModeView>) -> bool {
        exists|i: int| 0 <= i < modes.len() && self.touches_roles(#[trigger] modes[i])
    }

    /// A batch with one more change touches the privileges where the batch
    /// did or the change does.
    pub proof fn lemma_roles_touched_push(self, modes: Seq<ModeView>, mode: ModeView)
        ensures
            self.roles_touched(modes.push(mode)) == (self.roles_touched(modes)
                || self.touches_roles(mode)),
    {
        let more = modes.push(mode);
        if self.roles_touched(modes) {
            let i = choose|i: int| 0 <= i < modes.len() && self.touches_roles(#[trigger] modes[i]);
            assert(more[i] == modes[i]);
        }
        if self.touches_roles(mode) {
            assert(more[modes.len() as int] == mode);
        }
        if self.roles_touched(more) {
            let i = choose|i: int| 0 <= i < more.len() && self.touches_roles(#[trigger] more[i]);
            if i < modes.len() {
                assert(modes[i] == more[i]);
            }
        }
    }
}

impl ChannelView {
    /// Joining adds the names to the members and nobody else. Who was a
    /// member keeps their privileges, who is new has none.
    pub proof fn lemma_joined_members(self, names: Set<Seq<char>>)
        ensures
            self.joined(names).members() == self.members().union(names),
            forall|n: Seq<char>|
                self.has_member(n) ==> #[trigger] self.joined(names).roles[n] == self.roles[n],
            forall|n: Seq<char>|
                names.contains(n) && !self.has_member(n) ==> #[trigger] self.joined(
                    names,
                ).roles[n] == Set::<UserStatus>::empty(),
    {
    }

    /// However often and in whatever lists names join, each is a member
    /// once: two joins are one join of all the names, and a join of names
    /// that joined before changes nothing.
    pub proof fn lemma_joined_again(self, first: Set<Seq<char>>, second: Set<Seq<char>>)
        ensures
            self.joined(first).joined(second) == self.joined(first.union(second)),
            second.subset_of(first) ==> self.joined(first).joined(second) == self.joined(first),
    {
    }

    /// One name that joins is a join of that name alone.
    pub proof fn lemma_with_member_is_joined(self, name: Seq<char>)
        ensures
            self.with_member(name) == self.joined(set![name]),
    {
    }

    /// A member who takes another name is a member under that name, with
    /// the privileges held before, and no member under the old name.
    pub proof fn lemma_renamed(self, old: Seq<char>, new: Seq<char>)
        requires
            self.has_member(old),
        ensures
            self.renamed(old, new).has_member(new),
            self.renamed(old, new).roles[new] == self.roles[old],
            old != new ==> !self.renamed(old, new).has_member(old),
            self.renamed(old, new).members() == self.members().remove(old).insert(new),
    {
    }

    /// A privilege that was granted to a member goes with them to their
    /// new name.
    pub proof fn lemma_grant_then_rename(
        self,
        kind: ChannelMode,
        member: Seq<char>,
        new: Seq<char>,
    )
        requires
            self.has_member(member),
            privilege_of(kind) is Some,
        ensures
            self.granted(kind, Some(member)).renamed(member, new).has_member(new),
            self.granted(kind, Some(member)).renamed(member, new).roles[new].contains(
                privilege_of(kind)->0,
            ),
    {
    }

    /// Granting a mode twice is granting it once.
    pub proof fn lemma_granted_twice(self, kind: ChannelMode, arg: Option<Seq<char>>)
        ensures
            self.granted(kind, arg).granted(kind, arg) == self.granted(kind, arg),
    {
        let once = self.granted(kind, arg);
        let twice = once.granted(kind, arg);
        assert(twice.roles =~= once.roles) by {
            if privilege_of(kind) is Some && arg is Some && self.has_member(arg->0) {
                let tag = privilege_of(kind)->0;
                let name = arg->0;
                assert(once.roles[name].insert(tag) =~= once.roles[name]);
            }
        }
    }

    /// Revoking a mode twice is revoking it once.
    pub proof fn lemma_revoked_twice(self, kind: ChannelMode, arg: Option<Seq<char>>)
        ensures
            self.revoked(kind, arg).revoked(kind, arg) == self.revoked(kind, arg),
    {
        let once = self.revoked(kind, arg);
        let twice = once.revoked(kind, arg);
        assert(twice.roles =~= once.roles) by {
            if privilege_of(kind) is Some && arg is Some && self.has_member(arg->0) {
                let tag = privilege_of(kind)->0;
                let name = arg->0;
                assert(once.roles[name].remove(tag) =~= once.roles[name]);
            }
        }
    }

    /// Revoking what is not held changes nothing: neither a status that
    /// the channel lacks, nor a privilege that the member lacks.
    pub proof fn lemma_revoke_absent(self, kind: ChannelMode, arg: Option<Seq<char>>)
        requires
            match privilege_of(kind) {
                Some(tag) => arg matches Some(name) ==> self.has_member(name)
                    ==> !self.roles[name].contains(tag),
                None => status_of(kind, arg) matches Some(status) ==> !self.status.contains(
                    status,
                ),
            },
        ensures
            self.revoked(kind, arg) == self,
    {
        let after = self.revoked(kind, arg);
        assert(after.roles =~= self.roles) by {
            if privilege_of(kind) is Some && arg is Some && self.has_member(arg->0) {
                let tag = privilege_of(kind)->0;
                let name = arg->0;
                assert(self.roles[name].remove(tag) =~= self.roles[name]);
            }
        }
    }

    /// A ban that is granted twice stands once on the list, and so does an
    /// exception.
    pub proof fn lemma_mask_listed_once(self, mask: Seq<char>)
        ensures
            self.granted(ChannelMode::Ban, Some(mask)).granted(ChannelMode::Ban, Some(mask))
                == self.granted(ChannelMode::Ban, Some(mask)),
            self.granted(ChannelMode::Ban, Some(mask)).status == self.status.insert(
                StatusView::Ban(mask),
            ),
            self.granted(ChannelMode::Exception, Some(mask)).granted(
                ChannelMode::Exception,
                Some(mask),
            ) == self.granted(ChannelMode::Exception, Some(mask)),
            self.granted(ChannelMode::Exception, Some(mask)).status == self.status.insert(
                StatusView::Exception(mask),
            ),
    {
        self.lemma_granted_twice(ChannelMode::Ban, Some(mask));
        self.lemma_granted_twice(ChannelMode::Exception, Some(mask));
    }
}

/// What each status of a list stands for.
pub open spec fn status_views(list: Seq<ChannelStatus>) -> Seq<StatusView> {
    list.map_values(|status: ChannelStatus| status@)
}

/// Appends `status` where it is held.
fn push_status_if(list: &mut Vec<ChannelStatus>, held: bool, status: ChannelStatus)
    requires
        status_views(old(list)@).no_duplicates(),
        !status_views(old(list)@).to_set().contains(status@),
    ensures
        status_views(final(list)@).no_duplicates(),
        status_views(final(list)@).to_set() == if held {
            status_views(old(list)@).to_set().insert(status@)
        } else {
            status_views(old(list)@).to_set()
        },
{
    if held {
        proof {
            lemma_push_unique(status_views(list@), status@);
        }
        let ghost before = status_views(list@);
        list.push(status);
        assert(status_views(list@) =~= before.push(status@));
    }
}

/// The bans, or else the exceptions, that a list of masks stands for.
spec fn mask_set(masks: Seq<Seq<char>>, ban: bool) -> Set<StatusView> {
    Set::new(
        |status: StatusView|
            match status {
                StatusView::Ban(mask) => ban && masks.contains(mask),
                StatusView::Exception(mask) => !ban && masks.contains(mask),
                _ => false,
            },
    )
}

/// Appends the masks of a list as bans, or else as exceptions.
fn push_masks(list: &mut Vec<ChannelStatus>, masks: &Vec<String>, ban: bool)
    requires
        status_views(old(list)@).no_duplicates(),
        masks.deep_view().no_duplicates(),
        status_views(old(list)@).to_set().disjoint(mask_set(masks.deep_view(), ban)),
    ensures
        status_views(final(list)@).no_duplicates(),
        status_views(final(list)@).to_set() == status_views(old(list)@).to_set().union(
            mask_set(masks.deep_view(), ban),
        ),
{
    let ghost all = masks.deep_view();
    let ghost start = status_views(list@).to_set();
    let n = masks.len();
    let mut i: usize = 0;
    while i < n
        invariant
            i <= n,
            n == masks.len(),
            all == masks.deep_view(),
            all.no_duplicates(),
            start.disjoint(mask_set(all, ban)),
            status_views(list@).no_duplicates(),
            status_views(list@).to_set() == start.union(mask_set(all.take(i as int), ban)),
        decreases n - i,
    {
        let ghost before = status_views(list@);
        let status = if ban {
            ChannelStatus::Ban(masks[i].clone())
        } else {
            ChannelStatus::Exception(masks[i].clone())
        };
        proof {
            assert(all.take(i + 1) == all.take(i as int).push(all[i as int]));
            assert(!before.to_set().contains(status@));
            lemma_push_unique(before, status@);
            assert forall|mask: Seq<char>|
                all.take(i + 1).contains(mask) <==> (all.take(i as int).contains(mask) || mask
                    == all[i as int]) by {
                assert(all.take(i + 1).to_set().contains(mask) <==> all.take(
                    i as int,
                ).to_set().insert(all[i as int]).contains(mask)) by {
                    all.take(i as int).lemma_push_to_set_commute(all[i as int]);
                }
            }
        }
        list.push(status);
        assert(status_views(list@) =~= before.push(status@));
        i = i + 1;
    }
    assert(all.take(n as int) == all);
}

/// The privilege `tag` as a list: of one where it is among `status`, and
/// else of none.
pub open spec fn picked(status: Set<UserStatus>, tag: UserStatus) -> Seq<UserStatus> {
    if status.contains(tag) {
        seq![tag]
    } else {
        Seq::empty()
    }
}

/// The privileges of a set as a list, from the highest down.
pub open spec fn ranked(status: Set<UserStatus>) -> Seq<UserStatus> {
    picked(status, UserStatus::Founder) + picked(status, UserStatus::Admin) + picked(
        status,
        UserStatus::Oper,
    ) + picked(status, UserStatus::Halfop) + picked(status, UserStatus::Voice)
}

/// Appends `tag` where it is held.
fn push_if(tags: &mut Vec<UserStatus>, held: bool, tag: UserStatus)
    requires
        old(tags)@.no_duplicates(),
        !old(tags)@.to_set().contains(tag),
    ensures
        final(tags)@ == if held {
            old(tags)@.push(tag)
        } else {
            old(tags)@
        },
        final(tags)@.no_duplicates(),
        final(tags)@.to_set() == if held {
            old(tags)@.to_set().insert(tag)
        } else {
            old(tags)@.to_set()
        },
{
    if held {
        proof {
            lemma_push_unique(tags@, tag);
        }
        tags.push(tag);
    }
}

/// A member of a channel, with the privileges held there.
#[derive(Clone, Debug, PartialEq, Eq)]
pub struct ChannelUser {
    name: String,
    founder: bool,
    admin: bool,
    oper: bool,
    halfop: bool,
    voice: bool,
}

impl View for ChannelUser {
    type V = UserView;

    closed spec fn view(&self) -> UserView {
        UserView { name: self.name@, status: Set::new(|tag: UserStatus| self.holds(tag)) }
    }
}

impl ChannelUser {
    spec fn holds(&self, tag: UserStatus) -> bool {
        match tag {
            UserStatus::Founder => self.founder,
            UserStatus::Admin => self.admin,
            UserStatus::Oper => self.oper,
            UserStatus::Halfop => self.halfop,
            UserStatus::Voice => self.voice,
        }
    }

    /// A member of that name, without privileges.
    pub fn with_name(name: &str) -> (user: ChannelUser)
        ensures
            user@ == (UserView { name: name@, status: Set::empty() }),
    {
        let user = ChannelUser {
            name: name.to_owned(),
            founder: false,
            admin: false,
            oper: false,
            halfop: false,
            voice: false,
        };
        user
    }

    /// The name.
    pub fn name(&self) -> (name: &String)
        ensures
            name@ == self@.name,
    {
        &self.name
    }

    /// Whether the privilege is held.
    pub fn has_status(&self, tag: UserStatus) -> (held: bool)
        ensures
            held == self@.status.contains(tag),
    {
        match tag {
            UserStatus::Founder => self.founder,
            UserStatus::Admin => self.admin,
            UserStatus::Oper => self.oper,
            UserStatus::Halfop => self.halfop,
            UserStatus::Voice => self.voice,
        }
    }

    /// Gives the privilege; says whether it was new.
    pub fn add_status(&mut self, tag: UserStatus) -> (changed: bool)
        ensures
            final(self)@ == (UserView { status: old(self)@.status.insert(tag), ..old(self)@ }),
            changed == !old(self)@.status.contains(tag),
    {
        let changed = !self.has_status(tag);
        match tag {
            UserStatus::Founder => {
                self.founder = true;
            },
            UserStatus::Admin => {
                self.admin = true;
            },
            UserStatus::Oper => {
                self.oper = true;
            },
            UserStatus::Halfop => {
                self.halfop = true;
            },
            UserStatus::Voice => {
                self.voice = true;
            },
        }
        changed
    }

    /// Takes the privilege away; says whether it was held.
    pub fn remove_status(&mut self, tag: UserStatus) -> (changed: bool)
        ensures
            final(self)@ == (UserView { status: old(self)@.status.remove(tag), ..old(self)@ }),
            changed == old(self)@.status.contains(tag),
    {
        let changed = self.has_status(tag);
        match tag {
            UserStatus::Founder => {
                self.founder = false;
            },
            UserStatus::Admin => {
                self.admin = false;
            },
            UserStatus::Oper => {
                self.oper = false;
            },
            UserStatus::Halfop => {
                self.halfop = false;
            },
            UserStatus::Voice => {
                self.voice = false;
            },
        }
        changed
    }

    /// The privileges held, from the highest down.
    pub fn status(&self) -> (tags: Vec<UserStatus>)
        ensures
            tags@ == ranked(self@.status),
            tags@.no_duplicates(),
            tags@.to_set() == self@.status,
    {
        let mut tags: Vec<UserStatus> = Vec::new();
        push_if(&mut tags, self.founder, UserStatus::Founder);
        push_if(&mut tags, self.admin, UserStatus::Admin);
        push_if(&mut tags, self.oper, UserStatus::Oper);
        push_if(&mut tags, self.halfop, UserStatus::Halfop);
        push_if(&mut tags, self.voice, UserStatus::Voice);
        tags
    }

    fn set_name(&mut self, name: String)
        ensures
            final(self)@ == (UserView { name: name@, ..old(self)@ }),
    {
        self.name = name;
    }
}

/// The privileges of each member of a roster.
spec fn role_map(users: Map<Seq<char>, ChannelUser>) -> Map<Seq<char>, Set<UserStatus>> {
    users.map_values(|user: ChannelUser| user@.status)
}

/// What each message of a list stands for.
pub open spec fn message_views(messages: Seq<ChannelMessage>) -> Seq<ChannelMessageView> {
    messages.map_values(|message: ChannelMessage| message@)
}

/// A channel.
#[derive(Clone, Debug)]
pub struct Channel {
    name: String,
    topic: String,
    users: NameMap<ChannelUser>,
    messages: Vec<ChannelMessage>,
    bans: NameSet,
    exceptions: NameSet,
    limit: bool,
    invite_only: bool,
    key: bool,
    moderated: bool,
    registered_only: bool,
    secret: bool,
    protected_topic: bool,
    no_external_messages: bool,
}

impl View for Channel {
    type V = ChannelView;

    closed spec fn view(&self) -> ChannelView {
        ChannelView {
            name: self.name@,
            topic: self.topic@,
            roles: role_map(self.users@),
            status: Set::new(|status: StatusView| self.holds(status)),
            messages: message_views(self.messages@),
        }
    }
}

impl Channel {
    spec fn holds(&self, status: StatusView) -> bool {
        match status {
            StatusView::Ban(mask) => self.bans@.contains(mask),
            StatusView::Exception(mask) => self.exceptions@.contains(mask),
            StatusView::Limit => self.limit,
            StatusView::InviteOnly => self.invite_only,
            StatusView::Key => self.key,
            StatusView::Moderated => self.moderated,
            StatusView::RegisteredOnly => self.registered_only,
            StatusView::Secret => self.secret,
            StatusView::ProtectedTopic => self.protected_topic,
            StatusView::NoExternalMessages => self.no_external_messages,
        }
    }

    /// Each member is held once, under their own name, and so is each mask
    /// of the two lists.
    pub closed spec fn wf(&self) -> bool {
        &&& self.users.wf()
        &&& forall|i: int|
            0 <= i < self.users.keys().len() ==> (#[trigger] self.users.vals()[i])@.name
                == self.users.keys()[i]
        &&& self.bans.wf()
        &&& self.exceptions.wf()
    }

    /// A channel has finitely many members.
    pub proof fn lemma_members_finite(&self)
        requires
            self.wf(),
        ensures
            self@.members().finite(),
    {
        self.users.lemma_view();
        assert(self@.roles.dom() =~= self.users@.dom());
    }

    /// A channel without a name.
    pub fn new() -> (channel: Channel)
        ensures
            channel.wf(),
            channel@ == ChannelView::empty(Seq::empty()),
    {
        proof {
            reveal_strlit("");
        }
        Channel::with_name("")
    }

    /// A channel of that name, with nothing in it.
    pub fn with_name(name: &str) -> (channel: Channel)
        ensures
            channel.wf(),
            channel@ == ChannelView::empty(name@),
    {
        let channel = Channel {
            name: name.to_owned(),
            topic: String::new(),
            users: NameMap::new(),
            messages: Vec::new(),
            bans: NameSet::new(),
            exceptions: NameSet::new(),
            limit: false,
            invite_only: false,
            key: false,
            moderated: false,
            registered_only: false,
            secret: false,
            protected_topic: false,
            no_external_messages: false,
        };
        channel
    }

    /// The name.
    pub fn name(&self) -> (name: &String)
        ensures
            name@ == self@.name,
    {
        &self.name
    }

    /// The topic.
    pub fn topic(&self) -> (topic: &String)
        ensures
            topic@ == self@.topic,
    {
        &self.topic
    }

    /// Sets the topic.
    pub fn set_topic(&mut self, topic: &str)
        requires
            old(self).wf(),
        ensures
            final(self).wf(),
            final(self)@ == old(self)@.with_topic(topic@),
    {
        self.topic = topic.to_owned();
    }

    /// Appends a message.
    pub fn add_message(&mut self, msg: ChannelMessage)
        requires
            old(self).wf(),
        ensures
            final(self).wf(),
            final(self)@ == old(self)@.with_message(msg@),
    {
        self.messages.push(msg);
    }

    /// Whether `name` is a member.
    pub fn has_user(&self, name: &str) -> (b: bool)
        requires
            self.wf(),
        ensures
            b == self@.has_member(name@),
    {
        let key = name.to_owned();
        self.users.position(&key).is_some()
    }

    /// Lets one name join; says whether it was new.
    pub fn add_user(&mut self, name: &str) -> (added: bool)
        requires
            old(self).wf(),
        ensures
            final(self).wf(),
            final(self)@ == old(self)@.with_member(name@),
            added == !old(self)@.has_member(name@),
    {
        let key = name.to_owned();
        match self.users.position(&key) {
            Some(_) => false,
            None => {
                self.users.push(key, ChannelUser::with_name(name));
                true
            },
        }
    }

    /// Lets the names of a name list join; gives the number of those that
    /// were no members before.
    pub fn add_users(&mut self, text: &str) -> (count: usize)
        requires
            old(self).wf(),
        ensures
            final(self).wf(),
            final(self)@ == old(self)@.joined(words(text@).to_set()),
            count == words(text@).to_set().difference(old(self)@.members()).len(),
    {
        let names = split_names(text);
        let n = names.len();
        let mut count: usize = 0;
        let mut i: usize = 0;
        proof {
            let none = names.deep_view().take(0).to_set();
            assert(none.difference(self@.members()) =~= Set::empty());
        }
        while i < n
            invariant
                self.wf(),
                i <= n,
                n == names.len(),
                names.deep_view() == words(text@),
                self@ == old(self)@.joined(names.deep_view().take(i as int).to_set()),
                count == names.deep_view().take(i as int).to_set().difference(
                    old(self)@.members(),
                ).len(),
                count <= i,
            decreases n - i,
        {
            let ghost all = names.deep_view();
            let ghost done = all.take(i as int).to_set();
            let ghost next = all.take(i + 1).to_set();
            let ghost name = all[i as int];
            let added = self.add_user(names[i].as_str());
            proof {
                assert(all.take(i + 1) == all.take(i as int).push(name));
                all.take(i as int).lemma_push_to_set_commute(name);
                vstd::seq_lib::seq_to_set_is_finite(all.take(i as int));
                let members = old(self)@.members();
                if added {
                    assert(next.difference(members) =~= done.difference(members).insert(name));
                } else {
                    assert(next.difference(members) =~= done.difference(members));
                }
            }
            if added {
                count = count + 1;
            }
            i = i + 1;
        }
        assert(names.deep_view().take(n as int) == names.deep_view());
        count
    }

    /// The names of the members, each once.
    pub fn users(&self) -> (names: Vec<String>)
        requires
            self.wf(),
        ensures
            names.deep_view().no_duplicates(),
            names.deep_view().to_set() == self@.members(),
    {
        let n = self.users.len();
        let mut names: Vec<String> = Vec::new();
        let mut i: usize = 0;
        while i < n
            invariant
                self.wf(),
                i <= n,
                n == self.users.keys().len(),
                names.deep_view() == self.users.keys().take(i as int),
            decreases n - i,
        {
            let ghost before = names.deep_view();
            names.push(self.users.key_at(i).clone());
            assert(names.deep_view() == before.push(self.users.keys()[i as int]));
            i = i + 1;
        }
        proof {
            assert(self.users.keys().take(n as int) == self.users.keys());
            self.users.lemma_view();
        }
        names
    }

    /// Lets `username` leave; says whether they were a member.
    pub fn remove_user(&mut self, username: &str) -> (removed: bool)
        requires
            old(self).wf(),
        ensures
            final(self).wf(),
            final(self)@ == old(self)@.without_member(username@),
            removed == old(self)@.has_member(username@),
    {
        let key = username.to_owned();
        match self.users.position(&key) {
            Some(i) => {
                self.users.remove_at(i);
                true
            },
            None => {
                false
            },
        }
    }

    /// Gives the member `old_name` the name `new_name`, with the privileges
    /// held; says whether `old_name` was a member.
    pub fn rename_user(&mut self, old_name: &str, new_name: &str) -> (renamed: bool)
        requires
            old(self).wf(),
        ensures
            final(self).wf(),
            final(self)@ == old(self)@.renamed(old_name@, new_name@),
            renamed == old(self)@.has_member(old_name@),
    {
        let old_key = old_name.to_owned();
        let new_key = new_name.to_owned();
        match self.users.position(&old_key) {
            Some(i) => {
                if old_key == new_key {
                    return true;
                }
                let mut user = self.users.remove_at(i);
                user.set_name(new_name.to_owned());
                match self.users.position(&new_key) {
                    Some(j) => {
                        let slot = self.users.value_mut(j);
                        *slot = user;
                    },
                    None => {
                        self.users.push(new_key, user);
                    },
                }
                true
            },
            None => false,
        }
    }

    /// Adds a status to those of the channel.
    fn insert_status(&mut self, status: ChannelStatus)
        requires
            old(self).wf(),
        ensures
            final(self).wf(),
            final(self)@ == (ChannelView {
                status: old(self)@.status.insert(status@),
                ..old(self)@
            }),
    {
        match status {
            ChannelStatus::Ban(mask) => {
                self.bans.insert(mask);
            },
            ChannelStatus::Exception(mask) => {
                self.exceptions.insert(mask);
            },
            ChannelStatus::Limit => {
                self.limit = true;
            },
            ChannelStatus::InviteOnly => {
                self.invite_only = true;
            },
            ChannelStatus::Key => {
                self.key = true;
            },
            ChannelStatus::Moderated => {
                self.moderated = true;
            },
            ChannelStatus::RegisteredOnly => {
                self.registered_only = true;
            },
            ChannelStatus::Secret => {
                self.secret = true;
            },
            ChannelStatus::ProtectedTopic => {
                self.protected_topic = true;
            },
            ChannelStatus::NoExternalMessages => {
                self.no_external_messages = true;
            },
        }
    }

    /// Takes a status from those of the channel.
    fn delete_status(&mut self, status: ChannelStatus)
        requires
            old(self).wf(),
        ensures
            final(self).wf(),
            final(self)@ == (ChannelView {
                status: old(self)@.status.remove(status@),
                ..old(self)@
            }),
    {
        match status {
            ChannelStatus::Ban(mask) => {
                self.bans.remove(&mask);
            },
            ChannelStatus::Exception(mask) => {
                self.exceptions.remove(&mask);
            },
            ChannelStatus::Limit => {
                self.limit = false;
            },
            ChannelStatus::InviteOnly => {
                self.invite_only = false;
            },
            ChannelStatus::Key => {
                self.key = false;
            },
            ChannelStatus::Moderated => {
                self.moderated = false;
            },
            ChannelStatus::RegisteredOnly => {
                self.registered_only = false;
            },
            ChannelStatus::Secret => {
                self.secret = false;
            },
            ChannelStatus::ProtectedTopic => {
                self.protected_topic = false;
            },
            ChannelStatus::NoExternalMessages => {
                self.no_external_messages = false;
            },
        }
    }

    /// Gives a privilege to the member `name`; says whether that changed
    /// what the member holds. Nothing changes where `name` is no member.
    pub fn add_user_status(&mut self, name: &str, tag: UserStatus) -> (changed: bool)
        requires
            old(self).wf(),
        ensures
            final(self).wf(),
            final(self)@ == if old(self)@.has_member(name@) {
                ChannelView {
                    roles: old(self)@.roles.insert(name@, old(self)@.roles[name@].insert(tag)),
                    ..old(self)@
                }
            } else {
                old(self)@
            },
            changed == (final(self)@.roles != old(self)@.roles),
            changed == (old(self)@.has_member(name@) && !old(self)@.roles[name@].contains(tag)),
    {
        let key = name.to_owned();
        match self.users.position(&key) {
            Some(i) => {
                let user = self.users.value_mut(i);
                let changed = user.add_status(tag);
                proof {
                    let before = old(self)@.roles;
                    if !changed {
                        assert(before[name@].insert(tag) =~= before[name@]);
                        assert(self@.roles =~= before);
                    } else {
                    }
                }
                changed
            },
            None => false,
        }
    }

    /// Takes a privilege from the member `name`; says whether that changed
    /// what the member holds. Nothing changes where `name` is no member.
    pub fn remove_user_status(&mut self, name: &str, tag: UserStatus) -> (changed: bool)
        requires
            old(self).wf(),
        ensures
            final(self).wf(),
            final(self)@ == if old(self)@.has_member(name@) {
                ChannelView {
                    roles: old(self)@.roles.insert(name@, old(self)@.roles[name@].remove(tag)),
                    ..old(self)@
                }
            } else {
                old(self)@
            },
            changed == (final(self)@.roles != old(self)@.roles),
            changed == (old(self)@.has_member(name@) && old(self)@.roles[name@].contains(tag)),
    {
        let key = name.to_owned();
        match self.users.position(&key) {
            Some(i) => {
                let user = self.users.value_mut(i);
                let changed = user.remove_status(tag);
                proof {
                    let before = old(self)@.roles;
                    if !changed {
                        assert(before[name@].remove(tag) =~= before[name@]);
                        assert(self@.roles =~= before);
                    } else {
                    }
                }
                changed
            },
            None => false,
        }
    }

    /// Grants a mode; says whether it spoke of the privileges of a member.
    pub fn add_status(&mut self, mode: ChannelMode, arg: Option<String>) -> (touched: bool)
        requires
            old(self).wf(),
        ensures
            final(self).wf(),
            final(self)@ == old(self)@.granted(mode, text_of(arg)),
            touched == old(self)@.names_member(mode, text_of(arg)),
    {
        match mode.privilege() {
            Some(tag) => match arg {
                Some(name) => {
                    let member = self.has_user(name.as_str());
                    self.add_user_status(name.as_str(), tag);
                    member
                },
                None => false,
            },
            None => {
                match ChannelStatus::from(mode, arg) {
                    Some(status) => {
                        self.insert_status(status);
                    },
                    None => {},
                }
                false
            },
        }
    }

    /// Revokes a mode; says whether it spoke of the privileges of a member.
    pub fn remove_status(&mut self, mode: ChannelMode, arg: Option<String>) -> (touched: bool)
        requires
            old(self).wf(),
        ensures
            final(self).wf(),
            final(self)@ == old(self)@.revoked(mode, text_of(arg)),
            touched == old(self)@.names_member(mode, text_of(arg)),
    {
        match mode.privilege() {
            Some(tag) => match arg {
                Some(name) => {
                    let member = self.has_user(name.as_str());
                    self.remove_user_status(name.as_str(), tag);
                    member
                },
                None => false,
            },
            None => {
                match ChannelStatus::from(mode, arg) {
                    Some(status) => {
                        self.delete_status(status);
                    },
                    None => {},
                }
                false
            },
        }
    }

    /// Applies one change of mode; says whether it spoke of the privileges
    /// of a member.
    pub fn chan_status(&mut self, mode: Mode) -> (touched: bool)
        requires
            old(self).wf(),
        ensures
            final(self).wf(),
            final(self)@ == old(self)@.applied(mode@),
            touched == old(self)@.touches_roles(mode@),
    {
        match mode {
            Mode::Plus(kind, arg) => self.add_status(kind, arg),
            Mode::Minus(kind, arg) => self.remove_status(kind, arg),
        }
    }

    /// Applies a batch of changes of mode, one after the other; says
    /// whether one of them spoke of the privileges of a member.
    pub fn apply_modes(&mut self, modes: Vec<Mode>) -> (touched: bool)
        requires
            old(self).wf(),
        ensures
            final(self).wf(),
            final(self)@ == old(self)@.applied_all(mode_views(modes@)),
            touched == old(self)@.roles_touched(mode_views(modes@)),
    {
        let ghost all = mode_views(modes@);
        let mut touched = false;
        for mode in it: modes
            invariant
                self.wf(),
                it.seq() == modes@,
                all == mode_views(modes@),
                self@ == old(self)@.applied_all(all.take(it.index() as int)),
                touched == old(self)@.roles_touched(all.take(it.index() as int)),
        {
            proof {
                let i = it.index() as int;
                assert(all.take(i + 1).drop_last() == all.take(i));
                assert(all.take(i + 1) == all.take(i).push(mode@));
                lemma_applied_all_keeps_members(old(self)@, all.take(i));
                old(self)@.lemma_roles_touched_push(all.take(i), mode@);
            }
            let changed = self.chan_status(mode);
            touched = touched || changed;
        }
        assert(all.take(all.len() as int) == all);
        touched
    }
}

/// A change of mode leaves the name, the topic, the members and the
/// messages of a channel as they are.
pub proof fn lemma_applied_keeps_members(channel: ChannelView, mode: ModeView)
    ensures
        channel.applied(mode).name == channel.name,
        channel.applied(mode).topic == channel.topic,
        channel.applied(mode).members() == channel.members(),
        channel.applied(mode).messages == channel.messages,
{
}

/// A batch of changes of mode leaves the name, the topic, the members and
/// the messages of a channel as they are.
pub proof fn lemma_applied_all_keeps_members(channel: ChannelView, modes: Seq<ModeView>)
    ensures
        channel.applied_all(modes).name == channel.name,
        channel.applied_all(modes).topic == channel.topic,
        channel.applied_all(modes).members() == channel.members(),
        channel.applied_all(modes).messages == channel.messages,
    decreases modes.len(),
{
    if modes.len() > 0 {
        lemma_applied_all_keeps_members(channel, modes.drop_last());
        lemma_applied_keeps_members(channel.applied_all(modes.drop_last()), modes.last());
    }
}

impl Channel {
    /// The messages, in the order in which they came.
    pub fn messages(&self) -> (messages: &Vec<ChannelMessage>)
        ensures
            message_views(messages@) == self@.messages,
    {
        &self.messages
    }

    /// The member `name`, if there is one.
    pub fn user(&self, name: &str) -> (found: Option<&ChannelUser>)
        requires
            self.wf(),
        ensures
            found is Some == self@.has_member(name@),
            found matches Some(user) ==> user@.name == name@ && user@.status
                == self@.roles[name@],
    {
        let key = name.to_owned();
        match self.users.position(&key) {
            Some(i) => Some(self.users.value_at(i)),
            None => None,
        }
    }

    /// The privileges of the member `name`, each once; `None` where `name`
    /// is no member.
    pub fn user_status(&self, name: &str) -> (found: Option<Vec<UserStatus>>)
        requires
            self.wf(),
        ensures
            found is Some == self@.has_member(name@),
            found matches Some(tags) ==> tags@ == ranked(self@.roles[name@])
                && tags@.no_duplicates() && tags@.to_set() == self@.roles[name@],
    {
        match self.user(name) {
            Some(user) => Some(user.status()),
            None => None,
        }
    }

    /// Whether the channel has the status.
    pub fn has_status(&self, status: &ChannelStatus) -> (held: bool)
        ensures
            held == self@.status.contains(status@),
    {
        match status {
            ChannelStatus::Ban(mask) => self.bans.contains(mask),
            ChannelStatus::Exception(mask) => self.exceptions.contains(mask),
            ChannelStatus::Limit => self.limit,
            ChannelStatus::InviteOnly => self.invite_only,
            ChannelStatus::Key => self.key,
            ChannelStatus::Moderated => self.moderated,
            ChannelStatus::RegisteredOnly => self.registered_only,
            ChannelStatus::Secret => self.secret,
            ChannelStatus::ProtectedTopic => self.protected_topic,
            ChannelStatus::NoExternalMessages => self.no_external_messages,
        }
    }

    /// The status of the channel, each once.
    pub fn status(&self) -> (list: Vec<ChannelStatus>)
        requires
            self.wf(),
        ensures
            status_views(list@).no_duplicates(),
            status_views(list@).to_set() == self@.status,
    {
        let mut list: Vec<ChannelStatus> = Vec::new();
        push_status_if(&mut list, self.limit, ChannelStatus::Limit);
        push_status_if(&mut list, self.invite_only, ChannelStatus::InviteOnly);
        push_status_if(&mut list, self.key, ChannelStatus::Key);
        push_status_if(&mut list, self.moderated, ChannelStatus::Moderated);
        push_status_if(&mut list, self.registered_only, ChannelStatus::RegisteredOnly);
        push_status_if(&mut list, self.secret, ChannelStatus::Secret);
        push_status_if(&mut list, self.protected_topic, ChannelStatus::ProtectedTopic);
        push_status_if(&mut list, self.no_external_messages, ChannelStatus::NoExternalMessages);
        let bans = self.bans.to_vec();
        push_masks(&mut list, &bans, true);
        let exceptions = self.exceptions.to_vec();
        push_masks(&mut list, &exceptions, false);
        proof {
            assert forall|s: StatusView| status_views(list@).to_set().contains(s) <==> self.holds(
                s,
            ) by {
                match s {
                    StatusView::Ban(mask) => {
                    },
                    StatusView::Exception(mask) => {
                    },
                    _ => {},
                }
            }
        }
        list
    }
}

} // verus!
