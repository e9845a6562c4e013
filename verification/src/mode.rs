//! Channel modes and the changes that a mode message asks for.

use vstd::prelude::*;

verus! {

/// A privilege that a member holds in one channel.
#[derive(Clone, Copy, Debug, PartialEq, Eq, Structural)]
pub enum UserStatus {
    Founder,
    Admin,
    Oper,
    Halfop,
    Voice,
}

/// The kind of a mode, by its letter.
#[derive(Clone, Copy, Debug, PartialEq, Eq, Structural)]
pub enum ChannelMode {
    /// `b`: a mask is banned.
    Ban,
    /// `e`: a mask is exempt from bans.
    Exception,
    /// `l`: the number of members is limited.
    Limit,
    /// `i`: joining takes an invitation.
    InviteOnly,
    /// `I`: a mask is exempt from the invitation rule.
    InviteException,
    /// `k`: joining takes a key.
    Key,
    /// `m`: only privileged members may speak.
    Moderated,
    /// `r`: only registered users may join.
    RegisteredOnly,
    /// `s`: the channel is not listed.
    Secret,
    /// `t`: only privileged members may set the topic.
    ProtectedTopic,
    /// `n`: only members may send to the channel.
    NoExternalMessages,
    /// `q`: a member is founder.
    Founder,
    /// `a`: a member is admin.
    Admin,
    /// `o`: a member is operator.
    Oper,
    /// `h`: a member is half-operator.
    Halfop,
    /// `v`: a member has voice.
    Voice,
    /// Any other letter.
    Unknown(char),
}

/// A status of a channel: a flag that is set, or a mask on one of its lists.
#[derive(Clone, Debug, PartialEq, Eq)]
pub enum ChannelStatus {
    Ban(String),
    Exception(String),
    Limit,
    InviteOnly,
    Key,
    Moderated,
    RegisteredOnly,
    Secret,
    ProtectedTopic,
    NoExternalMessages,
}

/// What a [`ChannelStatus`] stands for.
pub enum StatusView {
    Ban(Seq<char>),
    Exception(Seq<char>),
    Limit,
    InviteOnly,
    Key,
    Moderated,
    RegisteredOnly,
    Secret,
    ProtectedTopic,
    NoExternalMessages,
}

impl View for ChannelStatus {
    type V = StatusView;

    open spec fn view(&self) -> StatusView {
        match self {
            ChannelStatus::Ban(mask) => StatusView::Ban(mask@),
            ChannelStatus::Exception(mask) => StatusView::Exception(mask@),
            ChannelStatus::Limit => StatusView::Limit,
            ChannelStatus::InviteOnly => StatusView::InviteOnly,
            ChannelStatus::Key => StatusView::Key,
            ChannelStatus::Moderated => StatusView::Moderated,
            ChannelStatus::RegisteredOnly => StatusView::RegisteredOnly,
            ChannelStatus::Secret => StatusView::Secret,
            ChannelStatus::ProtectedTopic => StatusView::ProtectedTopic,
            ChannelStatus::NoExternalMessages => StatusView::NoExternalMessages,
        }
    }
}

/// One change of mode: a kind that is granted or revoked, with the argument
/// that came with it.
#[derive(Clone, Debug, PartialEq, Eq)]
pub enum Mode {
    /// The mode is granted.
    Plus(ChannelMode, Option<String>),
    /// The mode is revoked.
    Minus(ChannelMode, Option<String>),
}

/// What a [`Mode`] stands for.
pub enum ModeView {
    Plus(ChannelMode, Option<Seq<char>>),
    Minus(ChannelMode, Option<Seq<char>>),
}

/// The text of an argument that may be missing.
pub open spec fn text_of(arg: Option<String>) -> Option<Seq<char>> {
    match arg {
        Some(s) => Some(s@),
        None => None,
    }
}

impl View for Mode {
    type V = ModeView;

    open spec fn view(&self) -> ModeView {
        match self {
            Mode::Plus(kind, arg) => ModeView::Plus(*kind, text_of(*arg)),
            Mode::Minus(kind, arg) => ModeView::Minus(*kind, text_of(*arg)),
        }
    }
}

/// What each change of a batch stands for.
pub open spec fn mode_views(modes: Seq<Mode>) -> Seq<ModeView> {
    modes.map_values(|mode: Mode| mode@)
}

/// The privilege that a mode gives to a member; `None` for the modes that
/// speak of the channel itself.
pub open spec fn privilege_of(kind: ChannelMode) -> Option<UserStatus> {
    match kind {
        ChannelMode::Founder => Some(UserStatus::Founder),
        ChannelMode::Admin => Some(UserStatus::Admin),
        ChannelMode::Oper => Some(UserStatus::Oper),
        ChannelMode::Halfop => Some(UserStatus::Halfop),
        ChannelMode::Voice => Some(UserStatus::Voice),
        _ => None,
    }
}

/// The status of the channel that a mode and its argument name. A ban or an
/// exception needs its mask; a flag takes no argument and ignores one that
/// is given. Privileges and the kinds that are not kept name no status.
pub open spec fn status_of(kind: ChannelMode, arg: Option<Seq<char>>) -> Option<StatusView> {
    match kind {
        ChannelMode::Ban => match arg {
            Some(mask) => Some(StatusView::Ban(mask)),
            None => None,
        },
        ChannelMode::Exception => match arg {
            Some(mask) => Some(StatusView::Exception(mask)),
            None => None,
        },
        ChannelMode::Limit => Some(StatusView::Limit),
        ChannelMode::InviteOnly => Some(StatusView::InviteOnly),
        ChannelMode::Key => Some(StatusView::Key),
        ChannelMode::Moderated => Some(StatusView::Moderated),
        ChannelMode::RegisteredOnly => Some(StatusView::RegisteredOnly),
        ChannelMode::Secret => Some(StatusView::Secret),
        ChannelMode::ProtectedTopic => Some(StatusView::ProtectedTopic),
        ChannelMode::NoExternalMessages => Some(StatusView::NoExternalMessages),
        _ => None,
    }
}

impl ChannelMode {
    /// The privilege that this mode gives to a member, if it is one.
    pub fn privilege(&self) -> (tag: Option<UserStatus>)
        ensures
            tag == privilege_of(*self),
    {
        match self {
            ChannelMode::Founder => Some(UserStatus::Founder),
            ChannelMode::Admin => Some(UserStatus::Admin),
            ChannelMode::Oper => Some(UserStatus::Oper),
            ChannelMode::Halfop => Some(UserStatus::Halfop),
            ChannelMode::Voice => Some(UserStatus::Voice),
            _ => None,
        }
    }
}

impl ChannelStatus {
    /// The status that a mode and its argument name, if they name one.
    pub fn from(mode: ChannelMode, arg: Option<String>) -> (status: Option<ChannelStatus>)
        ensures
            match status {
                Some(s) => status_of(mode, text_of(arg)) == Some(s@),
                None => status_of(mode, text_of(arg)) is None,
            },
    {
        match mode {
            ChannelMode::Ban => match arg {
                Some(mask) => Some(ChannelStatus::Ban(mask)),
                None => None,
            },
            ChannelMode::Exception => match arg {
                Some(mask) => Some(ChannelStatus::Exception(mask)),
                None => None,
            },
            ChannelMode::Limit => Some(ChannelStatus::Limit),
            ChannelMode::InviteOnly => Some(ChannelStatus::InviteOnly),
            ChannelMode::Key => Some(ChannelStatus::Key),
            ChannelMode::Moderated => Some(ChannelStatus::Moderated),
            ChannelMode::RegisteredOnly => Some(ChannelStatus::RegisteredOnly),
            ChannelMode::Secret => Some(ChannelStatus::Secret),
            ChannelMode::ProtectedTopic => Some(ChannelStatus::ProtectedTopic),
            ChannelMode::NoExternalMessages => Some(ChannelStatus::NoExternalMessages),
            _ => None,
        }
    }
}

} // verus!
