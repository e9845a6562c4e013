//! The events that a session hands to its listener.

use vstd::prelude::*;
use crate::channel::{ChannelMessage, ChannelMessageView};
use crate::mode::text_of;

verus! {

/// Something that a listener is told of.
#[derive(Clone, Debug, PartialEq, Eq)]
pub enum Event {
    /// The server's greeting, once registration is done.
    Welcome(String),
    /// The whole message of the day.
    Motd(String),
    /// The members that a channel now has, each once.
    NewUsers(String, Vec<String>),
    /// A message that was sent to a channel.
    NewMessage(String, ChannelMessage),
    /// Any other message: its sender prefix, its name, its arguments in
    /// their order, and its trailing text.
    Misc(Option<String>, String, Vec<String>, Option<String>),
}

/// What an [`Event`] stands for.
pub enum EventView {
    Welcome(Seq<char>),
    Motd(Seq<char>),
    NewUsers(Seq<char>, Seq<Seq<char>>),
    NewMessage(Seq<char>, ChannelMessageView),
    Misc(Option<Seq<char>>, Seq<char>, Seq<Seq<char>>, Option<Seq<char>>),
}

impl View for Event {
    type V = EventView;

    open spec fn view(&self) -> EventView {
        match self {
            Event::Welcome(text) => EventView::Welcome(text@),
            Event::Motd(text) => EventView::Motd(text@),
            Event::NewUsers(channel, names) => EventView::NewUsers(channel@, names.deep_view()),
            Event::NewMessage(channel, message) => EventView::NewMessage(channel@, message@),
            Event::Misc(prefix, name, args, suffix) => EventView::Misc(
                text_of(*prefix),
                name@,
                args.deep_view(),
                text_of(*suffix),
            ),
        }
    }
}

/// What each event of a list stands for.
pub open spec fn event_views(events: Seq<Event>) -> Seq<EventView> {
    events.map_values(|event: Event| event@)
}

impl EventView {
    /// The channel that a roster or a chat message belongs to; empty for
    /// the events that belong to none.
    pub open spec fn channel(self) -> Seq<char> {
        match self {
            EventView::NewUsers(name, _) => name,
            EventView::NewMessage(name, _) => name,
            _ => Seq::empty(),
        }
    }

    /// Whether this is the roster of `channel`: its members, each once.
    pub open spec fn is_roster(self, channel: Seq<char>, members: Set<Seq<char>>) -> bool {
        match self {
            EventView::NewUsers(name, names) => name == channel && names.no_duplicates()
                && names.to_set() == members,
            _ => false,
        }
    }
}

} // verus!
