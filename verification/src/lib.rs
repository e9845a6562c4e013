//! Client-side session state for an IRC-like chat protocol.
//!
//! A [`server::Server`] takes the parsed messages of a server one at a time,
//! keeps the connection phase, the message of the day and the joined
//! channels in step with them, and hands back the events that each message
//! gives rise to, in the order in which a listener is to hear of them.
//!
//! - [`message`]: the messages that come in;
//! - [`event`]: the events that go out;
//! - [`dispatch`]: what each message does to the session and which events
//!   it gives rise to;
//! - [`server`]: the session and the operations on it;
//! - [`channel`] and [`mode`]: one channel, its members, their privileges
//!   and its status, and the changes of mode that move them;
//! - [`membership`]: for each user the channels that they are in;
//! - [`state`]: snapshots of a session as plain values;
//! - [`data`]: rows of the chat history;
//! - [`text`], [`name_set`] and [`name_map`]: name lists, sender prefixes,
//!   and the collections of names that the rest is built on.

pub mod channel;
pub mod data;
pub mod dispatch;
pub mod event;
pub mod membership;
pub mod message;
pub mod mode;
pub mod name_map;
pub mod name_set;
pub mod prelude;
pub mod server;
pub mod state;
pub mod text;
