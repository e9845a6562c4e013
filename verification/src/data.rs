//! Rows of the chat history.

use vstd::prelude::*;
use crate::channel::ChannelMessage;

verus! {

/// One message of the history, with the channel that it was sent to.
#[derive(Clone, Debug, PartialEq, Eq)]
pub struct Chat {
    pub channel: String,
    pub time_stamp: String,
    pub user_name: String,
    pub content: String,
}

impl Chat {
    /// The row for a message that was sent to `channel`.
    pub fn from(channel: String, msg: ChannelMessage) -> (chat: Chat)
        ensures
            chat.channel == channel,
            chat.time_stamp == msg.time_stamp,
            chat.user_name == msg.user_name,
            chat.content == msg.content,
    {
        Chat {
            channel,
            time_stamp: msg.time_stamp,
            user_name: msg.user_name,
            content: msg.content,
        }
    }
}

} // verus!
