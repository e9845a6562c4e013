//! What most users of the library need.

pub use crate::event::Event;
pub use crate::message::{Command, Message, Response};
pub use crate::server::Server;
