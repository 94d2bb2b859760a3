//! What the bot that serves the users does with a message.

use crate::bot::commands::{command_of, Command};
use crate::messages::{kind_of, MessageContent, MessageType};
use crate::reply::Reply;
use crate::templates::Templates;
use vstd::prelude::*;
use vstd::string::StringExecFns;

verus! {

/// What a message asks for.
#[derive(Debug, PartialEq, Eq)]
pub enum MessageRoute {
    /// A video note to be stored; the value is the identifier of its file.
    VideoNote(String),
    /// A command to be carried out.
    Command(Command),
    /// Content that the bot does not take.
    Unsupported(MessageType),
}

/// The command that a text message asks for: the one it writes, or the start
/// page for any other text.
pub open spec fn command_or_start(text: Seq<char>) -> Command {
    match command_of(text) {
        Some(command) => command,
        None => Command::Start,
    }
}

/// What a message asks for: a video note is stored, a text is read as a
/// command, and everything else is not taken.
pub open spec fn route_of(msg: MessageContent) -> MessageRoute {
    match kind_of(msg) {
        MessageType::VideoNote => MessageRoute::VideoNote(msg.video_note->0),
        MessageType::Text => MessageRoute::Command(command_or_start(msg.text->0@)),
        other => MessageRoute::Unsupported(other),
    }
}

/// Decides what to do with a message.
pub fn handle_message(msg: MessageContent) -> (route: MessageRoute)
    ensures
        route == route_of(msg),
{
    let kind = MessageType::from_msg(&msg);
    match kind {
        MessageType::VideoNote => match msg.video_note {
            Some(file_id) => MessageRoute::VideoNote(file_id),
            None => MessageRoute::Unsupported(kind),
        },
        MessageType::Text => match msg.text {
            Some(text) => match Command::parse_str(text.as_str()) {
                Some(command) => MessageRoute::Command(command),
                None => MessageRoute::Command(Command::Start),
            },
            None => MessageRoute::Unsupported(kind),
        },
        _ => MessageRoute::Unsupported(kind),
    }
}

/// The answer to content that the bot does not take: a page that names the
/// kind of the content, without a keyboard.
pub fn unsupported_input(kind: MessageType) -> (reply: Reply)
    ensures
        reply.template matches Templates::UnsupportedInputPage(name) && name@ == kind.label(),
        reply.keyboard is None,
        !reply.disable_web_page_preview,
{
    Reply {
        template: Templates::UnsupportedInputPage(String::from_str(kind.name())),
        keyboard: None,
        disable_web_page_preview: false,
    }
}

} // verus!
