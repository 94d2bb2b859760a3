//! The kinds of message that a bot receives, and the answer to an upload.

use crate::catalog::Catalog;
use crate::locale::Locale;
use crate::manager::keyboards;
use crate::reply::Reply;
use crate::templates::Templates;
use vstd::prelude::*;

verus! {

/// What the bots read of a message: which kinds of content it holds.
#[derive(Debug, PartialEq, Eq)]
pub struct MessageContent {
    /// The identifier of the file of the video note, if the message is one.
    pub video_note: Option<String>,
    /// The text, if the message has one.
    pub text: Option<String>,
    pub photo: bool,
    pub video: bool,
    pub voice: bool,
    pub audio: bool,
    pub document: bool,
}

/// The kind of a message.
#[derive(Debug, Clone, Copy, PartialEq, Eq, Structural)]
pub enum MessageType {
    VideoNote,
    Text,
    Photo,
    Video,
    Voice,
    Audio,
    Document,
    Unknown,
}

/// The kind of a message: that of the first content it holds, in the order
/// video note, text, photo, video, voice, audio, document.
pub open spec fn kind_of(msg: MessageContent) -> MessageType {
    if msg.video_note is Some {
        MessageType::VideoNote
    } else if msg.text is Some {
        MessageType::Text
    } else if msg.photo {
        MessageType::Photo
    } else if msg.video {
        MessageType::Video
    } else if msg.voice {
        MessageType::Voice
    } else if msg.audio {
        MessageType::Audio
    } else if msg.document {
        MessageType::Document
    } else {
        MessageType::Unknown
    }
}

impl MessageType {
    /// The name of the kind as a text.
    pub open spec fn label(self) -> Seq<char> {
        match self {
            MessageType::VideoNote => "videonote"@,
            MessageType::Text => "text"@,
            MessageType::Photo => "photo"@,
            MessageType::Video => "video"@,
            MessageType::Voice => "voice"@,
            MessageType::Audio => "audio"@,
            MessageType::Document => "document"@,
            MessageType::Unknown => "unknown"@,
        }
    }

    /// The kind of a message.
    pub fn from_msg(msg: &MessageContent) -> (kind: MessageType)
        ensures
            kind == kind_of(*msg),
    {
        if msg.video_note.is_some() {
            return MessageType::VideoNote;
        }
        if msg.text.is_some() {
            return MessageType::Text;
        }
        if msg.photo {
            return MessageType::Photo;
        }
        if msg.video {
            return MessageType::Video;
        }
        if msg.voice {
            return MessageType::Voice;
        }
        if msg.audio {
            return MessageType::Audio;
        }
        if msg.document {
            return MessageType::Document;
        }
        MessageType::Unknown
    }

    /// The name of the kind.
    pub fn name(&self) -> (name: &'static str)
        ensures
            name@ == self.label(),
    {
        match self {
            MessageType::VideoNote => "videonote",
            MessageType::Text => "text",
            MessageType::Photo => "photo",
            MessageType::Video => "video",
            MessageType::Voice => "voice",
            MessageType::Audio => "audio",
            MessageType::Document => "document",
            MessageType::Unknown => "unknown",
        }
    }
}

/// The page that reports the result of an upload. An upload has two steps:
/// the file is stored, then the note is registered with the service. Success
/// is reported only if both steps succeeded; a failure of either is
/// reported as the one error page.
pub fn upload_result(
    catalog: &Catalog,
    file_stored: bool,
    note_registered: bool,
    locale: &Locale,
) -> (reply: Reply)
    ensures
        reply.template == if file_stored && note_registered {
            Templates::SuccessUploadPage
        } else {
            Templates::ErrorUploadPage
        },
        reply.layout() == Some(keyboards::upload_result_page_layout(*catalog, *locale)),
        !reply.disable_web_page_preview,
{
    let template = if file_stored && note_registered {
        Templates::SuccessUploadPage
    } else {
        Templates::ErrorUploadPage
    };
    Reply::page(template, keyboards::upload_result_page(catalog, locale), false)
}

} // verus!
