//! What an inline button carries, and to which handler a pressed button
//! leads.

use crate::locale::{locale_of_code, Locale};
use crate::text::{decimal, i64_to_string};
use vstd::prelude::*;
use vstd::string::StringExecFns;

verus! {

/// The value that a button carries besides its topic.
#[derive(Debug, PartialEq, Eq)]
pub enum Payload {
    Text(String),
    Username(String),
    UserId(i64),
    NoteId(i64),
}

impl Clone for Payload {
    fn clone(&self) -> (copy: Self)
        ensures
            copy == *self,
    {
        match self {
            Payload::Text(text) => Payload::Text(text.clone()),
            Payload::Username(name) => Payload::Username(name.clone()),
            Payload::UserId(id) => Payload::UserId(*id),
            Payload::NoteId(id) => Payload::NoteId(*id),
        }
    }
}

/// What a payload holds, as plain values.
pub enum PayloadView {
    Text(Seq<char>),
    Username(Seq<char>),
    UserId(int),
    NoteId(int),
}

impl View for Payload {
    type V = PayloadView;

    open spec fn view(&self) -> PayloadView {
        match *self {
            Payload::Text(text) => PayloadView::Text(text@),
            Payload::Username(name) => PayloadView::Username(name@),
            Payload::UserId(id) => PayloadView::UserId(id as int),
            Payload::NoteId(id) => PayloadView::NoteId(id as int),
        }
    }
}

/// What an optional payload holds, as plain values.
pub open spec fn payload_view(payload: Option<Payload>) -> Option<PayloadView> {
    match payload {
        Some(data) => Some(data@),
        None => None,
    }
}

impl Payload {
    /// The payload as text: a text or a name as it is, an identifier in
    /// decimal notation.
    pub open spec fn text(self) -> Seq<char> {
        match self {
            Payload::Text(text) => text@,
            Payload::Username(name) => name@,
            Payload::UserId(id) => decimal(id as int),
            Payload::NoteId(id) => decimal(id as int),
        }
    }

    /// The payload as text.
    pub fn to_string(&self) -> (text: String)
        ensures
            text@ == self.text(),
    {
        match self {
            Payload::Text(text) => text.clone(),
            Payload::Username(name) => name.clone(),
            Payload::UserId(id) => i64_to_string(*id),
            Payload::NoteId(id) => i64_to_string(*id),
        }
    }

    /// The note that the payload names: the identifier of a `NoteId`, and
    /// nothing for every other payload.
    pub fn note_id(&self) -> (id: Option<i64>)
        ensures
            id == match *self {
                Payload::NoteId(note) => Some(note),
                _ => None,
            },
    {
        match self {
            Payload::NoteId(note) => Some(*note),
            _ => None,
        }
    }

    /// The user that the payload names: the identifier of a `UserId`, and
    /// nothing for every other payload.
    pub fn user_id(&self) -> (id: Option<i64>)
        ensures
            id == match *self {
                Payload::UserId(user) => Some(user),
                _ => None,
            },
    {
        match self {
            Payload::UserId(user) => Some(*user),
            _ => None,
        }
    }
}

/// Which handler a button asks for.
#[derive(Debug, Clone, Copy, PartialEq, Eq, Structural)]
pub enum Topic {
    GetRandomNote,
    ListAllNotes,
    DeleteNote,
    ConfirmDelete,
    EraseAllNotes,
    ConfirmEraseAllNotes,
    GoHomePage,
    GoExtraPage,
    GoUploadPage,
    GoCreditsPage,
    GoLanguagePage,
    GoHelpPage,
    SetLanguage,
}

impl Topic {
    /// The tag under which the topic is logged and shown.
    pub fn name(&self) -> (name: String)
        ensures
            name@ == match *self {
                Topic::GetRandomNote => "#random_note"@,
                Topic::ListAllNotes => "#list"@,
                Topic::DeleteNote => "#delete"@,
                Topic::ConfirmDelete => "#confirm_delete"@,
                Topic::EraseAllNotes => "#erase_all_notes"@,
                Topic::ConfirmEraseAllNotes => "#confirm_erase_all_notes"@,
                Topic::GoHomePage => "#home"@,
                Topic::GoExtraPage => "#extra"@,
                Topic::GoUploadPage => "#upload"@,
                Topic::GoCreditsPage => "#credits"@,
                Topic::GoLanguagePage => "#language"@,
                Topic::GoHelpPage => "#help"@,
                Topic::SetLanguage => "#set_language"@,
            },
    {
        match self {
            Topic::GetRandomNote => String::from_str("#random_note"),
            Topic::ListAllNotes => String::from_str("#list"),
            Topic::DeleteNote => String::from_str("#delete"),
            Topic::ConfirmDelete => String::from_str("#confirm_delete"),
            Topic::EraseAllNotes => String::from_str("#erase_all_notes"),
            Topic::ConfirmEraseAllNotes => String::from_str("#confirm_erase_all_notes"),
            Topic::GoHomePage => String::from_str("#home"),
            Topic::GoExtraPage => String::from_str("#extra"),
            Topic::GoUploadPage => String::from_str("#upload"),
            Topic::GoCreditsPage => String::from_str("#credits"),
            Topic::GoLanguagePage => String::from_str("#language"),
            Topic::GoHelpPage => String::from_str("#help"),
            Topic::SetLanguage => String::from_str("#set_language"),
        }
    }
}

/// What a button carries: the topic, and a payload where the topic takes one.
#[derive(Debug, PartialEq, Eq)]
pub struct QueryData {
    pub topic: Topic,
    pub payload: Option<Payload>,
}

impl Clone for QueryData {
    fn clone(&self) -> (copy: Self)
        ensures
            copy == *self,
    {
        QueryData {
            topic: self.topic,
            payload: match &self.payload {
                Some(payload) => Some(payload.clone()),
                None => None,
            },
        }
    }
}

/// The handler that a pressed button leads to, with what the handler takes.
#[derive(Debug, PartialEq, Eq)]
pub enum CallbackRoute {
    /// Nothing is to be done.
    Ignore,
    RandomNote,
    DeleteNote(Option<Payload>),
    ConfirmDelete(Option<Payload>),
    EraseAllNotes(Option<Payload>),
    ConfirmEraseAllNotes(Option<Payload>),
    ListAllNotes,
    Home,
    Extra,
    Upload,
    Credits,
    Language,
    Help,
    SetLanguage(Locale),
}

/// Where a pressed button leads. Without a chat to answer in, nowhere. The
/// pages that take no payload are shown whatever payload came. A change of
/// language takes the language from the payload and leads to the help page
/// where there is none.
pub open spec fn route_of(topic: Topic, payload: Option<Payload>, has_chat: bool) -> CallbackRoute {
    if !has_chat {
        CallbackRoute::Ignore
    } else {
        match topic {
            Topic::GetRandomNote => CallbackRoute::RandomNote,
            Topic::ListAllNotes => CallbackRoute::ListAllNotes,
            Topic::DeleteNote => CallbackRoute::DeleteNote(payload),
            Topic::ConfirmDelete => CallbackRoute::ConfirmDelete(payload),
            Topic::EraseAllNotes => CallbackRoute::EraseAllNotes(payload),
            Topic::ConfirmEraseAllNotes => CallbackRoute::ConfirmEraseAllNotes(payload),
            Topic::GoHomePage => CallbackRoute::Home,
            Topic::GoExtraPage => CallbackRoute::Extra,
            Topic::GoUploadPage => CallbackRoute::Upload,
            Topic::GoCreditsPage => CallbackRoute::Credits,
            Topic::GoLanguagePage => CallbackRoute::Language,
            Topic::GoHelpPage => CallbackRoute::Help,
            Topic::SetLanguage => match payload {
                Some(data) => CallbackRoute::SetLanguage(locale_of_code(data.text())),
                None => CallbackRoute::Help,
            },
        }
    }
}

/// Decides where a pressed button leads. `data` is what the button carried,
/// or nothing where that could not be read; `has_chat` says whether the press
/// came with a chat to answer in.
pub fn handle_callback(data: Option<QueryData>, has_chat: bool) -> (route: CallbackRoute)
    ensures
        route == match data {
            Some(query) => route_of(query.topic, query.payload, has_chat),
            None => CallbackRoute::Ignore,
        },
{
    let query = match data {
        Some(query) => query,
        None => {
            return CallbackRoute::Ignore;
        },
    };
    if !has_chat {
        return CallbackRoute::Ignore;
    }
    match query.topic {
        Topic::GetRandomNote => CallbackRoute::RandomNote,
        Topic::ListAllNotes => CallbackRoute::ListAllNotes,
        Topic::DeleteNote => CallbackRoute::DeleteNote(query.payload),
        Topic::ConfirmDelete => CallbackRoute::ConfirmDelete(query.payload),
        Topic::EraseAllNotes => CallbackRoute::EraseAllNotes(query.payload),
        Topic::ConfirmEraseAllNotes => CallbackRoute::ConfirmEraseAllNotes(query.payload),
        Topic::GoHomePage => CallbackRoute::Home,
        Topic::GoExtraPage => CallbackRoute::Extra,
        Topic::GoUploadPage => CallbackRoute::Upload,
        Topic::GoCreditsPage => CallbackRoute::Credits,
        Topic::GoLanguagePage => CallbackRoute::Language,
        Topic::GoHelpPage => CallbackRoute::Help,
        Topic::SetLanguage => handle_set_language(query.payload),
    }
}

fn handle_set_language(payload: Option<Payload>) -> (route: CallbackRoute)
    ensures
        route == match payload {
            Some(data) => CallbackRoute::SetLanguage(locale_of_code(data.text())),
            None => CallbackRoute::Help,
        },
{
    match payload {
        Some(data) => {
            let code = data.to_string();
            CallbackRoute::SetLanguage(Locale::from_str(code.as_str()))
        },
        None => CallbackRoute::Help,
    }
}

} // verus!
