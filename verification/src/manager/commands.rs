//! The commands of the bot that maintains the notes, and the answer to each.

use crate::bot;
use crate::callbacks::{payload_view, Payload, PayloadView};
use crate::catalog::Catalog;
use crate::locale::Locale;
use crate::manager::keyboards;
use crate::reply::Reply;
use crate::stats::Stats;
use crate::templates::Templates;
use crate::text::{decimal, i64_to_string, str_eq, u64_to_string};
use crate::user::User;
use crate::utils::Chat;
use vstd::prelude::*;
use vstd::string::StringExecFns;

verus! {

/// A command of the bot.
#[derive(Debug, Clone, Copy, PartialEq, Eq, Structural)]
pub enum Command {
    Start,
    RandomNote,
    Extra,
    Upload,
    List,
    Language,
    Help,
    Credits,
}

/// The command that a text writes, if it writes one.
pub open spec fn command_of(text: Seq<char>) -> Option<Command> {
    if text == "/start"@ {
        Some(Command::Start)
    } else if text == "/ask_friend"@ {
        Some(Command::RandomNote)
    } else if text == "/extra"@ {
        Some(Command::Extra)
    } else if text == "/upload"@ {
        Some(Command::Upload)
    } else if text == "/list"@ {
        Some(Command::List)
    } else if text == "/language"@ {
        Some(Command::Language)
    } else if text == "/help"@ {
        Some(Command::Help)
    } else if text == "/credits"@ {
        Some(Command::Credits)
    } else {
        None
    }
}

impl Command {
    /// Reads a command. A text that is none of the commands gives nothing.
    pub fn parse_str(cmd: &str) -> (command: Option<Command>)
        ensures
            command == command_of(cmd@),
    {
        if str_eq(cmd, "/start") {
            Some(Command::Start)
        } else if str_eq(cmd, "/ask_friend") {
            Some(Command::RandomNote)
        } else if str_eq(cmd, "/extra") {
            Some(Command::Extra)
        } else if str_eq(cmd, "/upload") {
            Some(Command::Upload)
        } else if str_eq(cmd, "/list") {
            Some(Command::List)
        } else if str_eq(cmd, "/language") {
            Some(Command::Language)
        } else if str_eq(cmd, "/help") {
            Some(Command::Help)
        } else if str_eq(cmd, "/credits") {
            Some(Command::Credits)
        } else {
            None
        }
    }
}

/// What the confirmation of a deletion leads to.
#[derive(Debug, PartialEq, Eq)]
pub enum Confirmation {
    /// Nothing is deleted. The reply says so; the loading page goes before
    /// it where `loading_first` is set.
    Refused { loading_first: bool, reply: Reply },
    /// The record `id` is to be deleted, after the loading page was shown.
    Delete { id: i64 },
}

/// The payload of a button that asks for a deletion: the one that came, or
/// the text `none` where none came.
pub open spec fn payload_or_none(query_data: Option<Payload>) -> PayloadView {
    match query_data {
        Some(data) => data@,
        None => PayloadView::Text("none"@),
    }
}

/// The text of an optional payload, `none` where there is none.
pub open spec fn text_or_none(query_data: Option<Payload>) -> Seq<char> {
    match query_data {
        Some(data) => data.text(),
        None => "none"@,
    }
}

fn or_none(query_data: Option<Payload>) -> (data: Payload)
    ensures
        data@ == payload_or_none(query_data),
        data.text() == text_or_none(query_data),
{
    match query_data {
        Some(data) => data,
        None => Payload::Text(String::from_str("none")),
    }
}

/// The start page for the user who writes in `chat`, with the keyboard of
/// the start page. A user without a name is greeted as `Unknown User`.
pub fn start_command(catalog: &Catalog, chat: &Chat, locale: &Locale) -> (reply: Reply)
    ensures
        reply.template matches Templates::StartPage(name) && name@ == chat.name_or(
            "Unknown User"@,
        ),
        reply.layout() == Some(keyboards::start_page_layout(*catalog, *locale)),
        !reply.disable_web_page_preview,
{
    Reply::page(
        Templates::StartPage(chat.username_or("Unknown User")),
        keyboards::start_page(catalog, locale),
        false,
    )
}

/// The answer to a request for a random note. Where a note was found,
/// `author` is its author, and the page that follows the note names the
/// author. Where the service has no note, there is no author, no note is
/// sent, and the answer is the error page.
pub fn random_note_command(catalog: &Catalog, author: Option<&User>, locale: &Locale) -> (reply:
    Reply)
    ensures
        match author {
            Some(user) => reply.template matches Templates::RandomNotePage(name) && name@
                == user.username@,
            None => reply.template == Templates::ErrorPage,
        },
        reply.layout() == Some(bot::keyboards::random_note_page_layout(*catalog, None, *locale)),
        !reply.disable_web_page_preview,
{
    bot::commands::random_note_command(catalog, author, locale)
}

/// The page that asks whether a note shall be deleted. The button that
/// confirms carries the payload that came, or the text `none` where none
/// came, and the page shows that payload as text. The loading page goes
/// before this page.
pub fn delete_note_command(catalog: &Catalog, query_data: Option<Payload>, locale: &Locale) -> (reply:
    Reply)
    ensures
        reply.template matches Templates::DeleteNotePage(note) && note@ == text_or_none(
            query_data,
        ),
        reply.layout() == Some(
            keyboards::delete_note_page_layout(
                *catalog,
                Some(payload_or_none(query_data)),
                *locale,
            ),
        ),
        !reply.disable_web_page_preview,
{
    let data = or_none(query_data);
    Reply::page(
        Templates::DeleteNotePage(data.to_string()),
        keyboards::delete_note_page(catalog, Some(data), locale),
        false,
    )
}

/// The page that reports the result of a deletion: success with the
/// identifier that the service returned, or the error page where the service
/// failed.
pub fn delete_note_result(catalog: &Catalog, deleted: Option<String>, locale: &Locale) -> (reply:
    Reply)
    ensures
        match deleted {
            Some(note) => reply.template == Templates::SuccessDeleteNotePage(note),
            None => reply.template == Templates::ErrorDeleteNotePage,
        },
        reply.layout() == Some(keyboards::delete_note_result_page_layout(*catalog, *locale)),
        !reply.disable_web_page_preview,
{
    let template = match deleted {
        Some(note) => Templates::SuccessDeleteNotePage(note),
        None => Templates::ErrorDeleteNotePage,
    };
    Reply::page(template, keyboards::delete_note_result_page(catalog, locale), false)
}

/// What the confirmation of the deletion of a note leads to. Only a payload
/// that names a note leads to a deletion, that of the note it names. Without
/// a payload nothing is deleted and the error page is the whole answer. With
/// any other payload, the error page follows the loading page.
pub fn confirm_delete_command(catalog: &Catalog, query_data: Option<Payload>, locale: &Locale) -> (confirmation:
    Confirmation)
    ensures
        match query_data {
            Some(Payload::NoteId(id)) => confirmation == (Confirmation::Delete { id }),
            other => confirmation matches Confirmation::Refused { loading_first, reply }
                && loading_first == (other is Some) && reply.template
                == Templates::ErrorDeleteNotePage && reply.layout() == Some(
                keyboards::delete_note_result_page_layout(*catalog, *locale),
            ) && !reply.disable_web_page_preview,
        },
{
    match query_data {
        None => Confirmation::Refused {
            loading_first: false,
            reply: delete_note_result(catalog, None, locale),
        },
        Some(data) => match data.note_id() {
            Some(id) => Confirmation::Delete { id },
            None => Confirmation::Refused {
                loading_first: true,
                reply: delete_note_result(catalog, None, locale),
            },
        },
    }
}

/// The page that asks whether all notes of a user shall be deleted. The
/// button that confirms carries the payload that came, or the text `none`
/// where none came, and the page shows that payload as text.
pub fn erase_all_notes_command(catalog: &Catalog, query_data: Option<Payload>, locale: &Locale) -> (reply:
    Reply)
    ensures
        reply.template matches Templates::EraseAllNotesPage(user) && user@ == text_or_none(
            query_data,
        ),
        reply.layout() == Some(
            keyboards::erase_all_notes_page_layout(
                *catalog,
                Some(payload_or_none(query_data)),
                *locale,
            ),
        ),
        !reply.disable_web_page_preview,
{
    let data = or_none(query_data);
    Reply::page(
        Templates::EraseAllNotesPage(data.to_string()),
        keyboards::erase_all_notes_page(catalog, Some(data), locale),
        false,
    )
}

/// The page that reports the result of the deletion of all notes of a user:
/// success with the identifier that the service returned, or the error page
/// where the service failed.
pub fn erase_all_notes_result(catalog: &Catalog, erased: Option<String>, locale: &Locale) -> (reply:
    Reply)
    ensures
        match erased {
            Some(user) => reply.template == Templates::SuccessEraseAllNotesPage(user),
            None => reply.template == Templates::ErrorEraseAllNotesPage,
        },
        reply.layout() == Some(keyboards::erase_all_notes_result_page_layout(*catalog, *locale)),
        !reply.disable_web_page_preview,
{
    let template = match erased {
        Some(user) => Templates::SuccessEraseAllNotesPage(user),
        None => Templates::ErrorEraseAllNotesPage,
    };
    Reply::page(template, keyboards::erase_all_notes_result_page(catalog, locale), false)
}

/// What the confirmation of the deletion of all notes of a user leads to.
/// Only a payload that names a user leads to a deletion, that of the notes
/// of the user it names. Without a payload nothing is deleted and the error
/// page is the whole answer. With any other payload, the error page follows
/// the loading page.
pub fn confirm_erase_all_notes_command(
    catalog: &Catalog,
    query_data: Option<Payload>,
    locale: &Locale,
) -> (confirmation: Confirmation)
    ensures
        match query_data {
            Some(Payload::UserId(id)) => confirmation == (Confirmation::Delete { id }),
            other => confirmation matches Confirmation::Refused { loading_first, reply }
                && loading_first == (other is Some) && reply.template
                == Templates::ErrorEraseAllNotesPage && reply.layout() == Some(
                keyboards::erase_all_notes_result_page_layout(*catalog, *locale),
            ) && !reply.disable_web_page_preview,
        },
{
    match query_data {
        None => Confirmation::Refused {
            loading_first: false,
            reply: erase_all_notes_result(catalog, None, locale),
        },
        Some(data) => match data.user_id() {
            Some(id) => Confirmation::Delete { id },
            None => Confirmation::Refused {
                loading_first: true,
                reply: erase_all_notes_result(catalog, None, locale),
            },
        },
    }
}

/// The extra page: the statistics of the store, for the user who writes in
/// `chat`. A user without a name is shown as `Unknown user`.
pub fn extra_command(catalog: &Catalog, chat: &Chat, stats: Stats, locale: &Locale) -> (reply:
    Reply)
    ensures
        reply.template matches Templates::ExtraPage(name, total_notes, total_users, list)
            && name@ == chat.name_or("Unknown user"@) && total_notes@ == decimal(
            stats.total_videonotes as int,
        ) && total_users@ == decimal(stats.users.len() as int) && list == stats.users,
        reply.layout() == Some(
            bot::keyboards::extra_page_layout(*catalog, None, None, None, *locale),
        ),
        !reply.disable_web_page_preview,
{
    bot::commands::extra_command(catalog, chat, stats, locale)
}

/// The upload page: the statistics of the store, for the user who writes in
/// `chat`. A user without a name is shown as `Unknown user`.
pub fn upload_command(catalog: &Catalog, chat: &Chat, stats: Stats, locale: &Locale) -> (reply:
    Reply)
    ensures
        reply.template matches Templates::UploadPage(name, total_notes, total_users, list)
            && name@ == chat.name_or("Unknown user"@) && total_notes@ == decimal(
            stats.total_videonotes as int,
        ) && total_users@ == decimal(stats.users.len() as int) && list == stats.users,
        reply.layout() == Some(keyboards::upload_page_layout(*catalog, None, *locale)),
        !reply.disable_web_page_preview,
{
    let total_notes = i64_to_string(stats.total_videonotes as i64);
    let total_users = u64_to_string(stats.users.len() as u64);
    Reply::page(
        Templates::UploadPage(chat.username_or("Unknown user"), total_notes, total_users, stats.users),
        keyboards::upload_page(catalog, None, locale),
        false,
    )
}

/// The page that closes the list of the notes of `user`: it says how many
/// notes were listed, and its keyboard offers to erase them all, carrying
/// the identifier of the user.
pub fn list_command(catalog: &Catalog, user: &User, count: usize, locale: &Locale) -> (reply:
    Reply)
    ensures
        reply.template matches Templates::ListPage(name, total_notes) && name@ == user.username@
            && total_notes@ == decimal(count as int),
        reply.layout() == Some(
            keyboards::list_notes_page_layout(
                *catalog,
                Some(PayloadView::UserId(user.id as int)),
                None,
                *locale,
            ),
        ),
        !reply.disable_web_page_preview,
{
    Reply::page(
        Templates::ListPage(user.username.clone(), u64_to_string(count as u64)),
        keyboards::list_notes_page(catalog, Some(Payload::UserId(user.id)), None, locale),
        false,
    )
}

/// The language page, shown without link previews.
pub fn language_command(catalog: &Catalog, locale: &Locale) -> (reply: Reply)
    ensures
        reply.template == Templates::LanguagePage,
        reply.layout() == Some(keyboards::language_page_layout(*catalog, *locale)),
        reply.disable_web_page_preview,
{
    Reply::page(Templates::LanguagePage, keyboards::language_page(catalog, locale), true)
}

/// The help page.
pub fn help_command(catalog: &Catalog, locale: &Locale) -> (reply: Reply)
    ensures
        reply.template == Templates::HelpPage,
        reply.layout() == Some(keyboards::help_page_layout(*catalog, None, None, *locale)),
        !reply.disable_web_page_preview,
{
    Reply::page(Templates::HelpPage, keyboards::help_page(catalog, None, None, locale), false)
}

/// The credits page, shown without link previews.
pub fn credits_command(catalog: &Catalog, locale: &Locale) -> (reply: Reply)
    ensures
        reply.template == Templates::CreditsPage,
        reply.layout() == Some(keyboards::credits_page_layout(*catalog, None, None, *locale)),
        reply.disable_web_page_preview,
{
    Reply::page(Templates::CreditsPage, keyboards::credits_page(catalog, None, None, locale), true)
}

/// The answer to a change of language: the start page in the language that
/// is now in force, shown without link previews.
pub fn set_language_command(catalog: &Catalog, chat: &Chat, locale: &Locale) -> (reply: Reply)
    ensures
        reply.template matches Templates::StartPage(name) && name@ == chat.name_or(
            "Unknown User"@,
        ),
        reply.layout() == Some(keyboards::start_page_layout(*catalog, *locale)),
        reply.disable_web_page_preview,
{
    Reply::page(
        Templates::StartPage(chat.username_or("Unknown User")),
        keyboards::start_page(catalog, locale),
        true,
    )
}

} // verus!
