//! The commands of the bot that serves the users, and the answer to each.

use crate::bot::keyboards;
use crate::catalog::Catalog;
use crate::locale::Locale;
use crate::reply::Reply;
use crate::stats::Stats;
use crate::templates::Templates;
use crate::text::{decimal, i64_to_string, str_eq, u64_to_string};
use crate::user::User;
use crate::utils::Chat;
use vstd::prelude::*;
use vstd::string::StringExecFns;

verus! {

/// A command of the bot.
#[derive(Debug, Clone, Copy, PartialEq, Eq, Structural)]
pub enum Command {
    Start,
    RandomNote,
    Extra,
    List,
    Language,
    Help,
    Credits,
}

/// The command that a text writes, if it writes one.
pub open spec fn command_of(text: Seq<char>) -> Option<Command> {
    if text == "/start"@ {
        Some(Command::Start)
    } else if text == "/ask_friend"@ {
        Some(Command::RandomNote)
    } else if text == "/extra"@ {
        Some(Command::Extra)
    } else if text == "/list"@ {
        Some(Command::List)
    } else if text == "/language"@ {
        Some(Command::Language)
    } else if text == "/help"@ {
        Some(Command::Help)
    } else if text == "/credits"@ {
        Some(Command::Credits)
    } else {
        None
    }
}

impl Command {
    /// Reads a command. A text that is none of the commands gives nothing.
    pub fn parse_str(cmd: &str) -> (command: Option<Command>)
        ensures
            command == command_of(cmd@),
    {
        if str_eq(cmd, "/start") {
            Some(Command::Start)
        } else if str_eq(cmd, "/ask_friend") {
            Some(Command::RandomNote)
        } else if str_eq(cmd, "/extra") {
            Some(Command::Extra)
        } else if str_eq(cmd, "/list") {
            Some(Command::List)
        } else if str_eq(cmd, "/language") {
            Some(Command::Language)
        } else if str_eq(cmd, "/help") {
            Some(Command::Help)
        } else if str_eq(cmd, "/credits") {
            Some(Command::Credits)
        } else {
            None
        }
    }
}

/// The start page for the user who writes in `chat`, with the keyboard of
/// the start page. A user without a name is greeted as `Unknown User`.
pub fn start_command(catalog: &Catalog, chat: &Chat, locale: &Locale) -> (reply: Reply)
    ensures
        reply.template matches Templates::StartPage(name) && name@ == chat.name_or(
            "Unknown User"@,
        ),
        reply.layout() == Some(keyboards::start_page_layout(*catalog, None, None, *locale)),
        !reply.disable_web_page_preview,
{
    Reply::page(
        Templates::StartPage(chat.username_or("Unknown User")),
        keyboards::start_page(catalog, None, None, locale),
        false,
    )
}

/// The answer to a request for a random note. Where a note was found,
/// `author` is its author, and the page that follows the note names the
/// author. Where the service has no note, there is no author, no note is
/// sent, and the answer is the error page.
pub fn random_note_command(catalog: &Catalog, author: Option<&User>, locale: &Locale) -> (reply:
    Reply)
    ensures
        match author {
            Some(user) => reply.template matches Templates::RandomNotePage(name) && name@
                == user.username@,
            None => reply.template == Templates::ErrorPage,
        },
        reply.layout() == Some(keyboards::random_note_page_layout(*catalog, None, *locale)),
        !reply.disable_web_page_preview,
{
    let template = match author {
        Some(user) => Templates::RandomNotePage(user.username.clone()),
        None => Templates::ErrorPage,
    };
    Reply::page(template, keyboards::random_note_page(catalog, None, locale), false)
}

/// The extra page: the statistics of the store, for the user who writes in
/// `chat`. A user without a name is shown as `Unknown user`.
pub fn extra_command(catalog: &Catalog, chat: &Chat, stats: Stats, locale: &Locale) -> (reply:
    Reply)
    ensures
        reply.template matches Templates::ExtraPage(name, total_notes, total_users, list)
            && name@ == chat.name_or("Unknown user"@) && total_notes@ == decimal(
            stats.total_videonotes as int,
        ) && total_users@ == decimal(stats.users.len() as int) && list == stats.users,
        reply.layout() == Some(keyboards::extra_page_layout(*catalog, None, None, None, *locale)),
        !reply.disable_web_page_preview,
{
    let total_notes = i64_to_string(stats.total_videonotes as i64);
    let total_users = u64_to_string(stats.users.len() as u64);
    Reply::page(
        Templates::ExtraPage(chat.username_or("Unknown user"), total_notes, total_users, stats.users),
        keyboards::extra_page(catalog, None, None, None, locale),
        false,
    )
}

/// The page that closes the list of the notes of `user`: it says how many
/// notes were listed.
pub fn list_command(catalog: &Catalog, user: &User, count: usize, locale: &Locale) -> (reply:
    Reply)
    ensures
        reply.template matches Templates::ListPage(name, total_notes) && name@ == user.username@
            && total_notes@ == decimal(count as int),
        reply.layout() == Some(keyboards::list_notes_page_layout(*catalog, None, None, *locale)),
        !reply.disable_web_page_preview,
{
    Reply::page(
        Templates::ListPage(user.username.clone(), u64_to_string(count as u64)),
        keyboards::list_notes_page(catalog, None, None, locale),
        false,
    )
}

/// The language page, shown without link previews.
pub fn language_command(catalog: &Catalog, locale: &Locale) -> (reply: Reply)
    ensures
        reply.template == Templates::LanguagePage,
        reply.layout() == Some(keyboards::language_page_layout(*catalog, *locale)),
        reply.disable_web_page_preview,
{
    Reply::page(Templates::LanguagePage, keyboards::language_page(catalog, locale), true)
}

/// The help page.
pub fn help_command(catalog: &Catalog, locale: &Locale) -> (reply: Reply)
    ensures
        reply.template == Templates::HelpPage,
        reply.layout() == Some(keyboards::help_page_layout(*catalog, None, None, *locale)),
        !reply.disable_web_page_preview,
{
    Reply::page(Templates::HelpPage, keyboards::help_page(catalog, None, None, locale), false)
}

/// The credits page, shown without link previews.
pub fn credits_command(catalog: &Catalog, locale: &Locale) -> (reply: Reply)
    ensures
        reply.template == Templates::CreditsPage,
        reply.layout() == Some(keyboards::credits_page_layout(*catalog, None, None, *locale)),
        reply.disable_web_page_preview,
{
    Reply::page(Templates::CreditsPage, keyboards::credits_page(catalog, None, None, locale), true)
}

/// The answer to a change of language: the start page in the language that
/// is now in force, shown without link previews.
pub fn set_language_command(catalog: &Catalog, chat: &Chat, locale: &Locale) -> (reply: Reply)
    ensures
        reply.template matches Templates::StartPage(name) && name@ == chat.name_or(
            "Unknown User"@,
        ),
        reply.layout() == Some(keyboards::start_page_layout(*catalog, None, None, *locale)),
        reply.disable_web_page_preview,
{
    Reply::page(
        Templates::StartPage(chat.username_or("Unknown User")),
        keyboards::start_page(catalog, None, None, locale),
        true,
    )
}

} // verus!
