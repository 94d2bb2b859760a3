//! What the bots ask of the REST service: the addresses of its endpoints and
//! the bodies of the requests.

use crate::locale::{locale_of_code, Locale};
use crate::note::NewNote;
use crate::text::{decimal, i64_to_string};
use crate::user::{clone_optional_text, optional_text, NewUser};
use crate::utils::Chat;
use vstd::prelude::*;
use vstd::string::StringExecFns;

verus! {

/// The address under which the REST service listens.
pub open spec fn api_root() -> Seq<char> {
    "http://0.0.0.0:1989"@
}

fn endpoint(path: &str) -> (url: String)
    ensures
        url@ == api_root() + path@,
{
    String::from_str("http://0.0.0.0:1989").concat(path)
}

fn endpoint_of(path: &str, id: i64) -> (url: String)
    ensures
        url@ == api_root() + path@ + decimal(id as int),
{
    endpoint(path).concat(i64_to_string(id).as_str())
}

/// The address of the users: `GET` lists them, `POST` creates one.
pub fn users_url() -> (url: String)
    ensures
        url@ == api_root() + "/api/users"@,
{
    endpoint("/api/users")
}

/// The address of the user `user_id`.
pub fn get_user_by_id_url(user_id: i64) -> (url: String)
    ensures
        url@ == api_root() + "/api/users/"@ + decimal(user_id as int),
{
    endpoint_of("/api/users/", user_id)
}

/// The address of the user with the Telegram identifier of the one who
/// writes in `user`.
pub fn get_user_by_telegram_id_url(user: &Chat) -> (url: String)
    ensures
        url@ == api_root() + "/api/users/telegram/"@ + decimal(user.id as int),
{
    endpoint_of("/api/users/telegram/", user.id)
}

/// The address of the locale of the user `user_id`.
pub fn user_locale_url(user_id: i64) -> (url: String)
    ensures
        url@ == api_root() + "/api/locale/"@ + decimal(user_id as int),
{
    endpoint_of("/api/locale/", user_id)
}

/// The address of the notes: `POST` creates one.
pub fn notes_url() -> (url: String)
    ensures
        url@ == api_root() + "/api/notes"@,
{
    endpoint("/api/notes")
}

/// The address of a random note.
pub fn random_note_url() -> (url: String)
    ensures
        url@ == api_root() + "/api/notes/random"@,
{
    endpoint("/api/notes/random")
}

/// The address of the note `note_id`.
pub fn note_url(note_id: i64) -> (url: String)
    ensures
        url@ == api_root() + "/api/notes/"@ + decimal(note_id as int),
{
    endpoint_of("/api/notes/", note_id)
}

/// The address of the notes of the user `user_id`: `GET` lists them,
/// `DELETE` removes them all.
pub fn user_notes_url(user_id: i64) -> (url: String)
    ensures
        url@ == api_root() + "/api/notes/user/"@ + decimal(user_id as int),
{
    endpoint_of("/api/notes/user/", user_id)
}

/// The address of the statistics of the store.
pub fn stats_url() -> (url: String)
    ensures
        url@ == api_root() + "/api/stats"@,
{
    endpoint("/api/stats")
}

/// The address of the statistics of the user `user_id`.
pub fn user_stats_url(user_id: i64) -> (url: String)
    ensures
        url@ == api_root() + "/api/stats/user/"@ + decimal(user_id as int),
{
    endpoint_of("/api/stats/user/", user_id)
}

/// The user that is created for the one who writes in `user`. A user
/// without a name is named by the Telegram identifier in decimal notation;
/// the first name is the same as the name. The locale is the one that
/// `default_locale` selects.
pub fn new_user(user: &Chat, default_locale: &str) -> (created: NewUser)
    ensures
        created.telegram_id == user.id,
        created.username@ == user.stored_name(),
        created.first_name@ == user.stored_name(),
        optional_text(created.last_name) == optional_text(user.last_name),
        created.locale == Some(locale_of_code(default_locale@)),
{
    NewUser {
        telegram_id: user.id,
        username: user.stored_username(),
        first_name: user.stored_username(),
        last_name: clone_optional_text(&user.last_name),
        locale: Some(Locale::from_str(default_locale)),
    }
}

/// The note that is registered for the file `file_id` of the user
/// `user_id`.
pub fn new_note(user_id: i64, file_id: &str) -> (created: NewNote)
    ensures
        created.user_id == user_id,
        created.file_name@ == file_id@ + ".mpeg"@,
{
    NewNote { user_id, file_name: crate::utils::get_vnote_filename(file_id) }
}

} // verus!
