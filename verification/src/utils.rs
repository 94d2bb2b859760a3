//! Where the files of the video notes lie: one folder for each user, named by
//! the user's Telegram identifier and name.

use crate::note::Note;
use crate::text::{decimal, i64_to_string};
use crate::user::User;
use vstd::prelude::*;
use vstd::string::StringExecFns;

verus! {

/// What the bots read of a chat: who writes.
#[derive(Debug, PartialEq, Eq)]
pub struct Chat {
    pub id: i64,
    pub username: Option<String>,
    pub last_name: Option<String>,
}

impl Chat {
    /// The name of the user, or `default` for a user without a name.
    pub open spec fn name_or(self, default: Seq<char>) -> Seq<char> {
        match self.username {
            Some(name) => name@,
            None => default,
        }
    }

    /// The name of the user, or `default` for a user without a name.
    pub fn username_or(&self, default: &str) -> (name: String)
        ensures
            name@ == self.name_or(default@),
    {
        match &self.username {
            Some(name) => name.clone(),
            None => String::from_str(default),
        }
    }

    /// The name under which the user is stored: the user's name, or the
    /// Telegram identifier in decimal notation for a user without a name.
    pub open spec fn stored_name(self) -> Seq<char> {
        self.name_or(decimal(self.id as int))
    }

    /// The name under which the user is stored.
    pub fn stored_username(&self) -> (name: String)
        ensures
            name@ == self.stored_name(),
    {
        let id = i64_to_string(self.id);
        self.username_or(id.as_str())
    }
}

/// The folder of a user below the storage root `root`.
pub open spec fn folder_path(root: Seq<char>, telegram_id: int, username: Seq<char>) -> Seq<char> {
    root + "videonotes/"@ + decimal(telegram_id) + "_"@ + username
}

/// The storage root: the configured one, or `_EXTRA/` where none is
/// configured.
pub open spec fn root_or_default(root: Option<&str>) -> Seq<char> {
    match root {
        Some(path) => path@,
        None => "_EXTRA/"@,
    }
}

/// The folder of the two users that every store starts with.
pub open spec fn seed_folder(telegram_id: int, username: Seq<char>) -> Seq<char> {
    folder_path("../_common_data/"@, telegram_id, username)
}

/// The path of the file of a note: the file's name in the folder of the
/// note's author. The notes of the first two users lie in the seed folders.
pub open spec fn note_path(
    root: Seq<char>,
    telegram_id: int,
    username: Seq<char>,
    note_user_id: int,
    file_name: Seq<char>,
) -> Seq<char> {
    let folder = if note_user_id == 1 || note_user_id == 2 {
        seed_folder(telegram_id, username)
    } else {
        folder_path(root, telegram_id, username)
    };
    folder + "/"@ + file_name
}

fn folder(root: &str, telegram_id: i64, username: &str) -> (path: String)
    ensures
        path@ == folder_path(root@, telegram_id as int, username@),
{
    let mut path = String::from_str(root);
    path.append("videonotes/");
    path.append(i64_to_string(telegram_id).as_str());
    path.append("_");
    path.append(username);
    path
}

fn root_of(root: Option<&str>) -> (path: &str)
    ensures
        path@ == root_or_default(root),
{
    match root {
        Some(path) => path,
        None => "_EXTRA/",
    }
}

/// The folder of the user who writes in `user`, below the configured storage
/// root. The folder is named by the name under which the user is stored, so
/// that it is the folder of the stored user too.
pub fn get_user_folder_path(root: Option<&str>, user: &Chat) -> (path: String)
    ensures
        path@ == folder_path(root_or_default(root), user.id as int, user.stored_name()),
{
    let name = user.stored_username();
    folder(root_of(root), user.id, name.as_str())
}

/// The folder of a stored user, below the configured storage root.
pub fn get_user_folder_path_by_user(root: Option<&str>, user: &User) -> (path: String)
    ensures
        path@ == folder_path(root_or_default(root), user.telegram_id as int, user.username@),
{
    folder(root_of(root), user.telegram_id, user.username.as_str())
}

/// The name of the file of a video note: the identifier that Telegram gave
/// the file, with the extension `.mpeg`.
pub fn get_vnote_filename(file_id: &str) -> (name: String)
    ensures
        name@ == file_id@ + ".mpeg"@,
{
    String::from_str(file_id).concat(".mpeg")
}

/// The path of the file of `note`, whose author is `author`.
pub fn get_vnote_path(root: Option<&str>, author: &User, note: &Note) -> (path: String)
    ensures
        path@ == note_path(
            root_or_default(root),
            author.telegram_id as int,
            author.username@,
            note.user_id as int,
            note.file_name@,
        ),
{
    let mut path = if note.user_id == 1 || note.user_id == 2 {
        folder("../_common_data/", author.telegram_id, author.username.as_str())
    } else {
        get_user_folder_path_by_user(root, author)
    };
    path.append("/");
    path.append(note.file_name.as_str());
    path
}

/// One folder for each user: the folder into which the notes of a chat are
/// uploaded is the folder from which the notes of the user stored for that
/// chat are sent.
pub proof fn lemma_one_folder_per_user(root: Option<&str>, chat: Chat, user: User)
    requires
        user.telegram_id == chat.id,
        user.username@ == chat.stored_name(),
    ensures
        folder_path(root_or_default(root), chat.id as int, chat.stored_name()) == folder_path(
            root_or_default(root),
            user.telegram_id as int,
            user.username@,
        ),
{
}

} // verus!
