//! The pages that the bots send: each is a text of the catalog, chosen by
//! locale, with the values of the page put in place of its placeholders.

use crate::catalog::{names_view, values_view, Catalog};
use crate::stats::{user_stats_views, UserStats, UserStatsView};
use crate::text::{decimal, i64_to_string, str_eq};
use vstd::prelude::*;
use vstd::string::StringExecFns;

verus! {

/// Who made the bot and where its code lives: what the credits page and the
/// language page show.
#[derive(Debug, PartialEq, Eq)]
pub struct Credits {
    pub author: String,
    pub profile_name: String,
    pub profile_url: String,
    pub repo_url: String,
}

/// A page together with the values that it shows.
#[derive(Debug, PartialEq, Eq)]
pub enum Templates {
    LoadingPage,
    StartPage(String),
    RandomNotePage(String),
    DeleteNotePage(String),
    SuccessDeleteNotePage(String),
    ErrorDeleteNotePage,
    ExtraPage(String, String, String, Vec<UserStats>),
    UploadPage(String, String, String, Vec<UserStats>),
    SuccessUploadPage,
    ErrorUploadPage,
    ListPage(String, String),
    EraseAllNotesPage(String),
    SuccessEraseAllNotesPage(String),
    ErrorEraseAllNotesPage,
    LanguagePage,
    HelpPage,
    CreditsPage,
    UnsupportedInputPage(String),
    ErrorPage,
}

/// No names, for a page without values.
pub open spec fn no_args() -> Seq<Seq<char>> {
    Seq::empty()
}

/// The text of a page without values.
pub open spec fn plain_page(catalog: Catalog, locale: Seq<char>, key: Seq<char>) -> Seq<char> {
    catalog.page(locale, key, no_args(), no_args())
}

/// The text of a page with one value.
pub open spec fn page_with(
    catalog: Catalog,
    locale: Seq<char>,
    key: Seq<char>,
    name: Seq<char>,
    value: Seq<char>,
) -> Seq<char> {
    catalog.page(locale, key, seq![name], seq![value])
}

/// The line of the statistics list for one user.
pub open spec fn stat_entry(catalog: Catalog, locale: Seq<char>, stat: UserStatsView) -> Seq<
    char,
> {
    catalog.page(
        locale,
        "extra_page_stat_entry"@,
        seq!["user"@, "user_total_notes"@],
        seq![stat.username, decimal(stat.videonotes)],
    )
}

/// The statistics list: the lines of the users, one after the other.
pub open spec fn stat_entries(catalog: Catalog, locale: Seq<char>, stats: Seq<UserStatsView>) -> Seq<
    char,
>
    decreases stats.len(),
{
    if stats.len() == 0 {
        Seq::empty()
    } else {
        stat_entries(catalog, locale, stats.drop_last()) + stat_entry(catalog, locale, stats.last())
    }
}

/// The text of a page that shows the statistics of the store: the extra page
/// and the upload page.
pub open spec fn stats_page(
    catalog: Catalog,
    locale: Seq<char>,
    key: Seq<char>,
    user: Seq<char>,
    total_notes: Seq<char>,
    total_users: Seq<char>,
    stats: Seq<UserStatsView>,
) -> Seq<char> {
    catalog.page(
        locale,
        key,
        seq!["user"@, "total_notes"@, "total_users"@, "user_videonotes_list"@],
        seq![user, total_notes, total_users, stat_entries(catalog, locale, stats)],
    )
}

/// The key of the name of a kind of media that the bots do not take, or
/// nothing for any other kind of input.
pub open spec fn media_key(input_type: Seq<char>) -> Option<Seq<char>> {
    if input_type == "photo"@ {
        Some("unsupported_page.media.photo"@)
    } else if input_type == "video"@ {
        Some("unsupported_page.media.video"@)
    } else if input_type == "voice"@ {
        Some("unsupported_page.media.voice"@)
    } else if input_type == "audio"@ {
        Some("unsupported_page.media.audio"@)
    } else if input_type == "document"@ {
        Some("unsupported_page.media.document"@)
    } else {
        None
    }
}

/// The text of the page that answers an input which the bots do not take.
pub open spec fn unsupported_text(catalog: Catalog, locale: Seq<char>, input_type: Seq<char>) -> Seq<
    char,
> {
    match media_key(input_type) {
        Some(key) => page_with(
            catalog,
            locale,
            "unsupported_page"@,
            "media_type"@,
            plain_page(catalog, locale, key),
        ),
        None => plain_page(catalog, locale, "unsupported_page.other_media"@),
    }
}

/// The text of the credits page.
pub open spec fn credits_text(catalog: Catalog, locale: Seq<char>, credits: Credits) -> Seq<char> {
    catalog.page(
        locale,
        "credits_page"@,
        seq!["author"@, "profile_name"@, "profile_url"@, "repo_url"@],
        seq![credits.author@, credits.profile_name@, credits.profile_url@, credits.repo_url@],
    )
}

/// The text of the page that lists the notes of a user.
pub open spec fn list_text(
    catalog: Catalog,
    locale: Seq<char>,
    user: Seq<char>,
    total_notes: Seq<char>,
) -> Seq<char> {
    catalog.page(locale, "list_page"@, seq!["user"@, "total_notes"@], seq![user, total_notes])
}

fn plain(catalog: &Catalog, locale: &str, key: &str) -> (page: String)
    ensures
        page@ == plain_page(*catalog, locale@, key@),
{
    let names: Vec<&str> = Vec::new();
    let values: Vec<String> = Vec::new();
    assert(names_view(names@) =~= no_args());
    assert(values_view(values@) =~= no_args());
    catalog.render(locale, key, &names, &values)
}

fn with_value(catalog: &Catalog, locale: &str, key: &str, name: &str, value: &str) -> (page:
    String)
    ensures
        page@ == page_with(*catalog, locale@, key@, name@, value@),
{
    let mut names: Vec<&str> = Vec::new();
    names.push(name);
    let mut values: Vec<String> = Vec::new();
    values.push(String::from_str(value));
    assert(names_view(names@) =~= seq![name@]);
    assert(values_view(values@) =~= seq![value@]);
    catalog.render(locale, key, &names, &values)
}

/// The start page, which greets the user by name.
pub fn start_page(catalog: &Catalog, user: &str, locale: &str) -> (page: String)
    ensures
        page@ == page_with(*catalog, locale@, "start_page"@, "user"@, user@),
{
    with_value(catalog, locale, "start_page", "user", user)
}

/// The page that follows a random note and names its author.
pub fn random_note_page(catalog: &Catalog, user: &str, locale: &str) -> (page: String)
    ensures
        page@ == page_with(*catalog, locale@, "random_note_page"@, "user"@, user@),
{
    with_value(catalog, locale, "random_note_page", "user", user)
}

/// The page that asks whether the note `note_id` shall be deleted.
pub fn delete_note_page(catalog: &Catalog, note_id: &str, locale: &str) -> (page: String)
    ensures
        page@ == page_with(*catalog, locale@, "delete_note_page"@, "note_id"@, note_id@),
{
    with_value(catalog, locale, "delete_note_page", "note_id", note_id)
}

/// The page that reports that the note `note_id` was deleted.
pub fn success_delete_note_page(catalog: &Catalog, note_id: &str, locale: &str) -> (page: String)
    ensures
        page@ == page_with(*catalog, locale@, "success_delete_note_page"@, "note_id"@, note_id@),
{
    with_value(catalog, locale, "success_delete_note_page", "note_id", note_id)
}

/// The page that reports that a note could not be deleted.
pub fn error_delete_note_page(catalog: &Catalog, locale: &str) -> (page: String)
    ensures
        page@ == plain_page(*catalog, locale@, "error_delete_note_page"@),
{
    plain(catalog, locale, "error_delete_note_page")
}

/// The page that is shown while an answer is prepared.
pub fn loading_page(catalog: &Catalog, locale: &str) -> (page: String)
    ensures
        page@ == plain_page(*catalog, locale@, "loading_page"@),
{
    plain(catalog, locale, "loading_page")
}

fn stats_list(catalog: &Catalog, list: &Vec<UserStats>, locale: &str) -> (lines: String)
    ensures
        lines@ == stat_entries(*catalog, locale@, user_stats_views(list@)),
{
    let ghost all = user_stats_views(list@);
    let mut lines = String::new();
    let mut i: usize = 0;
    assert(all.subrange(0, 0) =~= Seq::<UserStatsView>::empty());
    while i < list.len()
        invariant
            i <= list.len(),
            all == user_stats_views(list@),
            lines@ == stat_entries(*catalog, locale@, all.subrange(0, i as int)),
        decreases list.len() - i,
    {
        let stat = &list[i];
        let mut names: Vec<&str> = Vec::new();
        names.push("user");
        names.push("user_total_notes");
        let mut values: Vec<String> = Vec::new();
        values.push(stat.username.clone());
        values.push(i64_to_string(stat.videonotes));
        assert(names_view(names@) =~= seq!["user"@, "user_total_notes"@]);
        assert(values_view(values@) =~= seq![stat@.username, decimal(stat@.videonotes)]);
        let entry = catalog.render(locale, "extra_page_stat_entry", &names, &values);
        let ghost before = all.subrange(0, i as int);
        let ghost after = all.subrange(0, i + 1);
        assert(after.drop_last() =~= before);
        assert(after.last() == stat@);
        lines.append(entry.as_str());
        i = i + 1;
    }
    assert(all.subrange(0, i as int) =~= all);
    lines
}

fn page_of_stats(
    catalog: &Catalog,
    key: &str,
    user: &str,
    total_notes: &str,
    total_users: &str,
    user_videonotes_list: &Vec<UserStats>,
    locale: &str,
) -> (page: String)
    ensures
        page@ == stats_page(
            *catalog,
            locale@,
            key@,
            user@,
            total_notes@,
            total_users@,
            user_stats_views(user_videonotes_list@),
        ),
{
    let lines = stats_list(catalog, user_videonotes_list, locale);
    let mut names: Vec<&str> = Vec::new();
    names.push("user");
    names.push("total_notes");
    names.push("total_users");
    names.push("user_videonotes_list");
    let mut values: Vec<String> = Vec::new();
    values.push(String::from_str(user));
    values.push(String::from_str(total_notes));
    values.push(String::from_str(total_users));
    values.push(lines);
    assert(names_view(names@) =~= seq![
        "user"@,
        "total_notes"@,
        "total_users"@,
        "user_videonotes_list"@,
    ]);
    assert(values_view(values@) =~= seq![
        user@,
        total_notes@,
        total_users@,
        stat_entries(*catalog, locale@, user_stats_views(user_videonotes_list@)),
    ]);
    catalog.render(locale, key, &names, &values)
}

/// The extra page: the totals of the store and one line for each user.
pub fn extra_page(
    catalog: &Catalog,
    user: &str,
    total_notes: &str,
    total_users: &str,
    user_videonotes_list: &Vec<UserStats>,
    locale: &str,
) -> (page: String)
    ensures
        page@ == stats_page(
            *catalog,
            locale@,
            "extra_page"@,
            user@,
            total_notes@,
            total_users@,
            user_stats_views(user_videonotes_list@),
        ),
{
    page_of_stats(
        catalog,
        "extra_page",
        user,
        total_notes,
        total_users,
        user_videonotes_list,
        locale,
    )
}

/// The upload page: the totals of the store and one line for each user.
pub fn upload_page(
    catalog: &Catalog,
    user: &str,
    total_notes: &str,
    total_users: &str,
    user_videonotes_list: &Vec<UserStats>,
    locale: &str,
) -> (page: String)
    ensures
        page@ == stats_page(
            *catalog,
            locale@,
            "upload_page"@,
            user@,
            total_notes@,
            total_users@,
            user_stats_views(user_videonotes_list@),
        ),
{
    page_of_stats(
        catalog,
        "upload_page",
        user,
        total_notes,
        total_users,
        user_videonotes_list,
        locale,
    )
}

/// The page that reports that a note was uploaded.
pub fn success_upload_page(catalog: &Catalog, locale: &str) -> (page: String)
    ensures
        page@ == plain_page(*catalog, locale@, "success_upload_page"@),
{
    plain(catalog, locale, "success_upload_page")
}

/// The page that reports that a note could not be uploaded.
pub fn error_upload_page(catalog: &Catalog, locale: &str) -> (page: String)
    ensures
        page@ == plain_page(*catalog, locale@, "error_upload_page"@),
{
    plain(catalog, locale, "error_upload_page")
}

/// The page that closes the list of a user's notes and says how many there
/// are.
pub fn list_page(catalog: &Catalog, user: &str, total_notes: &str, locale: &str) -> (page: String)
    ensures
        page@ == list_text(*catalog, locale@, user@, total_notes@),
{
    let mut names: Vec<&str> = Vec::new();
    names.push("user");
    names.push("total_notes");
    let mut values: Vec<String> = Vec::new();
    values.push(String::from_str(user));
    values.push(String::from_str(total_notes));
    assert(names_view(names@) =~= seq!["user"@, "total_notes"@]);
    assert(values_view(values@) =~= seq![user@, total_notes@]);
    catalog.render(locale, "list_page", &names, &values)
}

/// The page that asks whether all notes of the user `user_id` shall be
/// deleted.
pub fn erase_all_notes_page(catalog: &Catalog, user_id: &str, locale: &str) -> (page: String)
    ensures
        page@ == page_with(*catalog, locale@, "erase_all_notes_page"@, "user_id"@, user_id@),
{
    with_value(catalog, locale, "erase_all_notes_page", "user_id", user_id)
}

/// The page that reports that all notes of a user were deleted.
pub fn success_erase_all_notes_page(catalog: &Catalog, note_id: &str, locale: &str) -> (page:
    String)
    ensures
        page@ == page_with(
            *catalog,
            locale@,
            "success_erase_all_notes_page"@,
            "note_id"@,
            note_id@,
        ),
{
    with_value(catalog, locale, "success_erase_all_notes_page", "note_id", note_id)
}

/// The page that reports that the notes of a user could not be deleted.
pub fn error_erase_all_notes_page(catalog: &Catalog, locale: &str) -> (page: String)
    ensures
        page@ == plain_page(*catalog, locale@, "error_erase_all_notes_page"@),
{
    plain(catalog, locale, "error_erase_all_notes_page")
}

/// The credits page: the author, the author's profile, and the repository.
pub fn credits_page(
    catalog: &Catalog,
    author: &str,
    profile_name: &str,
    profile_url: &str,
    repo_url: &str,
    locale: &str,
) -> (page: String)
    ensures
        page@ == catalog.page(
            locale@,
            "credits_page"@,
            seq!["author"@, "profile_name"@, "profile_url"@, "repo_url"@],
            seq![author@, profile_name@, profile_url@, repo_url@],
        ),
{
    let mut names: Vec<&str> = Vec::new();
    names.push("author");
    names.push("profile_name");
    names.push("profile_url");
    names.push("repo_url");
    let mut values: Vec<String> = Vec::new();
    values.push(String::from_str(author));
    values.push(String::from_str(profile_name));
    values.push(String::from_str(profile_url));
    values.push(String::from_str(repo_url));
    assert(names_view(names@) =~= seq![
        "author"@,
        "profile_name"@,
        "profile_url"@,
        "repo_url"@,
    ]);
    assert(values_view(values@) =~= seq![author@, profile_name@, profile_url@, repo_url@]);
    catalog.render(locale, "credits_page", &names, &values)
}

/// The page on which the user picks a language.
pub fn language_page(catalog: &Catalog, repo_url: &str, locale: &str) -> (page: String)
    ensures
        page@ == page_with(*catalog, locale@, "language_page"@, "repo_url"@, repo_url@),
{
    with_value(catalog, locale, "language_page", "repo_url", repo_url)
}

/// The page that reports that what was asked for could not be found or
/// done.
pub fn error_page(catalog: &Catalog, locale: &str) -> (page: String)
    ensures
        page@ == plain_page(*catalog, locale@, "error_page"@),
{
    plain(catalog, locale, "error_page")
}

/// The help page.
pub fn help_page(catalog: &Catalog, locale: &str) -> (page: String)
    ensures
        page@ == plain_page(*catalog, locale@, "help_page"@),
{
    plain(catalog, locale, "help_page")
}

/// The page that answers an input which the bots do not take. Media of a
/// known kind are named in the answer; any other input gets a general
/// answer.
pub fn unsupported_input_page(catalog: &Catalog, input_type: &str, locale: &str) -> (page: String)
    ensures
        page@ == unsupported_text(*catalog, locale@, input_type@),
{
    let key = if str_eq(input_type, "photo") {
        Some("unsupported_page.media.photo")
    } else if str_eq(input_type, "video") {
        Some("unsupported_page.media.video")
    } else if str_eq(input_type, "voice") {
        Some("unsupported_page.media.voice")
    } else if str_eq(input_type, "audio") {
        Some("unsupported_page.media.audio")
    } else if str_eq(input_type, "document") {
        Some("unsupported_page.media.document")
    } else {
        None
    };
    match key {
        Some(key) => {
            let media = plain(catalog, locale, key);
            with_value(catalog, locale, "unsupported_page", "media_type", media.as_str())
        },
        None => plain(catalog, locale, "unsupported_page.other_media"),
    }
}

impl Templates {
    /// The text of the page for `locale`.
    pub open spec fn rendered(self, catalog: Catalog, credits: Credits, locale: Seq<char>) -> Seq<
        char,
    > {
        match self {
            Templates::LoadingPage => plain_page(catalog, locale, "loading_page"@),
            Templates::StartPage(user) => page_with(
                catalog,
                locale,
                "start_page"@,
                "user"@,
                user@,
            ),
            Templates::RandomNotePage(user) => page_with(
                catalog,
                locale,
                "random_note_page"@,
                "user"@,
                user@,
            ),
            Templates::DeleteNotePage(note_id) => page_with(
                catalog,
                locale,
                "delete_note_page"@,
                "note_id"@,
                note_id@,
            ),
            Templates::SuccessDeleteNotePage(note_id) => page_with(
                catalog,
                locale,
                "success_delete_note_page"@,
                "note_id"@,
                note_id@,
            ),
            Templates::ErrorDeleteNotePage => plain_page(
                catalog,
                locale,
                "error_delete_note_page"@,
            ),
            Templates::ExtraPage(user, total_notes, total_users, list) => stats_page(
                catalog,
                locale,
                "extra_page"@,
                user@,
                total_notes@,
                total_users@,
                user_stats_views(list@),
            ),
            Templates::UploadPage(user, total_notes, total_users, list) => stats_page(
                catalog,
                locale,
                "upload_page"@,
                user@,
                total_notes@,
                total_users@,
                user_stats_views(list@),
            ),
            Templates::SuccessUploadPage => plain_page(catalog, locale, "success_upload_page"@),
            Templates::ErrorUploadPage => plain_page(catalog, locale, "error_upload_page"@),
            Templates::ListPage(user, total_notes) => list_text(
                catalog,
                locale,
                user@,
                total_notes@,
            ),
            Templates::EraseAllNotesPage(user_id) => page_with(
                catalog,
                locale,
                "erase_all_notes_page"@,
                "user_id"@,
                user_id@,
            ),
            Templates::SuccessEraseAllNotesPage(note_id) => page_with(
                catalog,
                locale,
                "success_erase_all_notes_page"@,
                "note_id"@,
                note_id@,
            ),
            Templates::ErrorEraseAllNotesPage => plain_page(
                catalog,
                locale,
                "error_erase_all_notes_page"@,
            ),
            Templates::LanguagePage => page_with(
                catalog,
                locale,
                "language_page"@,
                "repo_url"@,
                credits.repo_url@,
            ),
            Templates::HelpPage => plain_page(catalog, locale, "help_page"@),
            Templates::CreditsPage => credits_text(catalog, locale, credits),
            Templates::UnsupportedInputPage(input) => unsupported_text(catalog, locale, input@),
            Templates::ErrorPage => plain_page(catalog, locale, "error_page"@),
        }
    }

    /// Renders the page for `locale`: the text that the catalog holds for the
    /// page, with the values of the page in place of its placeholders.
    pub fn render(&self, locale: &str, catalog: &Catalog, credits: &Credits) -> (page: String)
        ensures
            page@ == self.rendered(*catalog, *credits, locale@),
    {
        match self {
            Templates::LoadingPage => loading_page(catalog, locale),
            Templates::StartPage(user) => start_page(catalog, user.as_str(), locale),
            Templates::RandomNotePage(user) => random_note_page(catalog, user.as_str(), locale),
            Templates::DeleteNotePage(note_id) => delete_note_page(
                catalog,
                note_id.as_str(),
                locale,
            ),
            Templates::SuccessDeleteNotePage(note_id) => success_delete_note_page(
                catalog,
                note_id.as_str(),
                locale,
            ),
            Templates::ErrorDeleteNotePage => error_delete_note_page(catalog, locale),
            Templates::ExtraPage(user, total_notes, total_users, list) => extra_page(
                catalog,
                user.as_str(),
                total_notes.as_str(),
                total_users.as_str(),
                list,
                locale,
            ),
            Templates::UploadPage(user, total_notes, total_users, list) => upload_page(
                catalog,
                user.as_str(),
                total_notes.as_str(),
                total_users.as_str(),
                list,
                locale,
            ),
            Templates::SuccessUploadPage => success_upload_page(catalog, locale),
            Templates::ErrorUploadPage => error_upload_page(catalog, locale),
            Templates::ListPage(user, total_notes) => list_page(
                catalog,
                user.as_str(),
                total_notes.as_str(),
                locale,
            ),
            Templates::EraseAllNotesPage(user_id) => erase_all_notes_page(
                catalog,
                user_id.as_str(),
                locale,
            ),
            Templates::SuccessEraseAllNotesPage(note_id) => success_erase_all_notes_page(
                catalog,
                note_id.as_str(),
                locale,
            ),
            Templates::ErrorEraseAllNotesPage => error_erase_all_notes_page(catalog, locale),
            Templates::LanguagePage => language_page(catalog, credits.repo_url.as_str(), locale),
            Templates::HelpPage => help_page(catalog, locale),
            Templates::CreditsPage => credits_page(
                catalog,
                credits.author.as_str(),
                credits.profile_name.as_str(),
                credits.profile_url.as_str(),
                credits.repo_url.as_str(),
                locale,
            ),
            Templates::UnsupportedInputPage(input) => unsupported_input_page(
                catalog,
                input.as_str(),
                locale,
            ),
            Templates::ErrorPage => error_page(catalog, locale),
        }
    }
}

} // verus!
