//! A model of the two tables of the REST service, held in memory: users and
//! their notes, with one operation for each endpoint. The service itself
//! keeps its records in a database; this model says what each of its
//! operations returns and changes, and the laws of the tables are proved of
//! it.
//!
//! The model keeps its records in the order of their identifiers. A new
//! record gets the identifier that follows the greatest one in use, and a
//! note can only belong to a user that exists.

use crate::error::Error;
use crate::locale::{is_supported_code, lemma_supported_code_is_kept, locale_of_code, Locale};
use crate::note::{NewNote, Note, NoteView};
use crate::stats::{sum_videonotes, user_stats_views, Stats, UserStats, UserStatsView};
use crate::text::str_eq;
use crate::user::{clone_optional_text, NewUser, User, UserView};
use vstd::prelude::*;
use vstd::string::StringExecFns;

verus! {

/// What a store holds: its users and its notes, each in the order of their
/// identifiers.
pub struct StoreView {
    pub users: Seq<UserView>,
    pub notes: Seq<NoteView>,
}

/// The views of a list of users.
pub open spec fn user_views(list: Seq<User>) -> Seq<UserView> {
    list.map_values(|u: User| u@)
}

/// The views of a list of notes.
pub open spec fn note_views(list: Seq<Note>) -> Seq<NoteView> {
    list.map_values(|n: Note| n@)
}

/// The user has the identifier `id`.
pub open spec fn user_has_id(id: int) -> spec_fn(UserView) -> bool {
    |u: UserView| u.id == id
}

/// The user has another identifier than `id`.
pub open spec fn user_has_other_id(id: int) -> spec_fn(UserView) -> bool {
    |u: UserView| u.id != id
}

/// The user has the name `username`.
pub open spec fn user_has_username(username: Seq<char>) -> spec_fn(UserView) -> bool {
    |u: UserView| u.username == username
}

/// The user has the Telegram identifier `telegram_id`.
pub open spec fn user_has_telegram_id(telegram_id: int) -> spec_fn(UserView) -> bool {
    |u: UserView| u.telegram_id == telegram_id
}

/// The note has the identifier `id`.
pub open spec fn note_has_id(id: int) -> spec_fn(NoteView) -> bool {
    |n: NoteView| n.id == id
}

/// The note has another identifier than `id`.
pub open spec fn note_has_other_id(id: int) -> spec_fn(NoteView) -> bool {
    |n: NoteView| n.id != id
}

/// The note belongs to the user `user_id`.
pub open spec fn note_owned_by(user_id: int) -> spec_fn(NoteView) -> bool {
    |n: NoteView| n.user_id == user_id
}

/// The note belongs to another user than `user_id`.
pub open spec fn note_not_owned_by(user_id: int) -> spec_fn(NoteView) -> bool {
    |n: NoteView| n.user_id != user_id
}

/// The first user of the list that meets the condition.
pub open spec fn first_user(users: Seq<UserView>, wanted: spec_fn(UserView) -> bool) -> Option<
    UserView,
>
    decreases users.len(),
{
    if users.len() == 0 {
        None
    } else if wanted(users[0]) {
        Some(users[0])
    } else {
        first_user(users.drop_first(), wanted)
    }
}

/// The first note of the list that meets the condition.
pub open spec fn first_note(notes: Seq<NoteView>, wanted: spec_fn(NoteView) -> bool) -> Option<
    NoteView,
>
    decreases notes.len(),
{
    if notes.len() == 0 {
        None
    } else if wanted(notes[0]) {
        Some(notes[0])
    } else {
        first_note(notes.drop_first(), wanted)
    }
}

/// Some user of the list has the identifier `id`.
pub open spec fn has_user(users: Seq<UserView>, id: int) -> bool {
    exists|i: int| 0 <= i < users.len() && (#[trigger] users[i]).id == id
}

/// The number of notes of the list that belong to the user `user_id`.
pub open spec fn count_owned(notes: Seq<NoteView>, user_id: int) -> nat {
    notes.filter(note_owned_by(user_id)).len()
}

/// The identifiers of the users grow along the list, from 1 or more.
pub open spec fn users_in_order(users: Seq<UserView>) -> bool {
    &&& forall|i: int| 0 <= i < users.len() ==> 1 <= (#[trigger] users[i]).id <= i64::MAX
    &&& forall|i: int, j: int|
        0 <= i < j < users.len() ==> (#[trigger] users[i]).id < (#[trigger] users[j]).id
}

/// The identifiers of the notes grow along the list, from 1 or more.
pub open spec fn notes_in_order(notes: Seq<NoteView>) -> bool {
    &&& forall|i: int| 0 <= i < notes.len() ==> 1 <= (#[trigger] notes[i]).id <= i64::MAX
    &&& forall|i: int, j: int|
        0 <= i < j < notes.len() ==> (#[trigger] notes[i]).id < (#[trigger] notes[j]).id
}

/// Every note of the list belongs to a user of the list.
pub open spec fn notes_have_owners(users: Seq<UserView>, notes: Seq<NoteView>) -> bool {
    forall|i: int| 0 <= i < notes.len() ==> has_user(users, (#[trigger] notes[i]).user_id)
}

impl StoreView {
    /// The rules that every store keeps: records in the order of their
    /// identifiers, and no note without its owner.
    pub open spec fn valid(self) -> bool {
        &&& users_in_order(self.users)
        &&& notes_in_order(self.notes)
        &&& notes_have_owners(self.users, self.notes)
    }

    /// The identifier that the next new user gets.
    pub open spec fn next_user_id(self) -> int {
        if self.users.len() == 0 {
            1
        } else {
            self.users.last().id + 1
        }
    }

    /// The identifier that the next new note gets.
    pub open spec fn next_note_id(self) -> int {
        if self.notes.len() == 0 {
            1
        } else {
            self.notes.last().id + 1
        }
    }

    /// The locale that is stored with the user `user_id`, or nothing where
    /// no such user exists.
    pub open spec fn locale_of(self, user_id: int) -> Option<Locale> {
        match first_user(self.users, user_has_id(user_id)) {
            Some(u) => Some(u.locale),
            None => None,
        }
    }

    /// The store after the locale of the user `user_id` was set to `locale`.
    pub open spec fn set_locale(self, user_id: int, locale: Locale) -> StoreView {
        StoreView { users: with_locale(self.users, user_id, locale), notes: self.notes }
    }

    /// The per-user statistics of the store: one entry for each user, in the
    /// order of the users.
    pub open spec fn user_stats(self) -> Seq<UserStatsView> {
        Seq::new(
            self.users.len(),
            |i: int|
                UserStatsView {
                    username: self.users[i].username,
                    videonotes: count_owned(self.notes, self.users[i].id) as int,
                },
        )
    }
}

/// The user `user` served under `locale`.
pub open spec fn relocated(user: UserView, locale: Locale) -> UserView {
    UserView { locale, ..user }
}

/// The users of `users` with the locale of the user `user_id` set to
/// `locale`.
pub open spec fn with_locale(users: Seq<UserView>, user_id: int, locale: Locale) -> Seq<UserView> {
    users.map_values(
        |u: UserView|
            if u.id == user_id {
                relocated(u, locale)
            } else {
                u
            },
    )
}

/// How `filter` treats the last element of a sequence.
pub proof fn lemma_filter_last<A>(s: Seq<A>, keep: spec_fn(A) -> bool)
    ensures
        s.len() == 0 ==> s.filter(keep) == Seq::<A>::empty(),
        s.len() > 0 ==> s.filter(keep) == if keep(s.last()) {
            s.drop_last().filter(keep).push(s.last())
        } else {
            s.drop_last().filter(keep)
        },
{
    reveal(Seq::filter);
    if s.len() == 0 {
        assert(s =~= Seq::<A>::empty());
    }
}

/// The record store.
pub struct Store {
    users: Vec<User>,
    notes: Vec<Note>,
}

impl View for Store {
    type V = StoreView;

    closed spec fn view(&self) -> StoreView {
        StoreView { users: user_views(self.users@), notes: note_views(self.notes@) }
    }
}

impl Store {
    /// The store keeps its rules.
    pub open spec fn wf(&self) -> bool {
        self@.valid()
    }

    /// A store without any record.
    pub fn new() -> (store: Store)
        ensures
            store.wf(),
            store@.users.len() == 0,
            store@.notes.len() == 0,
    {
        Store { users: Vec::new(), notes: Vec::new() }
    }
}

/// By what a user is looked up.
enum UserKey<'a> {
    /// By the identifier that the store gave.
    Id(i64),
    /// By name.
    Username(&'a str),
    /// By the identifier that Telegram gave.
    TelegramId(i64),
}

impl<'a> UserKey<'a> {
    /// The condition that the wanted user meets.
    spec fn wanted(self) -> spec_fn(UserView) -> bool {
        match self {
            UserKey::Id(id) => user_has_id(id as int),
            UserKey::Username(name) => user_has_username(name@),
            UserKey::TelegramId(id) => user_has_telegram_id(id as int),
        }
    }

    fn matches(&self, user: &User) -> (yes: bool)
        ensures
            yes == (self.wanted())(user@),
    {
        match self {
            UserKey::Id(id) => user.id == *id,
            UserKey::Username(name) => str_eq(user.username.as_str(), name),
            UserKey::TelegramId(id) => user.telegram_id == *id,
        }
    }
}

impl Store {
    fn find_user(&self, key: &UserKey) -> (found: Option<usize>)
        ensures
            match found {
                Some(i) => i < self.users.len() && first_user(self@.users, key.wanted()) == Some(
                    self.users[i as int]@,
                ) && (key.wanted())(self.users[i as int]@),
                None => first_user(self@.users, key.wanted()) is None && forall|j: int|
                    0 <= j < self@.users.len() ==> !(key.wanted())(#[trigger] self@.users[j]),
            },
    {
        let ghost all = self@.users;
        let mut i: usize = 0;
        assert(all.subrange(0, all.len() as int) =~= all);
        while i < self.users.len()
            invariant
                i <= self.users.len(),
                all == user_views(self.users@),
                first_user(all, key.wanted()) == first_user(
                    all.subrange(i as int, all.len() as int),
                    key.wanted(),
                ),
                forall|j: int| 0 <= j < i ==> !(key.wanted())(#[trigger] all[j]),
            decreases self.users.len() - i,
        {
            let ghost rest = all.subrange(i as int, all.len() as int);
            assert(rest[0] == self.users[i as int]@);
            assert(rest.drop_first() =~= all.subrange(i + 1, all.len() as int));
            if key.matches(&self.users[i]) {
                return Some(i);
            }
            i = i + 1;
        }
        None
    }

    fn find_note(&self, note_id: i64) -> (found: Option<usize>)
        ensures
            match found {
                Some(i) => i < self.notes.len() && first_note(
                    self@.notes,
                    note_has_id(note_id as int),
                ) == Some(self.notes[i as int]@),
                None => first_note(self@.notes, note_has_id(note_id as int)) is None,
            },
    {
        let ghost all = self@.notes;
        let ghost wanted = note_has_id(note_id as int);
        let mut i: usize = 0;
        assert(all.subrange(0, all.len() as int) =~= all);
        while i < self.notes.len()
            invariant
                i <= self.notes.len(),
                all == note_views(self.notes@),
                wanted == note_has_id(note_id as int),
                first_note(all, wanted) == first_note(
                    all.subrange(i as int, all.len() as int),
                    wanted,
                ),
            decreases self.notes.len() - i,
        {
            let ghost rest = all.subrange(i as int, all.len() as int);
            assert(rest[0] == self.notes[i as int]@);
            assert(rest.drop_first() =~= all.subrange(i + 1, all.len() as int));
            if self.notes[i].id == note_id {
                return Some(i);
            }
            i = i + 1;
        }
        None
    }

    fn lookup_user(&self, key: &UserKey) -> (result: Result<User, Error>)
        ensures
            match result {
                Ok(user) => first_user(self@.users, key.wanted()) == Some(user@),
                Err(e) => e is NotFound && first_user(self@.users, key.wanted()) is None,
            },
    {
        match self.find_user(key) {
            Some(i) => Ok(self.users[i].clone()),
            None => Err(Error::NotFound),
        }
    }

    /// All users, in the order of their identifiers.
    pub fn get_users_list(&self) -> (users: Vec<User>)
        ensures
            user_views(users@) == self@.users,
    {
        let mut users: Vec<User> = Vec::new();
        let mut i: usize = 0;
        while i < self.users.len()
            invariant
                i <= self.users.len(),
                users@.len() == i,
                user_views(users@) == user_views(self.users@).subrange(0, i as int),
            decreases self.users.len() - i,
        {
            let ghost before = user_views(users@);
            users.push(self.users[i].clone());
            i = i + 1;
            assert(user_views(users@) =~= before.push(self.users[i - 1]@));
            assert(user_views(users@) =~= user_views(self.users@).subrange(0, i as int));
        }
        assert(user_views(self.users@).subrange(0, i as int) =~= user_views(self.users@));
        users
    }

    /// The user with the identifier `user_id`, or the not-found error where
    /// there is none.
    pub fn get_user(&self, user_id: i64) -> (result: Result<User, Error>)
        ensures
            match result {
                Ok(user) => first_user(self@.users, user_has_id(user_id as int)) == Some(user@),
                Err(e) => e is NotFound && first_user(self@.users, user_has_id(user_id as int))
                    is None,
            },
    {
        self.lookup_user(&UserKey::Id(user_id))
    }

    /// The first user with the name `username`, or the not-found error where
    /// there is none.
    pub fn get_user_by_username(&self, username: &str) -> (result: Result<User, Error>)
        ensures
            match result {
                Ok(user) => first_user(self@.users, user_has_username(username@)) == Some(user@),
                Err(e) => e is NotFound && first_user(self@.users, user_has_username(username@))
                    is None,
            },
    {
        self.lookup_user(&UserKey::Username(username))
    }

    /// The first user with the Telegram identifier `telegram_id`, or the
    /// not-found error where there is none.
    pub fn get_user_by_telegram_id(&self, telegram_id: i64) -> (result: Result<User, Error>)
        ensures
            match result {
                Ok(user) => first_user(self@.users, user_has_telegram_id(telegram_id as int))
                    == Some(user@),
                Err(e) => e is NotFound && first_user(
                    self@.users,
                    user_has_telegram_id(telegram_id as int),
                ) is None,
            },
    {
        self.lookup_user(&UserKey::TelegramId(telegram_id))
    }

    /// All notes, in the order of their identifiers.
    pub fn get_notes_list(&self) -> (notes: Vec<Note>)
        ensures
            note_views(notes@) == self@.notes,
    {
        let mut notes: Vec<Note> = Vec::new();
        let mut i: usize = 0;
        while i < self.notes.len()
            invariant
                i <= self.notes.len(),
                notes@.len() == i,
                note_views(notes@) == note_views(self.notes@).subrange(0, i as int),
            decreases self.notes.len() - i,
        {
            let ghost before = note_views(notes@);
            notes.push(self.notes[i].clone());
            i = i + 1;
            assert(note_views(notes@) =~= before.push(self.notes[i - 1]@));
            assert(note_views(notes@) =~= note_views(self.notes@).subrange(0, i as int));
        }
        assert(note_views(self.notes@).subrange(0, i as int) =~= note_views(self.notes@));
        notes
    }

    /// The note with the identifier `note_id`, or the not-found error where
    /// there is none.
    pub fn get_note(&self, note_id: i64) -> (result: Result<Note, Error>)
        ensures
            match result {
                Ok(note) => first_note(self@.notes, note_has_id(note_id as int)) == Some(note@),
                Err(e) => e is NotFound && first_note(self@.notes, note_has_id(note_id as int))
                    is None,
            },
    {
        match self.find_note(note_id) {
            Some(i) => Ok(self.notes[i].clone()),
            None => Err(Error::NotFound),
        }
    }

    /// The notes of the user `user_id`, in the order of their identifiers.
    pub fn get_notes_list_by_user(&self, user_id: i64) -> (notes: Vec<Note>)
        ensures
            note_views(notes@) == self@.notes.filter(note_owned_by(user_id as int)),
    {
        let ghost all = self@.notes;
        let ghost wanted = note_owned_by(user_id as int);
        let mut notes: Vec<Note> = Vec::new();
        let mut i: usize = 0;
        proof {
            lemma_filter_last(all.subrange(0, 0), wanted);
        }
        while i < self.notes.len()
            invariant
                i <= self.notes.len(),
                all == note_views(self.notes@),
                wanted == note_owned_by(user_id as int),
                note_views(notes@) == all.subrange(0, i as int).filter(wanted),
            decreases self.notes.len() - i,
        {
            let ghost before = all.subrange(0, i as int);
            let ghost after = all.subrange(0, i + 1);
            assert(after.drop_last() =~= before);
            assert(after.last() == self.notes[i as int]@);
            if self.notes[i].user_id == user_id {
                let ghost kept = note_views(notes@);
                notes.push(self.notes[i].clone());
                assert(note_views(notes@) =~= kept.push(after.last()));
            }
            proof {
                lemma_filter_last(after, wanted);
            }
            i = i + 1;
        }
        assert(all.subrange(0, i as int) =~= all);
        notes
    }

    /// One note, chosen by `roll`: the note at the position that `roll`
    /// leaves when divided by the number of notes. A store without notes
    /// gives the not-found error.
    pub fn get_random_note(&self, roll: u64) -> (result: Result<Note, Error>)
        ensures
            match result {
                Ok(note) => self@.notes.len() > 0 && note@ == self@.notes[(roll as int)
                    % (self@.notes.len() as int)],
                Err(e) => e is NotFound && self@.notes.len() == 0,
            },
    {
        let count = self.notes.len();
        if count == 0 {
            return Err(Error::NotFound);
        }
        let position = (roll % (count as u64)) as usize;
        Ok(self.notes[position].clone())
    }

    /// The locale that is stored with the user `user_id`, or the not-found
    /// error where no user has the identifier.
    pub fn get_user_locale(&self, user_id: i64) -> (result: Result<Locale, Error>)
        ensures
            match result {
                Ok(locale) => self@.locale_of(user_id as int) == Some(locale),
                Err(e) => e is NotFound && self@.locale_of(user_id as int) is None,
            },
    {
        match self.find_user(&UserKey::Id(user_id)) {
            Some(i) => Ok(self.users[i].locale),
            None => Err(Error::NotFound),
        }
    }
}

/// Filtering keeps the users in the order of their identifiers.
pub proof fn lemma_filter_users_in_order(users: Seq<UserView>, keep: spec_fn(UserView) -> bool)
    requires
        users_in_order(users),
    ensures
        users_in_order(users.filter(keep)),
    decreases users.len(),
{
    lemma_filter_last(users, keep);
    if users.len() > 0 {
        let front = users.drop_last();
        lemma_filter_users_in_order(front, keep);
        let kept = front.filter(keep);
        assert forall|i: int| 0 <= i < kept.len() implies (#[trigger] kept[i]).id
            < users.last().id by {
            assert(kept.contains(kept[i]));
            front.lemma_filter_contains_rev(keep, kept[i]);
            let k = choose|k: int| 0 <= k < front.len() && front[k] == kept[i];
            assert(users[k] == kept[i]);
        }
    }
}

/// Filtering keeps the notes in the order of their identifiers.
pub proof fn lemma_filter_notes_in_order(notes: Seq<NoteView>, keep: spec_fn(NoteView) -> bool)
    requires
        notes_in_order(notes),
    ensures
        notes_in_order(notes.filter(keep)),
    decreases notes.len(),
{
    lemma_filter_last(notes, keep);
    if notes.len() > 0 {
        let front = notes.drop_last();
        lemma_filter_notes_in_order(front, keep);
        let kept = front.filter(keep);
        assert forall|i: int| 0 <= i < kept.len() implies (#[trigger] kept[i]).id
            < notes.last().id by {
            assert(kept.contains(kept[i]));
            front.lemma_filter_contains_rev(keep, kept[i]);
            let k = choose|k: int| 0 <= k < front.len() && front[k] == kept[i];
            assert(notes[k] == kept[i]);
        }
    }
}

/// A filtered list of notes holds only notes of the list.
pub proof fn lemma_filter_notes_have_owners(
    users: Seq<UserView>,
    notes: Seq<NoteView>,
    keep: spec_fn(NoteView) -> bool,
)
    requires
        notes_have_owners(users, notes),
    ensures
        notes_have_owners(users, notes.filter(keep)),
{
    let kept = notes.filter(keep);
    assert forall|i: int| 0 <= i < kept.len() implies has_user(
        users,
        (#[trigger] kept[i]).user_id,
    ) by {
        assert(kept.contains(kept[i]));
        notes.lemma_filter_contains_rev(keep, kept[i]);
        let k = choose|k: int| 0 <= k < notes.len() && notes[k] == kept[i];
        assert(has_user(users, notes[k].user_id));
    }
}

/// The notes of a user are counted by the length of what `filter` keeps:
/// no note of the user means that `filter` keeps none.
pub proof fn lemma_count_owned_zero(notes: Seq<NoteView>, user_id: int)
    requires
        count_owned(notes, user_id) == 0,
    ensures
        forall|i: int| 0 <= i < notes.len() ==> (#[trigger] notes[i]).user_id != user_id,
{
    assert forall|i: int| 0 <= i < notes.len() implies (#[trigger] notes[i]).user_id
        != user_id by {
        if notes[i].user_id == user_id {
            notes.lemma_filter_contains(note_owned_by(user_id), i);
            let kept = notes.filter(note_owned_by(user_id));
            assert(kept.contains(notes[i]));
        }
    }
}

/// Which notes are to go.
enum NoteFilter {
    /// The note with this identifier.
    WithId(i64),
    /// The notes of this user.
    OwnedBy(i64),
}

impl NoteFilter {
    /// The condition that a note meets to stay.
    spec fn keeps(self) -> spec_fn(NoteView) -> bool {
        match self {
            NoteFilter::WithId(id) => note_has_other_id(id as int),
            NoteFilter::OwnedBy(user_id) => note_not_owned_by(user_id as int),
        }
    }

    fn stays(&self, note: &Note) -> (yes: bool)
        ensures
            yes == (self.keeps())(note@),
    {
        match self {
            NoteFilter::WithId(id) => note.id != *id,
            NoteFilter::OwnedBy(user_id) => note.user_id != *user_id,
        }
    }
}

impl Store {
    fn count_notes_of(&self, user_id: i64) -> (count: usize)
        ensures
            count == count_owned(self@.notes, user_id as int),
    {
        let ghost all = self@.notes;
        let ghost wanted = note_owned_by(user_id as int);
        let mut count: usize = 0;
        let mut i: usize = 0;
        proof {
            lemma_filter_last(all.subrange(0, 0), wanted);
        }
        while i < self.notes.len()
            invariant
                i <= self.notes.len(),
                all == note_views(self.notes@),
                wanted == note_owned_by(user_id as int),
                count == all.subrange(0, i as int).filter(wanted).len(),
                count <= i,
            decreases self.notes.len() - i,
        {
            let ghost after = all.subrange(0, i + 1);
            assert(after.drop_last() =~= all.subrange(0, i as int));
            assert(after.last() == self.notes[i as int]@);
            proof {
                lemma_filter_last(after, wanted);
            }
            if self.notes[i].user_id == user_id {
                count = count + 1;
            }
            i = i + 1;
        }
        assert(all.subrange(0, i as int) =~= all);
        count
    }

    fn remove_notes(&mut self, gone: &NoteFilter)
        requires
            old(self).wf(),
        ensures
            final(self).wf(),
            final(self)@.users == old(self)@.users,
            final(self)@.notes == old(self)@.notes.filter(gone.keeps()),
    {
        let ghost all = self@.notes;
        let ghost keep = gone.keeps();
        let mut kept: Vec<Note> = Vec::new();
        let mut i: usize = 0;
        proof {
            lemma_filter_last(all.subrange(0, 0), keep);
        }
        while i < self.notes.len()
            invariant
                i <= self.notes.len(),
                all == note_views(self.notes@),
                keep == gone.keeps(),
                note_views(kept@) == all.subrange(0, i as int).filter(keep),
            decreases self.notes.len() - i,
        {
            let ghost after = all.subrange(0, i + 1);
            assert(after.drop_last() =~= all.subrange(0, i as int));
            assert(after.last() == self.notes[i as int]@);
            proof {
                lemma_filter_last(after, keep);
            }
            if gone.stays(&self.notes[i]) {
                let ghost before = note_views(kept@);
                kept.push(self.notes[i].clone());
                assert(note_views(kept@) =~= before.push(after.last()));
            }
            i = i + 1;
        }
        assert(all.subrange(0, i as int) =~= all);
        proof {
            lemma_filter_notes_in_order(all, keep);
            lemma_filter_notes_have_owners(self@.users, all, keep);
        }
        self.notes = kept;
    }

    /// Stores a new user under the identifier that follows the greatest one
    /// in use, and returns the stored record. A user for whom no locale is
    /// given is served in English. Only a store whose identifiers are used up
    /// refuses, with a database error.
    pub fn create_user(&mut self, user: NewUser) -> (result: Result<User, Error>)
        requires
            old(self).wf(),
        ensures
            final(self).wf(),
            final(self)@.notes == old(self)@.notes,
            match result {
                Ok(created) => {
                    &&& old(self)@.next_user_id() <= i64::MAX
                    &&& created@ == user.with_id(old(self)@.next_user_id())
                    &&& user.locale is None ==> created.locale == Locale::EN
                    &&& final(self)@.users == old(self)@.users.push(created@)
                },
                Err(e) => {
                    &&& e is Sqlx
                    &&& old(self)@.next_user_id() > i64::MAX
                    &&& final(self)@ == old(self)@
                },
            },
    {
        let count = self.users.len();
        let id: i64 = if count == 0 {
            1
        } else {
            let last = self.users[count - 1].id;
            if last == i64::MAX {
                return Err(Error::Sqlx(String::from_str("database or disk is full")));
            }
            last + 1
        };
        let locale = user.chosen_locale();
        let created = User {
            id,
            telegram_id: user.telegram_id,
            username: user.username,
            first_name: user.first_name,
            last_name: user.last_name,
            locale,
        };
        let copy = created.clone();
        let ghost before = self@;
        self.users.push(created);
        proof {
            assert(self@.users =~= before.users.push(copy@));
            assert forall|i: int| 0 <= i < self@.notes.len() implies has_user(
                self@.users,
                (#[trigger] self@.notes[i]).user_id,
            ) by {
                assert(has_user(before.users, before.notes[i].user_id));
                let k = choose|k: int|
                    0 <= k < before.users.len() && (#[trigger] before.users[k]).id
                        == before.notes[i].user_id;
                assert(self@.users[k] == before.users[k]);
            }
        }
        Ok(copy)
    }

    /// Removes the user `user_id` and returns the identifier. Where no user
    /// has it, nothing changes and the call succeeds all the same. A user who
    /// still owns notes cannot go: the call fails with a database error and
    /// changes nothing.
    pub fn delete_user(&mut self, user_id: i64) -> (result: Result<i64, Error>)
        requires
            old(self).wf(),
        ensures
            final(self).wf(),
            final(self)@.notes == old(self)@.notes,
            match result {
                Ok(id) => {
                    &&& id == user_id
                    &&& count_owned(old(self)@.notes, user_id as int) == 0
                    &&& final(self)@.users == old(self)@.users.filter(
                        user_has_other_id(user_id as int),
                    )
                },
                Err(e) => {
                    &&& e is Sqlx
                    &&& count_owned(old(self)@.notes, user_id as int) > 0
                    &&& final(self)@ == old(self)@
                },
            },
    {
        if self.count_notes_of(user_id) > 0 {
            return Err(Error::Sqlx(String::from_str("FOREIGN KEY constraint failed")));
        }
        let ghost all = self@.users;
        let ghost keep = user_has_other_id(user_id as int);
        let mut kept: Vec<User> = Vec::new();
        let mut i: usize = 0;
        proof {
            lemma_filter_last(all.subrange(0, 0), keep);
        }
        while i < self.users.len()
            invariant
                i <= self.users.len(),
                all == user_views(self.users@),
                keep == user_has_other_id(user_id as int),
                user_views(kept@) == all.subrange(0, i as int).filter(keep),
            decreases self.users.len() - i,
        {
            let ghost after = all.subrange(0, i + 1);
            assert(after.drop_last() =~= all.subrange(0, i as int));
            assert(after.last() == self.users[i as int]@);
            proof {
                lemma_filter_last(after, keep);
            }
            if self.users[i].id != user_id {
                let ghost before = user_views(kept@);
                kept.push(self.users[i].clone());
                assert(user_views(kept@) =~= before.push(after.last()));
            }
            i = i + 1;
        }
        assert(all.subrange(0, i as int) =~= all);
        proof {
            lemma_filter_users_in_order(all, keep);
            lemma_count_owned_zero(self@.notes, user_id as int);
            let remaining = all.filter(keep);
            assert forall|n: int| 0 <= n < self@.notes.len() implies has_user(
                remaining,
                (#[trigger] self@.notes[n]).user_id,
            ) by {
                let owner = self@.notes[n].user_id;
                assert(has_user(all, owner));
                let k = choose|k: int| 0 <= k < all.len() && (#[trigger] all[k]).id == owner;
                all.lemma_filter_contains(keep, k);
                assert(remaining.contains(all[k]));
                let m = choose|m: int| 0 <= m < remaining.len() && remaining[m] == all[k];
                assert(remaining[m].id == owner);
            }
        }
        self.users = kept;
        Ok(user_id)
    }

    /// Stores a new note under the identifier that follows the greatest one
    /// in use, and returns the stored record. A note for a user that does
    /// not exist is refused with a database error, and so is any note once
    /// the identifiers are used up.
    pub fn create_note(&mut self, note: NewNote) -> (result: Result<Note, Error>)
        requires
            old(self).wf(),
        ensures
            final(self).wf(),
            final(self)@.users == old(self)@.users,
            match result {
                Ok(created) => {
                    &&& has_user(old(self)@.users, note.user_id as int)
                    &&& old(self)@.next_note_id() <= i64::MAX
                    &&& created@ == note.with_id(old(self)@.next_note_id())
                    &&& final(self)@.notes == old(self)@.notes.push(created@)
                },
                Err(e) => {
                    &&& e is Sqlx
                    &&& (!has_user(old(self)@.users, note.user_id as int)
                        || old(self)@.next_note_id() > i64::MAX)
                    &&& final(self)@ == old(self)@
                },
            },
    {
        let owner = match self.find_user(&UserKey::Id(note.user_id)) {
            None => {
                return Err(Error::Sqlx(String::from_str("FOREIGN KEY constraint failed")));
            },
            Some(owner) => owner,
        };
        assert(self@.users[owner as int].id == note.user_id);
        let count = self.notes.len();
        let id: i64 = if count == 0 {
            1
        } else {
            let last = self.notes[count - 1].id;
            if last == i64::MAX {
                return Err(Error::Sqlx(String::from_str("database or disk is full")));
            }
            last + 1
        };
        let created = Note { id, user_id: note.user_id, file_name: note.file_name };
        let copy = created.clone();
        let ghost before = self@;
        self.notes.push(created);
        proof {
            assert(self@.notes =~= before.notes.push(copy@));
            assert forall|i: int| 0 <= i < self@.notes.len() implies has_user(
                self@.users,
                (#[trigger] self@.notes[i]).user_id,
            ) by {
                if i < before.notes.len() {
                    assert(self@.notes[i] == before.notes[i]);
                } else {
                    assert(self@.users[owner as int].id == note.user_id);
                }
            }
            assert forall|i: int| 0 <= i < self@.notes.len() implies 1 <= (
            #[trigger] self@.notes[i]).id <= i64::MAX by {
                if i < before.notes.len() {
                    assert(self@.notes[i] == before.notes[i]);
                } else {
                    assert(self@.notes[i] == copy@);
                    if count > 0 {
                        assert(before.notes[count - 1].id >= 1);
                    }
                }
            }
            assert forall|i: int, j: int| 0 <= i < j < self@.notes.len() implies (
            #[trigger] self@.notes[i]).id < (#[trigger] self@.notes[j]).id by {
                assert(self@.notes[i] == before.notes[i]);
                if j < before.notes.len() {
                    assert(self@.notes[j] == before.notes[j]);
                } else if i < count - 1 {
                    assert(before.notes[i].id < before.notes[count - 1].id);
                }
            }
        }
        Ok(copy)
    }

    /// Removes the note `note_id` and returns the identifier. Where no note
    /// has it, nothing changes.
    pub fn delete_note(&mut self, note_id: i64) -> (id: i64)
        requires
            old(self).wf(),
        ensures
            final(self).wf(),
            id == note_id,
            final(self)@.users == old(self)@.users,
            final(self)@.notes == old(self)@.notes.filter(note_has_other_id(note_id as int)),
    {
        self.remove_notes(&NoteFilter::WithId(note_id));
        note_id
    }

    /// Removes every note of the user `user_id` and returns the identifier.
    /// The notes of all other users stay as they are.
    pub fn delete_all_user_notes(&mut self, user_id: i64) -> (id: i64)
        requires
            old(self).wf(),
        ensures
            final(self).wf(),
            id == user_id,
            final(self)@.users == old(self)@.users,
            final(self)@.notes == old(self)@.notes.filter(note_not_owned_by(user_id as int)),
    {
        self.remove_notes(&NoteFilter::OwnedBy(user_id));
        user_id
    }
}

/// In a list of notes in the order of their identifiers, the note at a
/// position has an identifier greater than the position.
pub proof fn lemma_note_id_exceeds_position(notes: Seq<NoteView>, i: int)
    requires
        notes_in_order(notes),
        0 <= i < notes.len(),
    ensures
        notes[i].id > i,
    decreases i,
{
    if i > 0 {
        lemma_note_id_exceeds_position(notes, i - 1);
        assert(notes[i - 1].id < notes[i].id);
    }
}

impl Store {
    /// Sets the locale of the user `user_id` and returns the locale that was
    /// asked for. Where no user has the identifier, nothing changes.
    pub fn set_user_locale(&mut self, user_id: i64, locale: Locale) -> (set: Locale)
        requires
            old(self).wf(),
        ensures
            final(self).wf(),
            set == locale,
            final(self)@.notes == old(self)@.notes,
            final(self)@.users == with_locale(old(self)@.users, user_id as int, locale),
    {
        let ghost before = self@;
        match self.find_user(&UserKey::Id(user_id)) {
            Some(i) => {
                let mut changed = self.users[i].clone();
                changed.locale = locale;
                self.users.set(i, changed);
                proof {
                    let after = self@.users;
                    let expected = with_locale(before.users, user_id as int, locale);
                    assert(after.len() == expected.len());
                    assert forall|j: int| 0 <= j < after.len() implies after[j] == expected[j] by {
                        if j != i {
                            assert(before.users[j].id != before.users[i as int].id);
                        }
                    }
                    assert(after =~= expected);
                }
            },
            None => {
                assert(self@.users =~= with_locale(before.users, user_id as int, locale));
            },
        }
        proof {
            let after = self@.users;
            assert forall|j: int| 0 <= j < after.len() implies (#[trigger] after[j]).id
                == before.users[j].id by {}
            assert forall|n: int| 0 <= n < self@.notes.len() implies has_user(
                after,
                (#[trigger] self@.notes[n]).user_id,
            ) by {
                let owner = before.notes[n].user_id;
                assert(has_user(before.users, owner));
                let k = choose|k: int|
                    0 <= k < before.users.len() && (#[trigger] before.users[k]).id == owner;
                assert(after[k].id == owner);
            }
        }
        locale
    }

    /// Sets the locale of the user `user_id` to the one that `code` selects,
    /// English where `code` is no supported code, and returns that locale.
    pub fn set_user_locale_code(&mut self, user_id: i64, code: &str) -> (set: Locale)
        requires
            old(self).wf(),
        ensures
            final(self).wf(),
            set == locale_of_code(code@),
            final(self)@.notes == old(self)@.notes,
            final(self)@.users == with_locale(
                old(self)@.users,
                user_id as int,
                locale_of_code(code@),
            ),
    {
        self.set_user_locale(user_id, Locale::from_str(code))
    }

    /// The statistics of the user `user_id`: the name and the number of notes
    /// owned, or the not-found error where no user has the identifier.
    pub fn get_user_stats(&self, user_id: i64) -> (result: Result<UserStats, Error>)
        requires
            self.wf(),
        ensures
            match result {
                Ok(stats) => {
                    &&& first_user(self@.users, user_has_id(user_id as int)) matches Some(user)
                    &&& stats@.username == user.username
                    &&& stats@.videonotes == count_owned(self@.notes, user_id as int)
                },
                Err(e) => e is NotFound && first_user(self@.users, user_has_id(user_id as int))
                    is None,
            },
    {
        match self.find_user(&UserKey::Id(user_id)) {
            Some(i) => Ok(self.stats_of(i)),
            None => Err(Error::NotFound),
        }
    }

    fn stats_of(&self, position: usize) -> (stats: UserStats)
        requires
            self.wf(),
            position < self.users.len(),
        ensures
            stats@ == self@.user_stats()[position as int],
    {
        let user = &self.users[position];
        let count = self.count_notes_of(user.id);
        proof {
            let owned = self@.notes.filter(note_owned_by(user.id as int));
            self@.notes.lemma_filter_len(note_owned_by(user.id as int));
            if self@.notes.len() > 0 {
                lemma_note_id_exceeds_position(self@.notes, self@.notes.len() - 1);
            }
        }
        UserStats { username: user.username.clone(), videonotes: count as i64 }
    }

    /// The statistics of the store: the number of notes, and for each user,
    /// in the order of the users, the name and the number of notes owned. The
    /// total is the sum of the users' numbers. A store with more notes than
    /// the total can hold reports an error.
    pub fn get_stats(&self) -> (result: Result<Stats, Error>)
        requires
            self.wf(),
        ensures
            match result {
                Ok(stats) => {
                    &&& stats.total_videonotes == self@.notes.len()
                    &&& user_stats_views(stats.users@) == self@.user_stats()
                    &&& stats.total_videonotes == sum_videonotes(user_stats_views(stats.users@))
                },
                Err(e) => e is Anyhow && self@.notes.len() > i32::MAX,
            },
    {
        if self.notes.len() > 0x7fff_ffff {
            return Err(Error::Anyhow(String::from_str("too many notes to count")));
        }
        let mut users: Vec<UserStats> = Vec::new();
        let mut i: usize = 0;
        while i < self.users.len()
            invariant
                self.wf(),
                i <= self.users.len(),
                users@.len() == i,
                user_stats_views(users@) == self@.user_stats().subrange(0, i as int),
            decreases self.users.len() - i,
        {
            let ghost before = user_stats_views(users@);
            let entry = self.stats_of(i);
            users.push(entry);
            i = i + 1;
            assert(user_stats_views(users@) =~= before.push(self@.user_stats()[i - 1]));
            assert(user_stats_views(users@) =~= self@.user_stats().subrange(0, i as int));
        }
        assert(self@.user_stats().subrange(0, i as int) =~= self@.user_stats());
        proof {
            lemma_stats_total(self@);
        }
        Ok(Stats { total_videonotes: self.notes.len() as i32, users })
    }
}

/// How many users of the list have the identifier `id`.
pub open spec fn occurrences(users: Seq<UserView>, id: int) -> int
    decreases users.len(),
{
    if users.len() == 0 {
        0
    } else {
        occurrences(users.drop_last(), id) + if users.last().id == id {
            1int
        } else {
            0int
        }
    }
}

/// The sum, over the users of the list, of the number of notes that each
/// owns.
pub open spec fn owned_total(users: Seq<UserView>, notes: Seq<NoteView>) -> int
    decreases users.len(),
{
    if users.len() == 0 {
        0
    } else {
        owned_total(users.drop_last(), notes) + count_owned(notes, users.last().id)
    }
}

proof fn lemma_occurrences_bound(users: Seq<UserView>, id: int)
    requires
        users_in_order(users),
    ensures
        0 <= occurrences(users, id) <= 1,
        occurrences(users, id) == 1 <==> has_user(users, id),
        occurrences(users, id) == 1 && users.len() > 0 ==> id <= users.last().id,
    decreases users.len(),
{
    if users.len() > 0 {
        let front = users.drop_last();
        lemma_occurrences_bound(front, id);
        if has_user(front, id) {
            let k = choose|k: int| 0 <= k < front.len() && (#[trigger] front[k]).id == id;
            assert(users[k].id == id);
            assert(users[k].id < users.last().id);
        }
        if has_user(users, id) {
            let k = choose|k: int| 0 <= k < users.len() && (#[trigger] users[k]).id == id;
            if k < front.len() {
                assert(front[k].id == id);
            }
        }
        if users.last().id == id {
            assert(users[users.len() - 1].id == id);
            if front.len() > 0 && occurrences(front, id) == 1 {
                assert(front.last() == users[front.len() - 1]);
                assert(users[front.len() - 1].id < users[users.len() - 1].id);
            }
        }
    }
}

proof fn lemma_owned_total_push(users: Seq<UserView>, notes: Seq<NoteView>, note: NoteView)
    ensures
        owned_total(users, notes.push(note)) == owned_total(users, notes) + occurrences(
            users,
            note.user_id,
        ),
    decreases users.len(),
{
    if users.len() > 0 {
        lemma_owned_total_push(users.drop_last(), notes, note);
        let more = notes.push(note);
        assert(more.drop_last() =~= notes);
        lemma_filter_last(more, note_owned_by(users.last().id));
    }
}

proof fn lemma_owned_total_empty(users: Seq<UserView>)
    ensures
        owned_total(users, Seq::<NoteView>::empty()) == 0,
    decreases users.len(),
{
    if users.len() > 0 {
        lemma_owned_total_empty(users.drop_last());
        lemma_filter_last(Seq::<NoteView>::empty(), note_owned_by(users.last().id));
    }
}

/// Every note is counted once: where each note belongs to one of the users,
/// the numbers of notes that the users own add up to the number of notes.
pub proof fn lemma_owned_total_is_note_count(users: Seq<UserView>, notes: Seq<NoteView>)
    requires
        users_in_order(users),
        notes_have_owners(users, notes),
    ensures
        owned_total(users, notes) == notes.len(),
    decreases notes.len(),
{
    if notes.len() == 0 {
        assert(notes =~= Seq::<NoteView>::empty());
        lemma_owned_total_empty(users);
    } else {
        let front = notes.drop_last();
        assert forall|i: int| 0 <= i < front.len() implies has_user(
            users,
            (#[trigger] front[i]).user_id,
        ) by {
            assert(front[i] == notes[i]);
        }
        lemma_owned_total_is_note_count(users, front);
        lemma_owned_total_push(users, front, notes.last());
        assert(front.push(notes.last()) =~= notes);
        assert(has_user(users, notes[notes.len() - 1].user_id));
        lemma_occurrences_bound(users, notes.last().user_id);
    }
}

proof fn lemma_sum_is_owned_total(store: StoreView, count: int)
    requires
        0 <= count <= store.users.len(),
    ensures
        sum_videonotes(store.user_stats().subrange(0, count)) == owned_total(
            store.users.subrange(0, count),
            store.notes,
        ),
    decreases count,
{
    if count > 0 {
        lemma_sum_is_owned_total(store, count - 1);
        let stats = store.user_stats().subrange(0, count);
        let users = store.users.subrange(0, count);
        assert(stats.drop_last() =~= store.user_stats().subrange(0, count - 1));
        assert(users.drop_last() =~= store.users.subrange(0, count - 1));
    }
}

/// The total of the statistics is the sum of their parts: in every store the
/// note counts of all users add up to the number of notes.
pub proof fn lemma_stats_total(store: StoreView)
    requires
        store.valid(),
    ensures
        sum_videonotes(store.user_stats()) == store.notes.len(),
{
    lemma_sum_is_owned_total(store, store.users.len() as int);
    assert(store.user_stats().subrange(0, store.users.len() as int) =~= store.user_stats());
    assert(store.users.subrange(0, store.users.len() as int) =~= store.users);
    lemma_owned_total_is_note_count(store.users, store.notes);
}

/// No user of the list meets the condition exactly when a search finds none.
pub proof fn lemma_first_user_none(users: Seq<UserView>, wanted: spec_fn(UserView) -> bool)
    ensures
        first_user(users, wanted) is None <==> forall|i: int|
            0 <= i < users.len() ==> !wanted(#[trigger] users[i]),
        first_user(users, wanted) matches Some(found) ==> wanted(found) && users.contains(found),
    decreases users.len(),
{
    if users.len() > 0 {
        let rest = users.drop_first();
        lemma_first_user_none(rest, wanted);
        if wanted(users[0]) {
            assert(users.contains(users[0]));
        } else {
            if first_user(rest, wanted) is None {
                assert forall|i: int| 0 <= i < users.len() implies !wanted(
                    #[trigger] users[i],
                ) by {
                    if i > 0 {
                        assert(rest[i - 1] == users[i]);
                    }
                }
            } else {
                let found = first_user(rest, wanted)->0;
                let k = choose|k: int| 0 <= k < rest.len() && rest[k] == found;
                assert(users[k + 1] == found);
            }
        }
    }
}

/// A search in a list with one more user at its end finds what it found
/// before, and the new user where it found none and the new user is wanted.
pub proof fn lemma_first_user_push(
    users: Seq<UserView>,
    added: UserView,
    wanted: spec_fn(UserView) -> bool,
)
    ensures
        first_user(users.push(added), wanted) == match first_user(users, wanted) {
            Some(found) => Some(found),
            None => if wanted(added) {
                Some(added)
            } else {
                None
            },
        },
    decreases users.len(),
{
    let more = users.push(added);
    if users.len() == 0 {
        assert(more[0] == added);
        assert(more.drop_first() =~= Seq::<UserView>::empty());
        assert(first_user(more.drop_first(), wanted) is None);
        assert(first_user(users, wanted) is None);
    } else {
        assert(more[0] == users[0]);
        assert(more.drop_first() =~= users.drop_first().push(added));
        lemma_first_user_push(users.drop_first(), added, wanted);
    }
}

/// A user that was just created is found by its identifier: in the store
/// that holds the new user after those it held before, the search by the new
/// identifier gives the new record.
pub proof fn lemma_created_user_found_by_id(before: StoreView, created: UserView)
    requires
        before.valid(),
        created.id == before.next_user_id(),
    ensures
        first_user(before.users.push(created), user_has_id(created.id)) == Some(created),
{
    let wanted = user_has_id(created.id);
    lemma_first_user_none(before.users, wanted);
    assert forall|i: int| 0 <= i < before.users.len() implies !wanted(
        #[trigger] before.users[i],
    ) by {
        if i < before.users.len() - 1 {
            assert(before.users[i].id < before.users[before.users.len() - 1].id);
        }
    }
    lemma_first_user_push(before.users, created, wanted);
}

/// A user that was just created is found by name and by Telegram identifier,
/// and the three searches agree: where no earlier user has the same name or
/// the same Telegram identifier, the searches by identifier, by name and by
/// Telegram identifier all give the new record.
pub proof fn lemma_created_user_found_alike(before: StoreView, created: UserView)
    requires
        before.valid(),
        created.id == before.next_user_id(),
        first_user(before.users, user_has_username(created.username)) is None,
        first_user(before.users, user_has_telegram_id(created.telegram_id)) is None,
    ensures
        first_user(before.users.push(created), user_has_id(created.id)) == Some(created),
        first_user(before.users.push(created), user_has_username(created.username)) == Some(
            created,
        ),
        first_user(before.users.push(created), user_has_telegram_id(created.telegram_id))
            == Some(created),
{
    lemma_created_user_found_by_id(before, created);
    lemma_first_user_push(before.users, created, user_has_username(created.username));
    lemma_first_user_push(before.users, created, user_has_telegram_id(created.telegram_id));
}

/// Removing the notes of one user leaves that user without notes and every
/// other user with the same notes as before.
pub proof fn lemma_bulk_delete(notes: Seq<NoteView>, user_id: int, other: int)
    ensures
        count_owned(notes.filter(note_not_owned_by(user_id)), user_id) == 0,
        other != user_id ==> notes.filter(note_not_owned_by(user_id)).filter(
            note_owned_by(other),
        ) == notes.filter(note_owned_by(other)),
    decreases notes.len(),
{
    let stay = note_not_owned_by(user_id);
    lemma_filter_last(notes, stay);
    lemma_filter_last(notes, note_owned_by(other));
    lemma_filter_last(notes.filter(stay), note_owned_by(user_id));
    lemma_filter_last(notes.filter(stay), note_owned_by(other));
    if notes.len() > 0 {
        let front = notes.drop_last();
        lemma_bulk_delete(front, user_id, other);
        if stay(notes.last()) {
            assert(notes.filter(stay).drop_last() =~= front.filter(stay));
        }
    }
}

/// The locale of a user after a change of locale: the new locale for the user
/// whose locale was set, as far as the user exists, and the old locale for
/// every other user.
pub proof fn lemma_locale_after_set(users: Seq<UserView>, user_id: int, locale: Locale, read: int)
    ensures
        first_user(with_locale(users, user_id, locale), user_has_id(read)) == match first_user(
            users,
            user_has_id(read),
        ) {
            Some(found) => Some(
                if read == user_id {
                    relocated(found, locale)
                } else {
                    found
                },
            ),
            None => None,
        },
    decreases users.len(),
{
    let changed = with_locale(users, user_id, locale);
    if users.len() > 0 {
        assert(changed.drop_first() =~= with_locale(users.drop_first(), user_id, locale));
        lemma_locale_after_set(users.drop_first(), user_id, locale, read);
    }
}

/// A locale that was set is the locale that is read: once the locale of an
/// existing user is set, the store serves that user under exactly that
/// locale. With a code in place of a locale, the store serves the user under
/// the code itself where it is supported, and under English where it is not.
pub proof fn lemma_locale_set_then_read(
    store: StoreView,
    user_id: int,
    locale: Locale,
    code: Seq<char>,
)
    requires
        has_user(store.users, user_id),
    ensures
        store.set_locale(user_id, locale).locale_of(user_id) == Some(locale),
        store.set_locale(user_id, locale_of_code(code)).locale_of(user_id) == Some(
            locale_of_code(code),
        ),
        is_supported_code(code) ==> locale_of_code(code).code() == code,
        !is_supported_code(code) ==> locale_of_code(code) == Locale::EN,
{
    lemma_first_user_none(store.users, user_has_id(user_id));
    lemma_locale_after_set(store.users, user_id, locale, user_id);
    lemma_locale_after_set(store.users, user_id, locale_of_code(code), user_id);
    if is_supported_code(code) {
        lemma_supported_code_is_kept(code);
    }
}

/// Deleting twice is deleting once: what `filter` has kept, it keeps again.
pub proof fn lemma_delete_is_idempotent<A>(records: Seq<A>, keep: spec_fn(A) -> bool)
    ensures
        records.filter(keep).filter(keep) == records.filter(keep),
    decreases records.len(),
{
    lemma_filter_last(records, keep);
    lemma_filter_last(records.filter(keep), keep);
    if records.len() > 0 {
        lemma_delete_is_idempotent(records.drop_last(), keep);
        if keep(records.last()) {
            assert(records.filter(keep).drop_last() =~= records.drop_last().filter(keep));
        }
    }
}

/// A note that was just created is the last of its owner's notes, and the
/// notes of every other user are what they were.
pub proof fn lemma_created_note_is_listed(notes: Seq<NoteView>, created: NoteView, user_id: int)
    ensures
        notes.push(created).filter(note_owned_by(user_id)) == if created.user_id == user_id {
            notes.filter(note_owned_by(user_id)).push(created)
        } else {
            notes.filter(note_owned_by(user_id))
        },
{
    let more = notes.push(created);
    assert(more.drop_last() =~= notes);
    lemma_filter_last(more, note_owned_by(user_id));
}

} // verus!
