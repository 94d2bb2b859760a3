//! Users as the services exchange them.

use crate::locale::Locale;
use vstd::prelude::*;

verus! {

/// The identifier of a user.
#[derive(Debug, Clone, Copy, PartialEq, Eq, Structural)]
pub struct UserId(pub i64);

/// What a user record says, as plain values.
pub struct UserView {
    pub id: int,
    pub telegram_id: int,
    pub username: Seq<char>,
    pub first_name: Seq<char>,
    pub last_name: Option<Seq<char>>,
    pub locale: Locale,
}

/// A stored user.
#[derive(Debug, PartialEq, Eq)]
pub struct User {
    pub id: i64,
    pub telegram_id: i64,
    pub username: String,
    pub first_name: String,
    pub last_name: Option<String>,
    pub locale: Locale,
}

/// The view of an optional string.
pub open spec fn optional_text(text: Option<String>) -> Option<Seq<char>> {
    match text {
        Some(t) => Some(t@),
        None => None,
    }
}

/// A copy of an optional string.
pub fn clone_optional_text(text: &Option<String>) -> (copy: Option<String>)
    ensures
        copy == *text,
{
    match text {
        Some(t) => Some(t.clone()),
        None => None,
    }
}

impl View for User {
    type V = UserView;

    open spec fn view(&self) -> UserView {
        UserView {
            id: self.id as int,
            telegram_id: self.telegram_id as int,
            username: self.username@,
            first_name: self.first_name@,
            last_name: optional_text(self.last_name),
            locale: self.locale,
        }
    }
}

impl Clone for User {
    fn clone(&self) -> (copy: Self)
        ensures
            copy == *self,
    {
        User {
            id: self.id,
            telegram_id: self.telegram_id,
            username: self.username.clone(),
            first_name: self.first_name.clone(),
            last_name: clone_optional_text(&self.last_name),
            locale: self.locale,
        }
    }
}

/// The fields of a user that is about to be created: everything but the
/// identifier, which the store assigns. The locale may be left out; the user
/// is then served in English.
#[derive(Debug, PartialEq, Eq)]
pub struct NewUser {
    pub telegram_id: i64,
    pub username: String,
    pub first_name: String,
    pub last_name: Option<String>,
    pub locale: Option<Locale>,
}

/// The locale of a new user: the one that was asked for, or English where
/// none was.
pub open spec fn locale_or_default(locale: Option<Locale>) -> Locale {
    match locale {
        Some(chosen) => chosen,
        None => Locale::EN,
    }
}

impl NewUser {
    /// The locale under which the new user is served: the one that was asked
    /// for, or English where none was.
    pub fn chosen_locale(&self) -> (locale: Locale)
        ensures
            locale == locale_or_default(self.locale),
    {
        match self.locale {
            Some(chosen) => chosen,
            None => Locale::EN,
        }
    }

    /// The record that the store holds once it has given the user the
    /// identifier `id`.
    pub open spec fn with_id(self, id: int) -> UserView {
        UserView {
            id,
            telegram_id: self.telegram_id as int,
            username: self.username@,
            first_name: self.first_name@,
            last_name: optional_text(self.last_name),
            locale: locale_or_default(self.locale),
        }
    }
}

/// A partial user: the fields that a change names.
#[derive(Debug, Default, PartialEq, Eq)]
pub struct UpdateUser {
    pub id: Option<i64>,
    pub telegram_id: Option<i64>,
    pub username: Option<String>,
    pub first_name: Option<String>,
    pub last_name: Option<String>,
}

/// The body of a reply that carries one user, or what stands for one.
#[derive(Debug, PartialEq, Eq)]
pub struct UserBody<T> {
    pub user: T,
}

/// The body of a reply that carries a list of users.
#[derive(Debug, PartialEq, Eq)]
pub struct UserListBody<T> {
    pub users: Vec<T>,
}

} // verus!
