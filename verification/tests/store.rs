use cheer_up::error::Error;
use cheer_up::locale::Locale;
use cheer_up::note::{NewNote, Note};
use cheer_up::store::Store;
use cheer_up::user::{NewUser, User};

fn new_user(telegram_id: i64, username: &str) -> NewUser {
    NewUser {
        telegram_id,
        username: username.to_string(),
        first_name: username.to_string(),
        last_name: None,
        locale: Some(Locale::EN),
    }
}

fn new_note(user_id: i64, file_name: &str) -> NewNote {
    NewNote { user_id, file_name: file_name.to_string() }
}

#[test]
fn empty_store_has_no_records() {
    let store = Store::new();
    assert!(store.get_users_list().is_empty());
    assert!(store.get_notes_list().is_empty());
}

#[test]
fn created_user_is_found_by_id_name_and_telegram_id() {
    let mut store = Store::new();
    store.create_user(new_user(7, "grace")).unwrap();
    let created = store.create_user(new_user(42, "ada")).unwrap();
    let expected = User {
        id: 2,
        telegram_id: 42,
        username: "ada".to_string(),
        first_name: "ada".to_string(),
        last_name: None,
        locale: Locale::EN,
    };
    assert_eq!(created, expected);
    assert_eq!(store.get_user(2).unwrap(), expected);
    assert_eq!(store.get_user_by_username("ada").unwrap(), expected);
    assert_eq!(store.get_user_by_telegram_id(42).unwrap(), expected);
}

#[test]
fn earlier_user_of_same_name_is_found_first() {
    let mut store = Store::new();
    let first = store.create_user(new_user(1, "ada")).unwrap();
    let second = store.create_user(new_user(2, "ada")).unwrap();
    assert_eq!(store.get_user_by_username("ada").unwrap(), first);
    assert_eq!(store.get_user(second.id).unwrap(), second);
}

#[test]
fn missing_records_are_not_found() {
    let mut store = Store::new();
    store.create_user(new_user(42, "ada")).unwrap();
    assert_eq!(store.get_user(9), Err(Error::NotFound));
    assert_eq!(store.get_user_by_username("bob"), Err(Error::NotFound));
    assert_eq!(store.get_user_by_telegram_id(1), Err(Error::NotFound));
    assert_eq!(store.get_note(1), Err(Error::NotFound));
    assert_eq!(store.get_user_stats(9), Err(Error::NotFound));
}

#[test]
fn users_are_listed_in_order_of_their_identifiers() {
    let mut store = Store::new();
    store.create_user(new_user(10, "a")).unwrap();
    store.create_user(new_user(20, "b")).unwrap();
    store.create_user(new_user(30, "c")).unwrap();
    let ids: Vec<i64> = store.get_users_list().iter().map(|u| u.id).collect();
    assert_eq!(ids, vec![1, 2, 3]);
}

#[test]
fn identifier_follows_the_greatest_in_use() {
    let mut store = Store::new();
    store.create_user(new_user(10, "a")).unwrap();
    store.create_user(new_user(20, "b")).unwrap();
    assert_eq!(store.delete_user(1), Ok(1));
    let third = store.create_user(new_user(30, "c")).unwrap();
    assert_eq!(third.id, 3);
    assert_eq!(store.delete_user(3), Ok(3));
    let again = store.create_user(new_user(40, "d")).unwrap();
    assert_eq!(again.id, 3);
}

#[test]
fn deleting_a_missing_user_changes_nothing() {
    let mut store = Store::new();
    store.create_user(new_user(10, "a")).unwrap();
    assert_eq!(store.delete_user(5), Ok(5));
    assert_eq!(store.get_users_list().len(), 1);
}

#[test]
fn user_with_notes_cannot_be_deleted() {
    let mut store = Store::new();
    let user = store.create_user(new_user(10, "a")).unwrap();
    store.create_note(new_note(user.id, "x.mpeg")).unwrap();
    let result = store.delete_user(user.id);
    assert!(matches!(result, Err(Error::Sqlx(_))));
    assert_eq!(store.get_users_list().len(), 1);
    store.delete_all_user_notes(user.id);
    assert_eq!(store.delete_user(user.id), Ok(user.id));
    assert!(store.get_users_list().is_empty());
}

#[test]
fn note_needs_an_existing_owner() {
    let mut store = Store::new();
    let result = store.create_note(new_note(1, "x.mpeg"));
    assert!(matches!(result, Err(Error::Sqlx(_))));
    assert!(store.get_notes_list().is_empty());
}

#[test]
fn bulk_delete_leaves_other_users_notes() {
    let mut store = Store::new();
    let ada = store.create_user(new_user(1, "ada")).unwrap();
    let bob = store.create_user(new_user(2, "bob")).unwrap();
    store.create_note(new_note(ada.id, "a1.mpeg")).unwrap();
    store.create_note(new_note(bob.id, "b1.mpeg")).unwrap();
    store.create_note(new_note(ada.id, "a2.mpeg")).unwrap();
    store.create_note(new_note(bob.id, "b2.mpeg")).unwrap();
    let before = store.get_notes_list_by_user(bob.id);
    assert_eq!(store.delete_all_user_notes(ada.id), ada.id);
    assert!(store.get_notes_list_by_user(ada.id).is_empty());
    assert_eq!(store.get_notes_list_by_user(bob.id), before);
    assert_eq!(
        before,
        vec![
            Note { id: 2, user_id: bob.id, file_name: "b1.mpeg".to_string() },
            Note { id: 4, user_id: bob.id, file_name: "b2.mpeg".to_string() },
        ]
    );
}

#[test]
fn single_note_is_deleted_by_identifier() {
    let mut store = Store::new();
    let ada = store.create_user(new_user(1, "ada")).unwrap();
    store.create_note(new_note(ada.id, "a1.mpeg")).unwrap();
    let second = store.create_note(new_note(ada.id, "a2.mpeg")).unwrap();
    assert_eq!(store.get_note(2).unwrap(), second);
    assert_eq!(store.delete_note(1), 1);
    assert_eq!(store.get_notes_list(), vec![second]);
    assert_eq!(store.delete_note(9), 9);
    assert_eq!(store.get_notes_list().len(), 1);
}

#[test]
fn locale_is_read_back_for_each_supported_code() {
    let mut store = Store::new();
    let ada = store.create_user(new_user(1, "ada")).unwrap();
    for code in ["en", "es", "it", "ua"] {
        let set = store.set_user_locale_code(ada.id, code);
        assert_eq!(set.to_string(), code);
        assert_eq!(store.get_user_locale(ada.id).unwrap().to_string(), code);
    }
}

#[test]
fn unsupported_locale_code_falls_back_to_english() {
    let mut store = Store::new();
    let ada = store.create_user(new_user(1, "ada")).unwrap();
    store.set_user_locale(ada.id, Locale::IT);
    assert_eq!(store.set_user_locale_code(ada.id, "fr"), Locale::EN);
    assert_eq!(store.get_user_locale(ada.id), Ok(Locale::EN));
}

#[test]
fn locale_of_a_missing_user_is_not_found() {
    let mut store = Store::new();
    assert_eq!(store.get_user_locale(3), Err(Error::NotFound));
    assert_eq!(store.set_user_locale(3, Locale::UA), Locale::UA);
    assert_eq!(store.get_user_locale(3), Err(Error::NotFound));
    store.create_user(new_user(1, "ada")).unwrap();
    assert_eq!(store.get_user_locale(1), Ok(Locale::EN));
    assert_eq!(store.get_user_locale(2), Err(Error::NotFound));
}

#[test]
fn user_created_without_locale_is_served_in_english() {
    let mut store = Store::new();
    let request = NewUser {
        telegram_id: 42,
        username: "ada".to_string(),
        first_name: "ada".to_string(),
        last_name: None,
        locale: None,
    };
    let created = store.create_user(request).unwrap();
    assert_eq!(created.id, 1);
    assert_eq!(created.telegram_id, 42);
    assert_eq!(created.username, "ada");
    assert_eq!(created.locale, Locale::EN);
    assert_eq!(store.get_user_locale(created.id), Ok(Locale::EN));
    let italian = NewUser {
        telegram_id: 43,
        username: "bea".to_string(),
        first_name: "bea".to_string(),
        last_name: None,
        locale: Some(Locale::IT),
    };
    assert_eq!(store.create_user(italian).unwrap().locale, Locale::IT);
}

#[test]
fn setting_a_locale_leaves_other_users_alone() {
    let mut store = Store::new();
    let ada = store.create_user(new_user(1, "ada")).unwrap();
    let bob = store.create_user(new_user(2, "bob")).unwrap();
    store.set_user_locale(ada.id, Locale::ES);
    assert_eq!(store.get_user(bob.id).unwrap(), bob);
    assert_eq!(store.get_user(ada.id).unwrap().locale, Locale::ES);
}

#[test]
fn random_note_of_an_empty_store_is_not_found() {
    let store = Store::new();
    assert_eq!(store.get_random_note(0), Err(Error::NotFound));
    assert_eq!(store.get_random_note(u64::MAX), Err(Error::NotFound));
}

#[test]
fn random_note_is_chosen_by_the_roll() {
    let mut store = Store::new();
    let ada = store.create_user(new_user(1, "ada")).unwrap();
    store.create_note(new_note(ada.id, "a.mpeg")).unwrap();
    store.create_note(new_note(ada.id, "b.mpeg")).unwrap();
    store.create_note(new_note(ada.id, "c.mpeg")).unwrap();
    assert_eq!(store.get_random_note(0).unwrap().file_name, "a.mpeg");
    assert_eq!(store.get_random_note(4).unwrap().file_name, "b.mpeg");
    assert_eq!(store.get_random_note(8).unwrap().file_name, "c.mpeg");
}

#[test]
fn stats_total_is_the_sum_of_the_users_counts() {
    let mut store = Store::new();
    let ada = store.create_user(new_user(1, "ada")).unwrap();
    let bob = store.create_user(new_user(2, "bob")).unwrap();
    store.create_user(new_user(3, "eve")).unwrap();
    store.create_note(new_note(ada.id, "a1.mpeg")).unwrap();
    store.create_note(new_note(bob.id, "b1.mpeg")).unwrap();
    store.create_note(new_note(ada.id, "a2.mpeg")).unwrap();
    let stats = store.get_stats().unwrap();
    assert_eq!(stats.total_videonotes, 3);
    let counts: Vec<(String, i64)> =
        stats.users.iter().map(|s| (s.username.clone(), s.videonotes)).collect();
    assert_eq!(
        counts,
        vec![("ada".to_string(), 2), ("bob".to_string(), 1), ("eve".to_string(), 0)]
    );
    let sum: i64 = stats.users.iter().map(|s| s.videonotes).sum();
    assert_eq!(sum, stats.total_videonotes as i64);
    let of_ada = store.get_user_stats(ada.id).unwrap();
    assert_eq!(of_ada.username, "ada");
    assert_eq!(of_ada.videonotes, 2);
}

#[test]
fn scenario_user_locale_note_and_bulk_delete() {
    let mut store = Store::new();
    let request = NewUser {
        telegram_id: 42,
        username: "ada".to_string(),
        first_name: "ada".to_string(),
        last_name: None,
        locale: None,
    };
    let user = store.create_user(request).unwrap();
    assert_eq!(user.id, 1);
    assert_eq!(user.telegram_id, 42);
    assert_eq!(user.username, "ada");
    assert_eq!(user.locale.to_string(), "en");
    store.set_user_locale_code(user.id, "it");
    assert_eq!(store.get_user_locale(user.id).unwrap().to_string(), "it");
    let note = store.create_note(new_note(user.id, "x.mpeg")).unwrap();
    assert_eq!(note, Note { id: 1, user_id: user.id, file_name: "x.mpeg".to_string() });
    assert_eq!(store.get_notes_list_by_user(user.id), vec![note]);
    store.delete_all_user_notes(user.id);
    assert!(store.get_notes_list_by_user(user.id).is_empty());
}
