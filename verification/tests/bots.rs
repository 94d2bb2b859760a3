use cheer_up::bot;
use cheer_up::buttons::{make_button, Button, Keyboard};
use cheer_up::callbacks::{handle_callback, CallbackRoute, Payload, QueryData, Topic};
use cheer_up::catalog::Catalog;
use cheer_up::client;
use cheer_up::locale::Locale;
use cheer_up::manager;
use cheer_up::manager::commands::Confirmation;
use cheer_up::messages::{MessageContent, MessageType};
use cheer_up::note::Note;
use cheer_up::reply::Reply;
use cheer_up::stats::{Stats, UserStats};
use cheer_up::templates::Templates;
use cheer_up::user::User;
use cheer_up::utils::{
    get_user_folder_path, get_user_folder_path_by_user, get_vnote_filename, get_vnote_path, Chat,
};

fn catalog() -> Catalog {
    let mut catalog = Catalog::new();
    catalog.add("en", "buttons.go_home", "Home");
    catalog.add("it", "buttons.go_home", "Casa");
    catalog.add("en", "buttons.ask_friend", "Ask a friend");
    catalog.add("en", "buttons.go_extra", "Extra");
    catalog.add("en", "buttons.confirm_delete", "Yes, delete");
    catalog
}

fn chat(id: i64, username: Option<&str>) -> Chat {
    Chat { id, username: username.map(|s| s.to_string()), last_name: None }
}

fn user(id: i64, telegram_id: i64, username: &str) -> User {
    User {
        id,
        telegram_id,
        username: username.to_string(),
        first_name: username.to_string(),
        last_name: None,
        locale: Locale::EN,
    }
}

fn button(label: &str, topic: Topic, payload: Option<Payload>) -> Button {
    Button { label: label.to_string(), query: QueryData { topic, payload } }
}

fn message() -> MessageContent {
    MessageContent {
        video_note: None,
        text: None,
        photo: false,
        video: false,
        voice: false,
        audio: false,
        document: false,
    }
}

fn press(topic: Topic, payload: Option<Payload>) -> Option<QueryData> {
    Some(QueryData { topic, payload })
}

#[test]
fn payload_is_shown_as_text() {
    assert_eq!(Payload::Text("en".to_string()).to_string(), "en");
    assert_eq!(Payload::Username("ada".to_string()).to_string(), "ada");
    assert_eq!(Payload::UserId(12).to_string(), "12");
    assert_eq!(Payload::NoteId(-3).to_string(), "-3");
}

#[test]
fn payload_names_a_note_or_a_user() {
    assert_eq!(Payload::NoteId(7).note_id(), Some(7));
    assert_eq!(Payload::NoteId(7).user_id(), None);
    assert_eq!(Payload::UserId(i64::MIN).user_id(), Some(i64::MIN));
    assert_eq!(Payload::UserId(7).note_id(), None);
    assert_eq!(Payload::Text("15".to_string()).note_id(), None);
    assert_eq!(Payload::Text("15".to_string()).user_id(), None);
    assert_eq!(Payload::Username("15".to_string()).note_id(), None);
}

#[test]
fn topics_have_names() {
    assert_eq!(Topic::GetRandomNote.name(), "#random_note");
    assert_eq!(Topic::ListAllNotes.name(), "#list");
    assert_eq!(Topic::DeleteNote.name(), "#delete");
    assert_eq!(Topic::ConfirmDelete.name(), "#confirm_delete");
    assert_eq!(Topic::GoHomePage.name(), "#home");
    assert_eq!(Topic::GoExtraPage.name(), "#extra");
    assert_eq!(Topic::GoUploadPage.name(), "#upload");
    assert_eq!(Topic::GoCreditsPage.name(), "#credits");
    assert_eq!(Topic::GoLanguagePage.name(), "#language");
    assert_eq!(Topic::GoHelpPage.name(), "#help");
    assert_eq!(Topic::SetLanguage.name(), "#set_language");
}

#[test]
fn press_without_data_or_chat_is_ignored() {
    assert_eq!(handle_callback(None, true), CallbackRoute::Ignore);
    assert_eq!(handle_callback(press(Topic::GoHomePage, None), false), CallbackRoute::Ignore);
    assert_eq!(
        handle_callback(press(Topic::SetLanguage, Some(Payload::Text("it".to_string()))), false),
        CallbackRoute::Ignore
    );
}

#[test]
fn pages_are_reached_whatever_the_payload() {
    let text = || Some(Payload::Text("x".to_string()));
    assert_eq!(handle_callback(press(Topic::GetRandomNote, None), true), CallbackRoute::RandomNote);
    assert_eq!(
        handle_callback(press(Topic::GetRandomNote, Some(Payload::NoteId(1))), true),
        CallbackRoute::RandomNote
    );
    assert_eq!(handle_callback(press(Topic::ListAllNotes, text()), true), CallbackRoute::ListAllNotes);
    assert_eq!(handle_callback(press(Topic::GoHomePage, text()), true), CallbackRoute::Home);
    assert_eq!(handle_callback(press(Topic::GoHomePage, None), true), CallbackRoute::Home);
    assert_eq!(handle_callback(press(Topic::GoLanguagePage, text()), true), CallbackRoute::Language);
    assert_eq!(handle_callback(press(Topic::GoHelpPage, None), true), CallbackRoute::Help);
}

#[test]
fn superfluous_payload_does_not_hide_a_page() {
    let text = || Some(Payload::Text("x".to_string()));
    assert_eq!(handle_callback(press(Topic::GoExtraPage, None), true), CallbackRoute::Extra);
    assert_eq!(handle_callback(press(Topic::GoExtraPage, text()), true), CallbackRoute::Extra);
    assert_eq!(handle_callback(press(Topic::GoUploadPage, None), true), CallbackRoute::Upload);
    assert_eq!(handle_callback(press(Topic::GoUploadPage, text()), true), CallbackRoute::Upload);
    assert_eq!(handle_callback(press(Topic::GoCreditsPage, None), true), CallbackRoute::Credits);
    assert_eq!(
        handle_callback(press(Topic::GoCreditsPage, Some(Payload::NoteId(1))), true),
        CallbackRoute::Credits
    );
    assert_eq!(handle_callback(press(Topic::GoExtraPage, text()), false), CallbackRoute::Ignore);
}

#[test]
fn deletions_carry_their_payload() {
    assert_eq!(
        handle_callback(press(Topic::DeleteNote, Some(Payload::NoteId(4))), true),
        CallbackRoute::DeleteNote(Some(Payload::NoteId(4)))
    );
    assert_eq!(handle_callback(press(Topic::DeleteNote, None), true), CallbackRoute::DeleteNote(None));
    assert_eq!(
        handle_callback(press(Topic::ConfirmDelete, Some(Payload::NoteId(4))), true),
        CallbackRoute::ConfirmDelete(Some(Payload::NoteId(4)))
    );
    assert_eq!(
        handle_callback(press(Topic::EraseAllNotes, Some(Payload::UserId(2))), true),
        CallbackRoute::EraseAllNotes(Some(Payload::UserId(2)))
    );
    assert_eq!(
        handle_callback(press(Topic::ConfirmEraseAllNotes, None), true),
        CallbackRoute::ConfirmEraseAllNotes(None)
    );
}

#[test]
fn language_is_taken_from_the_payload() {
    let set = |payload: Payload| handle_callback(press(Topic::SetLanguage, Some(payload)), true);
    assert_eq!(set(Payload::Text("it".to_string())), CallbackRoute::SetLanguage(Locale::IT));
    assert_eq!(set(Payload::Text("ua".to_string())), CallbackRoute::SetLanguage(Locale::UA));
    assert_eq!(set(Payload::Username("es".to_string())), CallbackRoute::SetLanguage(Locale::ES));
    assert_eq!(set(Payload::Text("de".to_string())), CallbackRoute::SetLanguage(Locale::EN));
    assert_eq!(set(Payload::NoteId(1)), CallbackRoute::SetLanguage(Locale::EN));
    assert_eq!(handle_callback(press(Topic::SetLanguage, None), true), CallbackRoute::Help);
}

#[test]
fn commands_of_the_user_bot_are_read() {
    assert_eq!(bot::commands::Command::parse_str("/start"), Some(bot::commands::Command::Start));
    assert_eq!(bot::commands::Command::parse_str("/ask_friend"), Some(bot::commands::Command::RandomNote));
    assert_eq!(bot::commands::Command::parse_str("/extra"), Some(bot::commands::Command::Extra));
    assert_eq!(bot::commands::Command::parse_str("/list"), Some(bot::commands::Command::List));
    assert_eq!(bot::commands::Command::parse_str("/language"), Some(bot::commands::Command::Language));
    assert_eq!(bot::commands::Command::parse_str("/help"), Some(bot::commands::Command::Help));
    assert_eq!(bot::commands::Command::parse_str("/credits"), Some(bot::commands::Command::Credits));
    assert_eq!(bot::commands::Command::parse_str("/upload"), None);
    assert_eq!(bot::commands::Command::parse_str("start"), None);
    assert_eq!(bot::commands::Command::parse_str("/START"), None);
    assert_eq!(bot::commands::Command::parse_str("/start now"), None);
    assert_eq!(bot::commands::Command::parse_str(""), None);
}

#[test]
fn commands_of_the_manager_bot_are_read() {
    assert_eq!(manager::commands::Command::parse_str("/start"), Some(manager::commands::Command::Start));
    assert_eq!(manager::commands::Command::parse_str("/ask_friend"), Some(manager::commands::Command::RandomNote));
    assert_eq!(manager::commands::Command::parse_str("/extra"), Some(manager::commands::Command::Extra));
    assert_eq!(manager::commands::Command::parse_str("/upload"), Some(manager::commands::Command::Upload));
    assert_eq!(manager::commands::Command::parse_str("/list"), Some(manager::commands::Command::List));
    assert_eq!(manager::commands::Command::parse_str("/language"), Some(manager::commands::Command::Language));
    assert_eq!(manager::commands::Command::parse_str("/help"), Some(manager::commands::Command::Help));
    assert_eq!(manager::commands::Command::parse_str("/credits"), Some(manager::commands::Command::Credits));
    assert_eq!(manager::commands::Command::parse_str("/random_note"), None);
    assert_eq!(manager::commands::Command::parse_str("none"), None);
}

#[test]
fn message_kind_is_that_of_the_first_content() {
    assert_eq!(MessageType::from_msg(&message()), MessageType::Unknown);
    let mut msg = message();
    msg.document = true;
    assert_eq!(MessageType::from_msg(&msg), MessageType::Document);
    msg.audio = true;
    assert_eq!(MessageType::from_msg(&msg), MessageType::Audio);
    msg.voice = true;
    assert_eq!(MessageType::from_msg(&msg), MessageType::Voice);
    msg.video = true;
    assert_eq!(MessageType::from_msg(&msg), MessageType::Video);
    msg.photo = true;
    assert_eq!(MessageType::from_msg(&msg), MessageType::Photo);
    msg.text = Some("caption".to_string());
    assert_eq!(MessageType::from_msg(&msg), MessageType::Text);
    msg.video_note = Some("file".to_string());
    assert_eq!(MessageType::from_msg(&msg), MessageType::VideoNote);
}

#[test]
fn message_kinds_have_names() {
    assert_eq!(MessageType::VideoNote.name(), "videonote");
    assert_eq!(MessageType::Text.name(), "text");
    assert_eq!(MessageType::Photo.name(), "photo");
    assert_eq!(MessageType::Video.name(), "video");
    assert_eq!(MessageType::Voice.name(), "voice");
    assert_eq!(MessageType::Audio.name(), "audio");
    assert_eq!(MessageType::Document.name(), "document");
    assert_eq!(MessageType::Unknown.name(), "unknown");
}

#[test]
fn user_bot_routes_messages() {
    let mut note = message();
    note.video_note = Some("AbC".to_string());
    note.text = Some("/help".to_string());
    assert_eq!(bot::messages::handle_message(note), bot::messages::MessageRoute::VideoNote("AbC".to_string()));
    let mut text = message();
    text.text = Some("/list".to_string());
    assert_eq!(bot::messages::handle_message(text), bot::messages::MessageRoute::Command(bot::commands::Command::List));
    let mut chatter = message();
    chatter.text = Some("hello there".to_string());
    assert_eq!(bot::messages::handle_message(chatter), bot::messages::MessageRoute::Command(bot::commands::Command::Start));
    let mut photo = message();
    photo.photo = true;
    assert_eq!(bot::messages::handle_message(photo), bot::messages::MessageRoute::Unsupported(MessageType::Photo));
    assert_eq!(bot::messages::handle_message(message()), bot::messages::MessageRoute::Unsupported(MessageType::Unknown));
}

#[test]
fn manager_bot_routes_messages() {
    let mut text = message();
    text.text = Some("/upload".to_string());
    assert_eq!(manager::messages::handle_message(text), manager::messages::MessageRoute::Command(manager::commands::Command::Upload));
    let mut chatter = message();
    chatter.text = Some("/unknown".to_string());
    assert_eq!(manager::messages::handle_message(chatter), manager::messages::MessageRoute::Command(manager::commands::Command::Start));
    let mut voice = message();
    voice.voice = true;
    assert_eq!(manager::messages::handle_message(voice), manager::messages::MessageRoute::Unsupported(MessageType::Voice));
    let mut note = message();
    note.video_note = Some("id1".to_string());
    assert_eq!(manager::messages::handle_message(note), manager::messages::MessageRoute::VideoNote("id1".to_string()));
}

#[test]
fn unsupported_input_is_answered_without_keyboard() {
    let reply = bot::messages::unsupported_input(MessageType::Voice);
    assert_eq!(
        reply,
        Reply {
            template: Templates::UnsupportedInputPage("voice".to_string()),
            keyboard: None,
            disable_web_page_preview: false,
        }
    );
}

#[test]
fn buttons_carry_topic_and_payload() {
    let data = QueryData { topic: Topic::DeleteNote, payload: Some(Payload::NoteId(3)) };
    assert_eq!(
        make_button("Delete", &data),
        button("Delete", Topic::DeleteNote, Some(Payload::NoteId(3)))
    );
    let catalog = catalog();
    assert_eq!(
        cheer_up::buttons::go_to_home_button(&catalog, None, &Locale::IT),
        button("Casa", Topic::GoHomePage, None)
    );
    assert_eq!(
        cheer_up::buttons::go_to_home_button(&catalog, None, &Locale::ES),
        button("Home", Topic::GoHomePage, None)
    );
    assert_eq!(
        cheer_up::buttons::go_to_help_button(&catalog, Some(Payload::UserId(1)), &Locale::EN),
        button("buttons.go_help", Topic::GoHelpPage, Some(Payload::UserId(1)))
    );
}

#[test]
fn start_keyboard_of_the_user_bot() {
    let catalog = catalog();
    let keyboard = bot::keyboards::start_page(
        &catalog,
        Some(Payload::Text("a".to_string())),
        None,
        &Locale::EN,
    );
    assert_eq!(
        keyboard,
        Keyboard {
            rows: vec![vec![
                button("Ask a friend", Topic::GetRandomNote, Some(Payload::Text("a".to_string()))),
                button("Extra", Topic::GoExtraPage, None),
            ]],
        }
    );
}

#[test]
fn language_keyboard_carries_the_codes() {
    let catalog = catalog();
    for keyboard in [
        bot::keyboards::language_page(&catalog, &Locale::EN),
        manager::keyboards::language_page(&catalog, &Locale::EN),
    ] {
        let text = |code: &str| Some(Payload::Text(code.to_string()));
        assert_eq!(
            keyboard,
            Keyboard {
                rows: vec![
                    vec![button("buttons.set_language_EN", Topic::SetLanguage, text("en"))],
                    vec![button("buttons.set_language_ES", Topic::SetLanguage, text("es"))],
                    vec![button("buttons.set_language_IT", Topic::SetLanguage, text("it"))],
                    vec![button("buttons.set_language_UA", Topic::SetLanguage, text("ua"))],
                    vec![button("Home", Topic::GoHomePage, None)],
                ],
            }
        );
    }
}

#[test]
fn manager_keyboards_have_their_rows() {
    let catalog = catalog();
    assert_eq!(
        manager::keyboards::start_page(&catalog, &Locale::EN),
        Keyboard {
            rows: vec![
                vec![
                    button("buttons.list_notes", Topic::ListAllNotes, None),
                    button("buttons.go_help", Topic::GoHelpPage, None),
                ],
                vec![button("buttons.go_upload", Topic::GoUploadPage, None)],
            ],
        }
    );
    assert_eq!(
        manager::keyboards::delete_note_page(&catalog, Some(Payload::NoteId(9)), &Locale::EN),
        Keyboard {
            rows: vec![vec![
                button("Yes, delete", Topic::ConfirmDelete, Some(Payload::NoteId(9))),
                button("Home", Topic::GoHomePage, None),
            ]],
        }
    );
    assert_eq!(
        manager::keyboards::vnote_entry(&catalog, Some(Payload::NoteId(9)), &Locale::EN),
        Keyboard {
            rows: vec![vec![button("buttons.delete_note", Topic::DeleteNote, Some(Payload::NoteId(9)))]],
        }
    );
    assert_eq!(
        manager::keyboards::upload_result_page(&catalog, &Locale::IT),
        Keyboard { rows: vec![vec![button("Casa", Topic::GoHomePage, None)]] }
    );
}

#[test]
fn start_command_greets_by_name() {
    let catalog = catalog();
    let reply = bot::commands::start_command(&catalog, &chat(5, Some("ada")), &Locale::EN);
    assert_eq!(reply.template, Templates::StartPage("ada".to_string()));
    assert_eq!(
        reply.keyboard,
        Some(bot::keyboards::start_page(&catalog, None, None, &Locale::EN))
    );
    assert!(!reply.disable_web_page_preview);
    let nameless = bot::commands::start_command(&catalog, &chat(5, None), &Locale::EN);
    assert_eq!(nameless.template, Templates::StartPage("Unknown User".to_string()));
    let managed = manager::commands::start_command(&catalog, &chat(5, None), &Locale::EN);
    assert_eq!(managed.template, Templates::StartPage("Unknown User".to_string()));
    assert_eq!(managed.keyboard, Some(manager::keyboards::start_page(&catalog, &Locale::EN)));
}

#[test]
fn extra_command_shows_the_statistics() {
    let catalog = catalog();
    let users = vec![
        UserStats { username: "ada".to_string(), videonotes: 2 },
        UserStats { username: "bob".to_string(), videonotes: 1 },
    ];
    let stats = Stats { total_videonotes: 3, users: users.clone() };
    let reply = bot::commands::extra_command(&catalog, &chat(5, None), stats, &Locale::EN);
    assert_eq!(
        reply.template,
        Templates::ExtraPage("Unknown user".to_string(), "3".to_string(), "2".to_string(), users.clone())
    );
    let stats = Stats { total_videonotes: 3, users: users.clone() };
    let upload = manager::commands::upload_command(&catalog, &chat(5, Some("ada")), stats, &Locale::EN);
    assert_eq!(
        upload.template,
        Templates::UploadPage("ada".to_string(), "3".to_string(), "2".to_string(), users)
    );
    assert_eq!(upload.keyboard, Some(manager::keyboards::upload_page(&catalog, None, &Locale::EN)));
}

#[test]
fn list_command_counts_the_notes() {
    let catalog = catalog();
    let ada = user(3, 42, "ada");
    let reply = manager::commands::list_command(&catalog, &ada, 12, &Locale::EN);
    assert_eq!(reply.template, Templates::ListPage("ada".to_string(), "12".to_string()));
    assert_eq!(
        reply.keyboard,
        Some(manager::keyboards::list_notes_page(
            &catalog,
            Some(Payload::UserId(3)),
            None,
            &Locale::EN
        ))
    );
    let plain = bot::commands::list_command(&catalog, &ada, 0, &Locale::EN);
    assert_eq!(plain.template, Templates::ListPage("ada".to_string(), "0".to_string()));
}

#[test]
fn pages_with_links_are_shown_without_preview() {
    let catalog = catalog();
    assert!(bot::commands::language_command(&catalog, &Locale::EN).disable_web_page_preview);
    assert!(bot::commands::credits_command(&catalog, &Locale::EN).disable_web_page_preview);
    assert!(!bot::commands::help_command(&catalog, &Locale::EN).disable_web_page_preview);
    assert!(manager::commands::language_command(&catalog, &Locale::EN).disable_web_page_preview);
    assert!(manager::commands::credits_command(&catalog, &Locale::EN).disable_web_page_preview);
    assert!(!manager::commands::help_command(&catalog, &Locale::EN).disable_web_page_preview);
    let set = bot::commands::set_language_command(&catalog, &chat(1, Some("ada")), &Locale::IT);
    assert!(set.disable_web_page_preview);
    assert_eq!(set.template, Templates::StartPage("ada".to_string()));
    assert_eq!(Reply::loading().template, Templates::LoadingPage);
    assert_eq!(Reply::loading().keyboard, None);
}

#[test]
fn delete_note_command_asks_for_confirmation() {
    let catalog = catalog();
    let reply = manager::commands::delete_note_command(&catalog, Some(Payload::NoteId(8)), &Locale::EN);
    assert_eq!(reply.template, Templates::DeleteNotePage("8".to_string()));
    assert_eq!(
        reply.keyboard,
        Some(manager::keyboards::delete_note_page(&catalog, Some(Payload::NoteId(8)), &Locale::EN))
    );
    let without = manager::commands::delete_note_command(&catalog, None, &Locale::EN);
    assert_eq!(without.template, Templates::DeleteNotePage("none".to_string()));
    assert_eq!(
        without.keyboard,
        Some(manager::keyboards::delete_note_page(
            &catalog,
            Some(Payload::Text("none".to_string())),
            &Locale::EN
        ))
    );
    let erase = manager::commands::erase_all_notes_command(&catalog, Some(Payload::UserId(2)), &Locale::EN);
    assert_eq!(erase.template, Templates::EraseAllNotesPage("2".to_string()));
}

#[test]
fn confirmation_needs_a_note() {
    let catalog = catalog();
    let error = |loading_first: bool| Confirmation::Refused {
        loading_first,
        reply: Reply {
            template: Templates::ErrorDeleteNotePage,
            keyboard: Some(manager::keyboards::delete_note_result_page(&catalog, &Locale::EN)),
            disable_web_page_preview: false,
        },
    };
    let confirm =
        |payload: Option<Payload>| manager::commands::confirm_delete_command(&catalog, payload, &Locale::EN);
    assert_eq!(confirm(None), error(false));
    assert_eq!(confirm(Some(Payload::Text("none".to_string()))), error(true));
    assert_eq!(confirm(Some(Payload::Text("".to_string()))), error(true));
    assert_eq!(confirm(Some(Payload::NoteId(8))), Confirmation::Delete { id: 8 });
    assert_eq!(confirm(Some(Payload::NoteId(-1))), Confirmation::Delete { id: -1 });
    assert_eq!(confirm(Some(Payload::Text("8".to_string()))), error(true));
    assert_eq!(confirm(Some(Payload::Username("8".to_string()))), error(true));
    assert_eq!(confirm(Some(Payload::UserId(8))), error(true));
}

#[test]
fn erasing_all_notes_needs_a_user() {
    let catalog = catalog();
    let confirm = |payload: Option<Payload>| {
        manager::commands::confirm_erase_all_notes_command(&catalog, payload, &Locale::EN)
    };
    assert_eq!(confirm(Some(Payload::UserId(2))), Confirmation::Delete { id: 2 });
    match confirm(None) {
        Confirmation::Refused { loading_first, reply } => {
            assert!(!loading_first);
            assert_eq!(reply.template, Templates::ErrorEraseAllNotesPage);
        }
        other => panic!("unexpected {:?}", other),
    }
    for payload in
        [Payload::Username("ada".to_string()), Payload::NoteId(2), Payload::Text("2".to_string())]
    {
        match confirm(Some(payload)) {
            Confirmation::Refused { loading_first, reply } => {
                assert!(loading_first);
                assert_eq!(reply.template, Templates::ErrorEraseAllNotesPage);
                assert!(!reply.disable_web_page_preview);
            }
            other => panic!("unexpected {:?}", other),
        }
    }
}

#[test]
fn results_are_reported() {
    let catalog = catalog();
    let deleted = manager::commands::delete_note_result(&catalog, Some("8".to_string()), &Locale::EN);
    assert_eq!(deleted.template, Templates::SuccessDeleteNotePage("8".to_string()));
    let failed = manager::commands::delete_note_result(&catalog, None, &Locale::EN);
    assert_eq!(failed.template, Templates::ErrorDeleteNotePage);
    let erased = manager::commands::erase_all_notes_result(&catalog, Some("2".to_string()), &Locale::EN);
    assert_eq!(erased.template, Templates::SuccessEraseAllNotesPage("2".to_string()));
    let uploaded = |file_stored: bool, note_registered: bool| {
        cheer_up::messages::upload_result(&catalog, file_stored, note_registered, &Locale::EN)
    };
    assert_eq!(uploaded(true, true).template, Templates::SuccessUploadPage);
    assert_eq!(uploaded(true, false).template, Templates::ErrorUploadPage);
    assert_eq!(uploaded(false, true).template, Templates::ErrorUploadPage);
    assert_eq!(uploaded(false, false).template, Templates::ErrorUploadPage);
    assert_eq!(
        uploaded(true, false).keyboard,
        Some(manager::keyboards::upload_result_page(&catalog, &Locale::EN))
    );
}

#[test]
fn folders_are_named_by_telegram_id_and_name() {
    assert_eq!(get_user_folder_path(None, &chat(42, Some("ada"))), "_EXTRA/videonotes/42_ada");
    assert_eq!(get_user_folder_path(Some("data/"), &chat(42, Some("ada"))), "data/videonotes/42_ada");
    assert_eq!(get_user_folder_path(Some("/data/"), &chat(42, None)), "/data/videonotes/42_42");
    assert_eq!(get_user_folder_path(Some(""), &chat(-7, Some("x"))), "videonotes/-7_x");
    assert_eq!(
        get_user_folder_path_by_user(Some("/data/"), &user(9, 42, "ada")),
        "/data/videonotes/42_ada"
    );
    assert_eq!(get_vnote_filename("AgADBAAD"), "AgADBAAD.mpeg");
}

#[test]
fn upload_and_retrieval_use_one_folder() {
    for visitor in [chat(42, Some("ada")), chat(42, None), chat(-7, None)] {
        let created = client::new_user(&visitor, "en");
        let stored = User {
            id: 9,
            telegram_id: created.telegram_id,
            username: created.username,
            first_name: created.first_name,
            last_name: created.last_name,
            locale: Locale::EN,
        };
        assert_eq!(
            get_user_folder_path(Some("data/"), &visitor),
            get_user_folder_path_by_user(Some("data/"), &stored)
        );
    }
}

#[test]
fn random_note_is_answered_with_its_author_or_an_error() {
    let catalog = catalog();
    let ada = user(3, 42, "ada");
    for found in [
        bot::commands::random_note_command(&catalog, Some(&ada), &Locale::EN),
        manager::commands::random_note_command(&catalog, Some(&ada), &Locale::EN),
    ] {
        assert_eq!(found.template, Templates::RandomNotePage("ada".to_string()));
        assert_eq!(
            found.keyboard,
            Some(bot::keyboards::random_note_page(&catalog, None, &Locale::EN))
        );
    }
    for missing in [
        bot::commands::random_note_command(&catalog, None, &Locale::IT),
        manager::commands::random_note_command(&catalog, None, &Locale::IT),
    ] {
        assert_eq!(missing.template, Templates::ErrorPage);
        assert_eq!(
            missing.keyboard,
            Some(bot::keyboards::random_note_page(&catalog, None, &Locale::IT))
        );
        assert!(!missing.disable_web_page_preview);
    }
}

#[test]
fn notes_of_the_seed_users_lie_in_the_common_folder() {
    let note = |user_id: i64| Note { id: 5, user_id, file_name: "f.mpeg".to_string() };
    let ada = user(3, 42, "ada");
    assert_eq!(get_vnote_path(Some("/data/"), &ada, &note(3)), "/data/videonotes/42_ada/f.mpeg");
    assert_eq!(get_vnote_path(None, &ada, &note(3)), "_EXTRA/videonotes/42_ada/f.mpeg");
    let seed = user(1, 100, "seed");
    assert_eq!(
        get_vnote_path(Some("/data/"), &seed, &note(1)),
        "../_common_data/videonotes/100_seed/f.mpeg"
    );
    assert_eq!(
        get_vnote_path(Some("/data/"), &seed, &note(2)),
        "../_common_data/videonotes/100_seed/f.mpeg"
    );
}

#[test]
fn endpoints_have_their_addresses() {
    assert_eq!(client::users_url(), "http://0.0.0.0:1989/api/users");
    assert_eq!(client::get_user_by_id_url(12), "http://0.0.0.0:1989/api/users/12");
    assert_eq!(
        client::get_user_by_telegram_id_url(&chat(1, Some("ada"))),
        "http://0.0.0.0:1989/api/users/telegram/1"
    );
    assert_eq!(
        client::get_user_by_telegram_id_url(&chat(-42, None)),
        "http://0.0.0.0:1989/api/users/telegram/-42"
    );
    assert_eq!(client::user_locale_url(3), "http://0.0.0.0:1989/api/locale/3");
    assert_eq!(client::notes_url(), "http://0.0.0.0:1989/api/notes");
    assert_eq!(client::random_note_url(), "http://0.0.0.0:1989/api/notes/random");
    assert_eq!(client::note_url(8), "http://0.0.0.0:1989/api/notes/8");
    assert_eq!(client::user_notes_url(3), "http://0.0.0.0:1989/api/notes/user/3");
    assert_eq!(client::stats_url(), "http://0.0.0.0:1989/api/stats");
    assert_eq!(client::user_stats_url(3), "http://0.0.0.0:1989/api/stats/user/3");
}

#[test]
fn new_user_is_made_from_the_chat() {
    let named = Chat { id: 42, username: Some("ada".to_string()), last_name: Some("L".to_string()) };
    let created = client::new_user(&named, "it");
    assert_eq!(created.telegram_id, 42);
    assert_eq!(created.username, "ada");
    assert_eq!(created.first_name, "ada");
    assert_eq!(created.last_name, Some("L".to_string()));
    assert_eq!(created.locale, Some(Locale::IT));
    let nameless = client::new_user(&chat(42, None), "xx");
    assert_eq!(nameless.username, "42");
    assert_eq!(nameless.first_name, "42");
    assert_eq!(nameless.last_name, None);
    assert_eq!(nameless.locale, Some(Locale::EN));
    let note = client::new_note(3, "AgAD");
    assert_eq!(note.user_id, 3);
    assert_eq!(note.file_name, "AgAD.mpeg");
}
