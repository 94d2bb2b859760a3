use cheer_up::catalog::{fill, Catalog};
use cheer_up::stats::UserStats;
use cheer_up::templates::{
    credits_page, error_delete_note_page, extra_page, help_page, language_page, list_page,
    loading_page, random_note_page, start_page, unsupported_input_page, upload_page, Credits,
    Templates,
};

fn catalog() -> Catalog {
    let mut catalog = Catalog::new();
    catalog.add("en", "start_page", "Hello, %{user}!");
    catalog.add("it", "start_page", "Ciao, %{user}!");
    catalog.add("ua", "start_page", "Привіт, %{user}!");
    catalog.add("en", "loading_page", "Loading...");
    catalog.add("en", "help_page", "Help 100%");
    catalog.add("en", "random_note_page", "From %{user}");
    catalog.add("en", "list_page", "%{user} has %{total_notes} notes");
    catalog.add("en", "extra_page", "%{user}: %{total_notes}/%{total_users}\n%{user_videonotes_list}");
    catalog.add("en", "upload_page", "Upload, %{user}: %{total_notes}/%{total_users}\n%{user_videonotes_list}");
    catalog.add("en", "extra_page_stat_entry", "- %{user}: %{user_total_notes}\n");
    catalog.add("en", "credits_page", "%{author} (%{profile_name}, %{profile_url}) %{repo_url}");
    catalog.add("en", "language_page", "Translate at %{repo_url}");
    catalog.add("en", "unsupported_page", "No %{media_type} please");
    catalog.add("en", "unsupported_page.media.photo", "photos");
    catalog.add("it", "unsupported_page.media.photo", "foto");
    catalog.add("en", "unsupported_page.media.document", "documents");
    catalog.add("en", "unsupported_page.other_media", "Not supported");
    catalog.add("en", "delete_note_page", "Delete %{note_id}?");
    catalog.add("en", "success_delete_note_page", "Deleted %{note_id}");
    catalog.add("en", "error_delete_note_page", "Could not delete");
    catalog.add("en", "error_page", "Nothing here");
    catalog.add("it", "error_page", "Niente qui");
    catalog
}

fn credits() -> Credits {
    Credits {
        author: "Ada".to_string(),
        profile_name: "ada".to_string(),
        profile_url: "https://example.org/ada".to_string(),
        repo_url: "https://example.org/repo".to_string(),
    }
}

#[test]
fn catalog_holds_what_was_added() {
    let mut catalog = Catalog::new();
    assert_eq!(catalog.translate("en", "greeting"), None);
    catalog.add("en", "greeting", "Hello");
    catalog.add("en", "farewell", "Bye");
    catalog.add("it", "greeting", "Ciao");
    assert_eq!(catalog.translate("en", "greeting"), Some("Hello".to_string()));
    assert_eq!(catalog.translate("en", "farewell"), Some("Bye".to_string()));
    assert_eq!(catalog.translate("it", "greeting"), Some("Ciao".to_string()));
    assert_eq!(catalog.translate("it", "farewell"), None);
    assert_eq!(catalog.translate("es", "greeting"), None);
    catalog.add("en", "greeting", "Hi");
    assert_eq!(catalog.translate("en", "greeting"), Some("Hi".to_string()));
    assert_eq!(catalog.translate("en", "farewell"), Some("Bye".to_string()));
}

#[test]
fn lookup_falls_back_to_english_and_then_to_the_key() {
    let catalog = catalog();
    assert_eq!(catalog.lookup("it", "start_page"), "Ciao, %{user}!");
    assert_eq!(catalog.lookup("it", "loading_page"), "Loading...");
    assert_eq!(catalog.lookup("xx", "loading_page"), "Loading...");
    assert_eq!(catalog.lookup("it", "no.such.key"), "no.such.key");
    assert_eq!(catalog.lookup("en", "no.such.key"), "no.such.key");
}

#[test]
fn values_replace_placeholders() {
    let names = vec!["name"];
    let values = vec!["world".to_string()];
    assert_eq!(fill("Hello, %{name}!".to_string(), &names, &values), "Hello, world!");
    assert_eq!(fill("%{name}%{name}".to_string(), &names, &values), "worldworld");
    assert_eq!(fill("Hello, %{other}!".to_string(), &names, &values), "Hello, %{other}!");
    assert_eq!(fill("no placeholder".to_string(), &names, &values), "no placeholder");
    assert_eq!(fill("".to_string(), &names, &values), "");
}

#[test]
fn text_without_arguments_is_kept_as_it_is() {
    let names: Vec<&str> = Vec::new();
    let values: Vec<String> = Vec::new();
    assert_eq!(fill("Hello, %{name}!".to_string(), &names, &values), "Hello, %{name}!");
}

#[test]
fn text_that_cannot_be_cut_is_kept_as_it_is() {
    let names = vec!["name"];
    let values = vec!["world".to_string()];
    assert_eq!(fill("%é{name}".to_string(), &names, &values), "%é{name}");
    assert_eq!(fill("%é{name} %{name}".to_string(), &names, &values), "%é{name} %{name}");
    assert_eq!(fill("%{name}é}".to_string(), &names, &values), "worldé}");
    assert_eq!(fill("é} é{ %{name} é }".to_string(), &names, &values), "é} é{ world é }");
    assert_eq!(fill("%{é}%{name}".to_string(), &names, &values), "%{é}world");
    assert_eq!(fill("Привіт, %{name}!".to_string(), &names, &values), "Привіт, world!");
    assert_eq!(fill("é %{name}".to_string(), &names, &values), "é world");
    assert_eq!(fill("{name} é".to_string(), &names, &values), "{name} é");
}

#[test]
fn pages_are_rendered_in_the_locale() {
    let catalog = catalog();
    assert_eq!(start_page(&catalog, "ada", "en"), "Hello, ada!");
    assert_eq!(start_page(&catalog, "ada", "it"), "Ciao, ada!");
    assert_eq!(start_page(&catalog, "ada", "ua"), "Привіт, ada!");
    assert_eq!(start_page(&catalog, "ada", "es"), "Hello, ada!");
    assert_eq!(start_page(&catalog, "ada", "klingon"), "Hello, ada!");
    assert_eq!(loading_page(&catalog, "it"), "Loading...");
    assert_eq!(help_page(&catalog, "en"), "Help 100%");
    assert_eq!(random_note_page(&catalog, "bob", "en"), "From bob");
    assert_eq!(list_page(&catalog, "ada", "3", "en"), "ada has 3 notes");
    assert_eq!(error_delete_note_page(&catalog, "en"), "Could not delete");
    assert_eq!(language_page(&catalog, "https://r", "en"), "Translate at https://r");
    assert_eq!(
        credits_page(&catalog, "Ada", "ada", "https://p", "https://r", "en"),
        "Ada (ada, https://p) https://r"
    );
}

#[test]
fn page_without_text_shows_its_key() {
    let catalog = Catalog::new();
    assert_eq!(loading_page(&catalog, "en"), "loading_page");
    assert_eq!(start_page(&catalog, "ada", "en"), "start_page");
}

#[test]
fn statistics_pages_list_one_line_for_each_user() {
    let catalog = catalog();
    let stats = vec![
        UserStats { username: "ada".to_string(), videonotes: 2 },
        UserStats { username: "bob".to_string(), videonotes: 0 },
        UserStats { username: "eve".to_string(), videonotes: 15 },
    ];
    assert_eq!(
        extra_page(&catalog, "ada", "17", "3", &stats, "en"),
        "ada: 17/3\n- ada: 2\n- bob: 0\n- eve: 15\n"
    );
    assert_eq!(
        upload_page(&catalog, "ada", "17", "3", &stats, "en"),
        "Upload, ada: 17/3\n- ada: 2\n- bob: 0\n- eve: 15\n"
    );
    assert_eq!(extra_page(&catalog, "ada", "0", "0", &Vec::new(), "en"), "ada: 0/0\n");
}

#[test]
fn unsupported_input_names_known_media() {
    let catalog = catalog();
    assert_eq!(unsupported_input_page(&catalog, "photo", "en"), "No photos please");
    assert_eq!(unsupported_input_page(&catalog, "photo", "it"), "No foto please");
    assert_eq!(unsupported_input_page(&catalog, "document", "en"), "No documents please");
    assert_eq!(
        unsupported_input_page(&catalog, "video", "en"),
        "No unsupported_page.media.video please"
    );
    assert_eq!(unsupported_input_page(&catalog, "unknown", "en"), "Not supported");
    assert_eq!(unsupported_input_page(&catalog, "videonote", "en"), "Not supported");
    assert_eq!(unsupported_input_page(&catalog, "", "en"), "Not supported");
}

#[test]
fn templates_render_their_pages() {
    let catalog = catalog();
    let credits = credits();
    let render = |template: Templates, locale: &str| template.render(locale, &catalog, &credits);
    assert_eq!(render(Templates::LoadingPage, "en"), "Loading...");
    assert_eq!(render(Templates::StartPage("ada".to_string()), "it"), "Ciao, ada!");
    assert_eq!(render(Templates::RandomNotePage("bob".to_string()), "en"), "From bob");
    assert_eq!(render(Templates::DeleteNotePage("7".to_string()), "en"), "Delete 7?");
    assert_eq!(render(Templates::SuccessDeleteNotePage("7".to_string()), "en"), "Deleted 7");
    assert_eq!(render(Templates::ErrorDeleteNotePage, "en"), "Could not delete");
    assert_eq!(
        render(Templates::ListPage("ada".to_string(), "2".to_string()), "en"),
        "ada has 2 notes"
    );
    assert_eq!(render(Templates::LanguagePage, "en"), "Translate at https://example.org/repo");
    assert_eq!(render(Templates::HelpPage, "en"), "Help 100%");
    assert_eq!(
        render(Templates::CreditsPage, "en"),
        "Ada (ada, https://example.org/ada) https://example.org/repo"
    );
    assert_eq!(
        render(Templates::UnsupportedInputPage("photo".to_string()), "en"),
        "No photos please"
    );
    assert_eq!(render(Templates::SuccessUploadPage, "en"), "success_upload_page");
    assert_eq!(render(Templates::ErrorPage, "en"), "Nothing here");
    assert_eq!(render(Templates::ErrorPage, "it"), "Niente qui");
    assert_eq!(
        render(
            Templates::ExtraPage(
                "ada".to_string(),
                "1".to_string(),
                "1".to_string(),
                vec![UserStats { username: "ada".to_string(), videonotes: 1 }],
            ),
            "en",
        ),
        "ada: 1/1\n- ada: 1\n"
    );
}
