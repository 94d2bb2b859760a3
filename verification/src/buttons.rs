//! The inline buttons of the bots: a label in the user's language, and the
//! topic and payload that a press sends back.

use crate::callbacks::{payload_view, Payload, PayloadView, QueryData, Topic};
use crate::catalog::Catalog;
use crate::locale::Locale;
use crate::templates::plain_page;
use vstd::prelude::*;
use vstd::string::StringExecFns;

verus! {

/// What a button shows and carries, as plain values.
pub struct ButtonView {
    pub label: Seq<char>,
    pub topic: Topic,
    pub payload: Option<PayloadView>,
}

/// An inline button.
#[derive(Debug, PartialEq, Eq)]
pub struct Button {
    pub label: String,
    pub query: QueryData,
}

impl View for Button {
    type V = ButtonView;

    open spec fn view(&self) -> ButtonView {
        ButtonView {
            label: self.label@,
            topic: self.query.topic,
            payload: payload_view(self.query.payload),
        }
    }
}

/// The buttons of a row as plain values.
pub open spec fn row_view(row: Seq<Button>) -> Seq<ButtonView> {
    row.map_values(|button: Button| button@)
}

/// An inline keyboard: rows of buttons.
#[derive(Debug, PartialEq, Eq)]
pub struct Keyboard {
    pub rows: Vec<Vec<Button>>,
}

impl View for Keyboard {
    type V = Seq<Seq<ButtonView>>;

    open spec fn view(&self) -> Seq<Seq<ButtonView>> {
        self.rows@.map_values(|row: Vec<Button>| row_view(row@))
    }
}

/// The button whose label is the text of `key` for `locale`, and which
/// carries `topic` and `payload`.
pub open spec fn button_of(
    catalog: Catalog,
    locale: Locale,
    key: Seq<char>,
    topic: Topic,
    payload: Option<PayloadView>,
) -> ButtonView {
    ButtonView { label: plain_page(catalog, locale.code(), key), topic, payload }
}

/// A button with the given label that carries the given data.
pub fn make_button(label: &str, query_data: &QueryData) -> (button: Button)
    ensures
        button.label@ == label@,
        button.query == *query_data,
{
    Button { label: String::from_str(label), query: query_data.clone() }
}

fn labelled(catalog: &Catalog, key: &str, topic: Topic, payload: Option<Payload>, locale: &Locale) -> (button:
    Button)
    ensures
        button@ == button_of(*catalog, *locale, key@, topic, payload_view(payload)),
{
    let no_names: Vec<&str> = Vec::new();
    let no_values: Vec<String> = Vec::new();
    assert(crate::catalog::names_view(no_names@) =~= crate::templates::no_args());
    assert(crate::catalog::values_view(no_values@) =~= crate::templates::no_args());
    let label = catalog.render(locale.as_str(), key, &no_names, &no_values);
    let query_data = QueryData { topic, payload };
    make_button(label.as_str(), &query_data)
}

/// The button that asks for a random note.
pub fn ask_friend_button(catalog: &Catalog, payload: Option<Payload>, locale: &Locale) -> (button:
    Button)
    ensures
        button@ == button_of(
            *catalog,
            *locale,
            "buttons.ask_friend"@,
            Topic::GetRandomNote,
            payload_view(payload),
        ),
{
    labelled(catalog, "buttons.ask_friend", Topic::GetRandomNote, payload, locale)
}

/// The button that lists all notes.
pub fn list_all_notes_button(catalog: &Catalog, payload: Option<Payload>, locale: &Locale) -> (button:
    Button)
    ensures
        button@ == button_of(
            *catalog,
            *locale,
            "buttons.list_notes"@,
            Topic::ListAllNotes,
            payload_view(payload),
        ),
{
    labelled(catalog, "buttons.list_notes", Topic::ListAllNotes, payload, locale)
}

/// The button that leads to the start page.
pub fn go_to_home_button(catalog: &Catalog, payload: Option<Payload>, locale: &Locale) -> (button:
    Button)
    ensures
        button@ == button_of(*catalog, *locale, "buttons.go_home"@, Topic::GoHomePage, payload_view(payload)),
{
    labelled(catalog, "buttons.go_home", Topic::GoHomePage, payload, locale)
}

/// The button that leads to the extra page.
pub fn go_to_extra_button(catalog: &Catalog, payload: Option<Payload>, locale: &Locale) -> (button:
    Button)
    ensures
        button@ == button_of(*catalog, *locale, "buttons.go_extra"@, Topic::GoExtraPage, payload_view(payload)),
{
    labelled(catalog, "buttons.go_extra", Topic::GoExtraPage, payload, locale)
}

/// The button that leads to the upload page.
pub fn go_to_upload_button(catalog: &Catalog, payload: Option<Payload>, locale: &Locale) -> (button:
    Button)
    ensures
        button@ == button_of(
            *catalog,
            *locale,
            "buttons.go_upload"@,
            Topic::GoUploadPage,
            payload_view(payload),
        ),
{
    labelled(catalog, "buttons.go_upload", Topic::GoUploadPage, payload, locale)
}

/// The button that leads to the credits page.
pub fn go_to_credits_button(catalog: &Catalog, payload: Option<Payload>, locale: &Locale) -> (button:
    Button)
    ensures
        button@ == button_of(
            *catalog,
            *locale,
            "buttons.go_credits"@,
            Topic::GoCreditsPage,
            payload_view(payload),
        ),
{
    labelled(catalog, "buttons.go_credits", Topic::GoCreditsPage, payload, locale)
}

/// The button that leads to the language page.
pub fn go_to_language_button(catalog: &Catalog, payload: Option<Payload>, locale: &Locale) -> (button:
    Button)
    ensures
        button@ == button_of(
            *catalog,
            *locale,
            "buttons.go_language"@,
            Topic::GoLanguagePage,
            payload_view(payload),
        ),
{
    labelled(catalog, "buttons.go_language", Topic::GoLanguagePage, payload, locale)
}

/// The button that leads to the help page.
pub fn go_to_help_button(catalog: &Catalog, payload: Option<Payload>, locale: &Locale) -> (button:
    Button)
    ensures
        button@ == button_of(*catalog, *locale, "buttons.go_help"@, Topic::GoHelpPage, payload_view(payload)),
{
    labelled(catalog, "buttons.go_help", Topic::GoHelpPage, payload, locale)
}

/// The button under a note that asks to delete it.
pub fn delete_note_button(catalog: &Catalog, payload: Option<Payload>, locale: &Locale) -> (button:
    Button)
    ensures
        button@ == button_of(
            *catalog,
            *locale,
            "buttons.delete_note"@,
            Topic::DeleteNote,
            payload_view(payload),
        ),
{
    labelled(catalog, "buttons.delete_note", Topic::DeleteNote, payload, locale)
}

/// The button that confirms the deletion of a note.
pub fn confirm_delete_button(catalog: &Catalog, payload: Option<Payload>, locale: &Locale) -> (button:
    Button)
    ensures
        button@ == button_of(
            *catalog,
            *locale,
            "buttons.confirm_delete"@,
            Topic::ConfirmDelete,
            payload_view(payload),
        ),
{
    labelled(catalog, "buttons.confirm_delete", Topic::ConfirmDelete, payload, locale)
}

/// The button that asks to delete all notes of a user.
pub fn erase_all_notes_button(catalog: &Catalog, payload: Option<Payload>, locale: &Locale) -> (button:
    Button)
    ensures
        button@ == button_of(
            *catalog,
            *locale,
            "buttons.erase_all_notes"@,
            Topic::EraseAllNotes,
            payload_view(payload),
        ),
{
    labelled(catalog, "buttons.erase_all_notes", Topic::EraseAllNotes, payload, locale)
}

/// The button that confirms the deletion of all notes of a user.
pub fn confirm_erase_all_notes_button(
    catalog: &Catalog,
    payload: Option<Payload>,
    locale: &Locale,
) -> (button: Button)
    ensures
        button@ == button_of(
            *catalog,
            *locale,
            "buttons.confirm_erase_all_notes"@,
            Topic::ConfirmEraseAllNotes,
            payload_view(payload),
        ),
{
    labelled(
        catalog,
        "buttons.confirm_erase_all_notes",
        Topic::ConfirmEraseAllNotes,
        payload,
        locale,
    )
}

/// The button that sets the language to English.
#[allow(non_snake_case)]
pub fn set_language_EN_button(catalog: &Catalog, payload: Option<Payload>, locale: &Locale) -> (button:
    Button)
    ensures
        button@ == button_of(
            *catalog,
            *locale,
            "buttons.set_language_EN"@,
            Topic::SetLanguage,
            payload_view(payload),
        ),
{
    labelled(catalog, "buttons.set_language_EN", Topic::SetLanguage, payload, locale)
}

/// The button that sets the language to Spanish.
#[allow(non_snake_case)]
pub fn set_language_ES_button(catalog: &Catalog, payload: Option<Payload>, locale: &Locale) -> (button:
    Button)
    ensures
        button@ == button_of(
            *catalog,
            *locale,
            "buttons.set_language_ES"@,
            Topic::SetLanguage,
            payload_view(payload),
        ),
{
    labelled(catalog, "buttons.set_language_ES", Topic::SetLanguage, payload, locale)
}

/// The button that sets the language to Ukrainian.
#[allow(non_snake_case)]
pub fn set_language_UA_button(catalog: &Catalog, payload: Option<Payload>, locale: &Locale) -> (button:
    Button)
    ensures
        button@ == button_of(
            *catalog,
            *locale,
            "buttons.set_language_UA"@,
            Topic::SetLanguage,
            payload_view(payload),
        ),
{
    labelled(catalog, "buttons.set_language_UA", Topic::SetLanguage, payload, locale)
}

/// The button that sets the language to Italian.
#[allow(non_snake_case)]
pub fn set_language_IT_button(catalog: &Catalog, payload: Option<Payload>, locale: &Locale) -> (button:
    Button)
    ensures
        button@ == button_of(
            *catalog,
            *locale,
            "buttons.set_language_IT"@,
            Topic::SetLanguage,
            payload_view(payload),
        ),
{
    labelled(catalog, "buttons.set_language_IT", Topic::SetLanguage, payload, locale)
}

/// A row of one button.
pub fn row_of_one(button: Button) -> (row: Vec<Button>)
    ensures
        row_view(row@) == seq![button@],
{
    let mut row: Vec<Button> = Vec::new();
    row.push(button);
    assert(row_view(row@) =~= seq![button@]);
    row
}

/// A row of two buttons.
pub fn row_of_two(left: Button, right: Button) -> (row: Vec<Button>)
    ensures
        row_view(row@) == seq![left@, right@],
{
    let mut row: Vec<Button> = Vec::new();
    row.push(left);
    row.push(right);
    assert(row_view(row@) =~= seq![left@, right@]);
    row
}

impl Keyboard {
    /// A keyboard without rows.
    pub fn new() -> (keyboard: Keyboard)
        ensures
            keyboard@ == Seq::<Seq<ButtonView>>::empty(),
    {
        let keyboard = Keyboard { rows: Vec::new() };
        assert(keyboard@ =~= Seq::<Seq<ButtonView>>::empty());
        keyboard
    }

    /// The keyboard with one more row below the others.
    pub fn with_row(self, row: Vec<Button>) -> (keyboard: Keyboard)
        ensures
            keyboard@ == self@.push(row_view(row@)),
    {
        let mut rows = self.rows;
        rows.push(row);
        let keyboard = Keyboard { rows };
        assert(keyboard@ =~= self@.push(row_view(row@)));
        keyboard
    }
}

} // verus!
