//! The inline keyboards of the bot that maintains the notes.

use crate::buttons::{
    button_of,
    confirm_delete_button,
    confirm_erase_all_notes_button,
    delete_note_button,
    erase_all_notes_button,
    go_to_credits_button,
    go_to_help_button,
    go_to_home_button,
    go_to_language_button,
    go_to_upload_button,
    list_all_notes_button,
    row_of_one,
    row_of_two,
    row_view,
    set_language_EN_button,
    set_language_ES_button,
    set_language_IT_button,
    set_language_UA_button,
    ButtonView,
    Keyboard,
};
use crate::callbacks::{payload_view, Payload, PayloadView, Topic};
use crate::catalog::Catalog;
use crate::locale::Locale;
use vstd::prelude::*;
use vstd::string::StringExecFns;

verus! {

/// The buttons of [`start_page`], row by row.
pub open spec fn start_page_layout(
    catalog: Catalog,
    locale: Locale,
) -> Seq<Seq<ButtonView>> {
    seq![
        seq![
            button_of(
                catalog,
                locale,
                "buttons.list_notes"@,
                Topic::ListAllNotes,
                None,
            ),
            button_of(
                catalog,
                locale,
                "buttons.go_help"@,
                Topic::GoHelpPage,
                None,
            ),
        ],
        seq![
            button_of(
                catalog,
                locale,
                "buttons.go_upload"@,
                Topic::GoUploadPage,
                None,
            ),
        ],
    ]
}

/// The keyboard of the start page: the list of notes, help, or an upload.
pub fn start_page(
    catalog: &Catalog,
    locale: &Locale,
) -> (keyboard: Keyboard)
    ensures
        keyboard@ == start_page_layout(
            *catalog,
            *locale,
        ),
{
    let row_1 = row_of_two(
        list_all_notes_button(catalog, None, locale),
        go_to_help_button(catalog, None, locale),
    );
    let row_2 = row_of_one(
        go_to_upload_button(catalog, None, locale),
    );
    let ghost rows = seq![
        row_view(row_1@),
        row_view(row_2@),
    ];
    let keyboard = Keyboard::new().with_row(row_1).with_row(row_2);
    assert(keyboard@ =~= rows);
    keyboard
}

/// The buttons of [`list_notes_page`], row by row.
pub open spec fn list_notes_page_layout(
    catalog: Catalog,
    erase_all_notes_payload: Option<PayloadView>,
    go_help_payload: Option<PayloadView>,
    locale: Locale,
) -> Seq<Seq<ButtonView>> {
    seq![
        seq![
            button_of(
                catalog,
                locale,
                "buttons.erase_all_notes"@,
                Topic::EraseAllNotes,
                erase_all_notes_payload,
            ),
            button_of(
                catalog,
                locale,
                "buttons.go_help"@,
                Topic::GoHelpPage,
                go_help_payload,
            ),
        ],
        seq![
            button_of(
                catalog,
                locale,
                "buttons.go_home"@,
                Topic::GoHomePage,
                None,
            ),
        ],
    ]
}

/// The keyboard under the list of notes: erase them all, or help.
pub fn list_notes_page(
    catalog: &Catalog,
    erase_all_notes_payload: Option<Payload>,
    go_help_payload: Option<Payload>,
    locale: &Locale,
) -> (keyboard: Keyboard)
    ensures
        keyboard@ == list_notes_page_layout(
            *catalog,
            payload_view(erase_all_notes_payload),
            payload_view(go_help_payload),
            *locale,
        ),
{
    let row_1 = row_of_two(
        erase_all_notes_button(catalog, erase_all_notes_payload, locale),
        go_to_help_button(catalog, go_help_payload, locale),
    );
    let row_2 = row_of_one(
        go_to_home_button(catalog, None, locale),
    );
    let ghost rows = seq![
        row_view(row_1@),
        row_view(row_2@),
    ];
    let keyboard = Keyboard::new().with_row(row_1).with_row(row_2);
    assert(keyboard@ =~= rows);
    keyboard
}

/// The buttons of [`erase_all_notes_page`], row by row.
pub open spec fn erase_all_notes_page_layout(
    catalog: Catalog,
    confirm_delete_payload: Option<PayloadView>,
    locale: Locale,
) -> Seq<Seq<ButtonView>> {
    seq![
        seq![
            button_of(
                catalog,
                locale,
                "buttons.confirm_erase_all_notes"@,
                Topic::ConfirmEraseAllNotes,
                confirm_delete_payload,
            ),
            button_of(
                catalog,
                locale,
                "buttons.go_home"@,
                Topic::GoHomePage,
                None,
            ),
        ],
    ]
}

/// The keyboard that asks to confirm the deletion of all notes.
pub fn erase_all_notes_page(
    catalog: &Catalog,
    confirm_delete_payload: Option<Payload>,
    locale: &Locale,
) -> (keyboard: Keyboard)
    ensures
        keyboard@ == erase_all_notes_page_layout(
            *catalog,
            payload_view(confirm_delete_payload),
            *locale,
        ),
{
    let row_1 = row_of_two(
        confirm_erase_all_notes_button(catalog, confirm_delete_payload, locale),
        go_to_home_button(catalog, None, locale),
    );
    let ghost rows = seq![
        row_view(row_1@),
    ];
    let keyboard = Keyboard::new().with_row(row_1);
    assert(keyboard@ =~= rows);
    keyboard
}

/// The buttons of [`erase_all_notes_result_page`], row by row.
pub open spec fn erase_all_notes_result_page_layout(
    catalog: Catalog,
    locale: Locale,
) -> Seq<Seq<ButtonView>> {
    seq![
        seq![
            button_of(
                catalog,
                locale,
                "buttons.go_home"@,
                Topic::GoHomePage,
                None,
            ),
        ],
    ]
}

/// The keyboard under the result of the deletion of all notes.
pub fn erase_all_notes_result_page(
    catalog: &Catalog,
    locale: &Locale,
) -> (keyboard: Keyboard)
    ensures
        keyboard@ == erase_all_notes_result_page_layout(
            *catalog,
            *locale,
        ),
{
    let row_1 = row_of_one(
        go_to_home_button(catalog, None, locale),
    );
    let ghost rows = seq![
        row_view(row_1@),
    ];
    let keyboard = Keyboard::new().with_row(row_1);
    assert(keyboard@ =~= rows);
    keyboard
}

/// The buttons of [`vnote_entry`], row by row.
pub open spec fn vnote_entry_layout(
    catalog: Catalog,
    delete_note_payload: Option<PayloadView>,
    locale: Locale,
) -> Seq<Seq<ButtonView>> {
    seq![
        seq![
            button_of(
                catalog,
                locale,
                "buttons.delete_note"@,
                Topic::DeleteNote,
                delete_note_payload,
            ),
        ],
    ]
}

/// The keyboard under one note of the list: delete it.
pub fn vnote_entry(
    catalog: &Catalog,
    delete_note_payload: Option<Payload>,
    locale: &Locale,
) -> (keyboard: Keyboard)
    ensures
        keyboard@ == vnote_entry_layout(
            *catalog,
            payload_view(delete_note_payload),
            *locale,
        ),
{
    let row_1 = row_of_one(
        delete_note_button(catalog, delete_note_payload, locale),
    );
    let ghost rows = seq![
        row_view(row_1@),
    ];
    let keyboard = Keyboard::new().with_row(row_1);
    assert(keyboard@ =~= rows);
    keyboard
}

/// The buttons of [`delete_note_page`], row by row.
pub open spec fn delete_note_page_layout(
    catalog: Catalog,
    confirm_delete_payload: Option<PayloadView>,
    locale: Locale,
) -> Seq<Seq<ButtonView>> {
    seq![
        seq![
            button_of(
                catalog,
                locale,
                "buttons.confirm_delete"@,
                Topic::ConfirmDelete,
                confirm_delete_payload,
            ),
            button_of(
                catalog,
                locale,
                "buttons.go_home"@,
                Topic::GoHomePage,
                None,
            ),
        ],
    ]
}

/// The keyboard that asks to confirm the deletion of a note.
pub fn delete_note_page(
    catalog: &Catalog,
    confirm_delete_payload: Option<Payload>,
    locale: &Locale,
) -> (keyboard: Keyboard)
    ensures
        keyboard@ == delete_note_page_layout(
            *catalog,
            payload_view(confirm_delete_payload),
            *locale,
        ),
{
    let row_1 = row_of_two(
        confirm_delete_button(catalog, confirm_delete_payload, locale),
        go_to_home_button(catalog, None, locale),
    );
    let ghost rows = seq![
        row_view(row_1@),
    ];
    let keyboard = Keyboard::new().with_row(row_1);
    assert(keyboard@ =~= rows);
    keyboard
}

/// The buttons of [`delete_note_result_page`], row by row.
pub open spec fn delete_note_result_page_layout(
    catalog: Catalog,
    locale: Locale,
) -> Seq<Seq<ButtonView>> {
    seq![
        seq![
            button_of(
                catalog,
                locale,
                "buttons.go_home"@,
                Topic::GoHomePage,
                None,
            ),
        ],
    ]
}

/// The keyboard under the result of the deletion of a note.
pub fn delete_note_result_page(
    catalog: &Catalog,
    locale: &Locale,
) -> (keyboard: Keyboard)
    ensures
        keyboard@ == delete_note_result_page_layout(
            *catalog,
            *locale,
        ),
{
    let row_1 = row_of_one(
        go_to_home_button(catalog, None, locale),
    );
    let ghost rows = seq![
        row_view(row_1@),
    ];
    let keyboard = Keyboard::new().with_row(row_1);
    assert(keyboard@ =~= rows);
    keyboard
}

/// The buttons of [`upload_page`], row by row.
pub open spec fn upload_page_layout(
    catalog: Catalog,
    list_all_query_payload: Option<PayloadView>,
    locale: Locale,
) -> Seq<Seq<ButtonView>> {
    seq![
        seq![
            button_of(
                catalog,
                locale,
                "buttons.list_notes"@,
                Topic::ListAllNotes,
                list_all_query_payload,
            ),
            button_of(
                catalog,
                locale,
                "buttons.go_help"@,
                Topic::GoHelpPage,
                None,
            ),
        ],
        seq![
            button_of(
                catalog,
                locale,
                "buttons.go_home"@,
                Topic::GoHomePage,
                None,
            ),
        ],
    ]
}

/// The keyboard of the upload page.
pub fn upload_page(
    catalog: &Catalog,
    list_all_query_payload: Option<Payload>,
    locale: &Locale,
) -> (keyboard: Keyboard)
    ensures
        keyboard@ == upload_page_layout(
            *catalog,
            payload_view(list_all_query_payload),
            *locale,
        ),
{
    let row_1 = row_of_two(
        list_all_notes_button(catalog, list_all_query_payload, locale),
        go_to_help_button(catalog, None, locale),
    );
    let row_2 = row_of_one(
        go_to_home_button(catalog, None, locale),
    );
    let ghost rows = seq![
        row_view(row_1@),
        row_view(row_2@),
    ];
    let keyboard = Keyboard::new().with_row(row_1).with_row(row_2);
    assert(keyboard@ =~= rows);
    keyboard
}

/// The buttons of [`upload_result_page`], row by row.
pub open spec fn upload_result_page_layout(
    catalog: Catalog,
    locale: Locale,
) -> Seq<Seq<ButtonView>> {
    seq![
        seq![
            button_of(
                catalog,
                locale,
                "buttons.go_home"@,
                Topic::GoHomePage,
                None,
            ),
        ],
    ]
}

/// The keyboard under the result of an upload.
pub fn upload_result_page(
    catalog: &Catalog,
    locale: &Locale,
) -> (keyboard: Keyboard)
    ensures
        keyboard@ == upload_result_page_layout(
            *catalog,
            *locale,
        ),
{
    let row_1 = row_of_one(
        go_to_home_button(catalog, None, locale),
    );
    let ghost rows = seq![
        row_view(row_1@),
    ];
    let keyboard = Keyboard::new().with_row(row_1);
    assert(keyboard@ =~= rows);
    keyboard
}

/// The buttons of [`credits_page`], row by row.
pub open spec fn credits_page_layout(
    catalog: Catalog,
    go_language_payload: Option<PayloadView>,
    go_help_payload: Option<PayloadView>,
    locale: Locale,
) -> Seq<Seq<ButtonView>> {
    seq![
        seq![
            button_of(
                catalog,
                locale,
                "buttons.go_language"@,
                Topic::GoLanguagePage,
                go_language_payload,
            ),
            button_of(
                catalog,
                locale,
                "buttons.go_help"@,
                Topic::GoHelpPage,
                go_help_payload,
            ),
        ],
        seq![
            button_of(
                catalog,
                locale,
                "buttons.go_home"@,
                Topic::GoHomePage,
                None,
            ),
        ],
    ]
}

/// The keyboard of the credits page.
pub fn credits_page(
    catalog: &Catalog,
    go_language_payload: Option<Payload>,
    go_help_payload: Option<Payload>,
    locale: &Locale,
) -> (keyboard: Keyboard)
    ensures
        keyboard@ == credits_page_layout(
            *catalog,
            payload_view(go_language_payload),
            payload_view(go_help_payload),
            *locale,
        ),
{
    let row_1 = row_of_two(
        go_to_language_button(catalog, go_language_payload, locale),
        go_to_help_button(catalog, go_help_payload, locale),
    );
    let row_2 = row_of_one(
        go_to_home_button(catalog, None, locale),
    );
    let ghost rows = seq![
        row_view(row_1@),
        row_view(row_2@),
    ];
    let keyboard = Keyboard::new().with_row(row_1).with_row(row_2);
    assert(keyboard@ =~= rows);
    keyboard
}

/// The buttons of [`language_page`], row by row.
pub open spec fn language_page_layout(
    catalog: Catalog,
    locale: Locale,
) -> Seq<Seq<ButtonView>> {
    seq![
        seq![
            button_of(
                catalog,
                locale,
                "buttons.set_language_EN"@,
                Topic::SetLanguage,
                Some(PayloadView::Text("en"@)),
            ),
        ],
        seq![
            button_of(
                catalog,
                locale,
                "buttons.set_language_ES"@,
                Topic::SetLanguage,
                Some(PayloadView::Text("es"@)),
            ),
        ],
        seq![
            button_of(
                catalog,
                locale,
                "buttons.set_language_IT"@,
                Topic::SetLanguage,
                Some(PayloadView::Text("it"@)),
            ),
        ],
        seq![
            button_of(
                catalog,
                locale,
                "buttons.set_language_UA"@,
                Topic::SetLanguage,
                Some(PayloadView::Text("ua"@)),
            ),
        ],
        seq![
            button_of(
                catalog,
                locale,
                "buttons.go_home"@,
                Topic::GoHomePage,
                None,
            ),
        ],
    ]
}

/// The keyboard of the language page: one button for each language, each
/// carrying the code of its language, and home.
pub fn language_page(
    catalog: &Catalog,
    locale: &Locale,
) -> (keyboard: Keyboard)
    ensures
        keyboard@ == language_page_layout(
            *catalog,
            *locale,
        ),
{
    let row_1 = row_of_one(
        set_language_EN_button(catalog, Some(Payload::Text(String::from_str("en"))), locale),
    );
    let row_2 = row_of_one(
        set_language_ES_button(catalog, Some(Payload::Text(String::from_str("es"))), locale),
    );
    let row_3 = row_of_one(
        set_language_IT_button(catalog, Some(Payload::Text(String::from_str("it"))), locale),
    );
    let row_4 = row_of_one(
        set_language_UA_button(catalog, Some(Payload::Text(String::from_str("ua"))), locale),
    );
    let row_5 = row_of_one(
        go_to_home_button(catalog, None, locale),
    );
    let ghost rows = seq![
        row_view(row_1@),
        row_view(row_2@),
        row_view(row_3@),
        row_view(row_4@),
        row_view(row_5@),
    ];
    let keyboard = Keyboard::new().with_row(row_1).with_row(row_2).with_row(row_3).with_row(row_4).with_row(row_5);
    assert(keyboard@ =~= rows);
    keyboard
}

/// The buttons of [`help_page`], row by row.
pub open spec fn help_page_layout(
    catalog: Catalog,
    go_language_payload: Option<PayloadView>,
    go_credits_payload: Option<PayloadView>,
    locale: Locale,
) -> Seq<Seq<ButtonView>> {
    seq![
        seq![
            button_of(
                catalog,
                locale,
                "buttons.go_language"@,
                Topic::GoLanguagePage,
                go_language_payload,
            ),
            button_of(
                catalog,
                locale,
                "buttons.go_credits"@,
                Topic::GoCreditsPage,
                go_credits_payload,
            ),
        ],
        seq![
            button_of(
                catalog,
                locale,
                "buttons.go_home"@,
                Topic::GoHomePage,
                None,
            ),
        ],
    ]
}

/// The keyboard of the help page.
pub fn help_page(
    catalog: &Catalog,
    go_language_payload: Option<Payload>,
    go_credits_payload: Option<Payload>,
    locale: &Locale,
) -> (keyboard: Keyboard)
    ensures
        keyboard@ == help_page_layout(
            *catalog,
            payload_view(go_language_payload),
            payload_view(go_credits_payload),
            *locale,
        ),
{
    let row_1 = row_of_two(
        go_to_language_button(catalog, go_language_payload, locale),
        go_to_credits_button(catalog, go_credits_payload, locale),
    );
    let row_2 = row_of_one(
        go_to_home_button(catalog, None, locale),
    );
    let ghost rows = seq![
        row_view(row_1@),
        row_view(row_2@),
    ];
    let keyboard = Keyboard::new().with_row(row_1).with_row(row_2);
    assert(keyboard@ =~= rows);
    keyboard
}

} // verus!
