//! Video notes: the metadata that the store keeps of each uploaded file.

use vstd::prelude::*;

verus! {

/// What a note record says, as plain values.
pub struct NoteView {
    pub id: int,
    pub user_id: int,
    pub file_name: Seq<char>,
}

/// A stored note.
#[derive(Debug, PartialEq, Eq)]
pub struct Note {
    pub id: i64,
    pub user_id: i64,
    pub file_name: String,
}

impl View for Note {
    type V = NoteView;

    open spec fn view(&self) -> NoteView {
        NoteView { id: self.id as int, user_id: self.user_id as int, file_name: self.file_name@ }
    }
}

impl Clone for Note {
    fn clone(&self) -> (copy: Self)
        ensures
            copy == *self,
    {
        Note { id: self.id, user_id: self.user_id, file_name: self.file_name.clone() }
    }
}

/// The fields of a note that is about to be created.
#[derive(Debug, PartialEq, Eq)]
pub struct NewNote {
    pub user_id: i64,
    pub file_name: String,
}

impl NewNote {
    /// The record that the store holds once it has given the note the
    /// identifier `id`.
    pub open spec fn with_id(self, id: int) -> NoteView {
        NoteView { id, user_id: self.user_id as int, file_name: self.file_name@ }
    }
}

} // verus!
