//! A single note.

use vstd::prelude::*;

verus! {

/// One memo: a title and a body.
///
/// A note has no identifier of its own; within a list it is known by its
/// position. Once made it never changes.
pub struct Note {
    title: String,
    content: String,
}

/// What a note holds, as text.
pub struct NoteView {
    pub title: Seq<char>,
    pub content: Seq<char>,
}

impl View for Note {
    type V = NoteView;

    closed spec fn view(&self) -> NoteView {
        NoteView { title: self.title@, content: self.content@ }
    }
}

impl Clone for Note {
    fn clone(&self) -> (copy: Note)
        ensures
            copy@ == self@,
    {
        Note { title: self.title.clone(), content: self.content.clone() }
    }
}

impl Note {
    /// A note with the given title and body, taken as they are.
    pub fn new(title: String, content: String) -> (note: Note)
        ensures
            note@.title == title@,
            note@.content == content@,
    {
        Note { title, content }
    }

    /// The title.
    pub fn title(&self) -> (text: &str)
        ensures
            text@ == self@.title,
    {
        self.title.as_str()
    }

    /// The body.
    pub fn content(&self) -> (text: &str)
        ensures
            text@ == self@.content,
    {
        self.content.as_str()
    }
}

} // verus!
