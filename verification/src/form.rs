//! The draft form: the popup in which a new note is composed.

use vstd::prelude::*;
use crate::note::{Note, NoteView};

verus! {

/// What the form holds: the two text fields, whether the popup is open, and
/// whether it shows the complaint about an unfilled field.
pub struct FormView {
    pub title: Seq<char>,
    pub content: Seq<char>,
    pub visible: bool,
    pub show_error: bool,
}

impl FormView {
    /// The closed popup: nothing drafted, no complaint shown.
    pub open spec fn hidden() -> FormView {
        FormView { title: Seq::empty(), content: Seq::empty(), visible: false, show_error: false }
    }

    /// The popup as it opens: both fields empty, no complaint shown.
    pub open spec fn opened() -> FormView {
        FormView { title: Seq::empty(), content: Seq::empty(), visible: true, show_error: false }
    }

    /// A closed popup holds no draft.
    pub open spec fn well_formed(self) -> bool {
        !self.visible ==> self.title.len() == 0 && self.content.len() == 0
    }

    /// Whether the draft can become a note: neither field is empty. Blanks
    /// count as text.
    pub open spec fn is_complete(self) -> bool {
        self.title.len() > 0 && self.content.len() > 0
    }

    /// The note that the draft would become.
    pub open spec fn draft(self) -> NoteView {
        NoteView { title: self.title, content: self.content }
    }

    /// The form after the title field was edited. A closed popup has no
    /// field to edit and stays as it is.
    pub open spec fn with_title(self, text: Seq<char>) -> FormView {
        if self.visible {
            FormView { title: text, ..self }
        } else {
            self
        }
    }

    /// The form after the body field was edited. A closed popup has no
    /// field to edit and stays as it is.
    pub open spec fn with_content(self, text: Seq<char>) -> FormView {
        if self.visible {
            FormView { content: text, ..self }
        } else {
            self
        }
    }

    /// The form after an incomplete draft was turned down: the complaint
    /// shows, everything else stands.
    pub open spec fn rejected(self) -> FormView {
        FormView { show_error: true, ..self }
    }

    /// The form after a request to save the draft.
    pub open spec fn submitted(self) -> FormView {
        if self.is_complete() {
            FormView::hidden()
        } else {
            self.rejected()
        }
    }
}

/// The draft form. It is never stored.
pub struct DraftForm {
    title: String,
    content: String,
    visible: bool,
    show_error: bool,
}

impl View for DraftForm {
    type V = FormView;

    closed spec fn view(&self) -> FormView {
        FormView {
            title: self.title@,
            content: self.content@,
            visible: self.visible,
            show_error: self.show_error,
        }
    }
}

impl DraftForm {
    /// Holds of every form there is.
    #[verifier::type_invariant]
    pub open spec fn holds_no_draft_while_closed(self) -> bool {
        self@.well_formed()
    }

    /// The closed popup.
    pub fn new() -> (form: DraftForm)
        ensures
            form@ == FormView::hidden(),
    {
        DraftForm {
            title: String::new(),
            content: String::new(),
            visible: false,
            show_error: false,
        }
    }

    /// The text in the title field.
    pub fn title(&self) -> (text: &str)
        ensures
            text@ == self@.title,
    {
        self.title.as_str()
    }

    /// The text in the body field.
    pub fn content(&self) -> (text: &str)
        ensures
            text@ == self@.content,
    {
        self.content.as_str()
    }

    /// Whether the popup is open. A closed popup holds no draft.
    pub fn is_visible(&self) -> (visible: bool)
        ensures
            visible == self@.visible,
            self@.well_formed(),
    {
        proof {
            use_type_invariant(self);
        }
        self.visible
    }

    /// Whether the complaint about an unfilled field shows.
    pub fn shows_error(&self) -> (shown: bool)
        ensures
            shown == self@.show_error,
    {
        self.show_error
    }

    /// Opens the popup on an empty draft.
    pub fn open(&mut self)
        ensures
            final(self)@ == FormView::opened(),
    {
        *self = DraftForm {
            title: String::new(),
            content: String::new(),
            visible: true,
            show_error: false,
        };
    }

    /// Takes `text` as the title field's new content, unchecked. While the
    /// popup is closed there is no field, and nothing changes.
    pub fn set_title(&mut self, text: String)
        ensures
            final(self)@ == old(self)@.with_title(text@),
    {
        proof {
            use_type_invariant(&*self);
        }
        if self.visible {
            self.title = text;
        }
    }

    /// Takes `text` as the body field's new content, unchecked. While the
    /// popup is closed there is no field, and nothing changes.
    pub fn set_content(&mut self, text: String)
        ensures
            final(self)@ == old(self)@.with_content(text@),
    {
        proof {
            use_type_invariant(&*self);
        }
        if self.visible {
            self.content = text;
        }
    }

    /// Asks for the draft to be saved. A complete draft comes back as a
    /// note and the popup closes, emptied. An incomplete one is kept as it
    /// is and the complaint shows.
    pub fn submit(&mut self) -> (note: Option<Note>)
        ensures
            note is Some <==> old(self)@.is_complete(),
            note matches Some(made) ==> made@ == old(self)@.draft(),
            old(self)@.is_complete() ==> final(self)@ == FormView::hidden(),
            !old(self)@.is_complete() ==> final(self)@ == old(self)@.rejected(),
            final(self)@ == old(self)@.submitted(),
    {
        proof {
            use_type_invariant(&*self);
        }
        if self.title.as_str().is_empty() || self.content.as_str().is_empty() {
            self.show_error = true;
            None
        } else {
            let note = Note::new(self.title.clone(), self.content.clone());
            *self = DraftForm::new();
            Some(note)
        }
    }

    /// Closes the popup and drops the draft.
    pub fn cancel(&mut self)
        ensures
            final(self)@ == FormView::hidden(),
    {
        *self = DraftForm::new();
    }

}

} // verus!
