//! The notepad: the list of notes together with the draft form, and the
//! commands that a front end issues on them.

use vstd::prelude::*;
use crate::form::{DraftForm, FormView};
use crate::note::NoteView;
use crate::store::NoteList;

verus! {

/// What a front end has to do once a command was carried out.
#[derive(Clone, Copy, PartialEq, Eq, Structural, Debug)]
pub enum Effect {
    /// Nothing: the list is as it was.
    Idle,
    /// The list changed: write all of it out again.
    Persist,
}

/// A request from the front end.
pub enum Command {
    /// Open the popup on an empty draft.
    OpenForm,
    /// The title field now reads like this.
    SetTitle(String),
    /// The body field now reads like this.
    SetContent(String),
    /// Save the draft as a note.
    Submit,
    /// Close the popup and drop the draft.
    Cancel,
    /// Take out the note at this position.
    DeleteNote(usize),
}

/// A request, with its text as text and its position as a number.
pub enum CommandView {
    OpenForm,
    SetTitle(Seq<char>),
    SetContent(Seq<char>),
    Submit,
    Cancel,
    DeleteNote(int),
}

impl View for Command {
    type V = CommandView;

    open spec fn view(&self) -> CommandView {
        match self {
            Command::OpenForm => CommandView::OpenForm,
            Command::SetTitle(text) => CommandView::SetTitle(text@),
            Command::SetContent(text) => CommandView::SetContent(text@),
            Command::Submit => CommandView::Submit,
            Command::Cancel => CommandView::Cancel,
            Command::DeleteNote(index) => CommandView::DeleteNote(*index as int),
        }
    }
}

/// The whole state: the notes in display order, and the draft form.
pub struct NotepadView {
    pub notes: Seq<NoteView>,
    pub form: FormView,
}

impl NotepadView {
    /// A closed popup holds no draft.
    pub open spec fn well_formed(self) -> bool {
        self.form.well_formed()
    }

    /// After the popup was opened: an empty draft, the notes untouched.
    pub open spec fn open_form(self) -> NotepadView {
        NotepadView { form: FormView::opened(), ..self }
    }

    /// After the title field was edited.
    pub open spec fn set_title(self, text: Seq<char>) -> NotepadView {
        NotepadView { form: self.form.with_title(text), ..self }
    }

    /// After the body field was edited.
    pub open spec fn set_content(self, text: Seq<char>) -> NotepadView {
        NotepadView { form: self.form.with_content(text), ..self }
    }

    /// After a request to save the draft. A complete draft goes to the end
    /// of the list and the popup closes; an incomplete one leaves the list
    /// alone and brings up the complaint.
    pub open spec fn submit(self) -> NotepadView {
        if self.form.is_complete() {
            NotepadView { notes: self.notes.push(self.form.draft()), form: FormView::hidden() }
        } else {
            NotepadView { form: self.form.rejected(), ..self }
        }
    }

    /// After the popup was closed without saving.
    pub open spec fn cancel(self) -> NotepadView {
        NotepadView { form: FormView::hidden(), ..self }
    }

    /// Whether the note at `index` can be taken out now: there is such a
    /// note, and the popup does not cover the list.
    pub open spec fn can_delete(self, index: int) -> bool {
        !self.form.visible && 0 <= index < self.notes.len()
    }

    /// After a request to take out the note at `index`.
    pub open spec fn delete_note(self, index: int) -> NotepadView {
        if self.can_delete(index) {
            NotepadView { notes: self.notes.remove(index), ..self }
        } else {
            self
        }
    }

    /// The state after `command`.
    pub open spec fn step(self, command: CommandView) -> NotepadView {
        match command {
            CommandView::OpenForm => self.open_form(),
            CommandView::SetTitle(text) => self.set_title(text),
            CommandView::SetContent(text) => self.set_content(text),
            CommandView::Submit => self.submit(),
            CommandView::Cancel => self.cancel(),
            CommandView::DeleteNote(index) => self.delete_note(index),
        }
    }

    /// What `command` leaves the front end to do.
    pub open spec fn effect(self, command: CommandView) -> Effect {
        match command {
            CommandView::Submit => if self.form.is_complete() {
                Effect::Persist
            } else {
                Effect::Idle
            },
            CommandView::DeleteNote(index) => if self.can_delete(index) {
                Effect::Persist
            } else {
                Effect::Idle
            },
            _ => Effect::Idle,
        }
    }
}

/// The notepad.
pub struct Notepad {
    notes: NoteList,
    form: DraftForm,
}

impl View for Notepad {
    type V = NotepadView;

    closed spec fn view(&self) -> NotepadView {
        NotepadView { notes: self.notes@, form: self.form@ }
    }
}

impl Notepad {
    /// A notepad over `notes`, with the popup closed.
    pub fn new(notes: NoteList) -> (pad: Notepad)
        ensures
            pad@.notes == notes@,
            pad@.form == FormView::hidden(),
    {
        Notepad { notes, form: DraftForm::new() }
    }

    /// The notes, in display order.
    pub fn notes(&self) -> (notes: &NoteList)
        ensures
            notes@ == self@.notes,
    {
        &self.notes
    }

    /// The draft form.
    pub fn form(&self) -> (form: &DraftForm)
        ensures
            form@ == self@.form,
            self@.well_formed(),
    {
        proof {
            use_type_invariant(&self.form);
        }
        &self.form
    }

    /// Opens the popup on an empty draft. The notes stay as they are.
    pub fn open_form(&mut self)
        ensures
            final(self)@ == old(self)@.open_form(),
    {
        self.form.open();
    }

    /// Takes `text` as the title field's new content, unchecked. Without an
    /// open popup there is no field, and nothing changes.
    pub fn set_title(&mut self, text: String)
        ensures
            final(self)@ == old(self)@.set_title(text@),
    {
        self.form.set_title(text);
    }

    /// Takes `text` as the body field's new content, unchecked. Without an
    /// open popup there is no field, and nothing changes.
    pub fn set_content(&mut self, text: String)
        ensures
            final(self)@ == old(self)@.set_content(text@),
    {
        self.form.set_content(text);
    }

    /// Asks for the draft to be saved.
    ///
    /// With an empty title or an empty body, or both, the notes stay as they
    /// are, the draft is kept and the complaint shows. With both filled in,
    /// the draft becomes the last note, the complaint is cleared and the
    /// popup closes on empty fields; the list is then to be written out.
    pub fn submit(&mut self) -> (effect: Effect)
        ensures
            final(self)@ == old(self)@.submit(),
            effect == old(self)@.effect(CommandView::Submit),
            !old(self)@.form.is_complete() ==> {
                &&& effect == Effect::Idle
                &&& final(self)@.notes == old(self)@.notes
                &&& final(self)@.form == old(self)@.form.rejected()
                &&& final(self)@.form.show_error
            },
            old(self)@.form.is_complete() ==> {
                &&& effect == Effect::Persist
                &&& final(self)@.notes == old(self)@.notes.push(old(self)@.form.draft())
                &&& final(self)@.notes.len() == old(self)@.notes.len() + 1
                &&& final(self)@.form == FormView::hidden()
                &&& !final(self)@.form.show_error
                &&& !final(self)@.form.visible
            },
    {
        match self.form.submit() {
            Some(note) => {
                self.notes.append(note);
                Effect::Persist
            },
            None => Effect::Idle,
        }
    }

    /// Closes the popup and drops the draft. The notes stay as they are.
    pub fn cancel(&mut self)
        ensures
            final(self)@ == old(self)@.cancel(),
    {
        self.form.cancel();
    }

    /// Takes out the note at `index`, where the popup is closed and there is
    /// such a note; the list is then to be written out. Otherwise nothing
    /// changes. The popup is left as it is either way.
    pub fn delete_note(&mut self, index: usize) -> (effect: Effect)
        ensures
            final(self)@ == old(self)@.delete_note(index as int),
            effect == old(self)@.effect(CommandView::DeleteNote(index as int)),
            final(self)@.form == old(self)@.form,
            old(self)@.can_delete(index as int) ==> {
                &&& effect == Effect::Persist
                &&& final(self)@.notes == old(self)@.notes.remove(index as int)
                &&& final(self)@.notes.len() == old(self)@.notes.len() - 1
            },
            !old(self)@.can_delete(index as int) ==> {
                &&& effect == Effect::Idle
                &&& final(self)@.notes == old(self)@.notes
            },
    {
        if !self.form.is_visible() && index < self.notes.len() {
            let _ = self.notes.remove_at(index);
            Effect::Persist
        } else {
            Effect::Idle
        }
    }

    /// Carries out `command` and says what is left for the front end to do.
    pub fn handle(&mut self, command: Command) -> (effect: Effect)
        ensures
            final(self)@ == old(self)@.step(command@),
            effect == old(self)@.effect(command@),
    {
        match command {
            Command::OpenForm => {
                self.open_form();
                Effect::Idle
            },
            Command::SetTitle(text) => {
                self.set_title(text);
                Effect::Idle
            },
            Command::SetContent(text) => {
                self.set_content(text);
                Effect::Idle
            },
            Command::Submit => self.submit(),
            Command::Cancel => {
                self.cancel();
                Effect::Idle
            },
            Command::DeleteNote(index) => self.delete_note(index),
        }
    }
}

} // verus!
