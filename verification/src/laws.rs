//! What holds of the notepad whatever the commands and in whatever order
//! they come.

use vstd::prelude::*;
use crate::form::FormView;
use crate::note::NoteView;
use crate::notepad::{CommandView, Effect, NotepadView};

verus! {

/// A closed popup holds no draft, and no command changes that.
pub proof fn step_keeps_well_formed(state: NotepadView, command: CommandView)
    requires
        state.well_formed(),
    ensures
        state.step(command).well_formed(),
{
}

/// A note is only ever added through the open popup, and one taken out only
/// while the popup is closed.
pub proof fn notes_change_only_where_allowed(state: NotepadView, command: CommandView)
    requires
        state.well_formed(),
        state.step(command).notes != state.notes,
    ensures
        command is Submit ==> state.form.visible && !state.step(command).form.visible,
        command is DeleteNote ==> !state.form.visible && !state.step(command).form.visible,
        command is Submit || command is DeleteNote,
{
}

/// The front end is told to write the list out exactly when a command has
/// changed it, so that the stored copy never falls behind the list.
pub proof fn persist_exactly_on_change(state: NotepadView, command: CommandView)
    ensures
        state.effect(command) == Effect::Persist <==> state.step(command).notes != state.notes,
        state.effect(command) == Effect::Idle <==> state.step(command).notes == state.notes,
{
    if state.effect(command) == Effect::Persist {
        assert(state.step(command).notes.len() != state.notes.len());
    }
}

/// A command changes the list by one note or not at all: saving a complete
/// draft adds one at the end, taking a note out removes that one, and
/// nothing else touches the list.
pub proof fn step_changes_one_note(state: NotepadView, command: CommandView)
    ensures
        match command {
            CommandView::Submit if state.form.is_complete() => state.step(command).notes
                == state.notes.push(state.form.draft()),
            CommandView::DeleteNote(index) if state.can_delete(index) => state.step(command).notes
                == state.notes.remove(index),
            _ => state.step(command).notes == state.notes,
        },
{
}

/// Opening the popup, filling in both fields and saving puts exactly that
/// note at the end of the list and closes the popup, whatever the state
/// before.
pub proof fn composed_note_is_appended(state: NotepadView, title: Seq<char>, content: Seq<char>)
    requires
        title.len() > 0,
        content.len() > 0,
    ensures
        state.open_form().set_title(title).set_content(content).submit() == (NotepadView {
            notes: state.notes.push(NoteView { title, content }),
            form: FormView::hidden(),
        }),
        state.open_form().set_content(content).set_title(title).submit()
            == state.open_form().set_title(title).set_content(content).submit(),
{
}

/// A draft that is cancelled leaves no trace: the list is as it was and the
/// popup is closed and empty.
pub proof fn cancelled_draft_is_dropped(state: NotepadView, title: Seq<char>, content: Seq<char>)
    ensures
        state.open_form().set_title(title).set_content(content).cancel() == (NotepadView {
            notes: state.notes,
            form: FormView::hidden(),
        }),
{
}

/// A draft with an empty field can be asked for any number of times: the
/// list stays as it is, and the complaint stays up until the draft is
/// complete.
pub proof fn incomplete_submit_is_idempotent(state: NotepadView)
    requires
        !state.form.is_complete(),
    ensures
        state.submit().notes == state.notes,
        state.submit().form.show_error,
        state.submit().submit() == state.submit(),
{
}

/// Taking out the note that was just saved gives back the list as it was.
pub proof fn delete_undoes_submit(state: NotepadView)
    requires
        state.form.is_complete(),
    ensures
        state.submit().can_delete(state.notes.len() as int),
        state.submit().delete_note(state.notes.len() as int).notes == state.notes,
{
}

} // verus!
