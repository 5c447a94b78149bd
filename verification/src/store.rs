//! The ordered list of notes and what becomes of it when the stored copy is
//! read back.

use vstd::prelude::*;
use crate::note::{Note, NoteView};

verus! {

/// The notes as text, in the order in which they are held.
pub open spec fn views(notes: Seq<Note>) -> Seq<NoteView> {
    notes.map_values(|note: Note| note@)
}

/// What reading the stored copy came to.
pub enum LoadOutcome {
    /// There was nothing to read.
    Missing,
    /// Something was read, but it is not a list of notes.
    Malformed,
    /// The notes that were read, in stored order.
    Parsed(Vec<Note>),
}

impl LoadOutcome {
    /// The list to go on with: what was read, and the empty list where
    /// nothing usable was.
    pub open spec fn recovered(self) -> Seq<NoteView> {
        match self {
            LoadOutcome::Parsed(notes) => views(notes@),
            _ => Seq::empty(),
        }
    }
}

/// The notes in display order, which is also the order in which they were
/// added and in which they are stored.
pub struct NoteList {
    notes: Vec<Note>,
}

impl View for NoteList {
    type V = Seq<NoteView>;

    closed spec fn view(&self) -> Seq<NoteView> {
        views(self.notes@)
    }
}

impl NoteList {
    /// The empty list.
    pub fn new() -> (list: NoteList)
        ensures
            list@ == Seq::<NoteView>::empty(),
    {
        NoteList { notes: Vec::new() }
    }

    /// The list that a session starts from. A missing or unusable stored
    /// copy is no error: the session starts empty.
    pub fn load(outcome: LoadOutcome) -> (list: NoteList)
        ensures
            list@ == outcome.recovered(),
            outcome is Missing ==> list@.len() == 0,
            outcome is Malformed ==> list@.len() == 0,
            outcome matches LoadOutcome::Parsed(notes) ==> list@ == views(notes@),
    {
        match outcome {
            LoadOutcome::Parsed(notes) => NoteList { notes },
            _ => NoteList::new(),
        }
    }

    /// How many notes there are.
    pub fn len(&self) -> (count: usize)
        ensures
            count == self@.len(),
    {
        self.notes.len()
    }

    /// Whether there is no note at all.
    pub fn is_empty(&self) -> (empty: bool)
        ensures
            empty == (self@.len() == 0),
    {
        self.notes.len() == 0
    }

    /// The note at `index`.
    pub fn get(&self, index: usize) -> (note: &Note)
        requires
            index < self@.len(),
        ensures
            note@ == self@[index as int],
    {
        &self.notes[index]
    }

    /// Puts `note` at the end. The notes already there keep their places.
    pub fn append(&mut self, note: Note)
        ensures
            final(self)@ == old(self)@.push(note@),
            final(self)@.len() == old(self)@.len() + 1,
            final(self)@.last() == note@,
            forall|i: int| 0 <= i < old(self)@.len() ==> final(self)@[i] == old(self)@[i],
    {
        self.notes.push(note);
    }

    /// Takes out the note at `index` and hands it back. The notes before it
    /// keep their places; those after it move up by one, in order.
    pub fn remove_at(&mut self, index: usize) -> (removed: Note)
        requires
            index < old(self)@.len(),
        ensures
            removed@ == old(self)@[index as int],
            final(self)@ == old(self)@.remove(index as int),
            final(self)@.len() == old(self)@.len() - 1,
            forall|i: int| 0 <= i < index ==> final(self)@[i] == old(self)@[i],
            forall|i: int| index <= i < final(self)@.len() ==> final(self)@[i] == old(self)@[i + 1],
    {
        self.notes.remove(index)
    }
}

} // verus!
