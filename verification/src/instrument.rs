//! Note selection for instrument samples.

use vstd::prelude::*;

verus! {

/// Result of instrument generation; `W` is the encoded WAV output.
#[derive(Debug)]
pub struct GenerateInstrumentResult<W> {
    /// WAV file data.
    pub wav: W,
    /// Note(s) generated (MIDI note numbers).
    pub notes: Vec<u8>,
    /// Loop point in samples (if generated).
    pub loop_point: Option<usize>,
}

/// MIDI note generated when a patch names no notes: A4 (440 Hz).
pub const DEFAULT_MIDI_NOTE: u8 = 69;

/// The first note of `notes` that names a valid MIDI note.
pub open spec fn first_valid_note(notes: Seq<Option<u8>>) -> Option<u8>
    decreases notes.len(),
{
    if notes.len() == 0 {
        None
    } else if notes[0] is Some {
        notes[0]
    } else {
        first_valid_note(notes.drop_first())
    }
}

/// The first valid note of a list.
fn first_valid(list: &Vec<Option<u8>>) -> (note: Option<u8>)
    ensures
        note == first_valid_note(list@),
{
    let mut i: usize = 0;
    assert(list@.skip(0) =~= list@);
    while i < list.len()
        invariant
            i <= list@.len(),
            first_valid_note(list@) == first_valid_note(list@.skip(i as int)),
        decreases list@.len() - i,
    {
        let tail = Ghost(list@.skip(i as int));
        assert(tail@[0] == list@[i as int]);
        if let Some(n) = list[i] {
            return Some(n);
        }
        assert(tail@.drop_first() =~= list@.skip(i as int + 1));
        i = i + 1;
    }
    None
}

/// The note an instrument sample is generated for. `notes` holds the patch's
/// notes, each already converted to a MIDI note number where it names one;
/// a patch without notes gets `DEFAULT_MIDI_NOTE`. `None` means that the
/// patch lists notes but none of them is valid.
pub fn select_midi_note(notes: &Option<Vec<Option<u8>>>) -> (note: Option<u8>)
    ensures
        note == match notes {
            Some(list) => first_valid_note(list@),
            None => Some(DEFAULT_MIDI_NOTE),
        },
{
    match notes {
        None => Some(DEFAULT_MIDI_NOTE),
        Some(list) => first_valid(list),
    }
}

/// The selected note is the first valid entry of the list: it is `None`
/// exactly when no entry is valid, and otherwise it is the entry at some
/// position all of whose predecessors are invalid.
pub proof fn first_valid_note_is_first_entry(notes: Seq<Option<u8>>)
    ensures
        first_valid_note(notes) is None <==> forall|i: int| 0 <= i < notes.len() ==> notes[i] is None,
        first_valid_note(notes) is Some ==> exists|i: int|
            0 <= i < notes.len() && notes[i] == first_valid_note(notes) && forall|j: int|
                0 <= j < i ==> notes[j] is None,
    decreases notes.len(),
{
    if notes.len() > 0 {
        let rest = notes.drop_first();
        first_valid_note_is_first_entry(rest);
        if notes[0] is Some {
            assert(notes[0] == first_valid_note(notes));
        } else {
            assert forall|i: int| 0 <= i < notes.len() && (forall|k: int| 0 <= k < rest.len() ==> rest[k] is None) implies notes[i] is None by {
                if i > 0 {
                    assert(rest[i - 1] == notes[i]);
                }
            }
            if (forall|i: int| 0 <= i < notes.len() ==> notes[i] is None) {
                assert forall|k: int| 0 <= k < rest.len() implies rest[k] is None by {
                    assert(notes[k + 1] is None);
                }
            }
            if first_valid_note(rest) is Some {
                let i = choose|i: int|
                    0 <= i < rest.len() && rest[i] == first_valid_note(rest) && forall|j: int|
                        0 <= j < i ==> rest[j] is None;
                assert(notes[i + 1] == first_valid_note(notes));
                assert forall|j: int| 0 <= j < i + 1 implies notes[j] is None by {
                    if j > 0 {
                        assert(notes[j] == rest[j - 1]);
                    }
                }
            }
        }
    }
}

} // verus!
