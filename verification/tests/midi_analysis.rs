//! Analysis of the MIDI frame buffer.

use std::collections::VecDeque;

use cohen_gig::midi::{
    avg_pitch, default_midi_buffer, max_pitch, min_pitch, notes, notes_from_messages, num_chords,
    unique_pitches, MidiPianoFrame, Note, NOTE_OFF, NOTE_ON,
};

fn frame(pitches: &[u8]) -> MidiPianoFrame {
    MidiPianoFrame {
        notes: pitches.iter().map(|p| Note { pitch: *p, velocity: 100 }).collect(),
    }
}

fn buffer(frames: &[&[u8]]) -> VecDeque<MidiPianoFrame> {
    frames.iter().map(|f| frame(f)).collect()
}

#[test]
fn note_ons_are_kept_and_other_messages_dropped() {
    let msgs: Vec<(u8, u8, u8)> =
        vec![(NOTE_ON, 60, 90), (NOTE_OFF, 60, 0), (NOTE_ON, 64, 80), (176, 1, 42)];
    let ns = notes_from_messages(&msgs);
    assert_eq!(ns.len(), 2);
    assert_eq!(ns[0], Note { pitch: 60, velocity: 90 });
    assert_eq!(ns[1], Note { pitch: 64, velocity: 80 });
}

#[test]
fn default_buffer_is_silent() {
    let buf = default_midi_buffer(512);
    assert_eq!(buf.len(), 512);
    assert!(buf.iter().all(|f| f.notes.is_empty()));
    assert_eq!(num_chords(&buf), 0);
    assert_eq!(min_pitch(&buf), None);
    assert_eq!(max_pitch(&buf), None);
}

#[test]
fn note_groups_skip_silent_frames() {
    let buf = buffer(&[&[60, 64], &[], &[67], &[]]);
    let groups = notes(&buf);
    assert_eq!(groups.len(), 2);
    assert_eq!(groups[0].len(), 2);
    assert_eq!(groups[1].len(), 1);
    assert_eq!(groups[1][0].pitch, 67);
}

#[test]
fn chords_are_frames_with_more_than_one_note() {
    let buf = buffer(&[&[60, 64, 67], &[62], &[], &[40, 52]]);
    assert_eq!(num_chords(&buf), 2);
}

#[test]
fn unique_pitches_are_sorted_and_deduplicated() {
    let buf = buffer(&[&[64, 60, 64], &[], &[60, 67]]);
    assert_eq!(unique_pitches(&buf), vec![60, 64, 67]);
}

#[test]
fn pitch_extremes_and_average() {
    let buf = buffer(&[&[64], &[60, 67]]);
    assert_eq!(min_pitch(&buf), Some(60));
    assert_eq!(max_pitch(&buf), Some(67));
    // (60 + 64 + 67) / 3 == 63 (rounded down).
    assert_eq!(avg_pitch(&buf), 63);
}

#[test]
fn repeated_pitch_counts_once_in_average() {
    let buf = buffer(&[&[10, 10, 10], &[20]]);
    assert_eq!(avg_pitch(&buf), 15);
}
