//! Analysis of the rolling buffer of MIDI piano frames.
//!
//! Each rendered frame records the note-on events that arrived over OSC since
//! the previous one. The GUI and the shaders read simple aggregates of the
//! recent past from this buffer: which pitches sounded, their extremes and
//! average, and how many chords were struck. Receiving the OSC packets and
//! smoothing the aggregates into control voltages is the caller's business;
//! everything that decides or counts is here.

use vstd::prelude::*;
use std::collections::VecDeque;

verus! {

/// The MIDI status byte announcing a pressed key.
pub const NOTE_ON: u8 = 144;

/// The MIDI status byte announcing a released key.
pub const NOTE_OFF: u8 = 128;

/// The port on which note events arrive over OSC.
pub const PORT: u16 = 9000;

/// A single sounded note.
#[derive(Debug, Clone, Copy, PartialEq, Eq, Structural)]
pub struct Note {
    pub pitch: u8,
    pub velocity: u8,
}

/// The notes that began during one rendered frame.
#[derive(Debug, Clone)]
pub struct MidiPianoFrame {
    pub notes: Vec<Note>,
}

/// The notes carried by one frame's worth of OSC messages, each message read
/// as a `(status, pitch, velocity)` triple: one note per note-on message, in
/// arrival order.
pub open spec fn note_ons(msgs: Seq<(u8, u8, u8)>) -> Seq<Note>
    decreases msgs.len(),
{
    if msgs.len() == 0 {
        Seq::empty()
    } else {
        let rest = note_ons(msgs.drop_last());
        if msgs.last().0 == NOTE_ON {
            rest.push(Note { pitch: msgs.last().1, velocity: msgs.last().2 })
        } else {
            rest
        }
    }
}

/// Extract the notes struck this frame from the received OSC messages,
/// keeping exactly the note-on messages.
pub fn notes_from_messages(msgs: &Vec<(u8, u8, u8)>) -> (notes: Vec<Note>)
    ensures
        notes@ == note_ons(msgs@),
{
    let mut notes: Vec<Note> = Vec::new();
    let mut i: usize = 0;
    while i < msgs.len()
        invariant
            i <= msgs@.len(),
            notes@ == note_ons(msgs@.take(i as int)),
        decreases msgs@.len() - i,
    {
        let (status, pitch, velocity) = msgs[i];
        if status == NOTE_ON {
            notes.push(Note { pitch, velocity });
        }
        proof {
            assert(msgs@.take(i + 1).drop_last() =~= msgs@.take(i as int));
            assert(msgs@.take(i + 1).last() == msgs@[i as int]);
        }
        i = i + 1;
    }
    proof {
        assert(msgs@.take(msgs@.len() as int) =~= msgs@);
    }
    notes
}

/// The note groups of the frames in which anything sounded at all, oldest
/// first: one group per non-empty frame.
pub open spec fn note_groups(frames: Seq<MidiPianoFrame>) -> Seq<Seq<Note>>
    decreases frames.len(),
{
    if frames.len() == 0 {
        Seq::empty()
    } else {
        let rest = note_groups(frames.drop_last());
        if frames.last().notes@.len() > 0 {
            rest.push(frames.last().notes@)
        } else {
            rest
        }
    }
}

/// The notes of each frame in which anything sounded: one group per
/// non-empty frame, in buffer order.
pub fn notes(buffer: &VecDeque<MidiPianoFrame>) -> (groups: Vec<Vec<Note>>)
    ensures
        groups@.map_values(|g: Vec<Note>| g@) == note_groups(buffer@),
{
    let mut groups: Vec<Vec<Note>> = Vec::new();
    let mut i: usize = 0;
    while i < buffer.len()
        invariant
            i <= buffer@.len(),
            groups@.map_values(|g: Vec<Note>| g@) == note_groups(buffer@.take(i as int)),
        decreases buffer@.len() - i,
    {
        let frame = &buffer[i];
        if frame.notes.len() != 0 {
            let mut group: Vec<Note> = Vec::new();
            let mut j: usize = 0;
            while j < frame.notes.len()
                invariant
                    j <= frame.notes@.len(),
                    group@ == frame.notes@.take(j as int),
                decreases frame.notes@.len() - j,
            {
                group.push(frame.notes[j]);
                proof {
                    assert(group@ =~= frame.notes@.take(j + 1));
                }
                j = j + 1;
            }
            proof {
                assert(frame.notes@.take(frame.notes@.len() as int) =~= frame.notes@);
            }
            let ghost groups0 = groups@;
            groups.push(group);
            proof {
                assert(groups@.map_values(|g: Vec<Note>| g@) =~= groups0.map_values(
                    |g: Vec<Note>| g@,
                ).push(frame.notes@));
            }
        }
        proof {
            assert(buffer@.take(i + 1).drop_last() =~= buffer@.take(i as int));
            assert(buffer@.take(i + 1).last() == buffer@[i as int]);
        }
        i = i + 1;
    }
    proof {
        assert(buffer@.take(buffer@.len() as int) =~= buffer@);
    }
    groups
}

/// How many of the frames held more than one note: each is one struck chord.
pub open spec fn chord_count(frames: Seq<MidiPianoFrame>) -> int
    decreases frames.len(),
{
    if frames.len() == 0 {
        0
    } else {
        chord_count(frames.drop_last()) + if frames.last().notes@.len() > 1 {
            1int
        } else {
            0int
        }
    }
}

/// The number of chords struck over the buffered frames: one per frame in
/// which more than one note began.
pub fn num_chords(buffer: &VecDeque<MidiPianoFrame>) -> (n: usize)
    ensures
        n == chord_count(buffer@),
{
    let mut n: usize = 0;
    let mut i: usize = 0;
    while i < buffer.len()
        invariant
            i <= buffer@.len(),
            n <= i,
            n == chord_count(buffer@.take(i as int)),
        decreases buffer@.len() - i,
    {
        if buffer[i].notes.len() > 1 {
            n = n + 1;
        }
        proof {
            assert(buffer@.take(i + 1).drop_last() =~= buffer@.take(i as int));
            assert(buffer@.take(i + 1).last() == buffer@[i as int]);
        }
        i = i + 1;
    }
    proof {
        assert(buffer@.take(buffer@.len() as int) =~= buffer@);
    }
    n
}

/// Whether some buffered frame holds a note with the given pitch.
pub open spec fn pitch_present(frames: Seq<MidiPianoFrame>, p: u8) -> bool {
    exists|i: int, j: int|
        0 <= i < frames.len() && 0 <= j < frames[i].notes@.len() && (#[trigger] frames[i].notes@[j]).pitch
            == p
}

/// Whether one of the first `j` notes of the sequence has the given pitch.
spec fn pitch_in_prefix(notes: Seq<Note>, j: int, p: u8) -> bool {
    exists|t: int| 0 <= t < j && (#[trigger] notes[t]).pitch == p
}

/// Extending the considered frames by one adds exactly the pitches of that
/// frame.
proof fn lemma_pitch_present_take_step(frames: Seq<MidiPianoFrame>, i: int, p: u8)
    requires
        0 <= i < frames.len(),
    ensures
        pitch_present(frames.take(i + 1), p) <==> (pitch_present(frames.take(i), p)
            || pitch_in_prefix(frames[i].notes@, frames[i].notes@.len() as int, p)),
{
    let pre = frames.take(i);
    let cur = frames.take(i + 1);
    if pitch_present(cur, p) {
        let (a, b) = choose|a: int, b: int|
            0 <= a < cur.len() && 0 <= b < cur[a].notes@.len() && (#[trigger] cur[a].notes@[b]).pitch
                == p;
        if a < i {
            assert(pre[a].notes@[b].pitch == p);
            assert(pitch_present(pre, p));
        } else {
            assert(frames[i].notes@[b].pitch == p);
        }
    }
    if pitch_present(pre, p) {
        let (a, b) = choose|a: int, b: int|
            0 <= a < pre.len() && 0 <= b < pre[a].notes@.len() && (#[trigger] pre[a].notes@[b]).pitch
                == p;
        assert(cur[a].notes@[b].pitch == p);
        assert(pitch_present(cur, p));
    }
    if pitch_in_prefix(frames[i].notes@, frames[i].notes@.len() as int, p) {
        let b = choose|t: int|
            0 <= t < frames[i].notes@.len() && (#[trigger] frames[i].notes@[t]).pitch == p;
        assert(cur[i].notes@[b].pitch == p);
        assert(pitch_present(cur, p));
    }
}

/// The pitches below `p` that sound somewhere in the buffered frames, in
/// ascending order, each once.
pub open spec fn pitches_below(frames: Seq<MidiPianoFrame>, p: int) -> Seq<u8>
    decreases p,
{
    if p <= 0 {
        Seq::empty()
    } else {
        pitches_below(frames, p - 1) + if pitch_present(frames, (p - 1) as u8) {
            seq![(p - 1) as u8]
        } else {
            Seq::empty()
        }
    }
}

/// Every pitch that sounds in the buffered frames, in ascending order, each
/// once.
pub open spec fn unique_pitch_seq(frames: Seq<MidiPianoFrame>) -> Seq<u8> {
    pitches_below(frames, 256)
}

/// The distinct pitches sounding anywhere in the buffer, in ascending order:
/// a pitch is listed exactly when some buffered frame holds a note with it,
/// and no pitch is listed twice.
pub fn unique_pitches(buffer: &VecDeque<MidiPianoFrame>) -> (pitches: Vec<u8>)
    ensures
        pitches@ == unique_pitch_seq(buffer@),
        forall|a: int, b: int| 0 <= a < b < pitches@.len() ==> pitches@[a] < pitches@[b],
        forall|q: u8| pitch_present(buffer@, q) <==> pitches@.contains(q),
{
    // Mark each sounding pitch in a table, one slot per possible pitch.
    let mut seen: Vec<bool> = Vec::new();
    let mut k: usize = 0;
    while k < 256
        invariant
            k <= 256,
            seen@.len() == k,
            forall|q: int| 0 <= q < k ==> !(#[trigger] seen@[q]),
        decreases 256 - k,
    {
        seen.push(false);
        k = k + 1;
    }
    let mut i: usize = 0;
    while i < buffer.len()
        invariant
            i <= buffer@.len(),
            seen@.len() == 256,
            forall|q: u8| #[trigger] seen@[q as int] <==> pitch_present(buffer@.take(i as int), q),
        decreases buffer@.len() - i,
    {
        let frame = &buffer[i];
        let mut j: usize = 0;
        while j < frame.notes.len()
            invariant
                j <= frame.notes@.len(),
                seen@.len() == 256,
                forall|q: u8| #[trigger] seen@[q as int] <==> (pitch_present(
                    buffer@.take(i as int),
                    q,
                ) || pitch_in_prefix(frame.notes@, j as int, q)),
            decreases frame.notes@.len() - j,
        {
            let p = frame.notes[j].pitch;
            let ghost seen0 = seen@;
            seen.set(p as usize, true);
            proof {
                assert forall|q: u8| #[trigger] seen@[q as int] <==> (pitch_present(
                    buffer@.take(i as int),
                    q,
                ) || pitch_in_prefix(frame.notes@, j + 1, q)) by {
                    if q == p {
                        assert(frame.notes@[j as int].pitch == q);
                        assert(pitch_in_prefix(frame.notes@, j + 1, q));
                    } else {
                        assert(seen@[q as int] == seen0[q as int]);
                        if pitch_in_prefix(frame.notes@, j + 1, q) {
                            let t = choose|t: int|
                                0 <= t < j + 1 && (#[trigger] frame.notes@[t]).pitch == q;
                            assert(t < j);
                            assert(pitch_in_prefix(frame.notes@, j as int, q));
                        }
                    }
                }
            }
            j = j + 1;
        }
        proof {
            assert forall|q: u8| #[trigger] seen@[q as int] <==> pitch_present(
                buffer@.take(i + 1),
                q,
            ) by {
                lemma_pitch_present_take_step(buffer@, i as int, q);
                assert(buffer@[i as int] == buffer@.take(i + 1)[i as int]);
            }
        }
        i = i + 1;
    }
    proof {
        assert(buffer@.take(buffer@.len() as int) =~= buffer@);
    }
    // Read the table back in ascending pitch order.
    let mut pitches: Vec<u8> = Vec::new();
    let mut p: usize = 0;
    while p < 256
        invariant
            p <= 256,
            seen@.len() == 256,
            forall|q: u8| #[trigger] seen@[q as int] <==> pitch_present(buffer@, q),
            pitches@ == pitches_below(buffer@, p as int),
            forall|a: int, b: int| 0 <= a < b < pitches@.len() ==> pitches@[a] < pitches@[b],
            forall|a: int| 0 <= a < pitches@.len() ==> pitches@[a] < p,
            forall|q: u8| #[trigger] pitches@.contains(q) ==> (q < p && pitch_present(buffer@, q)),
            forall|q: u8| q < p && pitch_present(buffer@, q) ==> #[trigger] pitches@.contains(q),
        decreases 256 - p,
    {
        let ghost pitches0 = pitches@;
        if seen[p] {
            pitches.push(p as u8);
            proof {
                assert(pitches@ =~= pitches_below(buffer@, p as int) + seq![p as u8]);
                assert forall|q: u8| #[trigger] pitches@.contains(q) implies (q < p + 1
                    && pitch_present(buffer@, q)) by {
                    let t = choose|t: int| 0 <= t < pitches@.len() && pitches@[t] == q;
                    if t < pitches0.len() {
                        assert(pitches0[t] == q);
                        assert(pitches0.contains(q));
                    }
                }
                assert forall|q: u8| q < p + 1 && pitch_present(buffer@, q) implies #[trigger] pitches@.contains(
                    q,
                ) by {
                    if q < p {
                        assert(pitches0.contains(q));
                        let t = choose|t: int| 0 <= t < pitches0.len() && pitches0[t] == q;
                        assert(pitches@[t] == q);
                    } else {
                        assert(pitches@[pitches0.len() as int] == q);
                    }
                }
            }
        } else {
            proof {
                assert(pitches@ =~= pitches_below(buffer@, p as int) + Seq::<u8>::empty());
                assert forall|q: u8| q < p + 1 && pitch_present(buffer@, q) implies #[trigger] pitches@.contains(
                    q,
                ) by {
                    assert(!seen@[p as int]);
                    assert(q != p);
                }
            }
        }
        p = p + 1;
    }
    pitches
}

/// The lowest pitch sounding anywhere in the buffer, if any note sounds at
/// all.
pub fn min_pitch(buffer: &VecDeque<MidiPianoFrame>) -> (min: Option<u8>)
    ensures
        match min {
            Some(p) => pitch_present(buffer@, p) && forall|q: u8|
                pitch_present(buffer@, q) ==> p <= q,
            None => forall|q: u8| !pitch_present(buffer@, q),
        },
{
    let pitches = unique_pitches(buffer);
    if pitches.len() > 0 {
        let m = pitches[0];
        proof {
            assert(pitches@.contains(m));
            assert forall|q: u8| pitch_present(buffer@, q) implies m <= q by {
                assert(pitches@.contains(q));
                let t = choose|t: int| 0 <= t < pitches@.len() && pitches@[t] == q;
                if t > 0 {
                    assert(pitches@[0] < pitches@[t]);
                }
            }
        }
        Some(m)
    } else {
        proof {
            assert forall|q: u8| !pitch_present(buffer@, q) by {
                assert(!pitches@.contains(q));
            }
        }
        None
    }
}

/// The highest pitch sounding anywhere in the buffer, if any note sounds at
/// all.
pub fn max_pitch(buffer: &VecDeque<MidiPianoFrame>) -> (max: Option<u8>)
    ensures
        match max {
            Some(p) => pitch_present(buffer@, p) && forall|q: u8|
                pitch_present(buffer@, q) ==> q <= p,
            None => forall|q: u8| !pitch_present(buffer@, q),
        },
{
    let pitches = unique_pitches(buffer);
    if pitches.len() > 0 {
        let m = pitches[pitches.len() - 1];
        proof {
            assert(pitches@.contains(m));
            assert forall|q: u8| pitch_present(buffer@, q) implies q <= m by {
                assert(pitches@.contains(q));
                let t = choose|t: int| 0 <= t < pitches@.len() && pitches@[t] == q;
                if t < pitches@.len() - 1 {
                    assert(pitches@[t] < pitches@[pitches@.len() - 1]);
                }
            }
        }
        Some(m)
    } else {
        proof {
            assert forall|q: u8| !pitch_present(buffer@, q) by {
                assert(!pitches@.contains(q));
            }
        }
        None
    }
}

/// The sum of a sequence of pitches.
pub open spec fn seq_sum(s: Seq<u8>) -> int
    decreases s.len(),
{
    if s.len() == 0 {
        0
    } else {
        seq_sum(s.drop_last()) + s.last()
    }
}

/// In a strictly ascending sequence each entry is at least its index.
proof fn lemma_ascending_lower_bound(s: Seq<u8>, a: int)
    requires
        forall|x: int, y: int| 0 <= x < y < s.len() ==> s[x] < s[y],
        0 <= a < s.len(),
    ensures
        s[a] >= a,
    decreases a,
{
    if a > 0 {
        lemma_ascending_lower_bound(s, a - 1);
    }
}

/// The mean of the distinct pitches sounding in the buffer, rounded down.
/// Meaningful only while something sounds, so at least one note is required.
pub fn avg_pitch(buffer: &VecDeque<MidiPianoFrame>) -> (avg: u8)
    requires
        exists|q: u8| pitch_present(buffer@, q),
    ensures
        avg == seq_sum(unique_pitch_seq(buffer@)) / unique_pitch_seq(buffer@).len() as int,
{
    let pitches = unique_pitches(buffer);
    proof {
        let q = choose|q: u8| pitch_present(buffer@, q);
        assert(pitches@.contains(q));
        if pitches@.len() > 256 {
            lemma_ascending_lower_bound(pitches@, 256);
        }
    }
    let mut sum: u32 = 0;
    let mut k: usize = 0;
    while k < pitches.len()
        invariant
            k <= pitches@.len(),
            pitches@.len() <= 256,
            sum <= 255 * k,
            sum == seq_sum(pitches@.take(k as int)),
        decreases pitches@.len() - k,
    {
        sum = sum + pitches[k] as u32;
        proof {
            assert(pitches@.take(k + 1).drop_last() =~= pitches@.take(k as int));
            assert(pitches@.take(k + 1).last() == pitches@[k as int]);
        }
        k = k + 1;
    }
    proof {
        assert(pitches@.take(pitches@.len() as int) =~= pitches@);
    }
    let count = pitches.len() as u32;
    let avg = sum / count;
    proof {
        assert(avg <= 255) by (nonlinear_arith)
            requires
                sum <= 255 * count,
                count > 0,
                avg == sum / count,
        ;
    }
    avg as u8
}

/// A buffer of the given length holding only silent frames.
pub fn default_midi_buffer(midi_buffer_frame_len: usize) -> (buffer: VecDeque<MidiPianoFrame>)
    ensures
        buffer@.len() == midi_buffer_frame_len,
        forall|i: int| 0 <= i < buffer@.len() ==> (#[trigger] buffer@[i]).notes@.len() == 0,
{
    let mut buffer: VecDeque<MidiPianoFrame> = VecDeque::new();
    let mut i: usize = 0;
    while i < midi_buffer_frame_len
        invariant
            i <= midi_buffer_frame_len,
            buffer@.len() == i,
            forall|k: int| 0 <= k < buffer@.len() ==> (#[trigger] buffer@[k]).notes@.len() == 0,
        decreases midi_buffer_frame_len - i,
    {
        buffer.push_back(MidiPianoFrame { notes: Vec::new() });
        i = i + 1;
    }
    buffer
}

} // verus!
