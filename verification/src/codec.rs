//! The persistence codec. A saved tape is its cell sequence with every
//! trailing blank dropped: the encoder counts each maximal run of blanks and
//! re-emits that many blank markers before the character that breaks the
//! run, so interior runs come out verbatim and only the final all-blank run
//! is left off. Decoding writes the saved characters back left-to-right
//! from index zero onto a fresh all-blank tape. A save that cannot be
//! decoded, or could not be read at all, yields a tape whose first cells
//! spell a sentinel message instead of an error: loading fails soft.

use vstd::prelude::*;
use crate::tape::Tape;

verus! {

/// `n` copies of `c`.
pub open spec fn char_run(c: char, n: nat) -> Seq<char> {
    Seq::new(n, |i: int| c)
}

/// `s` with every trailing `blank` removed: the encoded form of a tape
/// whose cells are `s`.
pub open spec fn trim_trailing(s: Seq<char>, blank: char) -> Seq<char>
    decreases s.len(),
{
    if s.len() == 0 {
        s
    } else if s.last() == blank {
        trim_trailing(s.drop_last(), blank)
    } else {
        s
    }
}

/// `s` followed by blanks up to length `capacity`: the tape cells that
/// decoding `s` produces.
pub open spec fn pad_to(s: Seq<char>, capacity: nat, blank: char) -> Seq<char> {
    s + char_run(blank, (capacity - s.len()) as nat)
}

/// The encode/decode round trip: `encode` returns a tape's cells trimmed of
/// trailing blanks, `decode` pads them back out to the capacity, and for
/// cells `s` of any tape the two compose to the identity — the trimmed form
/// always fits the capacity, and padding it restores every cell exactly.
pub proof fn lemma_trim_pad_round_trip(s: Seq<char>, blank: char)
    ensures
        trim_trailing(s, blank).len() <= s.len(),
        pad_to(trim_trailing(s, blank), s.len(), blank) == s,
    decreases s.len(),
{
    if s.len() == 0 {
        assert(pad_to(trim_trailing(s, blank), s.len(), blank) =~= s);
    } else if s.last() == blank {
        lemma_trim_pad_round_trip(s.drop_last(), blank);
        let t = trim_trailing(s, blank);
        assert(t == trim_trailing(s.drop_last(), blank));
        assert(pad_to(t, (s.len() - 1) as nat, blank) == s.drop_last());
        assert forall|j: int| 0 <= j < s.len() implies pad_to(t, s.len(), blank)[j] == s[j] by {
            if j < s.len() - 1 {
                assert(pad_to(t, (s.len() - 1) as nat, blank)[j] == s.drop_last()[j]);
                assert(s.drop_last()[j] == s[j]);
            } else {
                assert(s[j] == s.last());
            }
        }
        assert(pad_to(trim_trailing(s, blank), s.len(), blank) =~= s);
    } else {
        assert(pad_to(trim_trailing(s, blank), s.len(), blank) =~= s);
    }
}

/// Appending a blank never changes the trimmed form; appending any other
/// character makes the whole sequence its own trimmed form.
proof fn lemma_trim_push(s: Seq<char>, blank: char, c: char)
    ensures
        c == blank ==> trim_trailing(s.push(c), blank) == trim_trailing(s, blank),
        c != blank ==> trim_trailing(s.push(c), blank) == s.push(c),
{
    assert(s.push(c).last() == c);
    assert(s.push(c).drop_last() =~= s);
}

/// Produces the save representation of `tape`: every maximal run of blanks
/// is counted and re-emitted as that many blank markers when a non-blank
/// character breaks it, so the result is the cell sequence with its
/// trailing blanks dropped.
pub fn encode(tape: &Tape) -> (r: Vec<char>)
    ensures
        r@ == trim_trailing(tape@, tape.blank_spec()),
{
    let blank = tape.blank();
    let cap = tape.capacity();
    let mut out: Vec<char> = Vec::new();
    let mut pending: usize = 0;
    let mut i: usize = 0;
    while i < cap
        invariant
            i <= cap,
            cap == tape@.len(),
            blank == tape.blank_spec(),
            pending <= i,
            out@.len() + pending == i,
            out@ == trim_trailing(tape@.take(i as int), blank),
            out@ + char_run(blank, pending as nat) == tape@.take(i as int),
        decreases cap - i,
    {
        let ghost prefix = tape@.take(i as int);
        let c = match tape.read(i) {
            Ok(c) => c,
            Err(_) => blank,
        };
        assert(tape@.take(i + 1) == prefix.push(c)) by {
            assert(tape@.take(i + 1) =~= tape@.take(i as int).push(tape@[i as int]));
        }
        proof {
            lemma_trim_push(prefix, blank, c);
        }
        if c == blank {
            pending = pending + 1;
            assert(out@ + char_run(blank, pending as nat) =~= tape@.take(i + 1));
        } else {
            while pending > 0
                invariant
                    blank == tape.blank_spec(),
                    out@ + char_run(blank, pending as nat) == tape@.take(i as int),
                decreases pending,
            {
                out.push(blank);
                pending = pending - 1;
                assert(out@ + char_run(blank, pending as nat) =~= tape@.take(i as int));
            }
            assert(out@ =~= tape@.take(i as int));
            out.push(c);
            assert(out@ =~= tape@.take(i + 1));
        }
        i = i + 1;
    }
    assert(tape@.take(cap as int) =~= tape@);
    out
}

/// Parses a save representation back into a tape of `capacity` cells: the
/// saved characters fill the leftmost cells and every cell past them is
/// blank. Content longer than the capacity cannot be a save of such a tape
/// and is rejected as malformed.
pub fn decode(contents: &Vec<char>, capacity: usize, blank: char) -> (r: Option<Tape>)
    ensures
        contents@.len() <= capacity ==> {
            &&& r is Some
            &&& r->0@ == pad_to(contents@, capacity as nat, blank)
            &&& r->0.blank_spec() == blank
        },
        contents@.len() > capacity ==> r is None,
{
    if contents.len() > capacity {
        return None;
    }
    let mut tape = Tape::new(capacity, blank);
    let mut i: usize = 0;
    while i < contents.len()
        invariant
            i <= contents@.len() <= capacity,
            tape@.len() == capacity,
            tape.blank_spec() == blank,
            forall|j: int| 0 <= j < i ==> tape@[j] == contents@[j],
            forall|j: int| i <= j < capacity ==> tape@[j] == blank,
        decreases contents@.len() - i,
    {
        let c = contents[i];
        let _ = tape.write(i, c);
        i = i + 1;
    }
    assert(tape@ =~= pad_to(contents@, capacity as nat, blank));
    Some(tape)
}

/// The message a failed load spells out across the first cells of the tape
/// it hands back.
pub open spec fn sentinel_text() -> Seq<char> {
    seq!['E', 'R', 'R', 'O', 'R', ' ', 'L', 'O', 'A', 'D', 'I', 'N', 'G', ' ', 'F', 'I', 'L', 'E']
}

/// The characters of the sentinel message, in order.
pub fn sentinel_message() -> (r: Vec<char>)
    ensures
        r@ == sentinel_text(),
{
    let mut r: Vec<char> = Vec::new();
    r.push('E');
    r.push('R');
    r.push('R');
    r.push('O');
    r.push('R');
    r.push(' ');
    r.push('L');
    r.push('O');
    r.push('A');
    r.push('D');
    r.push('I');
    r.push('N');
    r.push('G');
    r.push(' ');
    r.push('F');
    r.push('I');
    r.push('L');
    r.push('E');
    assert(r@ =~= sentinel_text());
    r
}

/// The cells a load produces: the decoded save where one could be read and
/// fits, else the sentinel message (cut down to the capacity if it must be)
/// followed by blanks.
pub open spec fn loaded_cells(contents: Option<Seq<char>>, capacity: nat, blank: char) -> Seq<
    char,
> {
    match contents {
        Some(s) => if s.len() <= capacity {
            pad_to(s, capacity, blank)
        } else {
            sentinel_cells(capacity, blank)
        },
        None => sentinel_cells(capacity, blank),
    }
}

/// A tape of `capacity` cells whose first cells spell the sentinel message.
pub open spec fn sentinel_cells(capacity: nat, blank: char) -> Seq<char> {
    pad_to(
        sentinel_text().take(
            if sentinel_text().len() <= capacity {
                sentinel_text().len() as int
            } else {
                capacity as int
            },
        ),
        capacity,
        blank,
    )
}

/// The characters that were read from a save file, or `None` where the
/// read itself failed.
pub open spec fn read_result(contents: Option<&Vec<char>>) -> Option<Seq<char>> {
    match contents {
        Some(v) => Some(v@),
        None => None,
    }
}

/// A load whose read failed, or whose content is too long to be a save of
/// the tape, produces a tape that spells the sentinel message across its
/// first cells and is blank everywhere after them.
pub proof fn lemma_failed_load_spells_sentinel(
    contents: Option<Seq<char>>,
    capacity: nat,
    blank: char,
)
    requires
        capacity >= sentinel_text().len(),
        contents is None || contents->0.len() > capacity,
    ensures
        loaded_cells(contents, capacity, blank).len() == capacity,
        forall|j: int|
            0 <= j < sentinel_text().len() ==> loaded_cells(contents, capacity, blank)[j]
                == sentinel_text()[j],
        forall|j: int|
            sentinel_text().len() <= j < capacity ==> loaded_cells(contents, capacity, blank)[j]
                == blank,
{
    assert(sentinel_text().take(sentinel_text().len() as int) =~= sentinel_text());
}

/// Restores a tape of `capacity` cells from what was read from a save file:
/// `None` where the read itself failed. A missing or malformed save never
/// propagates an error; the tape handed back spells the sentinel message
/// instead.
pub fn load_tape(contents: Option<&Vec<char>>, capacity: usize, blank: char) -> (tape: Tape)
    ensures
        tape@ == loaded_cells(read_result(contents), capacity as nat, blank),
        tape.blank_spec() == blank,
{
    match contents {
        Some(v) => match decode(v, capacity, blank) {
            Some(tape) => tape,
            None => sentinel_tape(capacity, blank),
        },
        None => sentinel_tape(capacity, blank),
    }
}

/// Builds the fail-soft tape itself: the sentinel message in the first
/// cells (as far as it fits), blanks everywhere after it.
pub fn sentinel_tape(capacity: usize, blank: char) -> (tape: Tape)
    ensures
        tape@ == sentinel_cells(capacity as nat, blank),
        tape.blank_spec() == blank,
{
    let mut message = sentinel_message();
    message.truncate(capacity);
    assert(message@ =~= sentinel_text().take(
        if sentinel_text().len() <= capacity {
            sentinel_text().len() as int
        } else {
            capacity as int
        },
    ));
    let tape = match decode(&message, capacity, blank) {
        Some(tape) => tape,
        None => Tape::new(capacity, blank),
    };
    tape
}

} // verus!
