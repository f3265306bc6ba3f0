//! Bounded symbol storage: a fixed-capacity sequence of cells, each holding
//! one character, together with the blank symbol used to initialize and
//! clear them.

use vstd::prelude::*;
use vstd::pervasive::VecAdditionalExecFns;

verus! {

/// Errors a tape operation can report.
#[derive(Clone, Copy, PartialEq, Eq, Structural, Debug)]
pub enum TapeError {
    /// The requested index lies at or beyond the tape's capacity.
    OutOfRange,
}

/// A fixed-capacity tape of character cells. The capacity is fixed at
/// construction: no operation grows or shrinks the cell sequence.
pub struct Tape {
    cells: Vec<char>,
    blank: char,
}

impl Tape {
    /// The sequence of symbols currently held in the cells.
    pub closed spec fn view(self) -> Seq<char> {
        self.cells@
    }

    /// The blank symbol this tape was constructed with.
    pub closed spec fn blank_spec(self) -> char {
        self.blank
    }

    /// Creates a tape of `capacity` cells, all set to `blank`.
    pub fn new(capacity: usize, blank: char) -> (tape: Tape)
        ensures
            tape@ == Seq::new(capacity as nat, |i: int| blank),
            tape.blank_spec() == blank,
    {
        let mut cells: Vec<char> = Vec::new();
        let mut i: usize = 0;
        while i < capacity
            invariant
                i <= capacity,
                cells@ == Seq::new(i as nat, |j: int| blank),
            decreases capacity - i,
        {
            cells.push(blank);
            assert(cells@ =~= Seq::new((i + 1) as nat, |j: int| blank));
            i = i + 1;
        }
        Tape { cells, blank }
    }

    /// Wraps an existing cell sequence as a tape whose capacity is the
    /// sequence's length.
    pub fn from_cells(cells: Vec<char>, blank: char) -> (tape: Tape)
        ensures
            tape@ == cells@,
            tape.blank_spec() == blank,
    {
        Tape { cells, blank }
    }

    /// The number of cells; indices `0 .. capacity()` are valid.
    pub fn capacity(&self) -> (n: usize)
        ensures
            n == self@.len(),
    {
        self.cells.len()
    }

    /// The blank symbol this tape was constructed with.
    pub fn blank(&self) -> (b: char)
        ensures
            b == self.blank_spec(),
    {
        self.blank
    }

    /// Returns the symbol at `index`, or `OutOfRange` when `index` lies
    /// beyond the last cell.
    pub fn read(&self, index: usize) -> (r: Result<char, TapeError>)
        ensures
            index < self@.len() ==> r == Ok::<char, TapeError>(self@[index as int]),
            index >= self@.len() ==> r == Err::<char, TapeError>(TapeError::OutOfRange),
    {
        if index < self.cells.len() {
            Ok(self.cells[index])
        } else {
            Err(TapeError::OutOfRange)
        }
    }

    /// Returns the symbol at `index`, or `None` when no cell exists there.
    /// The windowed view uses this soft form of `read`.
    pub fn get(&self, index: usize) -> (r: Option<char>)
        ensures
            index < self@.len() ==> r == Some(self@[index as int]),
            index >= self@.len() ==> r is None,
    {
        if index < self.cells.len() {
            Some(self.cells[index])
        } else {
            None
        }
    }

    /// Stores `symbol` at `index`; only that cell changes. Reports
    /// `OutOfRange`, leaving the tape unchanged, when `index` lies beyond
    /// the last cell.
    pub fn write(&mut self, index: usize, symbol: char) -> (r: Result<(), TapeError>)
        ensures
            index < old(self)@.len() ==> {
                &&& r == Ok::<(), TapeError>(())
                &&& final(self)@ == old(self)@.update(index as int, symbol)
            },
            index >= old(self)@.len() ==> {
                &&& r == Err::<(), TapeError>(TapeError::OutOfRange)
                &&& final(self)@ == old(self)@
            },
            final(self).blank_spec() == old(self).blank_spec(),
    {
        if index < self.cells.len() {
            self.cells.set(index, symbol);
            Ok(())
        } else {
            Err(TapeError::OutOfRange)
        }
    }

    /// Resets every cell to the blank symbol; the capacity is kept.
    pub fn clear(&mut self)
        ensures
            final(self)@ == Seq::new(old(self)@.len(), |i: int| old(self).blank_spec()),
            final(self).blank_spec() == old(self).blank_spec(),
    {
        let n = self.cells.len();
        let mut i: usize = 0;
        while i < n
            invariant
                i <= n,
                n == self.cells@.len(),
                self.blank == old(self).blank_spec(),
                forall|j: int| 0 <= j < i ==> self.cells@[j] == self.blank,
            decreases n - i,
        {
            self.cells.set(i, self.blank);
            i = i + 1;
        }
        assert(self.cells@ =~= Seq::new(old(self)@.len(), |i: int| old(self).blank_spec()));
    }
}

} // verus!
