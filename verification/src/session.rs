//! The interactive state machine layered on a tape: a cursor clamped to the
//! tape's bounds, a Reading/Writing mode toggle, and a dispatcher that maps
//! each input command to a single transition of the machine.

use vstd::prelude::*;
use crate::tape::Tape;

verus! {

/// How the session currently interprets input: navigation and deletion
/// (`Reading`) or literal character entry (`Writing`).
#[derive(Clone, Copy, PartialEq, Eq, Structural, Debug)]
pub enum Mode {
    Reading,
    Writing,
}

/// The discrete input commands the host feeds into a session, one at a time.
#[derive(Clone, Copy, PartialEq, Eq, Structural, Debug)]
pub enum Command {
    MoveLeft,
    MoveRight,
    Delete,
    BeginWrite,
    CommitChar(char),
    CommitEnter,
    CancelWrite,
    Exit,
}

/// The observable result of dispatching one command. A move that the
/// boundary stops (`Blocked`) is distinct from one that succeeds (`Moved`),
/// so the host can give different feedback for each; a command that is not
/// valid in the current mode is ignored (`Ignored`), never an error.
#[derive(Clone, Copy, PartialEq, Eq, Structural, Debug)]
pub enum Outcome {
    Moved,
    Blocked,
    Edited,
    ModeChanged,
    Ignored,
    SessionEnded,
}

/// The mathematical state of a session: the cell contents and blank symbol
/// of its tape, the cursor, and the mode.
pub struct SessionView {
    pub cells: Seq<char>,
    pub blank: char,
    pub cursor: int,
    pub mode: Mode,
}

/// A well-formed session keeps its cursor strictly inside the tape.
pub open spec fn view_wf(v: SessionView) -> bool {
    0 <= v.cursor < v.cells.len()
}

/// The transition function of the state machine: the state after `cmd` is
/// dispatched in state `v`. Commands not valid in the current mode leave
/// the state unchanged, as does `Exit`, whose teardown the host performs.
pub open spec fn step(v: SessionView, cmd: Command) -> SessionView {
    match v.mode {
        Mode::Reading => match cmd {
            Command::MoveLeft => SessionView {
                cursor: if v.cursor > 0 { v.cursor - 1 } else { 0 },
                ..v
            },
            Command::MoveRight => SessionView {
                cursor: if v.cursor + 1 < v.cells.len() { v.cursor + 1 } else { v.cursor },
                ..v
            },
            Command::Delete => SessionView { cells: v.cells.update(v.cursor, v.blank), ..v },
            Command::BeginWrite => SessionView { mode: Mode::Writing, ..v },
            _ => v,
        },
        Mode::Writing => match cmd {
            Command::CommitChar(c) => SessionView {
                cells: v.cells.update(v.cursor, c),
                mode: Mode::Reading,
                ..v
            },
            Command::CommitEnter => SessionView {
                cells: v.cells.update(v.cursor, v.cells[v.cursor]),
                mode: Mode::Reading,
                ..v
            },
            Command::CancelWrite => SessionView { mode: Mode::Reading, ..v },
            _ => v,
        },
    }
}

/// The outcome reported for dispatching `cmd` in state `v`.
pub open spec fn step_outcome(v: SessionView, cmd: Command) -> Outcome {
    match v.mode {
        Mode::Reading => match cmd {
            Command::MoveLeft => if v.cursor > 0 { Outcome::Moved } else { Outcome::Blocked },
            Command::MoveRight => if v.cursor + 1 < v.cells.len() {
                Outcome::Moved
            } else {
                Outcome::Blocked
            },
            Command::Delete => Outcome::Edited,
            Command::BeginWrite => Outcome::ModeChanged,
            Command::Exit => Outcome::SessionEnded,
            _ => Outcome::Ignored,
        },
        Mode::Writing => match cmd {
            Command::CommitChar(_) => Outcome::Edited,
            Command::CommitEnter => Outcome::Edited,
            Command::CancelWrite => Outcome::ModeChanged,
            _ => Outcome::Ignored,
        },
    }
}

/// A move command that the boundary stops leaves the whole state unchanged
/// and reports `Blocked`: `MoveLeft` at the leftmost cell, `MoveRight` at
/// the rightmost.
pub proof fn lemma_boundary_moves_blocked(v: SessionView)
    requires
        view_wf(v),
        v.mode == Mode::Reading,
    ensures
        v.cursor == 0 ==> step(v, Command::MoveLeft) == v && step_outcome(v, Command::MoveLeft)
            == Outcome::Blocked,
        v.cursor == v.cells.len() - 1 ==> step(v, Command::MoveRight) == v && step_outcome(
            v,
            Command::MoveRight,
        ) == Outcome::Blocked,
{
}

/// Away from both boundaries, `MoveLeft` followed by `MoveRight` restores
/// the state exactly.
pub proof fn lemma_move_round_trip(v: SessionView)
    requires
        view_wf(v),
        v.mode == Mode::Reading,
        0 < v.cursor < v.cells.len() - 1,
    ensures
        step(step(v, Command::MoveLeft), Command::MoveRight) == v,
{
}

/// `Delete` blanks the cell under the cursor and touches nothing else: no
/// other cell, not the cursor, not the mode.
pub proof fn lemma_delete_targets_cursor_only(v: SessionView)
    requires
        view_wf(v),
        v.mode == Mode::Reading,
    ensures
        step(v, Command::Delete).cells.len() == v.cells.len(),
        step(v, Command::Delete).cells[v.cursor] == v.blank,
        forall|j: int|
            0 <= j < v.cells.len() && j != v.cursor ==> step(v, Command::Delete).cells[j]
                == v.cells[j],
        step(v, Command::Delete).cursor == v.cursor,
        step(v, Command::Delete).mode == v.mode,
{
}

/// `BeginWrite` followed by `CommitChar(c)` stores `c` in the cell under
/// the cursor, leaves every other cell and the cursor alone, and returns
/// the mode to `Reading`.
pub proof fn lemma_write_commit(v: SessionView, c: char)
    requires
        view_wf(v),
        v.mode == Mode::Reading,
    ensures
        step(step(v, Command::BeginWrite), Command::CommitChar(c)).cells[v.cursor] == c,
        forall|j: int|
            0 <= j < v.cells.len() && j != v.cursor ==> step(
                step(v, Command::BeginWrite),
                Command::CommitChar(c),
            ).cells[j] == v.cells[j],
        step(step(v, Command::BeginWrite), Command::CommitChar(c)).cursor == v.cursor,
        step(step(v, Command::BeginWrite), Command::CommitChar(c)).mode == Mode::Reading,
{
}

/// `BeginWrite` followed by `CancelWrite` returns the mode to `Reading`
/// with every cell and the cursor exactly as before.
pub proof fn lemma_cancel_write_preserves_cells(v: SessionView)
    requires
        view_wf(v),
        v.mode == Mode::Reading,
    ensures
        step(step(v, Command::BeginWrite), Command::CancelWrite) == v,
{
}

/// Dispatching any command keeps the session well formed: the cursor never
/// escapes the tape and the capacity never changes.
pub proof fn lemma_step_preserves_wf(v: SessionView, cmd: Command)
    requires
        view_wf(v),
    ensures
        view_wf(step(v, cmd)),
        step(v, cmd).cells.len() == v.cells.len(),
        step(v, cmd).blank == v.blank,
{
}

/// The window of cells the host renders each frame: one entry per offset in
/// `[-radius, radius]`, holding the offset and the symbol at
/// `cursor + offset`, or `None` where that index falls off the tape.
pub open spec fn window_view(cells: Seq<char>, cursor: int, radius: int) -> Seq<
    (i64, Option<char>),
> {
    Seq::new(
        (2 * radius + 1) as nat,
        |k: int|
            {
                let pos = cursor + k - radius;
                (
                    (k - radius) as i64,
                    if 0 <= pos < cells.len() {
                        Some(cells[pos])
                    } else {
                        None
                    },
                )
            },
    )
}

/// An interactive editing session: a tape, the cursor position under user
/// focus, and the current interaction mode.
pub struct TapeSession {
    tape: Tape,
    cursor: usize,
    mode: Mode,
}

impl TapeSession {
    pub closed spec fn view(self) -> SessionView {
        SessionView {
            cells: self.tape@,
            blank: self.tape.blank_spec(),
            cursor: self.cursor as int,
            mode: self.mode,
        }
    }

    pub open spec fn wf(self) -> bool {
        view_wf(self@)
    }

    /// Starts a session on a fresh all-blank tape: cursor at the leftmost
    /// cell, mode `Reading`.
    pub fn new_session(capacity: usize, blank: char) -> (s: TapeSession)
        requires
            capacity > 0,
        ensures
            s.wf(),
            s@.cells == Seq::new(capacity as nat, |i: int| blank),
            s@.blank == blank,
            s@.cursor == 0,
            s@.mode == Mode::Reading,
    {
        TapeSession { tape: Tape::new(capacity, blank), cursor: 0, mode: Mode::Reading }
    }

    /// Starts a session on an existing tape (for example one restored from
    /// a save file): cursor at the leftmost cell, mode `Reading`.
    pub fn with_tape(tape: Tape) -> (s: TapeSession)
        requires
            tape@.len() > 0,
        ensures
            s.wf(),
            s@.cells == tape@,
            s@.blank == tape.blank_spec(),
            s@.cursor == 0,
            s@.mode == Mode::Reading,
    {
        TapeSession { tape, cursor: 0, mode: Mode::Reading }
    }

    /// The cursor's current cell index.
    pub fn cursor(&self) -> (c: usize)
        ensures
            c == self@.cursor,
    {
        self.cursor
    }

    /// The current interaction mode.
    pub fn mode(&self) -> (m: Mode)
        ensures
            m == self@.mode,
    {
        self.mode
    }

    /// Read-only access to the underlying tape.
    pub fn tape(&self) -> (t: &Tape)
        ensures
            t@ == self@.cells,
            t.blank_spec() == self@.blank,
    {
        &self.tape
    }

    /// The ordered window of cells around the cursor, exactly `window_view`
    /// of the current state: a pure query, safe to repeat every frame.
    pub fn visible_window(&self, radius: usize) -> (w: Vec<(i64, Option<char>)>)
        requires
            self.wf(),
            radius <= i64::MAX,
            2 * radius + 1 <= usize::MAX,
        ensures
            w@ == window_view(self@.cells, self@.cursor, radius as int),
    {
        let ghost target = window_view(self@.cells, self@.cursor, radius as int);
        let cap = self.tape.capacity();
        let count = 2 * radius + 1;
        let mut w: Vec<(i64, Option<char>)> = Vec::new();
        let mut k: usize = 0;
        while k < count
            invariant
                self.wf(),
                radius <= i64::MAX,
                count == 2 * radius + 1,
                cap == self@.cells.len(),
                k <= count,
                target == window_view(self@.cells, self@.cursor, radius as int),
                w@.len() == k,
                forall|j: int| 0 <= j < k ==> w@[j] == target[j],
            decreases count - k,
        {
            let entry: (i64, Option<char>) = if k < radius {
                let d = radius - k;
                let offset = -(d as i64);
                if self.cursor >= d {
                    (offset, self.tape.get(self.cursor - d))
                } else {
                    (offset, None)
                }
            } else {
                let d = k - radius;
                let offset = d as i64;
                if d < cap - self.cursor {
                    (offset, self.tape.get(self.cursor + d))
                } else {
                    (offset, None)
                }
            };
            assert(entry == target[k as int]);
            w.push(entry);
            k = k + 1;
        }
        assert(w@ =~= target);
        w
    }

    /// Feeds one command into the state machine and reports what happened.
    /// The new state is exactly `step` of the old one, and the outcome
    /// exactly `step_outcome`.
    pub fn dispatch(&mut self, cmd: Command) -> (outcome: Outcome)
        requires
            old(self).wf(),
        ensures
            final(self).wf(),
            final(self)@ == step(old(self)@, cmd),
            outcome == step_outcome(old(self)@, cmd),
    {
        match self.mode {
            Mode::Reading => match cmd {
                Command::MoveLeft => {
                    if self.cursor > 0 {
                        self.cursor = self.cursor - 1;
                        Outcome::Moved
                    } else {
                        Outcome::Blocked
                    }
                },
                Command::MoveRight => {
                    let cap = self.tape.capacity();
                    if self.cursor + 1 < cap {
                        self.cursor = self.cursor + 1;
                        Outcome::Moved
                    } else {
                        Outcome::Blocked
                    }
                },
                Command::Delete => {
                    let blank = self.tape.blank();
                    let _ = self.tape.write(self.cursor, blank);
                    Outcome::Edited
                },
                Command::BeginWrite => {
                    self.mode = Mode::Writing;
                    Outcome::ModeChanged
                },
                Command::Exit => Outcome::SessionEnded,
                _ => Outcome::Ignored,
            },
            Mode::Writing => match cmd {
                Command::CommitChar(c) => {
                    let _ = self.tape.write(self.cursor, c);
                    self.mode = Mode::Reading;
                    Outcome::Edited
                },
                Command::CommitEnter => {
                    let cur = match self.tape.read(self.cursor) {
                        Ok(c) => c,
                        Err(_) => self.tape.blank(),
                    };
                    let _ = self.tape.write(self.cursor, cur);
                    self.mode = Mode::Reading;
                    Outcome::Edited
                },
                Command::CancelWrite => {
                    self.mode = Mode::Reading;
                    Outcome::ModeChanged
                },
                _ => Outcome::Ignored,
            },
        }
    }
}

} // verus!
