use turing_machine_simulator::session::{Command, Mode, Outcome, TapeSession};
use turing_machine_simulator::tape::TapeError;

#[test]
fn new_session_starts_reading_at_origin() {
    let s = TapeSession::new_session(10, '_');
    assert_eq!(s.cursor(), 0);
    assert_eq!(s.mode(), Mode::Reading);
    assert_eq!(s.tape().capacity(), 10);
    for i in 0..10 {
        assert_eq!(s.tape().read(i), Ok('_'));
    }
}

#[test]
fn move_left_blocked_at_origin() {
    let mut s = TapeSession::new_session(10, '_');
    let outcome = s.dispatch(Command::MoveLeft);
    assert_eq!(outcome, Outcome::Blocked);
    assert_eq!(s.cursor(), 0);
}

#[test]
fn move_right_blocked_at_last_cell() {
    let mut s = TapeSession::new_session(3, '_');
    assert_eq!(s.dispatch(Command::MoveRight), Outcome::Moved);
    assert_eq!(s.dispatch(Command::MoveRight), Outcome::Moved);
    assert_eq!(s.cursor(), 2);
    let outcome = s.dispatch(Command::MoveRight);
    assert_eq!(outcome, Outcome::Blocked);
    assert_eq!(s.cursor(), 2);
}

#[test]
fn move_left_then_right_restores_cursor() {
    let mut s = TapeSession::new_session(10, '_');
    for _ in 0..4 {
        s.dispatch(Command::MoveRight);
    }
    assert_eq!(s.cursor(), 4);
    assert_eq!(s.dispatch(Command::MoveLeft), Outcome::Moved);
    assert_eq!(s.dispatch(Command::MoveRight), Outcome::Moved);
    assert_eq!(s.cursor(), 4);
}

#[test]
fn delete_blanks_only_the_cursor_cell() {
    let mut s = TapeSession::new_session(5, '_');
    for (i, c) in ['a', 'b', 'c', 'd', 'e'].into_iter().enumerate() {
        s.dispatch(Command::BeginWrite);
        s.dispatch(Command::CommitChar(c));
        if i < 4 {
            s.dispatch(Command::MoveRight);
        }
    }
    for _ in 0..2 {
        s.dispatch(Command::MoveLeft);
    }
    assert_eq!(s.cursor(), 2);
    assert_eq!(s.dispatch(Command::Delete), Outcome::Edited);
    assert_eq!(s.tape().read(0), Ok('a'));
    assert_eq!(s.tape().read(1), Ok('b'));
    assert_eq!(s.tape().read(2), Ok('_'));
    assert_eq!(s.tape().read(3), Ok('d'));
    assert_eq!(s.tape().read(4), Ok('e'));
}

#[test]
fn begin_write_then_commit_char_stores_it_and_returns_to_reading() {
    let mut s = TapeSession::new_session(10, '_');
    assert_eq!(s.dispatch(Command::BeginWrite), Outcome::ModeChanged);
    assert_eq!(s.mode(), Mode::Writing);
    assert_eq!(s.dispatch(Command::CommitChar('X')), Outcome::Edited);
    assert_eq!(s.tape().read(s.cursor()), Ok('X'));
    assert_eq!(s.mode(), Mode::Reading);
}

#[test]
fn begin_write_then_cancel_leaves_cell_unchanged() {
    let mut s = TapeSession::new_session(10, '_');
    s.dispatch(Command::BeginWrite);
    s.dispatch(Command::CommitChar('q'));
    s.dispatch(Command::BeginWrite);
    assert_eq!(s.mode(), Mode::Writing);
    assert_eq!(s.dispatch(Command::CancelWrite), Outcome::ModeChanged);
    assert_eq!(s.tape().read(0), Ok('q'));
    assert_eq!(s.mode(), Mode::Reading);
}

#[test]
fn commit_enter_confirms_without_changing_the_cell() {
    let mut s = TapeSession::new_session(10, '_');
    s.dispatch(Command::BeginWrite);
    s.dispatch(Command::CommitChar('z'));
    s.dispatch(Command::BeginWrite);
    assert_eq!(s.dispatch(Command::CommitEnter), Outcome::Edited);
    assert_eq!(s.tape().read(0), Ok('z'));
    assert_eq!(s.mode(), Mode::Reading);
}

#[test]
fn write_mode_commands_are_ignored_while_reading() {
    let mut s = TapeSession::new_session(10, '_');
    assert_eq!(s.dispatch(Command::CommitChar('x')), Outcome::Ignored);
    assert_eq!(s.dispatch(Command::CommitEnter), Outcome::Ignored);
    assert_eq!(s.dispatch(Command::CancelWrite), Outcome::Ignored);
    assert_eq!(s.tape().read(0), Ok('_'));
    assert_eq!(s.cursor(), 0);
    assert_eq!(s.mode(), Mode::Reading);
}

#[test]
fn reading_mode_commands_are_ignored_while_writing() {
    let mut s = TapeSession::new_session(10, '_');
    s.dispatch(Command::MoveRight);
    s.dispatch(Command::BeginWrite);
    assert_eq!(s.dispatch(Command::MoveLeft), Outcome::Ignored);
    assert_eq!(s.dispatch(Command::MoveRight), Outcome::Ignored);
    assert_eq!(s.dispatch(Command::Delete), Outcome::Ignored);
    assert_eq!(s.dispatch(Command::BeginWrite), Outcome::Ignored);
    assert_eq!(s.dispatch(Command::Exit), Outcome::Ignored);
    assert_eq!(s.cursor(), 1);
    assert_eq!(s.mode(), Mode::Writing);
}

#[test]
fn exit_reports_session_ended_and_changes_nothing() {
    let mut s = TapeSession::new_session(10, '_');
    s.dispatch(Command::MoveRight);
    assert_eq!(s.dispatch(Command::Exit), Outcome::SessionEnded);
    assert_eq!(s.cursor(), 1);
    assert_eq!(s.mode(), Mode::Reading);
}

#[test]
fn visible_window_in_the_interior_is_all_present() {
    let mut s = TapeSession::new_session(1_000_000, '_');
    for _ in 0..500_000 {
        s.dispatch(Command::MoveRight);
    }
    assert_eq!(s.cursor(), 500_000);
    let w = s.visible_window(2);
    assert_eq!(w.len(), 5);
    for (i, entry) in w.iter().enumerate() {
        assert_eq!(entry.0, i as i64 - 2);
        assert_eq!(entry.1, Some('_'));
    }
}

#[test]
fn visible_window_at_origin_marks_off_tape_cells_absent() {
    let s = TapeSession::new_session(1_000_000, '_');
    let w = s.visible_window(2);
    assert_eq!(w.len(), 5);
    assert_eq!(w[0], (-2, None));
    assert_eq!(w[1], (-1, None));
    assert_eq!(w[2], (0, Some('_')));
    assert_eq!(w[3], (1, Some('_')));
    assert_eq!(w[4], (2, Some('_')));
}

#[test]
fn visible_window_shows_the_surrounding_symbols() {
    let mut s = TapeSession::new_session(10, '_');
    for c in ['a', 'b', 'c'] {
        s.dispatch(Command::BeginWrite);
        s.dispatch(Command::CommitChar(c));
        s.dispatch(Command::MoveRight);
    }
    s.dispatch(Command::MoveLeft);
    s.dispatch(Command::MoveLeft);
    assert_eq!(s.cursor(), 1);
    let w = s.visible_window(1);
    assert_eq!(w, vec![(-1, Some('a')), (0, Some('b')), (1, Some('c'))]);
}

#[test]
fn tape_read_and_write_report_out_of_range() {
    let mut s = TapeSession::new_session(4, '_');
    assert_eq!(s.tape().read(4), Err(TapeError::OutOfRange));
    assert_eq!(s.tape().read(100), Err(TapeError::OutOfRange));
    assert_eq!(s.tape().get(4), None);
    let mut t = turing_machine_simulator::tape::Tape::new(4, '_');
    assert_eq!(t.write(4, 'x'), Err(TapeError::OutOfRange));
    assert_eq!(t.write(0, 'x'), Ok(()));
    assert_eq!(t.read(0), Ok('x'));
}

#[test]
fn clear_resets_every_cell() {
    let mut t = turing_machine_simulator::tape::Tape::new(6, '_');
    t.write(0, 'a').unwrap();
    t.write(5, 'b').unwrap();
    t.clear();
    for i in 0..6 {
        assert_eq!(t.read(i), Ok('_'));
    }
    assert_eq!(t.capacity(), 6);
}
