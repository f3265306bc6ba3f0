//! Where a saved tape lives on disk: each save slot maps to the path
//! `assets/saves/world<slot>.sav`, with the slot index written in decimal.
//! The host performs the file reads and writes themselves; this module only
//! derives the path and bundles it with the encoded contents, and the
//! session teardown hands such a bundle back when a slot was bound.

use vstd::prelude::*;
use crate::codec;
use crate::session::TapeSession;
use crate::tape::Tape;

verus! {

/// The decimal digit character for `d`.
pub open spec fn digit_char(d: nat) -> char {
    if d == 0 {
        '0'
    } else if d == 1 {
        '1'
    } else if d == 2 {
        '2'
    } else if d == 3 {
        '3'
    } else if d == 4 {
        '4'
    } else if d == 5 {
        '5'
    } else if d == 6 {
        '6'
    } else if d == 7 {
        '7'
    } else if d == 8 {
        '8'
    } else {
        '9'
    }
}

/// The decimal representation of `n`, most significant digit first, with no
/// leading zeros (a single `'0'` for zero itself).
pub open spec fn decimal(n: nat) -> Seq<char>
    decreases n,
{
    if n < 10 {
        seq![digit_char(n)]
    } else {
        decimal(n / 10).push(digit_char(n % 10))
    }
}

/// The file path bound to save slot `slot`.
pub open spec fn save_path_text(slot: nat) -> Seq<char> {
    path_prefix() + decimal(slot) + path_suffix()
}

/// The fixed directory-and-stem prefix of every save path.
pub open spec fn path_prefix() -> Seq<char> {
    seq![
        'a',
        's',
        's',
        'e',
        't',
        's',
        '/',
        's',
        'a',
        'v',
        'e',
        's',
        '/',
        'w',
        'o',
        'r',
        'l',
        'd',
    ]
}

/// The fixed extension of every save path.
pub open spec fn path_suffix() -> Seq<char> {
    seq!['.', 's', 'a', 'v']
}

/// Renders `n` in decimal, exactly the digits of `decimal(n)`.
pub fn decimal_digits(n: usize) -> (r: Vec<char>)
    ensures
        r@ == decimal(n as nat),
{
    if n == 0 {
        let mut r: Vec<char> = Vec::new();
        r.push('0');
        assert(r@ =~= decimal(0nat));
        return r;
    }
    let mut rev: Vec<char> = Vec::new();
    let mut m: usize = n;
    assert(decimal(n as nat) =~= decimal(n as nat) + rev@.reverse());
    while m > 0
        invariant
            m > 0 ==> decimal(n as nat) == decimal(m as nat) + rev@.reverse(),
            m == 0 ==> decimal(n as nat) == rev@.reverse(),
        decreases m,
    {
        let ghost old_m = m as nat;
        let ghost old_rev = rev@;
        let d = digit_of(m % 10);
        rev.push(d);
        m = m / 10;
        proof {
            assert(rev@.reverse() =~= seq![d] + old_rev.reverse());
            if old_m < 10 {
                assert(decimal(old_m) == seq![digit_char(old_m)]);
                assert(decimal(old_m) + old_rev.reverse() =~= seq![d] + old_rev.reverse());
            } else {
                assert(decimal(old_m) == decimal(old_m / 10).push(digit_char(old_m % 10)));
                assert(decimal(old_m) + old_rev.reverse() =~= decimal(old_m / 10) + (seq![d]
                    + old_rev.reverse()));
            }
        }
    }
    let mut r: Vec<char> = Vec::new();
    let mut k: usize = rev.len();
    while k > 0
        invariant
            k <= rev@.len(),
            r@ =~= rev@.subrange(k as int, rev@.len() as int).reverse(),
        decreases k,
    {
        k = k - 1;
        let c = rev[k];
        r.push(c);
        assert(r@ =~= rev@.subrange(k as int, rev@.len() as int).reverse());
    }
    assert(rev@.subrange(0, rev@.len() as int) =~= rev@);
    assert(r@ =~= rev@.reverse());
    assert(decimal(n as nat) =~= r@);
    r
}

/// The digit character for a value below ten.
fn digit_of(d: usize) -> (c: char)
    requires
        d < 10,
    ensures
        c == digit_char(d as nat),
{
    match d {
        0 => '0',
        1 => '1',
        2 => '2',
        3 => '3',
        4 => '4',
        5 => '5',
        6 => '6',
        7 => '7',
        8 => '8',
        _ => '9',
    }
}

/// Derives the on-disk path for save slot `slot`.
pub fn save_path(slot: usize) -> (r: Vec<char>)
    ensures
        r@ == save_path_text(slot as nat),
{
    let mut r: Vec<char> = Vec::new();
    r.push('a');
    r.push('s');
    r.push('s');
    r.push('e');
    r.push('t');
    r.push('s');
    r.push('/');
    r.push('s');
    r.push('a');
    r.push('v');
    r.push('e');
    r.push('s');
    r.push('/');
    r.push('w');
    r.push('o');
    r.push('r');
    r.push('l');
    r.push('d');
    assert(r@ =~= path_prefix());
    let mut digits = decimal_digits(slot);
    r.append(&mut digits);
    r.push('.');
    r.push('s');
    r.push('a');
    r.push('v');
    assert(r@ =~= save_path_text(slot as nat));
    r
}

/// A pending save: where to write and what to write there.
pub struct SaveRequest {
    pub path: Vec<char>,
    pub contents: Vec<char>,
}

/// Tears a session down. When it was bound to a save slot, the tape's
/// encoded contents and the slot's path come back for the host to write;
/// with no slot bound there is nothing to persist.
pub fn end_session(session: TapeSession, slot: Option<usize>) -> (r: Option<SaveRequest>)
    ensures
        slot is Some ==> {
            &&& r is Some
            &&& r->0.path@ == save_path_text(slot->0 as nat)
            &&& r->0.contents@ == codec::trim_trailing(session@.cells, session@.blank)
        },
        slot is None ==> r is None,
{
    match slot {
        Some(i) => {
            let path = save_path(i);
            let contents = codec::encode(session.tape());
            Some(SaveRequest { path, contents })
        },
        None => None,
    }
}

} // verus!
