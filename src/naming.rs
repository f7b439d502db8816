//! Conversion of declared identifiers into the canonical snake form.
use vstd::prelude::*;
use crate::text::{chars_of, string_of};

verus! {

/// Word separator.
pub open spec fn is_separator(c: char) -> bool {
    c == '_'
}

pub open spec fn is_upper(c: char) -> bool {
    'A' <= c && c <= 'Z'
}

pub open spec fn is_lower(c: char) -> bool {
    'a' <= c && c <= 'z'
}

/// ASCII lowering; other characters stay.
pub open spec fn lower(c: char) -> char {
    if is_upper(c) {
        ((c as u32) + 32) as char
    } else {
        c
    }
}

/// ASCII raising; other characters stay.
pub open spec fn upper(c: char) -> char {
    if is_lower(c) {
        ((c as u32) - 32) as char
    } else {
        c
    }
}

/// What the scan remembers of the characters read so far.
#[derive(Clone, Copy, PartialEq, Eq, Debug)]
pub enum ScanState {
    /// Nothing read yet.
    Start,
    /// The last character was a separator.
    AfterSeparator,
    /// The last character was neither upper case nor a separator.
    LowerRun,
    /// The last character was upper case and was copied as it is.
    UpperRun,
    /// The last character was upper case; a separator and its lowered form were emitted.
    FreshBoundary,
}

/// One step of the scan: the state after `c`, and the output so far.
pub open spec fn step(st: ScanState, out: Seq<char>, c: char) -> (ScanState, Seq<char>) {
    if is_upper(c) {
        match st {
            ScanState::LowerRun => (ScanState::FreshBoundary, out.push('_').push(lower(c))),
            ScanState::FreshBoundary => (
                ScanState::UpperRun,
                out.drop_last().push(upper(out.last())).push(c),
            ),
            _ => (ScanState::UpperRun, out.push(c)),
        }
    } else if is_separator(c) {
        (ScanState::AfterSeparator, out.push(c))
    } else {
        (ScanState::LowerRun, out.push(c))
    }
}

/// The scan over `s`, left to right.
pub open spec fn scan(s: Seq<char>) -> (ScanState, Seq<char>)
    decreases s.len(),
{
    if s.len() == 0 {
        (ScanState::Start, Seq::empty())
    } else {
        let (st, out) = scan(s.drop_last());
        step(st, out, s.last())
    }
}

/// The canonical form of an identifier.
pub open spec fn snake_of(s: Seq<char>) -> Seq<char> {
    scan(s).1
}

proof fn lemma_fresh_boundary_nonempty(s: Seq<char>)
    ensures
        scan(s).0 == ScanState::FreshBoundary ==> scan(s).1.len() > 0,
        scan(s).0 == ScanState::Start ==> s.len() == 0,
    decreases s.len(),
{
    if s.len() > 0 {
        lemma_fresh_boundary_nonempty(s.drop_last());
    }
}

fn is_ascii_upper(c: char) -> (r: bool)
    ensures
        r == is_upper(c),
{
    'A' <= c && c <= 'Z'
}

fn ascii_lower(c: char) -> (r: char)
    requires
        is_upper(c),
    ensures
        r == lower(c),
{
    ((c as u8) + 32) as char
}

fn ascii_upper(c: char) -> (r: char)
    ensures
        r == upper(c),
{
    if 'a' <= c && c <= 'z' {
        ((c as u8) - 32) as char
    } else {
        c
    }
}

/// Converts a declared identifier into its canonical form: an upper-case letter that
/// follows a lower-case one starts a new word, written as a separator and the lowered
/// letter; runs of upper-case letters stay as they are.
pub fn camel_to_snake(src: &String) -> (r: String)
    ensures
        r@ == snake_of(src@),
{
    let chars = chars_of(src.as_str());
    let mut out: Vec<char> = Vec::new();
    let mut st = ScanState::Start;
    let mut i: usize = 0;
    while i < chars.len()
        invariant
            chars@ == src@,
            i <= chars.len(),
            (st, out@) == scan(chars@.subrange(0, i as int)),
        decreases chars.len() - i,
    {
        let c = chars[i];
        proof {
            let pre = chars@.subrange(0, i as int);
            let next = chars@.subrange(0, i + 1);
            assert(next.drop_last() =~= pre);
            lemma_fresh_boundary_nonempty(pre);
        }
        if is_ascii_upper(c) {
            match st {
                ScanState::LowerRun => {
                    out.push('_');
                    out.push(ascii_lower(c));
                    st = ScanState::FreshBoundary;
                },
                ScanState::FreshBoundary => {
                    let p = out.pop().unwrap();
                    out.push(ascii_upper(p));
                    out.push(c);
                    st = ScanState::UpperRun;
                },
                _ => {
                    out.push(c);
                    st = ScanState::UpperRun;
                },
            }
        } else if c == '_' {
            out.push(c);
            st = ScanState::AfterSeparator;
        } else {
            out.push(c);
            st = ScanState::LowerRun;
        }
        i = i + 1;
    }
    assert(chars@.subrange(0, i as int) =~= src@);
    string_of(&out)
}

} // verus!
