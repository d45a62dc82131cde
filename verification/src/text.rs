use vstd::prelude::*;
use crate::constants::{MAX_NAME_LENGTH, MIN_NAME_LENGTH};

verus! {

/// Relies on `core::iter::Iterator::collect` for `String` from chars: the
/// resulting string holds exactly the characters of the slice, in order.
#[verifier::external_body]
pub fn chars_to_string(cs: &Vec<char>) -> (r: String)
    ensures
        r@ == cs@,
{
    cs.iter().collect()
}

/// A character the name fields treat as blank padding: the Unicode
/// white-space characters, as `str::trim` strips them.
pub open spec fn is_space(c: char) -> bool {
    c == ' ' || c == '\t' || c == '\n' || c == '\r' || c == '\u{000B}' || c == '\u{000C}' || c
        == '\u{0085}' || c == '\u{00A0}' || c == '\u{1680}' || c == '\u{2000}' || c == '\u{2001}'
        || c == '\u{2002}' || c == '\u{2003}' || c == '\u{2004}' || c == '\u{2005}' || c
        == '\u{2006}' || c == '\u{2007}' || c == '\u{2008}' || c == '\u{2009}' || c == '\u{200A}'
        || c == '\u{2028}' || c == '\u{2029}' || c == '\u{202F}' || c == '\u{205F}' || c
        == '\u{3000}'
}

/// The sequence without its leading blanks.
pub open spec fn trim_front(s: Seq<char>) -> Seq<char>
    decreases s.len(),
{
    if s.len() == 0 {
        s
    } else if is_space(s[0]) {
        trim_front(s.drop_first())
    } else {
        s
    }
}

/// The sequence without its trailing blanks.
pub open spec fn trim_back(s: Seq<char>) -> Seq<char>
    decreases s.len(),
{
    if s.len() == 0 {
        s
    } else if is_space(s.last()) {
        trim_back(s.drop_last())
    } else {
        s
    }
}

/// The sequence without leading and trailing blanks.
pub open spec fn trimmed(s: Seq<char>) -> Seq<char> {
    trim_back(trim_front(s))
}

/// The ASCII lower-case letters mapped to their upper-case form; every other
/// character kept as it is.
pub open spec fn upper_char(c: char) -> char {
    match c {
        'a' => 'A',
        'b' => 'B',
        'c' => 'C',
        'd' => 'D',
        'e' => 'E',
        'f' => 'F',
        'g' => 'G',
        'h' => 'H',
        'i' => 'I',
        'j' => 'J',
        'k' => 'K',
        'l' => 'L',
        'm' => 'M',
        'n' => 'N',
        'o' => 'O',
        'p' => 'P',
        'q' => 'Q',
        'r' => 'R',
        's' => 'S',
        't' => 'T',
        'u' => 'U',
        'v' => 'V',
        'w' => 'W',
        'x' => 'X',
        'y' => 'Y',
        'z' => 'Z',
        _ => c,
    }
}

pub fn to_upper_char(c: char) -> (r: char)
    ensures
        r == upper_char(c),
{
    match c {
        'a' => 'A',
        'b' => 'B',
        'c' => 'C',
        'd' => 'D',
        'e' => 'E',
        'f' => 'F',
        'g' => 'G',
        'h' => 'H',
        'i' => 'I',
        'j' => 'J',
        'k' => 'K',
        'l' => 'L',
        'm' => 'M',
        'n' => 'N',
        'o' => 'O',
        'p' => 'P',
        'q' => 'Q',
        'r' => 'R',
        's' => 'S',
        't' => 'T',
        'u' => 'U',
        'v' => 'V',
        'w' => 'W',
        'x' => 'X',
        'y' => 'Y',
        'z' => 'Z',
        _ => c,
    }
}

fn is_space_exec(c: char) -> (r: bool)
    ensures
        r == is_space(c),
{
    c == ' ' || c == '\t' || c == '\n' || c == '\r' || c == '\u{000B}' || c == '\u{000C}' || c
        == '\u{0085}' || c == '\u{00A0}' || c == '\u{1680}' || c == '\u{2000}' || c == '\u{2001}'
        || c == '\u{2002}' || c == '\u{2003}' || c == '\u{2004}' || c == '\u{2005}' || c
        == '\u{2006}' || c == '\u{2007}' || c == '\u{2008}' || c == '\u{2009}' || c == '\u{200A}'
        || c == '\u{2028}' || c == '\u{2029}' || c == '\u{202F}' || c == '\u{205F}' || c
        == '\u{3000}'
}

/// Copy of the buffer without leading and trailing blanks.
pub fn trim_chars(v: &Vec<char>) -> (r: Vec<char>)
    ensures
        r@ == trimmed(v@),
{
    let ghost s = v@;
    proof {
        assert(s.subrange(0, s.len() as int) =~= s);
    }
    let mut lo: usize = 0;
    while lo < v.len() && is_space_exec(v[lo])
        invariant
            lo <= v.len(),
            v@ == s,
            trim_front(s) == trim_front(s.subrange(lo as int, s.len() as int)),
        decreases v.len() - lo,
    {
        proof {
            let t = s.subrange(lo as int, s.len() as int);
            assert(t.drop_first() =~= s.subrange(lo as int + 1, s.len() as int));
        }
        lo = lo + 1;
    }
    proof {
        let t = s.subrange(lo as int, s.len() as int);
        if lo < s.len() {
            assert(trim_front(t) == t);
        } else {
            assert(t =~= Seq::<char>::empty());
        }
    }
    // Now trim_front(s) == s.subrange(lo, len).
    let mut hi: usize = v.len();
    while hi > lo && is_space_exec(v[hi - 1])
        invariant
            lo <= hi <= v.len(),
            v@ == s,
            trim_front(s) == s.subrange(lo as int, s.len() as int),
            trimmed(s) == trim_back(s.subrange(lo as int, hi as int)),
        decreases hi,
    {
        proof {
            let t = s.subrange(lo as int, hi as int);
            assert(t.drop_last() =~= s.subrange(lo as int, hi as int - 1));
        }
        hi = hi - 1;
    }
    proof {
        let t = s.subrange(lo as int, hi as int);
        if hi > lo {
            assert(trim_back(t) == t);
        } else {
            assert(t =~= Seq::<char>::empty());
            assert(trim_back(t) =~= t);
        }
    }
    let mut r: Vec<char> = Vec::new();
    let mut i: usize = lo;
    while i < hi
        invariant
            lo <= i <= hi <= v.len(),
            v@ == s,
            r@ == s.subrange(lo as int, i as int),
        decreases hi - i,
    {
        r.push(v[i]);
        proof {
            assert(r@ =~= s.subrange(lo as int, i as int + 1));
        }
        i = i + 1;
    }
    proof {
        assert(r@ =~= trimmed(s));
    }
    r
}

/// What the name validator answers for a free-text field.
#[derive(Clone, Copy, Debug, PartialEq, Eq, Structural)]
pub enum NameValidation {
    Valid,
    TooShort,
    TooLong,
}

/// The verdict on a buffer: its trimmed length must lie within the fixed
/// bounds, ends included.
pub open spec fn validation_spec(s: Seq<char>) -> NameValidation {
    if trimmed(s).len() < MIN_NAME_LENGTH {
        NameValidation::TooShort
    } else if trimmed(s).len() > MAX_NAME_LENGTH {
        NameValidation::TooLong
    } else {
        NameValidation::Valid
    }
}

/// Checks a name buffer against the fixed length bounds, blanks at the ends
/// not counted.
pub fn validate_name(v: &Vec<char>) -> (r: NameValidation)
    ensures
        r == validation_spec(v@),
{
    let t = trim_chars(v);
    if t.len() < MIN_NAME_LENGTH {
        NameValidation::TooShort
    } else if t.len() > MAX_NAME_LENGTH {
        NameValidation::TooLong
    } else {
        NameValidation::Valid
    }
}

/// The sequence with its first character upper-cased.
pub open spec fn capitalized(s: Seq<char>) -> Seq<char> {
    if s.len() == 0 {
        s
    } else {
        seq![upper_char(s[0])] + s.drop_first()
    }
}

/// The form a name buffer takes the moment it is accepted: trimmed, then the
/// first character upper-cased.
pub open spec fn accepted_name(s: Seq<char>) -> Seq<char> {
    capitalized(trimmed(s))
}

/// Normalizes an accepted name: trims it and upper-cases the first character.
pub fn normalize_name(v: &Vec<char>) -> (r: Vec<char>)
    ensures
        r@ == accepted_name(v@),
{
    let mut t = trim_chars(v);
    if t.len() > 0 {
        let up = to_upper_char(t[0]);
        t.set(0, up);
        proof {
            assert(t@ =~= capitalized(trimmed(v@)));
        }
    }
    t
}

} // verus!
