//! Variant names in snake case, the form that action tags take.
use vstd::prelude::*;

use crate::number::chars_of;

verus! {

/// Whether `c` has the Unicode `Uppercase` property.
pub uninterp spec fn upper_case(c: char) -> bool;

/// Whether `c` has the Unicode `Lowercase` property.
pub uninterp spec fn lower_case(c: char) -> bool;

/// The first character of the Unicode lower-case mapping of `c`.
pub uninterp spec fn lower_first(c: char) -> char;

pub open spec fn is_ascii_char(c: char) -> bool {
    (c as u32) < 128
}

/// Whether `c` is upper case: for ASCII, exactly the capitals `A`-`Z`.
pub open spec fn upper_spec(c: char) -> bool {
    if is_ascii_char(c) {
        'A' <= c <= 'Z'
    } else {
        upper_case(c)
    }
}

/// Whether `c` is lower case: for ASCII, exactly the small letters `a`-`z`.
pub open spec fn lower_spec(c: char) -> bool {
    if is_ascii_char(c) {
        'a' <= c <= 'z'
    } else {
        lower_case(c)
    }
}

/// The first character of the lower-case form of `c`: for ASCII, the
/// small letter of a capital, and any other character itself.
pub open spec fn lowered_spec(c: char) -> char {
    if is_ascii_char(c) {
        if 'A' <= c <= 'Z' {
            ((c as u32 + 32) as u8) as char
        } else {
            c
        }
    } else {
        lower_first(c)
    }
}

/// Relies on `char::is_uppercase`: the Unicode `Uppercase` property, which
/// among ASCII characters exactly the capitals `A`-`Z` have.
#[verifier::external_body]
fn is_upper(c: char) -> (r: bool)
    ensures
        r == upper_spec(c),
        !is_ascii_char(c) ==> r == upper_case(c),
{
    c.is_uppercase()
}

/// Relies on `char::is_lowercase`: the Unicode `Lowercase` property, which
/// among ASCII characters exactly the small letters `a`-`z` have.
#[verifier::external_body]
fn is_lower(c: char) -> (r: bool)
    ensures
        r == lower_spec(c),
        !is_ascii_char(c) ==> r == lower_case(c),
{
    c.is_lowercase()
}

/// Relies on `char::to_lowercase`, which yields at least one character; an
/// ASCII capital maps to its small letter and any other ASCII character to
/// itself.
#[verifier::external_body]
fn first_lowercase(c: char) -> (r: char)
    ensures
        r == lowered_spec(c),
        !is_ascii_char(c) ==> r == lower_first(c),
{
    c.to_lowercase().next().unwrap_or(c)
}

/// Relies on `String::push`: appends one character.
#[verifier::external_body]
pub(crate) fn push_char(s: &mut String, c: char)
    ensures
        final(s)@ == old(s)@.push(c),
{
    s.push(c)
}

/// A character with its case: whether it is upper case, whether it is
/// lower case, and the first character of its lower-case form.
#[derive(Clone, Copy, PartialEq, Eq, Structural, Debug)]
pub struct CharClass {
    pub ch: char,
    pub upper: bool,
    pub lower: bool,
    pub lowered: char,
}

pub open spec fn class_of(c: char) -> CharClass {
    CharClass { ch: c, upper: upper_spec(c), lower: lower_spec(c), lowered: lowered_spec(c) }
}

/// What the character at `i` of `cs` becomes: an upper-case one turns into
/// its lower-case form, preceded by `_` when it is not the first character
/// and the next one is lower case; any other character stays.
pub open spec fn snake_piece(cs: Seq<CharClass>, i: int) -> Seq<char> {
    if cs[i].upper {
        if i > 0 && i + 1 < cs.len() && cs[i + 1].lower {
            seq!['_', cs[i].lowered]
        } else {
            seq![cs[i].lowered]
        }
    } else {
        seq![cs[i].ch]
    }
}

/// The pieces of the first `n` characters of `cs`, in order.
pub open spec fn snake_prefix(cs: Seq<CharClass>, n: int) -> Seq<char>
    decreases n,
{
    if n <= 0 {
        Seq::empty()
    } else {
        snake_prefix(cs, n - 1) + snake_piece(cs, n - 1)
    }
}

pub open spec fn snake_case(s: Seq<char>) -> Seq<char> {
    let cs = s.map_values(|c: char| class_of(c));
    snake_prefix(cs, cs.len() as int)
}

/// The snake case of the classified characters `cs`.
pub fn snake_case_from(cs: &Vec<CharClass>) -> (r: String)
    ensures
        r@ == snake_prefix(cs@, cs@.len() as int),
{
    let mut r = String::new();
    let mut i: usize = 0;
    while i < cs.len()
        invariant
            i <= cs@.len(),
            r@ == snake_prefix(cs@, i as int),
        decreases cs.len() - i,
    {
        let c = cs[i];
        if c.upper {
            if i > 0 && i + 1 < cs.len() && cs[i + 1].lower {
                push_char(&mut r, '_');
            }
            push_char(&mut r, c.lowered);
        } else {
            push_char(&mut r, c.ch);
        }
        i = i + 1;
        assert(r@ =~= snake_prefix(cs@, i as int));
    }
    r
}

/// `s` in snake case: `ColonyCountUpdate` becomes `colony_count_update`.
pub fn to_snake_case(s: &str) -> (r: String)
    ensures
        r@ == snake_case(s@),
{
    let chars = chars_of(s);
    let mut cs: Vec<CharClass> = Vec::new();
    let mut i: usize = 0;
    while i < chars.len()
        invariant
            chars@ == s@,
            i <= chars@.len(),
            cs@ == s@.take(i as int).map_values(|c: char| class_of(c)),
        decreases chars.len() - i,
    {
        let c = chars[i];
        let k = CharClass { ch: c, upper: is_upper(c), lower: is_lower(c), lowered: first_lowercase(c) };
        assert(k == class_of(s@[i as int]));
        cs.push(k);
        assert(s@.take(i + 1) =~= s@.take(i as int).push(s@[i as int]));
        i = i + 1;
        assert(cs@ =~= s@.take(i as int).map_values(|c: char| class_of(c)));
    }
    assert(s@.take(i as int) =~= s@);
    snake_case_from(&cs)
}

} // verus!
