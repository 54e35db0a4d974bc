//! Base-10 integer text: rendering, parsing, and the facts that tie them.
use vstd::prelude::*;

verus! {

pub open spec fn is_digit(c: char) -> bool {
    '0' <= c && c <= '9'
}

pub open spec fn digit_value(c: char) -> nat {
    (c as u32 - '0' as u32) as nat
}

pub open spec fn digit_char(d: nat) -> char {
    if d == 0 { '0' }
    else if d == 1 { '1' }
    else if d == 2 { '2' }
    else if d == 3 { '3' }
    else if d == 4 { '4' }
    else if d == 5 { '5' }
    else if d == 6 { '6' }
    else if d == 7 { '7' }
    else if d == 8 { '8' }
    else { '9' }
}

/// The shortest base-10 digits of `n`.
pub open spec fn digits_of(n: nat) -> Seq<char>
    decreases n,
{
    if n < 10 {
        seq![digit_char(n)]
    } else {
        digits_of(n / 10).push(digit_char(n % 10))
    }
}

/// `i` in base 10, with a leading `-` when negative.
pub open spec fn render_int(i: int) -> Seq<char> {
    if i < 0 {
        seq!['-'] + digits_of((-i) as nat)
    } else {
        digits_of(i as nat)
    }
}

pub open spec fn all_digits(s: Seq<char>) -> bool {
    forall|i: int| 0 <= i < s.len() ==> is_digit(#[trigger] s[i])
}

/// A non-empty run of decimal digits.
pub open spec fn is_numeral(s: Seq<char>) -> bool {
    s.len() > 0 && all_digits(s)
}

/// The value of a run of decimal digits.
pub open spec fn value_of(s: Seq<char>) -> nat
    decreases s.len(),
{
    if s.len() == 0 {
        0
    } else {
        value_of(s.drop_last()) * 10 + digit_value(s.last())
    }
}

/// An optionally signed decimal integer: an optional `+` or `-`, then at
/// least one digit. Nothing else is accepted, and the value is unbounded.
pub open spec fn parse_int(s: Seq<char>) -> Option<int> {
    if s.len() > 0 && (s[0] == '-' || s[0] == '+') {
        if is_numeral(s.drop_first()) {
            if s[0] == '-' {
                Some(-value_of(s.drop_first()))
            } else {
                Some(value_of(s.drop_first()) as int)
            }
        } else {
            None
        }
    } else if is_numeral(s) {
        Some(value_of(s) as int)
    } else {
        None
    }
}

proof fn lemma_parse_int_none(s: Seq<char>)
    requires
        (s.len() > 0 && (s[0] == '-' || s[0] == '+')) ==> !is_numeral(s.drop_first()),
        !(s.len() > 0 && (s[0] == '-' || s[0] == '+')) ==> !is_numeral(s),
    ensures
        parse_int(s) is None,
{
}

/// The width of an integer field.
#[derive(Clone, Copy, PartialEq, Eq, Structural, Debug)]
pub enum IntWidth {
    I64,
    I32,
    /// An entity id: a non-negative `i64`.
    Id,
}

pub open spec fn fits(w: IntWidth, v: int) -> bool {
    match w {
        IntWidth::I64 => i64::MIN <= v <= i64::MAX,
        IntWidth::I32 => i32::MIN <= v <= i32::MAX,
        IntWidth::Id => 0 <= v <= i64::MAX,
    }
}

/// What a field of width `w` reads from `s`: a signed decimal integer in
/// the width's range.
pub open spec fn parse_field(w: IntWidth, s: Seq<char>) -> Option<int> {
    match parse_int(s) {
        Some(v) => if fits(w, v) { Some(v) } else { None },
        None => None,
    }
}

pub proof fn lemma_digit_char(d: nat)
    requires
        d < 10,
    ensures
        is_digit(digit_char(d)),
        digit_value(digit_char(d)) == d,
{
}

pub proof fn lemma_digits_of(n: nat)
    ensures
        is_numeral(digits_of(n)),
        value_of(digits_of(n)) == n,
        digits_of(n).len() >= 1,
    decreases n,
{
    if n < 10 {
        lemma_digit_char(n);
        assert(digits_of(n).drop_last() =~= Seq::<char>::empty());
        assert(value_of(digits_of(n)) == value_of(digits_of(n).drop_last()) * 10 + digit_value(
            digits_of(n).last(),
        ));
    } else {
        lemma_digits_of(n / 10);
        lemma_digit_char(n % 10);
        let s = digits_of(n);
        assert(s.drop_last() =~= digits_of(n / 10));
        assert(value_of(s) == value_of(s.drop_last()) * 10 + digit_value(s.last()));
        assert(n == (n / 10) * 10 + n % 10);
        assert forall|i: int| 0 <= i < s.len() implies is_digit(#[trigger] s[i]) by {
            if i < s.len() - 1 {
                assert(s[i] == digits_of(n / 10)[i]);
            }
        }
    }
}

/// Rendering then parsing gives the integer back.
pub proof fn lemma_parse_render(i: int)
    ensures
        parse_int(render_int(i)) == Some(i),
        render_int(i).len() >= 1,
        forall|j: int| 0 <= j < render_int(i).len() ==> {
            let c = #[trigger] render_int(i)[j];
            is_digit(c) || c == '-'
        },
{
    let s = render_int(i);
    if i < 0 {
        let n = (-i) as nat;
        lemma_digits_of(n);
        assert(s.drop_first() =~= digits_of(n));
        assert forall|j: int| 0 <= j < s.len() implies {
            let c = #[trigger] s[j];
            is_digit(c) || c == '-'
        } by {
            if j > 0 {
                assert(s[j] == digits_of(n)[j - 1]);
            }
        }
    } else {
        lemma_digits_of(i as nat);
        assert(is_digit(s[0]));
    }
}

pub fn digit_str(d: u64) -> (r: &'static str)
    requires
        d < 10,
    ensures
        r@ == seq![digit_char(d as nat)],
{
    proof {
        reveal_strlit("0");
        reveal_strlit("1");
        reveal_strlit("2");
        reveal_strlit("3");
        reveal_strlit("4");
        reveal_strlit("5");
        reveal_strlit("6");
        reveal_strlit("7");
        reveal_strlit("8");
        reveal_strlit("9");
    }
    let r = if d == 0 { "0" }
        else if d == 1 { "1" }
        else if d == 2 { "2" }
        else if d == 3 { "3" }
        else if d == 4 { "4" }
        else if d == 5 { "5" }
        else if d == 6 { "6" }
        else if d == 7 { "7" }
        else if d == 8 { "8" }
        else { "9" };
    assert(r@ =~= seq![digit_char(d as nat)]);
    r
}

/// Appends the digits of `n` to `out`.
pub fn push_digits(n: u64, out: &mut String)
    ensures
        final(out)@ == old(out)@ + digits_of(n as nat),
    decreases n,
{
    if n >= 10 {
        push_digits(n / 10, out);
    }
    let d = digit_str(n % 10);
    out.append(d);
    assert(digits_of(n as nat) =~= if n < 10 { seq![digit_char(n as nat)] } else {
        digits_of((n / 10) as nat).push(digit_char((n % 10) as nat))
    });
}

/// Appends `v` in base 10 to `out`.
pub fn push_int(v: i64, out: &mut String)
    ensures
        final(out)@ == old(out)@ + render_int(v as int),
{
    if v < 0 {
        out.append("-");
        proof { reveal_strlit("-"); }
        let mag: u64 = (0i128 - v as i128) as u64;
        push_digits(mag, out);
    } else {
        push_digits(v as u64, out);
    }
}

/// The characters of `s`, in order.
pub fn chars_of(s: &str) -> (r: Vec<char>)
    ensures
        r@ == s@,
{
    let n = s.unicode_len();
    let mut r: Vec<char> = Vec::new();
    let mut i: usize = 0;
    while i < n
        invariant
            n == s@.len(),
            i <= n,
            r@ == s@.subrange(0, i as int),
        decreases n - i,
    {
        r.push(s.get_char(i));
        i = i + 1;
    }
    assert(r@ =~= s@);
    r
}

/// Larger than the magnitude of every value of every width.
pub const VALUE_CAP: u128 = 9223372036854775809;

pub open spec fn capped(v: nat) -> nat {
    if v < VALUE_CAP as nat { v } else { VALUE_CAP as nat }
}

pub proof fn lemma_capped_step(v: nat, d: nat)
    requires
        d < 10,
    ensures
        capped(v * 10 + d) == capped(capped(v) * 10 + d),
{
    if v >= VALUE_CAP as nat {
        assert(v * 10 + d >= v) by (nonlinear_arith);
        assert(VALUE_CAP as nat * 10 + d >= VALUE_CAP as nat);
    }
}

/// Reads the characters `cs[start..end]` as a field of width `w`.
pub fn parse_segment(cs: &Vec<char>, start: usize, end: usize, w: IntWidth) -> (r: Option<i64>)
    requires
        start <= end <= cs@.len(),
    ensures
        match parse_field(w, cs@.subrange(start as int, end as int)) {
            Some(v) => r == Some(v as i64),
            None => r is None,
        },
{
    let ghost sub = cs@.subrange(start as int, end as int);
    let mut i = start;
    let mut neg = false;
    if i < end && (cs[i] == '-' || cs[i] == '+') {
        neg = cs[i] == '-';
        i = i + 1;
    }
    let ds = i;
    let ghost body = cs@.subrange(ds as int, end as int);
    assert(ds > start ==> body =~= sub.drop_first());
    assert(ds == start ==> body =~= sub);
    let ghost signed = sub.len() > 0 && (sub[0] == '-' || sub[0] == '+');
    if i == end {
        return None;
    }
    let mut acc: u128 = 0;
    while i < end
        invariant
            start <= ds <= i <= end <= cs@.len(),
            body == cs@.subrange(ds as int, end as int),
            sub == cs@.subrange(start as int, end as int),
            signed == (sub.len() > 0 && (sub[0] == '-' || sub[0] == '+')),
            signed <==> ds > start,
            signed ==> body == sub.drop_first(),
            !signed ==> body == sub,
            neg <==> signed && sub[0] == '-',
            all_digits(cs@.subrange(ds as int, i as int)),
            acc as nat == capped(value_of(cs@.subrange(ds as int, i as int))),
        decreases end - i,
    {
        let c = cs[i];
        if !('0' <= c && c <= '9') {
            assert(body[i - ds] == c);
            assert(!is_numeral(body));
            assert(signed ==> !is_numeral(sub.drop_first()));
            assert(!signed ==> !is_numeral(sub));
            proof { lemma_parse_int_none(sub); }
            return None;
        }
        let d = (c as u32 - '0' as u32) as u128;
        let ghost prev = cs@.subrange(ds as int, i as int);
        let ghost next = cs@.subrange(ds as int, i + 1);
        assert(next.drop_last() =~= prev);
        assert(next.last() == c);
        proof { lemma_capped_step(value_of(prev), d as nat); }
        let t = acc * 10 + d;
        acc = if t > VALUE_CAP { VALUE_CAP } else { t };
        i = i + 1;
    }
    assert(cs@.subrange(ds as int, end as int) =~= body);
    let (lo, hi): (u128, u128) = match w {
        IntWidth::I64 => (9223372036854775808, 9223372036854775807),
        IntWidth::I32 => (2147483648, 2147483647),
        IntWidth::Id => (0, 9223372036854775807),
    };
    if neg {
        if acc <= lo {
            Some((0i128 - acc as i128) as i64)
        } else {
            None
        }
    } else {
        if acc <= hi {
            Some(acc as i64)
        } else {
            None
        }
    }
}

/// The value of the digits `ds`, capped at `VALUE_CAP`.
pub fn numeral_value(ds: &Vec<char>) -> (r: u128)
    requires
        all_digits(ds@),
    ensures
        r as nat == capped(value_of(ds@)),
{
    let mut acc: u128 = 0;
    let mut i: usize = 0;
    assert(ds@.subrange(0, 0) =~= Seq::<char>::empty());
    while i < ds.len()
        invariant
            all_digits(ds@),
            i <= ds@.len(),
            acc as nat == capped(value_of(ds@.subrange(0, i as int))),
        decreases ds.len() - i,
    {
        let c = ds[i];
        assert(is_digit(ds@[i as int]));
        let d = (c as u32 - '0' as u32) as u128;
        let ghost prev = ds@.subrange(0, i as int);
        let ghost next = ds@.subrange(0, i + 1);
        assert(next.drop_last() =~= prev);
        proof { lemma_capped_step(value_of(prev), d as nat); }
        let t = acc * 10 + d;
        acc = if t > VALUE_CAP { VALUE_CAP } else { t };
        i = i + 1;
    }
    assert(ds@.subrange(0, i as int) =~= ds@);
    acc
}

pub open spec fn pow10(k: nat) -> nat
    decreases k,
{
    if k == 0 { 1 } else { 10 * pow10((k - 1) as nat) }
}

/// A number below `10^k` has at most `k` digits.
pub proof fn lemma_digits_len(n: nat, k: nat)
    requires
        k >= 1,
        n < pow10(k),
    ensures
        digits_of(n).len() <= k,
    decreases n,
{
    if n >= 10 {
        assert(k >= 2) by {
            if k == 1 {
                assert(pow10(1) == 10 * pow10(0));
            }
        }
        assert(pow10(k) == 10 * pow10((k - 1) as nat));
        assert(n / 10 < pow10((k - 1) as nat));
        lemma_digits_len(n / 10, (k - 1) as nat);
    }
}

/// A rendered `i64` takes at most 20 characters, 19 when not negative; a
/// rendered `i32` at most 11.
pub proof fn lemma_render_len(v: int)
    ensures
        i64::MIN <= v <= i64::MAX ==> render_int(v).len() <= 20,
        0 <= v <= i64::MAX ==> render_int(v).len() <= 19,
        i32::MIN <= v <= i32::MAX ==> render_int(v).len() <= 11,
{
    reveal_with_fuel(pow10, 20);
    assert(pow10(10) == 10000000000);
    assert(pow10(19) == 10000000000000000000);
    let m: nat = if v < 0 { (-v) as nat } else { v as nat };
    if i32::MIN <= v <= i32::MAX {
        lemma_digits_len(m, 10);
    }
    if i64::MIN <= v <= i64::MAX {
        lemma_digits_len(m, 19);
    }
}

} // verus!
