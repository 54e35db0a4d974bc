//! Per-chat conversations that wait for one free-text answer.
use vstd::prelude::*;

use std::collections::HashMap;

use crate::number::{
    all_digits, chars_of, is_digit, is_numeral, numeral_value, parse_field,
    parse_segment, value_of, IntWidth,
};

verus! {

broadcast use vstd::std_specs::hash::group_hash_axioms;

/// The kind of answer a conversation waits for.
#[derive(Clone, Copy, PartialEq, Eq, Structural, Debug)]
pub enum InputKind {
    /// A decimal number such as `12.5`.
    Decimal,
    /// A signed 32-bit integer such as `+5` or `-3`.
    Integer,
}

/// Where a chat stands, and what the answer it waits for is about.
#[derive(Clone, Copy, PartialEq, Eq, Structural, Debug)]
pub enum DialogueState {
    Start,
    RecordMolt { tarantula_id: i64 },
    UpdateColonyCount { colony_id: i64 },
}

/// The decimal number `mantissa × 10^exponent`.
#[derive(Clone, Copy, PartialEq, Eq, Structural, Debug)]
pub struct Decimal {
    pub mantissa: i64,
    pub exponent: i64,
}

/// An answer read from text.
#[derive(Clone, Copy, PartialEq, Eq, Structural, Debug)]
pub enum InputValue {
    Decimal(Decimal),
    Integer(i32),
}

/// A conversation that waits for an answer.
#[derive(Clone, Copy, PartialEq, Eq, Structural, Debug)]
pub struct Pending {
    pub kind: InputKind,
    pub context: DialogueState,
}

/// `body[i]` is a decimal point with digits only around it.
pub open spec fn point_at(body: Seq<char>, i: int) -> bool {
    &&& 0 <= i < body.len()
    &&& body[i] == '.'
    &&& body.len() >= 2
    &&& all_digits(body.take(i))
    &&& all_digits(body.skip(i + 1))
}

/// An unsigned decimal: digits, or digits around one point with at least
/// one digit in all. Its digits without the point, and how many follow
/// the point.
pub open spec fn unsigned_decimal(body: Seq<char>) -> Option<(Seq<char>, nat)> {
    if is_numeral(body) {
        Some((body, 0))
    } else if exists|i: int| point_at(body, i) {
        let i = choose|i: int| point_at(body, i);
        Some((body.take(i) + body.skip(i + 1), (body.len() - i - 1) as nat))
    } else {
        None
    }
}

/// An optionally signed decimal without exponent whose digits, read as one
/// integer, fit in `i64`: that integer, and how many digits follow the
/// point.
pub open spec fn fixed_point(t: Seq<char>) -> Option<(i64, u64)> {
    let signed = t.len() > 0 && (t[0] == '-' || t[0] == '+');
    let body = if signed { t.drop_first() } else { t };
    match unsigned_decimal(body) {
        None => None,
        Some((ds, scale)) => {
            let v: int = if signed && t[0] == '-' { -value_of(ds) } else { value_of(ds) as int };
            if i64::MIN <= v <= i64::MAX {
                Some((v as i64, scale as u64))
            } else {
                None
            }
        },
    }
}

pub open spec fn is_exponent_mark(c: char) -> bool {
    c == 'e' || c == 'E'
}

/// `t[i]` is the first `e` or `E` of `t`.
pub open spec fn first_mark_at(t: Seq<char>, i: int) -> bool {
    &&& 0 <= i < t.len()
    &&& is_exponent_mark(t[i])
    &&& forall|j: int| 0 <= j < i ==> !is_exponent_mark(#[trigger] t[j])
}

/// A decimal number: a decimal without exponent (see `fixed_point`),
/// then optionally `e` or `E` and a signed decimal exponent. The value is
/// the digits as one integer times ten to the exponent less the digits
/// after the point. The digits, the written exponent and the resulting
/// exponent must each fit in `i64`; anything else, such as `inf` or `NaN`,
/// is refused.
pub open spec fn parse_decimal(t: Seq<char>) -> Option<Decimal> {
    let (m, e) = if exists|i: int| first_mark_at(t, i) {
        let i = choose|i: int| first_mark_at(t, i);
        (t.take(i), parse_field(IntWidth::I64, t.skip(i + 1)))
    } else {
        (t, Some(0int))
    };
    match (fixed_point(m), e) {
        (Some((v, f)), Some(e)) => if i64::MIN <= e - f <= i64::MAX {
            Some(Decimal { mantissa: v, exponent: (e - f) as i64 })
        } else {
            None
        },
        _ => None,
    }
}

/// The answer of kind `k` that `t` holds, if any.
pub open spec fn read_input(k: InputKind, t: Seq<char>) -> Option<InputValue> {
    match k {
        InputKind::Decimal => match parse_decimal(t) {
            Some(d) => Some(InputValue::Decimal(d)),
            None => None,
        },
        InputKind::Integer => match parse_field(IntWidth::I32, t) {
            Some(v) => Some(InputValue::Integer(v as i32)),
            None => None,
        },
    }
}

/// The prompt repeated after an answer of kind `k` that does not read.
pub open spec fn reprompt_spec(k: InputKind) -> Seq<char> {
    match k {
        InputKind::Decimal => "Please send me the size in centimeters (e.g., 12.5)"@,
        InputKind::Integer => "Please send me the count adjustment (e.g., +5 or -3)"@,
    }
}

/// What `resolve` reports, without the prompt text.
pub enum Resolution {
    NoConversation,
    NeedsRetry,
    Completed(DialogueState, InputValue),
}

/// One answer `t` from `chat` to the conversations `m`: the conversations
/// after it, and what it resolved to.
pub open spec fn resolve_step(m: Map<i64, Pending>, chat: i64, t: Seq<char>) -> (
    Map<i64, Pending>,
    Resolution,
) {
    if !m.contains_key(chat) {
        (m, Resolution::NoConversation)
    } else {
        match read_input(m[chat].kind, t) {
            Some(v) => (m.remove(chat), Resolution::Completed(m[chat].context, v)),
            None => (m, Resolution::NeedsRetry),
        }
    }
}

/// What an answer resolved to.
#[derive(Clone, PartialEq, Eq, Debug)]
pub enum ConversationOutcome {
    /// The chat waits for nothing; the text is an ordinary message.
    NoConversation,
    /// The text does not read as the awaited answer; the prompt to send.
    NeedsRetry(String),
    /// The awaited answer, with what it is about.
    Completed(DialogueState, InputValue),
}

impl ConversationOutcome {
    pub open spec fn resolution(&self) -> Resolution {
        match self {
            ConversationOutcome::NoConversation => Resolution::NoConversation,
            ConversationOutcome::NeedsRetry(_) => Resolution::NeedsRetry,
            ConversationOutcome::Completed(c, v) => Resolution::Completed(*c, *v),
        }
    }
}

fn reprompt(k: InputKind) -> (r: String)
    ensures
        r@ == reprompt_spec(k),
{
    match k {
        InputKind::Decimal => String::from_str("Please send me the size in centimeters (e.g., 12.5)"),
        InputKind::Integer => String::from_str("Please send me the count adjustment (e.g., +5 or -3)"),
    }
}

/// Reads `t` as a decimal number.
fn read_fixed(cs: &Vec<char>) -> (r: Option<(i64, u64)>)
    ensures
        r == fixed_point(cs@),
{
    let n = cs.len();
    let mut i: usize = 0;
    let mut neg = false;
    if n > 0 && (cs[0] == '-' || cs[0] == '+') {
        neg = cs[0] == '-';
        i = 1;
    }
    let ds = i;
    let ghost body = cs@.skip(ds as int);
    assert(ds == 1 ==> body =~= cs@.drop_first());
    assert(ds == 0 ==> body =~= cs@);
    // the leading digits
    while i < n && '0' <= cs[i] && cs[i] <= '9'
        invariant
            ds <= i <= n == cs@.len(),
            all_digits(cs@.subrange(ds as int, i as int)),
        decreases n - i,
    {
        assert(cs@.subrange(ds as int, i + 1) =~= cs@.subrange(ds as int, i as int).push(cs@[i as int]));
        i = i + 1;
    }
    let p = i;
    let mut digits: Vec<char> = Vec::new();
    let mut scale: u64 = 0;
    if p == n {
        if p == ds {
            assert(body.len() == 0);
            assert(forall|q: int| !point_at(body, q));
            return None;
        }
        assert(cs@.subrange(ds as int, p as int) =~= body);
        let mut q = ds;
        while q < p
            invariant
                ds <= q <= p <= cs@.len(),
                digits@ == cs@.subrange(ds as int, q as int),
            decreases p - q,
        {
            digits.push(cs[q]);
            q = q + 1;
            assert(digits@ =~= cs@.subrange(ds as int, q as int));
        }
        assert(is_numeral(body));
    } else {
        if cs[p] != '.' {
            assert(!is_digit(body[p - ds]));
            assert(!is_numeral(body));
            assert forall|q: int| !point_at(body, q) by {
                if point_at(body, q) {
                    if q < p - ds {
                        assert(body[q] == cs@.subrange(ds as int, p as int)[q]);
                    } else if q > p - ds {
                        assert(body.take(q)[p - ds] == body[p - ds]);
                    }
                }
            }
            return None;
        }
        let mut j = p + 1;
        while j < n && '0' <= cs[j] && cs[j] <= '9'
            invariant
                p < j <= n == cs@.len(),
                all_digits(cs@.subrange(p + 1, j as int)),
            decreases n - j,
        {
            assert(cs@.subrange(p + 1, j + 1) =~= cs@.subrange(p + 1, j as int).push(cs@[j as int]));
            j = j + 1;
        }
        if j < n || n - ds < 2 {
            assert(body[p - ds] == '.');
            assert(!is_numeral(body));
            assert forall|q: int| !point_at(body, q) by {
                if point_at(body, q) {
                    if q < p - ds {
                        assert(body[q] == cs@.subrange(ds as int, p as int)[q]);
                    } else if q > p - ds {
                        assert(body.take(q)[p - ds] == body[p - ds]);
                    } else if j < n {
                        assert(body.skip(q + 1)[j - p - 1] == cs@[j as int]);
                    }
                }
            }
            return None;
        }
        assert(cs@.subrange(ds as int, p as int) =~= body.take(p - ds));
        assert(cs@.subrange(p + 1, n as int) =~= body.skip(p - ds + 1));
        assert(point_at(body, p - ds));
        assert(body[p - ds] == '.');
        assert(!is_numeral(body));
        assert forall|q: int| point_at(body, q) implies q == p - ds by {
            if q < p - ds {
                assert(body.take(p - ds)[q] == body[q]);
            } else if q > p - ds {
                assert(body.take(q)[p - ds] == body[p - ds]);
            }
        }
        let mut q = ds;
        while q < p
            invariant
                ds <= q <= p < cs@.len(),
                digits@ == cs@.subrange(ds as int, q as int),
            decreases p - q,
        {
            digits.push(cs[q]);
            q = q + 1;
            assert(digits@ =~= cs@.subrange(ds as int, q as int));
        }
        let mut q = p + 1;
        while q < n
            invariant
                p < q <= n == cs@.len(),
                digits@ == cs@.subrange(ds as int, p as int) + cs@.subrange(p + 1, q as int),
            decreases n - q,
        {
            digits.push(cs[q]);
            q = q + 1;
            assert(digits@ =~= cs@.subrange(ds as int, p as int) + cs@.subrange(p + 1, q as int));
        }
        scale = (n - p - 1) as u64;
    }
    let acc = numeral_value(&digits);
    if neg {
        if acc <= 9223372036854775808 {
            Some(((0i128 - acc as i128) as i64, scale))
        } else {
            None
        }
    } else {
        if acc <= 9223372036854775807 {
            Some((acc as i64, scale))
        } else {
            None
        }
    }
}

/// Reads `t` as a decimal number, with an optional exponent.
pub fn read_decimal(t: &str) -> (r: Option<Decimal>)
    ensures
        r == parse_decimal(t@),
{
    let cs = chars_of(t);
    let n = cs.len();
    let mut i: usize = 0;
    while i < n && cs[i] != 'e' && cs[i] != 'E'
        invariant
            cs@ == t@,
            n == cs@.len(),
            i <= n,
            forall|j: int| 0 <= j < i ==> !is_exponent_mark(#[trigger] cs@[j]),
        decreases n - i,
    {
        i = i + 1;
    }
    let mut m: Vec<char> = Vec::new();
    let mut q: usize = 0;
    while q < i
        invariant
            i <= n == cs@.len(),
            q <= i,
            m@ == cs@.take(q as int),
        decreases i - q,
    {
        m.push(cs[q]);
        q = q + 1;
        assert(m@ =~= cs@.take(q as int));
    }
    let e: i64 = if i < n {
        proof {
            assert(first_mark_at(t@, i as int));
            assert forall|k: int| first_mark_at(t@, k) implies k == i by {
                if k < i {
                    assert(!is_exponent_mark(cs@[k]));
                } else if k > i {
                    assert(!is_exponent_mark(t@[i as int]));
                }
            }
            assert(cs@.subrange(i + 1, n as int) =~= t@.skip(i + 1));
        }
        match parse_segment(&cs, i + 1, n, IntWidth::I64) {
            Some(e) => e,
            None => return None,
        }
    } else {
        assert(forall|k: int| !first_mark_at(t@, k));
        assert(cs@.take(i as int) =~= t@);
        0
    };
    let (v, f) = match read_fixed(&m) {
        Some(p) => p,
        None => return None,
    };
    let x: i128 = e as i128 - f as i128;
    if x < -9223372036854775808 || x > 9223372036854775807 {
        return None;
    }
    Some(Decimal { mantissa: v, exponent: x as i64 })
}

/// Reads `t` as an answer of kind `k`.
pub fn read_answer(k: InputKind, t: &str) -> (r: Option<InputValue>)
    ensures
        r == read_input(k, t@),
{
    match k {
        InputKind::Decimal => match read_decimal(t) {
            Some(d) => Some(InputValue::Decimal(d)),
            None => None,
        },
        InputKind::Integer => {
            let cs = chars_of(t);
            assert(cs@.subrange(0, cs@.len() as int) =~= t@);
            match parse_segment(&cs, 0, cs.len(), IntWidth::I32) {
                Some(v) => Some(InputValue::Integer(v as i32)),
                None => None,
            }
        },
    }
}

/// The conversations that wait for an answer, one per chat at most.
pub struct ConversationStore {
    pending: HashMap<i64, Pending>,
}

impl View for ConversationStore {
    type V = Map<i64, Pending>;

    closed spec fn view(&self) -> Map<i64, Pending> {
        self.pending@
    }
}

impl ConversationStore {
    /// A store in which no chat waits.
    pub fn new() -> (r: ConversationStore)
        ensures
            r@ == Map::<i64, Pending>::empty(),
    {
        ConversationStore { pending: HashMap::new() }
    }

    /// Starts waiting for an answer of kind `kind` in `chat_id`, about
    /// `context`; a conversation already waiting there is replaced.
    pub fn begin(&mut self, chat_id: i64, kind: InputKind, context: DialogueState)
        ensures
            final(self)@ == old(self)@.insert(chat_id, Pending { kind, context }),
    {
        self.pending.insert(chat_id, Pending { kind, context });
    }

    /// Stops waiting in `chat_id`, whether or not a conversation waits
    /// there.
    pub fn exit(&mut self, chat_id: i64)
        ensures
            final(self)@ == old(self)@.remove(chat_id),
    {
        self.pending.remove(&chat_id);
    }

    /// Where `chat_id` stands: the context of its conversation, or `Start`.
    pub fn state(&self, chat_id: i64) -> (r: DialogueState)
        ensures
            r == (if self@.contains_key(chat_id) {
                self@[chat_id].context
            } else {
                DialogueState::Start
            }),
    {
        match self.pending.get(&chat_id) {
            Some(p) => p.context,
            None => DialogueState::Start,
        }
    }

    /// Takes the text `text` from `chat_id`. With no conversation there,
    /// nothing changes. An awaited answer that reads ends the conversation
    /// and is returned with its context; one that does not read leaves the
    /// conversation as it was and returns the prompt to repeat.
    pub fn resolve(&mut self, chat_id: i64, text: &str) -> (r: ConversationOutcome)
        ensures
            (final(self)@, r.resolution()) == resolve_step(old(self)@, chat_id, text@),
            r matches ConversationOutcome::NeedsRetry(m) ==> m@ == reprompt_spec(
                old(self)@[chat_id].kind,
            ),
    {
        let p = match self.pending.get(&chat_id) {
            None => return ConversationOutcome::NoConversation,
            Some(p) => *p,
        };
        match read_answer(p.kind, text) {
            Some(v) => {
                self.pending.remove(&chat_id);
                ConversationOutcome::Completed(p.context, v)
            },
            None => ConversationOutcome::NeedsRetry(reprompt(p.kind)),
        }
    }
}

/// An answer that does not read leaves the conversation waiting as it
/// was, so that a later answer that reads still completes it, with the
/// same context, and ends it.
pub proof fn lemma_retry_keeps_state(m: Map<i64, Pending>, chat: i64, bad: Seq<char>, good: Seq<char>)
    requires
        m.contains_key(chat),
        read_input(m[chat].kind, bad) is None,
        read_input(m[chat].kind, good) is Some,
    ensures
        resolve_step(m, chat, bad) == (m, Resolution::NeedsRetry),
        resolve_step(resolve_step(m, chat, bad).0, chat, good) == (
            m.remove(chat),
            Resolution::Completed(m[chat].context, read_input(m[chat].kind, good)->0),
        ),
        !resolve_step(resolve_step(m, chat, bad).0, chat, good).0.contains_key(chat),
{
}

} // verus!
