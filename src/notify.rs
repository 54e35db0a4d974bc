//! The periodic alerts: which items each category reports, the text sent,
//! and who it goes to on each tick.
use vstd::prelude::*;

use crate::models::{ColonyStatus, HealthAlert, TarantulaListItem};
use crate::number::{chars_of, digits_of, push_digits, push_int, render_int};

verus! {

/// `needle` occurs in `hay` at some position.
pub open spec fn occurs_in(needle: Seq<char>, hay: Seq<char>) -> bool {
    exists|i: int| 0 <= i && i + needle.len() <= hay.len() && #[trigger] hay.subrange(i, i + needle.len()) == needle
}

/// Whether `needle` occurs in `hay`.
pub fn contains_text(hay: &str, needle: &str) -> (r: bool)
    ensures
        r == occurs_in(needle@, hay@),
{
    let h = chars_of(hay);
    let n = chars_of(needle);
    if n.len() > h.len() {
        return false;
    }
    if n.len() == 0 {
        assert(hay@.subrange(0int, 0int + needle@.len()) =~= needle@);
        return true;
    }
    let last = h.len() - n.len();
    let mut i: usize = 0;
    while i <= last
        invariant
            h@ == hay@,
            n@ == needle@,
            last == h@.len() - n@.len(),
            n@.len() >= 1,
            last < h@.len(),
            h@.len() <= usize::MAX,
            i <= last + 1,
            forall|q: int| 0 <= q < i ==> #[trigger] h@.subrange(q, q + n@.len()) != n@,
        decreases last + 1 - i,
    {
        let mut j: usize = 0;
        let mut same = true;
        while same && j < n.len()
            invariant
                h@ == hay@,
                n@ == needle@,
                i <= last,
                last == h@.len() - n@.len(),
                n@.len() <= h@.len(),
                i + n@.len() <= h@.len(),
                h@.len() <= usize::MAX,
                j <= n@.len(),
                h@.subrange(i as int, i + j) == n@.subrange(0, j as int),
                !same ==> j < n@.len() && h@[i + j] != n@[j as int],
            decreases n.len() - j + if same { 1int } else { 0int },
        {
            if h[i + j] == n[j] {
                assert(h@.subrange(i as int, i + j + 1) =~= h@.subrange(i as int, i + j).push(h@[i + j]));
                assert(n@.subrange(0, j + 1) =~= n@.subrange(0, j as int).push(n@[j as int]));
                j = j + 1;
            } else {
                same = false;
            }
        }
        if j == n.len() {
            assert(n@.subrange(0, j as int) =~= n@);
            assert(h@.subrange(i as int, i + n@.len()) == n@);
            return true;
        }
        assert(h@.subrange(i as int, i + n@.len())[j as int] != n@[j as int]);
        i = i + 1;
    }
    assert forall|q: int| 0 <= q && q + needle@.len() <= hay@.len() implies #[trigger] hay@.subrange(q, q + needle@.len()) != needle@ by {
        assert(q < i);
    }
    false
}

/// How overdue a tarantula's feeding is, from its status text.
#[derive(Clone, Copy, PartialEq, Eq, Structural, Debug)]
pub enum FeedingClass {
    NeverFed,
    Overdue,
    Due,
}

pub open spec fn feeding_class(status: Seq<char>) -> FeedingClass {
    if occurs_in("Never fed"@, status) {
        FeedingClass::NeverFed
    } else if occurs_in("Overdue"@, status) {
        FeedingClass::Overdue
    } else {
        FeedingClass::Due
    }
}

/// Classifies a status text: one that mentions "Never fed", else one that
/// mentions "Overdue", else due.
pub fn classify_feeding(status: &str) -> (r: FeedingClass)
    ensures
        r == feeding_class(status@),
{
    if contains_text(status, "Never fed") {
        FeedingClass::NeverFed
    } else if contains_text(status, "Overdue") {
        FeedingClass::Overdue
    } else {
        FeedingClass::Due
    }
}

/// Whole days since the last feeding, zero when unknown.
pub open spec fn days_of(t: TarantulaListItem) -> int {
    match t.days_since_feeding {
        Some(d) => d as int,
        None => 0,
    }
}

/// The line that lists `t` under class `c`.
pub open spec fn feeding_line(c: FeedingClass, t: TarantulaListItem) -> Seq<char> {
    match c {
        FeedingClass::NeverFed => "• "@ + t.name@ + " ("@ + t.species_name@ + ")\n"@,
        FeedingClass::Overdue => "• "@ + t.name@ + " - "@ + t.current_status@ + " ("@ + render_int(
            days_of(t),
        ) + " days since last feeding)\n"@,
        FeedingClass::Due => "• "@ + t.name@ + " - "@ + render_int(days_of(t))
            + " days since last feeding\n"@,
    }
}

/// The lines of the items of class `c`, in order.
pub open spec fn class_lines(items: Seq<TarantulaListItem>, c: FeedingClass) -> Seq<char>
    decreases items.len(),
{
    if items.len() == 0 {
        Seq::empty()
    } else {
        let prev = class_lines(items.drop_last(), c);
        if feeding_class(items.last().current_status@) == c {
            prev + feeding_line(c, items.last())
        } else {
            prev
        }
    }
}

/// How many items are of class `c`.
pub open spec fn class_count(items: Seq<TarantulaListItem>, c: FeedingClass) -> nat
    decreases items.len(),
{
    if items.len() == 0 {
        0
    } else {
        class_count(items.drop_last(), c) + if feeding_class(items.last().current_status@) == c {
            1nat
        } else {
            0nat
        }
    }
}

/// The feeding alert: a header, then a section for each class that has
/// items: never fed, overdue, then due.
pub open spec fn feeding_text(items: Seq<TarantulaListItem>) -> Seq<char> {
    "🍽 *Feeding Due*\n\n"@ + (if class_count(items, FeedingClass::NeverFed) > 0 {
        "❗️ *Never Fed*\n"@ + class_lines(items, FeedingClass::NeverFed) + "\n"@
    } else {
        Seq::empty()
    }) + (if class_count(items, FeedingClass::Overdue) > 0 {
        "⚠️ *Overdue*\n"@ + class_lines(items, FeedingClass::Overdue) + "\n"@
    } else {
        Seq::empty()
    }) + (if class_count(items, FeedingClass::Due) > 0 {
        "📅 *Due for Feeding*\n"@ + class_lines(items, FeedingClass::Due)
    } else {
        Seq::empty()
    })
}

/// The lines of the items of class `c`, and how many there are.
fn feeding_section(items: &Vec<TarantulaListItem>, c: FeedingClass) -> (r: (String, usize))
    ensures
        r.0@ == class_lines(items@, c),
        r.1 as nat == class_count(items@, c),
{
    let mut s = String::new();
    let mut n: usize = 0;
    let mut i: usize = 0;
    while i < items.len()
        invariant
            i <= items@.len(),
            s@ == class_lines(items@.subrange(0, i as int), c),
            n as nat == class_count(items@.subrange(0, i as int), c),
            n <= i,
        decreases items.len() - i,
    {
        let t = &items[i];
        let ghost pre = items@.subrange(0, i as int);
        let ghost next = items@.subrange(0, i + 1);
        assert(next.drop_last() =~= pre);
        assert(next.last() == *t);
        if classify_feeding(t.current_status.as_str()) == c {
            s.append("• ");
            s.append(t.name.as_str());
            match c {
                FeedingClass::NeverFed => {
                    s.append(" (");
                    s.append(t.species_name.as_str());
                    s.append(")\n");
                },
                FeedingClass::Overdue => {
                    s.append(" - ");
                    s.append(t.current_status.as_str());
                    s.append(" (");
                    push_int(match t.days_since_feeding { Some(d) => d as i64, None => 0 }, &mut s);
                    s.append(" days since last feeding)\n");
                },
                FeedingClass::Due => {
                    s.append(" - ");
                    push_int(match t.days_since_feeding { Some(d) => d as i64, None => 0 }, &mut s);
                    s.append(" days since last feeding\n");
                },
            }
            n = n + 1;
        }
        i = i + 1;
        assert(s@ =~= class_lines(items@.subrange(0, i as int), c));
    }
    assert(items@.subrange(0, i as int) =~= items@);
    (s, n)
}

proof fn lemma_class_counts(items: Seq<TarantulaListItem>)
    ensures
        class_count(items, FeedingClass::NeverFed) + class_count(items, FeedingClass::Overdue)
            + class_count(items, FeedingClass::Due) == items.len(),
    decreases items.len(),
{
    if items.len() > 0 {
        lemma_class_counts(items.drop_last());
    }
}

/// The feeding alert for `items`; none when there are no items.
pub fn feeding_message(items: &Vec<TarantulaListItem>) -> (r: Option<String>)
    ensures
        items@.len() == 0 ==> r is None,
        items@.len() > 0 ==> r is Some && r->0@ == feeding_text(items@),
{
    if items.len() == 0 {
        return None;
    }
    let (never, n_never) = feeding_section(items, FeedingClass::NeverFed);
    let (overdue, n_overdue) = feeding_section(items, FeedingClass::Overdue);
    let (due, n_due) = feeding_section(items, FeedingClass::Due);
    let mut s = String::from_str("🍽 *Feeding Due*\n\n");
    let ghost s0 = s@;
    if n_never > 0 {
        s.append("❗️ *Never Fed*\n");
        s.append(never.as_str());
        s.append("\n");
    }
    let ghost s1 = s@;
    if n_overdue > 0 {
        s.append("⚠️ *Overdue*\n");
        s.append(overdue.as_str());
        s.append("\n");
    }
    let ghost s2 = s@;
    if n_due > 0 {
        s.append("📅 *Due for Feeding*\n");
        s.append(due.as_str());
    }
    assert(s@ =~= feeding_text(items@));
    Some(s)
}

/// A health alert of type "Critical".
pub open spec fn is_critical(a: HealthAlert) -> bool {
    a.alert_type@ == "Critical"@
}

pub open spec fn health_line(a: HealthAlert) -> Seq<char> {
    "• "@ + a.name@ + " - "@ + a.alert_type@ + "\n"@
}

/// The lines of the critical alerts, in order.
pub open spec fn critical_lines(alerts: Seq<HealthAlert>) -> Seq<char>
    decreases alerts.len(),
{
    if alerts.len() == 0 {
        Seq::empty()
    } else {
        critical_lines(alerts.drop_last()) + if is_critical(alerts.last()) {
            health_line(alerts.last())
        } else {
            Seq::empty()
        }
    }
}

pub open spec fn has_critical(alerts: Seq<HealthAlert>) -> bool {
    exists|i: int| 0 <= i < alerts.len() && is_critical(#[trigger] alerts[i])
}

/// The health alert for `alerts`: a header and a line for each critical
/// one; none when no alert is critical.
pub fn health_message(alerts: &Vec<HealthAlert>) -> (r: Option<String>)
    ensures
        !has_critical(alerts@) ==> r is None,
        has_critical(alerts@) ==> r is Some && r->0@ == "🚨 *Critical Health Alerts*\n\n"@
            + critical_lines(alerts@),
{
    let critical = String::from_str("Critical");
    let mut s = String::new();
    let mut any = false;
    let mut i: usize = 0;
    while i < alerts.len()
        invariant
            critical@ == "Critical"@,
            i <= alerts@.len(),
            s@ == critical_lines(alerts@.subrange(0, i as int)),
            any == has_critical(alerts@.subrange(0, i as int)),
        decreases alerts.len() - i,
    {
        let a = &alerts[i];
        let ghost pre = alerts@.subrange(0, i as int);
        let ghost next = alerts@.subrange(0, i + 1);
        assert(next.drop_last() =~= pre);
        assert(next.last() == *a);
        if a.alert_type == critical {
            s.append("• ");
            s.append(a.name.as_str());
            s.append(" - ");
            s.append(a.alert_type.as_str());
            s.append("\n");
            any = true;
            assert(is_critical(next[i as int]));
        } else {
            assert forall|q: int| 0 <= q < next.len() && is_critical(#[trigger] next[q]) implies 0 <= q < pre.len() && is_critical(pre[q]) by {
                assert(q < i);
                assert(next[q] == pre[q]);
            }
        }
        assert forall|q: int| 0 <= q < pre.len() && is_critical(#[trigger] pre[q]) implies is_critical(next[q]) by {
            assert(next[q] == pre[q]);
        }
        i = i + 1;
        assert(s@ =~= critical_lines(alerts@.subrange(0, i as int)));
    }
    assert(alerts@.subrange(0, i as int) =~= alerts@);
    if any {
        let mut m = String::from_str("🚨 *Critical Health Alerts*\n\n");
        m.append(s.as_str());
        Some(m)
    } else {
        None
    }
}

/// Weeks of stock left, in hundredths of a week, zero when unknown.
pub open spec fn hundredths_of(c: ColonyStatus) -> int {
    match c.weeks_remaining_hundredths {
        Some(h) => h as int,
        None => 0,
    }
}

/// A colony with less than two weeks of stock left.
pub open spec fn is_low(c: ColonyStatus) -> bool {
    hundredths_of(c) < 200
}

/// Hundredths rounded to the nearest tenth, halves away from zero.
pub open spec fn round_to_tenths(h: int) -> int {
    if h < 0 {
        -((-h + 5) / 10)
    } else {
        (h + 5) / 10
    }
}

/// A number of tenths written with one decimal: `-15` is `-1.5`.
pub open spec fn render_tenths(t: int) -> Seq<char> {
    let m: nat = if t < 0 { (-t) as nat } else { t as nat };
    (if t < 0 { seq!['-'] } else { Seq::empty() }) + digits_of(m / 10) + seq!['.'] + digits_of(
        m % 10,
    )
}

pub open spec fn colony_line(c: ColonyStatus) -> Seq<char> {
    "• "@ + c.colony_name@ + " - "@ + render_tenths(round_to_tenths(hundredths_of(c))) + " weeks remaining\n"@
}

/// The lines of the low colonies, in order.
pub open spec fn low_lines(cs: Seq<ColonyStatus>) -> Seq<char>
    decreases cs.len(),
{
    if cs.len() == 0 {
        Seq::empty()
    } else {
        low_lines(cs.drop_last()) + if is_low(cs.last()) {
            colony_line(cs.last())
        } else {
            Seq::empty()
        }
    }
}

pub open spec fn has_low(cs: Seq<ColonyStatus>) -> bool {
    exists|i: int| 0 <= i < cs.len() && is_low(#[trigger] cs[i])
}

fn push_tenths(t: i64, out: &mut String)
    ensures
        final(out)@ == old(out)@ + render_tenths(t as int),
{
    proof {
        reveal_strlit("-");
        reveal_strlit(".");
    }
    let m: u64 = if t < 0 {
        out.append("-");
        (0i128 - t as i128) as u64
    } else {
        t as u64
    };
    push_digits(m / 10, out);
    out.append(".");
    push_digits(m % 10, out);
    assert(final(out)@ =~= old(out)@ + render_tenths(t as int)) by {
        assert(out@ =~= old(out)@ + render_tenths(t as int));
    }
}

/// The stock alert for `colonies`: a header and a line for each colony
/// with less than two weeks left; none when no colony is low.
pub fn colony_message(colonies: &Vec<ColonyStatus>) -> (r: Option<String>)
    ensures
        !has_low(colonies@) ==> r is None,
        has_low(colonies@) ==> r is Some && r->0@ == "🦗 *Low Cricket Colony Alert*\n\n"@
            + low_lines(colonies@),
{
    let mut s = String::new();
    let mut any = false;
    let mut i: usize = 0;
    while i < colonies.len()
        invariant
            i <= colonies@.len(),
            s@ == low_lines(colonies@.subrange(0, i as int)),
            any == has_low(colonies@.subrange(0, i as int)),
        decreases colonies.len() - i,
    {
        let c = &colonies[i];
        let ghost pre = colonies@.subrange(0, i as int);
        let ghost next = colonies@.subrange(0, i + 1);
        assert(next.drop_last() =~= pre);
        assert(next.last() == *c);
        let h: i64 = match c.weeks_remaining_hundredths {
            Some(h) => h,
            None => 0,
        };
        if h < 200 {
            s.append("• ");
            s.append(c.colony_name.as_str());
            s.append(" - ");
            let m: u64 = if h < 0 { (0i128 - h as i128) as u64 } else { h as u64 };
            let r: i64 = ((m + 5) / 10) as i64;
            let t: i64 = if h < 0 { -r } else { r };
            assert(t as int == round_to_tenths(h as int));
            push_tenths(t, &mut s);
            s.append(" weeks remaining\n");
            any = true;
            assert(is_low(next[i as int]));
        } else {
            assert forall|q: int| 0 <= q < next.len() && is_low(#[trigger] next[q]) implies 0 <= q < pre.len() && is_low(pre[q]) by {
                assert(q < i);
                assert(next[q] == pre[q]);
            }
        }
        assert forall|q: int| 0 <= q < pre.len() && is_low(#[trigger] pre[q]) implies is_low(next[q]) by {
            assert(next[q] == pre[q]);
        }
        i = i + 1;
        assert(s@ =~= low_lines(colonies@.subrange(0, i as int)));
    }
    assert(colonies@.subrange(0, i as int) =~= colonies@);
    if any {
        let mut m = String::from_str("🦗 *Low Cricket Colony Alert*\n\n");
        m.append(s.as_str());
        Some(m)
    } else {
        None
    }
}

/// A class of periodic alert, each polled on its own interval.
#[derive(Clone, Copy, PartialEq, Eq, Structural, Debug)]
pub enum AlertCategory {
    Feeding,
    Health,
    Colony,
}

impl AlertCategory {
    /// Seconds between two ticks of this category: a day for feedings and
    /// colonies, an hour for health.
    pub fn interval_secs(&self) -> (r: u64)
        ensures
            r == match self {
                AlertCategory::Health => 3600u64,
                _ => 86400u64,
            },
    {
        match self {
            AlertCategory::Feeding => 86400,
            AlertCategory::Health => 3600,
            AlertCategory::Colony => 86400,
        }
    }
}

/// What the repository returned for one tick of a category.
pub enum AlertSet {
    Feeding(Vec<TarantulaListItem>),
    Health(Vec<HealthAlert>),
    Colony(Vec<ColonyStatus>),
}

impl AlertSet {
    pub open spec fn category(&self) -> AlertCategory {
        match self {
            AlertSet::Feeding(_) => AlertCategory::Feeding,
            AlertSet::Health(_) => AlertCategory::Health,
            AlertSet::Colony(_) => AlertCategory::Colony,
        }
    }
}

/// The text an alert set is reported with; none when it reports nothing.
pub open spec fn alert_text(a: AlertSet) -> Option<Seq<char>> {
    match a {
        AlertSet::Feeding(v) => if v@.len() == 0 {
            None
        } else {
            Some(feeding_text(v@))
        },
        AlertSet::Health(v) => if has_critical(v@) {
            Some("🚨 *Critical Health Alerts*\n\n"@ + critical_lines(v@))
        } else {
            None
        },
        AlertSet::Colony(v) => if has_low(v@) {
            Some("🦗 *Low Cricket Colony Alert*\n\n"@ + low_lines(v@))
        } else {
            None
        },
    }
}

/// The text that `a` is reported with, if it reports anything.
pub fn alert_message(a: &AlertSet) -> (r: Option<String>)
    ensures
        match alert_text(*a) {
            None => r is None,
            Some(t) => r is Some && r->0@ == t,
        },
{
    match a {
        AlertSet::Feeding(v) => feeding_message(v),
        AlertSet::Health(v) => health_message(v),
        AlertSet::Colony(v) => colony_message(v),
    }
}

/// One message to send.
pub struct Delivery {
    pub chat_id: i64,
    pub text: String,
}

/// The deliveries `r` send `text` to each of `recipients`, in order, or
/// are none when there is no text.
pub open spec fn delivers(r: Seq<Delivery>, recipients: Seq<i64>, text: Option<Seq<char>>) -> bool {
    match text {
        None => r.len() == 0,
        Some(t) => {
            &&& r.len() == recipients.len()
            &&& forall|i: int| 0 <= i < r.len() ==> (#[trigger] r[i]).chat_id == recipients[i]
                && r[i].text@ == t
        },
    }
}

/// The deliveries of one tick. The alert text is computed once from what
/// the repository returned, and goes to every recipient of the snapshot;
/// a failed query (`None`) or an alert set that reports nothing sends
/// nothing.
pub fn plan_tick(recipients: &Vec<i64>, fetched: &Option<AlertSet>) -> (r: Vec<Delivery>)
    ensures
        delivers(r@, recipients@, match fetched {
            None => None,
            Some(a) => alert_text(*a),
        }),
{
    let mut r: Vec<Delivery> = Vec::new();
    let text = match fetched {
        None => return r,
        Some(a) => match alert_message(a) {
            None => return r,
            Some(t) => t,
        },
    };
    let mut i: usize = 0;
    while i < recipients.len()
        invariant
            i <= recipients@.len(),
            r@.len() == i,
            forall|j: int| 0 <= j < i ==> (#[trigger] r@[j]).chat_id == recipients@[j] && r@[j].text@
                == text@,
        decreases recipients.len() - i,
    {
        r.push(Delivery { chat_id: recipients[i], text: text.clone() });
        i = i + 1;
    }
    r
}

/// The deliveries of a tick as they are sent: each is handed out once, in
/// order, and the next one follows whether the last one arrived or not.
pub struct DeliveryRun {
    deliveries: Vec<Delivery>,
    next: usize,
    failed: usize,
}

impl DeliveryRun {
    pub closed spec fn deliveries(&self) -> Seq<Delivery> {
        self.deliveries@
    }

    /// How many deliveries have been reported.
    pub closed spec fn done(&self) -> nat {
        self.next as nat
    }

    /// How many of those did not arrive.
    pub closed spec fn failed(&self) -> nat {
        self.failed as nat
    }

    pub closed spec fn wf(&self) -> bool {
        self.next <= self.deliveries@.len() && self.failed <= self.next
    }

    pub fn new(deliveries: Vec<Delivery>) -> (r: DeliveryRun)
        ensures
            r.wf(),
            r.deliveries() == deliveries@,
            r.done() == 0,
            r.failed() == 0,
    {
        DeliveryRun { deliveries, next: 0, failed: 0 }
    }

    /// The delivery to send now; none when all have been reported.
    pub fn current(&self) -> (r: Option<&Delivery>)
        requires
            self.wf(),
        ensures
            self.done() < self.deliveries().len() ==> r == Some(&self.deliveries()[self.done() as int]),
            self.done() >= self.deliveries().len() ==> r is None,
    {
        if self.next < self.deliveries.len() {
            Some(&self.deliveries[self.next])
        } else {
            None
        }
    }

    /// Records whether the current delivery arrived, and moves on to the
    /// next one either way.
    pub fn report(&mut self, delivered: bool)
        requires
            old(self).wf(),
            old(self).done() < old(self).deliveries().len(),
        ensures
            final(self).wf(),
            final(self).deliveries() == old(self).deliveries(),
            final(self).done() == old(self).done() + 1,
            final(self).failed() == old(self).failed() + if delivered { 0nat } else { 1nat },
    {
        let n = self.deliveries.len();
        assert(self.failed <= self.next < n);
        if !delivered {
            self.failed = self.failed + 1;
        }
        self.next = self.next + 1;
    }

    /// How many deliveries did not arrive so far.
    pub fn failures(&self) -> (r: usize)
        ensures
            r == self.failed(),
    {
        self.failed
    }
}

} // verus!
