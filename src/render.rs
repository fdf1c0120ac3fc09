//! The text of each notification.
use vstd::prelude::*;
use vstd::string::*;

use crate::cycle::nanos_between;
use crate::diff::snapshot;
use crate::event::{Event, EventView};
use crate::shift::{Assignee, AssigneeView, Shift, ShiftView, Timestamp};

verus! {

/// The instant as chrono shows a date and time in the named zone, or `None` where the zone
/// is unknown or the instant out of chrono's range.
pub uninterp spec fn zoned_time(t: Timestamp, zone: Seq<char>) -> Option<Seq<char>>;

/// The span from `from` to `to` as chrono shows a duration (ISO 8601), or `None` where an
/// instant is out of chrono's range.
pub uninterp spec fn span_text(from: Timestamp, to: Timestamp) -> Option<Seq<char>>;

/// Relies on chrono's `Display` for `DateTime` in a chrono_tz zone. The zone is read by
/// name with chrono_tz's `FromStr` and the instant built with chrono's
/// `DateTime::from_timestamp`; either fails on an unknown name or an instant out of range.
#[verifier::external_body]
fn show_time(t: Timestamp, zone: &str) -> (r: Option<String>)
    ensures
        opt_text(r) == zoned_time(t, zone@),
{
    let tz: chrono_tz::Tz = zone.parse().ok()?;
    let at = chrono::DateTime::from_timestamp(t.secs, t.nanos)?;
    Some(at.with_timezone(&tz).to_string())
}

/// The text of a span of `d` nanoseconds as chrono shows a `TimeDelta` (ISO 8601): a sign
/// where it is negative, `P`, then `0D` for an empty span, or else `T`, the whole seconds,
/// the fraction without its trailing zeros where there is one, and `S`.
pub open spec fn iso_span(d: int) -> Seq<char> {
    let m = if d < 0 { -d } else { d };
    let frac = m % 1_000_000_000;
    (if d < 0 { "-"@ } else { Seq::empty() }) + "P"@ + if m == 0 {
        "0D"@
    } else {
        "T"@ + decimal((m / 1_000_000_000) as nat) + (if frac == 0 {
            Seq::empty()
        } else {
            "."@ + strip_trailing_zeros(nine_digits(frac as nat))
        }) + "S"@
    }
}

/// The decimal digits of a number below a billion, padded with zeros to nine.
pub open spec fn nine_digits(f: nat) -> Seq<char> {
    Seq::new((9 - decimal(f).len()) as nat, |i: int| '0') + decimal(f)
}

pub open spec fn strip_trailing_zeros(s: Seq<char>) -> Seq<char>
    decreases s.len(),
{
    if s.len() > 0 && s.last() == '0' {
        strip_trailing_zeros(s.drop_last())
    } else {
        s
    }
}

/// Relies on chrono's `DateTime::signed_duration_since` and the `Display` of the
/// `TimeDelta` it returns; the instants are built with `DateTime::from_timestamp`.
#[verifier::external_body]
fn show_span(from: Timestamp, to: Timestamp) -> (r: Option<String>)
    ensures
        opt_text(r) == span_text(from, to),
        from.nanos < 1_000_000_000 && to.nanos < 1_000_000_000 ==> (r matches Some(t) ==> t@
            == iso_span(nanos_between(to, from))),
{
    let a = chrono::DateTime::from_timestamp(from.secs, from.nanos)?;
    let b = chrono::DateTime::from_timestamp(to.secs, to.nanos)?;
    Some(b.signed_duration_since(a).to_string())
}

/// The decimal digits of a number.
pub open spec fn decimal(n: nat) -> Seq<char>
    decreases n,
{
    if n < 10 {
        seq![digit(n)]
    } else {
        decimal(n / 10).push(digit(n % 10))
    }
}

pub open spec fn digit(d: nat) -> char {
    if d == 0 { '0' }
    else if d == 1 { '1' }
    else if d == 2 { '2' }
    else if d == 3 { '3' }
    else if d == 4 { '4' }
    else if d == 5 { '5' }
    else if d == 6 { '6' }
    else if d == 7 { '7' }
    else if d == 8 { '8' }
    else { '9' }
}

/// Appends the decimal digits of a number.
fn push_decimal(out: &mut String, n: usize)
    ensures
        final(out)@ == old(out)@ + decimal(n as nat),
    decreases n,
{
    let ghost o = out@;
    if n >= 10 {
        push_decimal(out, n / 10);
    }
    let d = n % 10;
    let text = if d == 0 { "0" }
    else if d == 1 { "1" }
    else if d == 2 { "2" }
    else if d == 3 { "3" }
    else if d == 4 { "4" }
    else if d == 5 { "5" }
    else if d == 6 { "6" }
    else if d == 7 { "7" }
    else if d == 8 { "8" }
    else { "9" };
    proof {
        reveal_strlit("0");
        reveal_strlit("1");
        reveal_strlit("2");
        reveal_strlit("3");
        reveal_strlit("4");
        reveal_strlit("5");
        reveal_strlit("6");
        reveal_strlit("7");
        reveal_strlit("8");
        reveal_strlit("9");
        assert(text@ =~= seq![digit(d as nat)]);
    }
    out.append(text);
    if n >= 10 {
        assert(out@ =~= o + decimal(n as nat));
    } else {
        assert(out@ =~= o + decimal(n as nat));
    }
}

pub open spec fn opt_text(o: Option<String>) -> Option<Seq<char>> {
    match o {
        Some(s) => Some(s@),
        None => None,
    }
}

/// A text, or a question mark where there is none.
pub open spec fn or_unknown(o: Option<Seq<char>>) -> Seq<char> {
    match o {
        Some(s) => s,
        None => "?"@,
    }
}

/// Whether the person is among the shift's assignees.
pub open spec fn assigned(cs: Seq<AssigneeView>, uid: i64) -> bool {
    exists|k: int| 0 <= k < cs.len() && cs[k].person == uid
}

/// Whether the person is assigned to each of the shifts.
pub open spec fn all_assigned(ss: Seq<ShiftView>, uid: i64) -> bool {
    forall|i: int| 0 <= i < ss.len() ==> assigned(#[trigger] ss[i].critters, uid)
}

/// The role of the first assignee that is the person.
pub open spec fn role_of(cs: Seq<AssigneeView>, uid: i64) -> Seq<char>
    decreases cs.len(),
{
    if cs.len() == 0 {
        Seq::empty()
    } else if cs[0].person == uid {
        cs[0].role
    } else {
        role_of(cs.drop_first(), uid)
    }
}

/// Whether the notification can be shown: its person is assigned to each shift it names.
pub open spec fn renderable(e: EventView) -> bool {
    match e {
        EventView::UserUpcoming { uid, shift } => assigned(shift.critters, uid),
        EventView::UserTimeChanged { uid, shift, .. } => assigned(shift.critters, uid),
        EventView::UserCanceled { uid, shift } => assigned(shift.critters, uid),
        EventView::ManagerUpcoming { .. } => true,
        EventView::UserDaily { uid, next } => all_assigned(next, uid),
    }
}

pub open spec fn start_line(s: ShiftView, zone: Seq<char>, now: Timestamp) -> Seq<char> {
    "Starts: "@ + or_unknown(zoned_time(s.start, zone)) + " (in "@ + or_unknown(
        span_text(now, s.start),
    ) + ")\n"@
}

pub open spec fn end_line(s: ShiftView, zone: Seq<char>) -> Seq<char> {
    "Ends: "@ + or_unknown(zoned_time(s.end, zone)) + " ("@ + or_unknown(span_text(s.start, s.end))
        + " total)\n"@
}

pub open spec fn ppe_line(s: ShiftView) -> Seq<char> {
    if s.ppe {
        "**PPE is required**\n"@
    } else {
        Seq::empty()
    }
}

pub open spec fn location_line(s: ShiftView) -> Seq<char> {
    "Location: "@ + s.location + "\n"@
}

pub open spec fn critter_line(c: AssigneeView) -> Seq<char> {
    "- "@ + c.name + (if c.staff { " (Staff)"@ } else { Seq::empty() }) + " as "@ + c.role + "\n"@
}

pub open spec fn critter_lines(cs: Seq<AssigneeView>) -> Seq<char>
    decreases cs.len(),
{
    if cs.len() == 0 {
        Seq::empty()
    } else {
        critter_lines(cs.drop_last()) + critter_line(cs.last())
    }
}

pub open spec fn daily_times(s: ShiftView, now: Timestamp) -> Seq<char> {
    or_unknown(zoned_time(s.start, "UTC"@)) + " (in "@ + or_unknown(span_text(now, s.start))
        + ") -> "@ + or_unknown(zoned_time(s.end, "UTC"@)) + " ("@ + or_unknown(
        span_text(s.start, s.end),
    ) + " total)"@
}

pub open spec fn daily_line(s: ShiftView, uid: i64, now: Timestamp) -> Seq<char> {
    "- **"@ + s.title + " ("@ + s.category + ") as "@ + role_of(s.critters, uid) + "** @ "@
        + s.location + ": "@ + daily_times(s, now) + (if s.ppe {
        " **[PPE]**"@
    } else {
        Seq::empty()
    }) + "\n"@
}

pub open spec fn daily_lines(ss: Seq<ShiftView>, uid: i64, now: Timestamp) -> Seq<char>
    decreases ss.len(),
{
    if ss.len() == 0 {
        Seq::empty()
    } else {
        daily_lines(ss.drop_last(), uid, now) + daily_line(ss.last(), uid, now)
    }
}

pub open spec fn heading(label: Seq<char>, shift: ShiftView, uid: i64) -> Seq<char> {
    label + shift.title + " ("@ + shift.category + ") as "@ + role_of(shift.critters, uid) + "\n"@
}

pub open spec fn schedule(shift: ShiftView, now: Timestamp) -> Seq<char> {
    location_line(shift) + start_line(shift, shift.tz, now) + end_line(shift, shift.tz)
        + ppe_line(shift)
}

pub open spec fn manager_head(shift: ShiftView) -> Seq<char> {
    "**Upcoming shift:** "@ + shift.title + " ("@ + shift.category + ")\n"@
}

pub open spec fn headcount_line(shift: ShiftView) -> Seq<char> {
    "Assigned critters: ("@ + decimal(shift.critters.len()) + "/"@ + decimal(shift.req as nat)
        + ")\n"@
}

pub open spec fn changed_start_line(shift: ShiftView, old_start: Timestamp, now: Timestamp) -> Seq<
    char,
> {
    "Now Starts: **"@ + or_unknown(zoned_time(shift.start, "UTC"@)) + " (in "@ + or_unknown(
        span_text(now, shift.start),
    ) + ")**, originally "@ + or_unknown(zoned_time(old_start, "UTC"@)) + "\n"@
}

pub open spec fn changed_end_line(shift: ShiftView, old_end: Timestamp) -> Seq<char> {
    "Ends: **"@ + or_unknown(zoned_time(shift.end, "UTC"@)) + " ("@ + or_unknown(
        span_text(shift.start, shift.end),
    ) + " total)**, originally "@ + or_unknown(zoned_time(old_end, "UTC"@)) + "\n"@
}

pub open spec fn canceled_note() -> Seq<char> {
    "You no longer need to show up.\n\nIf you believe this was a mistake please contact the responsible shift manager.\n"@
}

/// The text of a notification, given the instant it is shown at.
pub open spec fn rendered(e: EventView, now: Timestamp) -> Seq<char> {
    match e {
        EventView::UserUpcoming { uid, shift } => heading("**Upcoming shift:** "@, shift, uid)
            + schedule(shift, now),
        EventView::ManagerUpcoming { shift, .. } => manager_head(shift) + schedule(shift, now)
            + headcount_line(shift) + critter_lines(shift.critters),
        EventView::UserDaily { uid, next } => "Your shifts today: \n"@ + daily_lines(next, uid, now),
        EventView::UserTimeChanged { uid, shift, old_start, old_end } => heading(
            "**Starttime of shift changed:** "@,
            shift,
            uid,
        ) + changed_start_line(shift, old_start, now) + changed_end_line(shift, old_end),
        EventView::UserCanceled { uid, shift } => heading("**Shift canceled:** "@, shift, uid)
            + canceled_note(),
    }
}

/// Appends a text, or a question mark where there is none.
fn push_known(out: &mut String, o: Option<String>)
    ensures
        final(out)@ == old(out)@ + or_unknown(opt_text(o)),
{
    match o {
        Some(t) => out.append(t.as_str()),
        None => out.append("?"),
    }
}

/// The role of the first assignee that is the person.
fn role_in(cs: &Vec<Assignee>, uid: i64) -> (r: &String)
    requires
        assigned(cs@.map_values(|c: Assignee| c@), uid),
    ensures
        r@ == role_of(cs@.map_values(|c: Assignee| c@), uid),
{
    let ghost all = cs@.map_values(|c: Assignee| c@);
    let mut i: usize = 0;
    assert(all.subrange(0, all.len() as int) =~= all);
    while i < cs.len()
        invariant
            all == cs@.map_values(|c: Assignee| c@),
            i <= cs@.len(),
            role_of(all, uid) == role_of(all.subrange(i as int, all.len() as int), uid),
            assigned(all.subrange(i as int, all.len() as int), uid),
        decreases cs@.len() - i,
    {
        let ghost rest = all.subrange(i as int, all.len() as int);
        assert(rest[0] == all[i as int]);
        if cs[i].person == uid {
            return &cs[i].role;
        }
        assert(rest.drop_first() =~= all.subrange(i as int + 1, all.len() as int));
        proof {
            let k = choose|k: int| 0 <= k < rest.len() && rest[k].person == uid;
            assert(rest.drop_first()[k - 1].person == uid);
        }
        i = i + 1;
    }
    proof {
        let rest = all.subrange(i as int, all.len() as int);
        let k = choose|k: int| 0 <= k < rest.len() && rest[k].person == uid;
    }
    &cs[0].role
}

fn push_heading(out: &mut String, label: &str, shift: &Shift, uid: i64)
    requires
        assigned(shift@.critters, uid),
    ensures
        final(out)@ == old(out)@ + heading(label@, shift@, uid),
{
    let ghost o = out@;
    out.append(label);
    out.append(shift.title.as_str());
    out.append(" (");
    out.append(shift.category.as_str());
    out.append(") as ");
    out.append(role_in(&shift.critters, uid).as_str());
    out.append("\n");
    assert(out@ =~= o + heading(label@, shift@, uid));
}

fn push_start_line(out: &mut String, shift: &Shift, now: Timestamp)
    ensures
        final(out)@ == old(out)@ + start_line(shift@, shift@.tz, now),
{
    let ghost o = out@;
    out.append("Starts: ");
    push_known(out, show_time(shift.start, shift.tz.as_str()));
    out.append(" (in ");
    push_known(out, show_span(now, shift.start));
    out.append(")\n");
    assert(out@ =~= o + start_line(shift@, shift@.tz, now));
}

fn push_end_line(out: &mut String, shift: &Shift)
    ensures
        final(out)@ == old(out)@ + end_line(shift@, shift@.tz),
{
    let ghost o = out@;
    out.append("Ends: ");
    push_known(out, show_time(shift.end, shift.tz.as_str()));
    out.append(" (");
    push_known(out, show_span(shift.start, shift.end));
    out.append(" total)\n");
    assert(out@ =~= o + end_line(shift@, shift@.tz));
}

fn push_schedule(out: &mut String, shift: &Shift, now: Timestamp)
    ensures
        final(out)@ == old(out)@ + schedule(shift@, now),
{
    let ghost o = out@;
    out.append("Location: ");
    out.append(shift.location.as_str());
    out.append("\n");
    let ghost l = out@;
    assert(l =~= o + location_line(shift@));
    push_start_line(out, shift, now);
    push_end_line(out, shift);
    let ghost m = out@;
    if shift.ppe {
        out.append("**PPE is required**\n");
    }
    assert(out@ =~= m + ppe_line(shift@));
    assert(out@ =~= o + schedule(shift@, now));
}

fn push_critters(out: &mut String, cs: &Vec<Assignee>)
    ensures
        final(out)@ == old(out)@ + critter_lines(cs@.map_values(|c: Assignee| c@)),
{
    let ghost o = out@;
    let ghost all = cs@.map_values(|c: Assignee| c@);
    let mut i: usize = 0;
    assert(all.subrange(0, 0) =~= Seq::<AssigneeView>::empty());
    assert(o + Seq::<char>::empty() =~= o);
    while i < cs.len()
        invariant
            all == cs@.map_values(|c: Assignee| c@),
            i <= cs@.len(),
            out@ == o + critter_lines(all.subrange(0, i as int)),
        decreases cs@.len() - i,
    {
        let ghost before = out@;
        let c = &cs[i];
        out.append("- ");
        out.append(c.name.as_str());
        if c.staff {
            out.append(" (Staff)");
        }
        out.append(" as ");
        out.append(c.role.as_str());
        out.append("\n");
        assert(all.subrange(0, i as int + 1).drop_last() =~= all.subrange(0, i as int));
        assert(all.subrange(0, i as int + 1).last() == c@);
        assert(out@ =~= before + critter_line(c@));
        i = i + 1;
    }
    assert(all.subrange(0, all.len() as int) =~= all);
}

fn push_daily_times(out: &mut String, s: &Shift, now: Timestamp)
    ensures
        final(out)@ == old(out)@ + daily_times(s@, now),
{
    let ghost o = out@;
    push_known(out, show_time(s.start, "UTC"));
    out.append(" (in ");
    push_known(out, show_span(now, s.start));
    out.append(") -> ");
    push_known(out, show_time(s.end, "UTC"));
    out.append(" (");
    push_known(out, show_span(s.start, s.end));
    out.append(" total)");
    assert(out@ =~= o + daily_times(s@, now));
}

fn push_daily_line(out: &mut String, s: &Shift, uid: i64, now: Timestamp)
    requires
        assigned(s@.critters, uid),
    ensures
        final(out)@ == old(out)@ + daily_line(s@, uid, now),
{
    let ghost o = out@;
    out.append("- **");
    out.append(s.title.as_str());
    out.append(" (");
    out.append(s.category.as_str());
    out.append(") as ");
    out.append(role_in(&s.critters, uid).as_str());
    out.append("** @ ");
    out.append(s.location.as_str());
    out.append(": ");
    push_daily_times(out, s, now);
    if s.ppe {
        out.append(" **[PPE]**");
    }
    out.append("\n");
    assert(out@ =~= o + daily_line(s@, uid, now));
}

fn push_daily(out: &mut String, next: &Vec<Shift>, uid: i64, now: Timestamp)
    requires
        all_assigned(snapshot(next@), uid),
    ensures
        final(out)@ == old(out)@ + daily_lines(snapshot(next@), uid, now),
{
    let ghost o = out@;
    let ghost all = snapshot(next@);
    let mut i: usize = 0;
    assert(all.subrange(0, 0) =~= Seq::<ShiftView>::empty());
    assert(o + Seq::<char>::empty() =~= o);
    while i < next.len()
        invariant
            all == snapshot(next@),
            i <= next@.len(),
            forall|i: int| 0 <= i < next@.len() ==> assigned(#[trigger] all[i].critters, uid),
            out@ == o + daily_lines(all.subrange(0, i as int), uid, now),
        decreases next@.len() - i,
    {
        let ghost before = out@;
        let s = &next[i];
        assert(all[i as int] == s@);
        push_daily_line(out, s, uid, now);
        assert(all.subrange(0, i as int + 1).drop_last() =~= all.subrange(0, i as int));
        assert(all.subrange(0, i as int + 1).last() == s@);
        i = i + 1;
    }
    assert(all.subrange(0, all.len() as int) =~= all);
}

fn push_manager_text(out: &mut String, shift: &Shift, now: Timestamp)
    ensures
        final(out)@ == old(out)@ + (manager_head(shift@) + schedule(shift@, now) + headcount_line(
            shift@,
        ) + critter_lines(shift@.critters)),
{
    let ghost o = out@;
    out.append("**Upcoming shift:** ");
    out.append(shift.title.as_str());
    out.append(" (");
    out.append(shift.category.as_str());
    out.append(")\n");
    let ghost after_head = out@;
    assert(after_head =~= o + manager_head(shift@));
    push_schedule(out, shift, now);
    let ghost after_schedule = out@;
    out.append("Assigned critters: (");
    push_decimal(out, shift.critters.len());
    out.append("/");
    push_decimal(out, shift.req);
    out.append(")\n");
    let ghost after_count = out@;
    assert(after_count =~= after_schedule + headcount_line(shift@));
    push_critters(out, &shift.critters);
    assert(out@ =~= o + (manager_head(shift@) + schedule(shift@, now) + headcount_line(shift@)
        + critter_lines(shift@.critters)));
}

fn push_changed_start_line(out: &mut String, shift: &Shift, old_start: Timestamp, now: Timestamp)
    ensures
        final(out)@ == old(out)@ + changed_start_line(shift@, old_start, now),
{
    let ghost o = out@;
    out.append("Now Starts: **");
    push_known(out, show_time(shift.start, "UTC"));
    out.append(" (in ");
    push_known(out, show_span(now, shift.start));
    out.append(")**, originally ");
    push_known(out, show_time(old_start, "UTC"));
    out.append("\n");
    assert(out@ =~= o + changed_start_line(shift@, old_start, now));
}

fn push_changed_end_line(out: &mut String, shift: &Shift, old_end: Timestamp)
    ensures
        final(out)@ == old(out)@ + changed_end_line(shift@, old_end),
{
    let ghost o = out@;
    out.append("Ends: **");
    push_known(out, show_time(shift.end, "UTC"));
    out.append(" (");
    push_known(out, show_span(shift.start, shift.end));
    out.append(" total)**, originally ");
    push_known(out, show_time(old_end, "UTC"));
    out.append("\n");
    assert(out@ =~= o + changed_end_line(shift@, old_end));
}

/// Whether the person is among the assignees.
fn is_assigned(cs: &Vec<Assignee>, uid: i64) -> (r: bool)
    ensures
        r == assigned(cs@.map_values(|c: Assignee| c@), uid),
{
    let ghost all = cs@.map_values(|c: Assignee| c@);
    let mut i: usize = 0;
    while i < cs.len()
        invariant
            all == cs@.map_values(|c: Assignee| c@),
            i <= cs@.len(),
            forall|k: int| 0 <= k < i ==> all[k].person != uid,
        decreases cs@.len() - i,
    {
        if cs[i].person == uid {
            assert(all[i as int].person == uid);
            return true;
        }
        i = i + 1;
    }
    false
}

/// Whether the person is assigned to each of the shifts.
fn assigned_to_each(next: &Vec<Shift>, uid: i64) -> (r: bool)
    ensures
        r == all_assigned(snapshot(next@), uid),
{
    let ghost all = snapshot(next@);
    let mut i: usize = 0;
    while i < next.len()
        invariant
            all == snapshot(next@),
            i <= next@.len(),
            forall|k: int| 0 <= k < i ==> assigned(#[trigger] all[k].critters, uid),
        decreases next@.len() - i,
    {
        assert(all[i as int] == next@[i as int]@);
        if !is_assigned(&next[i].critters, uid) {
            assert(!assigned(all[i as int].critters, uid));
            return false;
        }
        i = i + 1;
    }
    true
}

impl Event {
    /// Whether the notification can be rendered: its person is assigned to each shift it
    /// names.
    pub fn can_render(&self) -> (r: bool)
        ensures
            r == renderable(self@),
    {
        match self {
            Event::UserUpcoming { uid, shift } => is_assigned(&shift.critters, *uid),
            Event::UserTimeChanged { uid, shift, .. } => is_assigned(&shift.critters, *uid),
            Event::UserCanceled { uid, shift } => is_assigned(&shift.critters, *uid),
            Event::ManagerUpcoming { .. } => true,
            Event::UserDaily { uid, next } => assigned_to_each(next, *uid),
        }
    }

    /// The text of the notification, shown at the instant `now`.
    pub fn render(&self, now: Timestamp) -> (r: String)
        requires
            renderable(self@),
        ensures
            r@ == rendered(self@, now),
    {
        let mut out = String::new();
        match self {
            Event::UserUpcoming { uid, shift } => {
                push_heading(&mut out, "**Upcoming shift:** ", shift, *uid);
                push_schedule(&mut out, shift, now);
            },
            Event::ManagerUpcoming { shift, .. } => {
                push_manager_text(&mut out, shift, now);
            },
            Event::UserDaily { uid, next } => {
                out.append("Your shifts today: \n");
                push_daily(&mut out, next, *uid, now);
            },
            Event::UserTimeChanged { uid, shift, old_start, old_end } => {
                push_heading(&mut out, "**Starttime of shift changed:** ", shift, *uid);
                push_changed_start_line(&mut out, shift, *old_start, now);
                push_changed_end_line(&mut out, shift, *old_end);
            },
            Event::UserCanceled { uid, shift } => {
                push_heading(&mut out, "**Shift canceled:** ", shift, *uid);
                out.append(
                    "You no longer need to show up.\n\nIf you believe this was a mistake please contact the responsible shift manager.\n",
                );
            },
        }
        assert(out@ =~= rendered(self@, now));
        out
    }
}

} // verus!
