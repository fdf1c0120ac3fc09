//! The decisions of one poll cycle: what to persist and whom to notify for each record.
use vstd::prelude::*;

use crate::diff::ShiftDiff;
use crate::event::{Event, EventView};
use crate::shift::{AssigneeView, Shift, ShiftView, Timestamp};

verus! {

/// How close to its start a shift gets its reminder.
pub const REMINDER_WINDOW_SECS: i64 = 900;

pub const NANOS_PER_SEC: i128 = 1_000_000_000;

/// The signed span from `b` to `a`, in nanoseconds.
pub open spec fn nanos_between(a: Timestamp, b: Timestamp) -> int {
    (a.secs - b.secs) * NANOS_PER_SEC + (a.nanos - b.nanos)
}

/// Whether `start` lies less than the reminder window away from `now`, in either direction.
pub open spec fn in_reminder_window(now: Timestamp, start: Timestamp) -> bool {
    let window = REMINDER_WINDOW_SECS * NANOS_PER_SEC;
    -window < nanos_between(now, start) < window
}

/// Whether `start` lies less than the reminder window away from `now`, in either direction.
pub fn is_in_reminder_window(now: Timestamp, start: Timestamp) -> (r: bool)
    ensures
        r == in_reminder_window(now, start),
{
    let d: i128 = (now.secs as i128 - start.secs as i128) * NANOS_PER_SEC + (now.nanos as i128
        - start.nanos as i128);
    let w: i128 = REMINDER_WINDOW_SECS as i128 * NANOS_PER_SEC;
    -w < d && d < w
}

/// A write to the shift store.
#[derive(Clone, Copy, Debug, PartialEq, Eq, Structural)]
pub enum StoreWrite {
    Insert,
    Update,
    Delete,
}

/// What one reconciled record asks of the cycle, in order: a store write, then the events,
/// then (where `reminder_due`) a look at the record's notification flag.
pub struct RecordPlan {
    pub write: Option<StoreWrite>,
    pub events: Vec<Event>,
    pub reminder_due: bool,
}

/// The store write that a change asks for.
pub open spec fn write_for(change: Option<ShiftDiff>) -> Option<StoreWrite> {
    match change {
        None => None,
        Some(ShiftDiff::Created) => Some(StoreWrite::Insert),
        Some(ShiftDiff::Updated) => Some(StoreWrite::Update),
        Some(ShiftDiff::TimeUpdated { .. }) => Some(StoreWrite::Update),
        Some(ShiftDiff::Deleted) => Some(StoreWrite::Delete),
    }
}

/// The notifications that a change sends to each assigned person, in the order of assignment.
pub open spec fn events_for(shift: ShiftView, change: Option<ShiftDiff>) -> Seq<EventView> {
    match change {
        Some(ShiftDiff::TimeUpdated { old_start, old_end }) => shift.critters.map_values(
            |c: AssigneeView|
                EventView::UserTimeChanged { uid: c.person, shift, old_start, old_end },
        ),
        Some(ShiftDiff::Deleted) => shift.critters.map_values(
            |c: AssigneeView| EventView::UserCanceled { uid: c.person, shift },
        ),
        _ => Seq::empty(),
    }
}

/// The reminders of a shift: one for each assigned person, in the order of assignment.
pub open spec fn upcoming_for(shift: ShiftView) -> Seq<EventView> {
    shift.critters.map_values(|c: AssigneeView| EventView::UserUpcoming { uid: c.person, shift })
}

pub open spec fn views_of(events: Seq<Event>) -> Seq<EventView> {
    events.map_values(|e: Event| e@)
}

/// Which kind of notification a fan-out makes.
enum Fan {
    Upcoming,
    TimeChanged(Timestamp, Timestamp),
    Canceled,
}

spec fn fan_event(kind: Fan, uid: i64, shift: ShiftView) -> EventView {
    match kind {
        Fan::Upcoming => EventView::UserUpcoming { uid, shift },
        Fan::TimeChanged(old_start, old_end) => EventView::UserTimeChanged {
            uid,
            shift,
            old_start,
            old_end,
        },
        Fan::Canceled => EventView::UserCanceled { uid, shift },
    }
}

/// One event of the given kind for each person assigned to the shift.
fn fan_out(shift: &Shift, kind: Fan) -> (r: Vec<Event>)
    ensures
        views_of(r@) == shift@.critters.map_values(|c: AssigneeView| fan_event(kind, c.person, shift@)),
{
    let mut r: Vec<Event> = Vec::new();
    let mut i: usize = 0;
    while i < shift.critters.len()
        invariant
            i <= shift.critters@.len(),
            r@.len() == i,
            forall|k: int|
                0 <= k < i ==> #[trigger] r@[k]@ == fan_event(kind, shift.critters@[k].person, shift@),
        decreases shift.critters@.len() - i,
    {
        let uid = shift.critters[i].person;
        let s = shift.clone();
        let e = match kind {
            Fan::Upcoming => Event::UserUpcoming { uid, shift: s },
            Fan::TimeChanged(old_start, old_end) => Event::UserTimeChanged { uid, shift: s, old_start, old_end },
            Fan::Canceled => Event::UserCanceled { uid, shift: s },
        };
        r.push(e);
        i = i + 1;
    }
    assert(views_of(r@) =~= shift@.critters.map_values(|c: AssigneeView| fan_event(kind, c.person, shift@)));
    r
}

/// Plans one reconciled record: created records are inserted; updated ones are updated;
/// those whose time moved are updated and every assigned person is told; deleted ones are
/// deleted, every assigned person is told, and they get no reminder. Every record that is
/// not deleted is due a reminder check where its start is within the window of `now`.
pub fn plan_record(shift: &Shift, change: Option<ShiftDiff>, now: Timestamp) -> (r: RecordPlan)
    ensures
        r.write == write_for(change),
        views_of(r.events@) == events_for(shift@, change),
        r.reminder_due == (change != Some(ShiftDiff::Deleted) && in_reminder_window(now, shift.start)),
{
    let events = match change {
        Some(ShiftDiff::TimeUpdated { old_start, old_end }) => fan_out(shift, Fan::TimeChanged(old_start, old_end)),
        Some(ShiftDiff::Deleted) => fan_out(shift, Fan::Canceled),
        _ => Vec::new(),
    };
    proof {
        match change {
            Some(ShiftDiff::TimeUpdated { .. }) => {
                assert(views_of(events@) =~= events_for(shift@, change));
            },
            Some(ShiftDiff::Deleted) => {
                assert(views_of(events@) =~= events_for(shift@, change));
            },
            _ => {
                assert(views_of(events@) =~= events_for(shift@, change));
            },
        }
    }
    let write = match change {
        None => None,
        Some(ShiftDiff::Created) => Some(StoreWrite::Insert),
        Some(ShiftDiff::Updated) => Some(StoreWrite::Update),
        Some(ShiftDiff::TimeUpdated { .. }) => Some(StoreWrite::Update),
        Some(ShiftDiff::Deleted) => Some(StoreWrite::Delete),
    };
    let reminder_due = match change {
        Some(ShiftDiff::Deleted) => false,
        _ => is_in_reminder_window(now, shift.start),
    };
    RecordPlan { write, events, reminder_due }
}

/// The outcome of a reminder check.
pub struct Reminder {
    pub events: Vec<Event>,
    /// Whether the shift's flag is to be set once the events are out.
    pub mark_notified: bool,
}

/// The reminder for a shift that is due one, given whether its flag says it was sent:
/// where it was not, one reminder for each assigned person and the flag to be set;
/// where it was, nothing.
pub fn remind(shift: &Shift, already_notified: bool) -> (r: Reminder)
    ensures
        r.mark_notified == !already_notified,
        views_of(r.events@) == (if already_notified { Seq::empty() } else { upcoming_for(shift@) }),
{
    if already_notified {
        let events: Vec<Event> = Vec::new();
        assert(views_of(events@) =~= Seq::<EventView>::empty());
        Reminder { events, mark_notified: false }
    } else {
        let events = fan_out(shift, Fan::Upcoming);
        assert(views_of(events@) =~= upcoming_for(shift@));
        Reminder { events, mark_notified: true }
    }
}

} // verus!
