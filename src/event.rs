//! Notifications in flight: one target person each.
use vstd::prelude::*;

use crate::diff::snapshot;
use crate::shift::{Shift, ShiftView, Timestamp};

verus! {

/// A notification for one person.
#[derive(Debug)]
pub enum Event {
    UserUpcoming { uid: i64, shift: Shift },
    UserTimeChanged { uid: i64, shift: Shift, old_start: Timestamp, old_end: Timestamp },
    UserCanceled { uid: i64, shift: Shift },
    /// Nothing produces this one yet: the upstream source does not report managers.
    ManagerUpcoming { uid: i64, shift: Shift },
    UserDaily { uid: i64, next: Vec<Shift> },
}

pub enum EventView {
    UserUpcoming { uid: i64, shift: ShiftView },
    UserTimeChanged { uid: i64, shift: ShiftView, old_start: Timestamp, old_end: Timestamp },
    UserCanceled { uid: i64, shift: ShiftView },
    ManagerUpcoming { uid: i64, shift: ShiftView },
    UserDaily { uid: i64, next: Seq<ShiftView> },
}

impl View for Event {
    type V = EventView;

    open spec fn view(&self) -> EventView {
        match self {
            Event::UserUpcoming { uid, shift } => EventView::UserUpcoming { uid: *uid, shift: shift@ },
            Event::UserTimeChanged { uid, shift, old_start, old_end } => EventView::UserTimeChanged {
                uid: *uid,
                shift: shift@,
                old_start: *old_start,
                old_end: *old_end,
            },
            Event::UserCanceled { uid, shift } => EventView::UserCanceled { uid: *uid, shift: shift@ },
            Event::ManagerUpcoming { uid, shift } => EventView::ManagerUpcoming {
                uid: *uid,
                shift: shift@,
            },
            Event::UserDaily { uid, next } => EventView::UserDaily {
                uid: *uid,
                next: snapshot(next@),
            },
        }
    }
}

impl EventView {
    /// The person the notification is for.
    pub open spec fn target(self) -> i64 {
        match self {
            EventView::UserUpcoming { uid, .. } => uid,
            EventView::UserTimeChanged { uid, .. } => uid,
            EventView::UserCanceled { uid, .. } => uid,
            EventView::ManagerUpcoming { uid, .. } => uid,
            EventView::UserDaily { uid, .. } => uid,
        }
    }
}

impl Event {
    /// The person the notification is for.
    pub fn target(&self) -> (r: i64)
        ensures
            r == self@.target(),
    {
        match self {
            Event::UserUpcoming { uid, .. } => *uid,
            Event::ManagerUpcoming { uid, .. } => *uid,
            Event::UserDaily { uid, .. } => *uid,
            Event::UserTimeChanged { uid, .. } => *uid,
            Event::UserCanceled { uid, .. } => *uid,
        }
    }
}

} // verus!
