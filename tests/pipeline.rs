use critter_bot::cycle::{is_in_reminder_window, plan_record, remind, StoreWrite};
use critter_bot::dates::date_changes;
use critter_bot::diff::{diff_shift, reconcile, ShiftDiff};
use critter_bot::directory::{Lookup, RecipientDirectory};
use critter_bot::dispatch::{delivery_outcome, next_backoff, DeliveryError};
use critter_bot::event::Event;
use critter_bot::shift::{flatten_assignments, Assignee, Member, RoleGroup, Shift, Timestamp};

fn at(secs: i64) -> Timestamp {
    Timestamp { secs, nanos: 0 }
}

fn person(name: &str, role: &str, id: i64, staff: bool) -> Assignee {
    Assignee { name: name.to_string(), role: role.to_string(), person: id, staff }
}

fn shift(id: i64, start: i64, end: i64) -> Shift {
    Shift {
        id,
        title: format!("Shift {id}"),
        category: "Security".to_string(),
        location: "Hall A".to_string(),
        start: at(start),
        end: at(end),
        tz: "Europe/Berlin".to_string(),
        critters: vec![person("Ann", "Guard", 10, false), person("Bob", "Lead", 11, true)],
        managers: vec![],
        req: 3,
        ppe: false,
    }
}

const T: i64 = 1_720_000_000;

fn change_of(r: &[(Shift, Option<ShiftDiff>)], id: i64) -> Option<ShiftDiff> {
    r.iter().find(|(s, _)| s.id == id).unwrap().1
}

#[test]
fn reconcile_covers_union_of_identities() {
    let old = vec![shift(1, T, T + 3600), shift(2, T, T + 3600)];
    let new = vec![shift(2, T, T + 3600), shift(3, T, T + 3600)];
    let r = reconcile(&old, &new);
    let mut ids: Vec<i64> = r.iter().map(|(s, _)| s.id).collect();
    ids.sort();
    assert_eq!(ids, vec![1, 2, 3]);
    assert_eq!(change_of(&r, 1), Some(ShiftDiff::Deleted));
    assert_eq!(change_of(&r, 2), None);
    assert_eq!(change_of(&r, 3), Some(ShiftDiff::Created));
}

#[test]
fn reconcile_disjoint_snapshots() {
    let old = vec![shift(1, T, T + 60)];
    let new = vec![shift(5, T, T + 60), shift(6, T, T + 60)];
    let r = reconcile(&old, &new);
    assert_eq!(r.len(), 3);
}

#[test]
fn reconcile_same_snapshot_is_unchanged() {
    let s = vec![shift(1, T, T + 60), shift(2, T + 60, T + 120)];
    let r = reconcile(&s, &s);
    assert_eq!(r.len(), 2);
    assert!(r.iter().all(|(_, c)| c.is_none()));
}

#[test]
fn reconcile_from_empty_creates_everything() {
    let new = vec![shift(1, T, T + 60), shift(2, T, T + 60)];
    let r = reconcile(&vec![], &new);
    assert_eq!(r.len(), 2);
    assert!(r.iter().all(|(_, c)| *c == Some(ShiftDiff::Created)));
}

#[test]
fn reconcile_to_empty_deletes_everything() {
    let old = vec![shift(1, T, T + 60), shift(2, T, T + 60)];
    let r = reconcile(&old, &vec![]);
    assert_eq!(r.len(), 2);
    assert!(r.iter().all(|(_, c)| *c == Some(ShiftDiff::Deleted)));
}

#[test]
fn reconcile_prefers_new_record() {
    let old = vec![shift(1, T, T + 60)];
    let mut changed = shift(1, T, T + 60);
    changed.location = "Hall B".to_string();
    let r = reconcile(&old, &vec![changed]);
    assert_eq!(r[0].0.location, "Hall B");
    assert_eq!(r[0].1, Some(ShiftDiff::Updated));
}

#[test]
fn reconcile_last_duplicate_counts() {
    let mut second = shift(1, T, T + 60);
    second.title = "Later".to_string();
    let new = vec![shift(1, T, T + 60), second];
    let r = reconcile(&vec![], &new);
    assert_eq!(r.len(), 1);
    assert_eq!(r[0].0.title, "Later");
}

#[test]
fn time_change_wins_over_update() {
    let old = shift(1, T, T + 3600);
    let mut new = shift(1, T + 1800, T + 3600);
    assert_eq!(
        diff_shift(Some(&old), Some(&new)),
        Some(ShiftDiff::TimeUpdated { old_start: at(T), old_end: at(T + 3600) })
    );
    new.title = "Other".to_string();
    assert_eq!(
        diff_shift(Some(&old), Some(&new)),
        Some(ShiftDiff::TimeUpdated { old_start: at(T), old_end: at(T + 3600) })
    );
}

#[test]
fn diff_of_missing_records() {
    let s = shift(1, T, T + 60);
    assert_eq!(diff_shift(None, Some(&s)), Some(ShiftDiff::Created));
    assert_eq!(diff_shift(Some(&s), None), Some(ShiftDiff::Deleted));
    assert_eq!(diff_shift(None, None), None);
    assert_eq!(diff_shift(Some(&s), Some(&s.clone())), None);
}

#[test]
fn moved_start_updates_and_notifies_everyone() {
    let old = vec![shift(1, T, T + 3600)];
    let new = vec![shift(1, T + 1800, T + 3600)];
    let r = reconcile(&old, &new);
    assert_eq!(r.len(), 1);
    let plan = plan_record(&r[0].0, r[0].1, at(T - 7200));
    assert_eq!(plan.write, Some(StoreWrite::Update));
    assert_eq!(plan.events.len(), 2);
    let mut targets = vec![];
    for e in &plan.events {
        match e {
            Event::UserTimeChanged { uid, old_start, old_end, shift } => {
                assert_eq!(*old_start, at(T));
                assert_eq!(*old_end, at(T + 3600));
                assert_eq!(shift.start, at(T + 1800));
                targets.push(*uid);
            }
            _ => panic!("unexpected event"),
        }
    }
    assert_eq!(targets, vec![10, 11]);
}

#[test]
fn vanished_shift_is_deleted_and_canceled_without_reminder() {
    let now = T;
    let old = vec![shift(2, now + 60, now + 3600)];
    let r = reconcile(&old, &vec![]);
    let plan = plan_record(&r[0].0, r[0].1, at(now));
    assert_eq!(plan.write, Some(StoreWrite::Delete));
    assert!(!plan.reminder_due);
    let targets: Vec<i64> = plan
        .events
        .iter()
        .map(|e| match e {
            Event::UserCanceled { uid, .. } => *uid,
            _ => panic!("unexpected event"),
        })
        .collect();
    assert_eq!(targets, vec![10, 11]);
}

#[test]
fn upcoming_shift_is_announced_once() {
    let now = T;
    let s = shift(3, now + 600, now + 4200);
    let plan = plan_record(&s, Some(ShiftDiff::Created), at(now));
    assert_eq!(plan.write, Some(StoreWrite::Insert));
    assert!(plan.events.is_empty());
    assert!(plan.reminder_due);
    let first = remind(&s, false);
    assert!(first.mark_notified);
    let targets: Vec<i64> = first
        .events
        .iter()
        .map(|e| match e {
            Event::UserUpcoming { uid, .. } => *uid,
            _ => panic!("unexpected event"),
        })
        .collect();
    assert_eq!(targets, vec![10, 11]);
    let later = plan_record(&s, None, at(now + 120));
    assert_eq!(later.write, None);
    assert!(later.reminder_due);
    let second = remind(&s, true);
    assert!(second.events.is_empty());
    assert!(!second.mark_notified);
}

#[test]
fn reminder_window_bounds() {
    assert!(is_in_reminder_window(at(T), at(T + 899)));
    assert!(is_in_reminder_window(at(T), at(T - 899)));
    assert!(!is_in_reminder_window(at(T), at(T + 900)));
    assert!(!is_in_reminder_window(at(T), at(T - 900)));
    assert!(is_in_reminder_window(at(T), Timestamp { secs: T + 899, nanos: 999_999_999 }));
    assert!(!is_in_reminder_window(at(i64::MIN), at(i64::MAX)));
}

#[test]
fn blocked_recipient_is_no_failure() {
    assert_eq!(delivery_outcome(Err(DeliveryError::Blocked)), Ok(()));
    assert_eq!(delivery_outcome(Ok(())), Ok(()));
    assert_eq!(
        delivery_outcome(Err(DeliveryError::Other("timeout".to_string()))),
        Err(DeliveryError::Other("timeout".to_string()))
    );
}

#[test]
fn backoff_grows_caps_and_resets() {
    assert_eq!(next_backoff(1, 0), 6);
    assert_eq!(next_backoff(26, 10), 31);
    assert_eq!(next_backoff(31, 10), 31);
    assert_eq!(next_backoff(31, 301), 1);
    assert_eq!(next_backoff(31, 300), 31);
}

#[test]
fn date_sync_changes() {
    let (missing, stale) = date_changes(&vec![5, 6, 7], &vec![4, 5]);
    assert_eq!(missing, vec![6, 7]);
    assert_eq!(stale, vec![4]);
    let (missing, stale) = date_changes(&vec![8, 6, 8, 6, 5], &vec![5, 3, 3]);
    assert_eq!(missing, vec![8, 6]);
    assert_eq!(stale, vec![3]);
    let (missing, stale) = date_changes(&vec![], &vec![]);
    assert!(missing.is_empty() && stale.is_empty());
}

#[test]
fn registration_is_seen_in_both_directions() {
    let mut dir = RecipientDirectory::new();
    assert_eq!(dir.begin_reverse_lookup(7), Lookup::AskStore);
    dir.register(7, 700);
    assert_eq!(dir.begin_reverse_lookup(7), Lookup::Known(Some(700)));
    assert_eq!(dir.begin_forward_lookup(700), Lookup::Known(Some(7)));
}

#[test]
fn absence_is_cached() {
    let mut dir = RecipientDirectory::new();
    assert_eq!(dir.begin_reverse_lookup(9), Lookup::AskStore);
    assert_eq!(dir.finish_reverse_lookup(9, None), None);
    assert_eq!(dir.begin_reverse_lookup(9), Lookup::Known(None));
    assert_eq!(dir.begin_reverse_lookup(9), Lookup::Known(None));
    assert_eq!(dir.begin_forward_lookup(90), Lookup::AskStore);
    assert_eq!(dir.finish_forward_lookup(90, Some(9)), Some(9));
    assert_eq!(dir.begin_forward_lookup(90), Lookup::Known(Some(9)));
}

#[test]
fn event_target() {
    let e = Event::UserDaily { uid: 42, next: vec![] };
    assert_eq!(e.target(), 42);
    let e = Event::ManagerUpcoming { uid: 3, shift: shift(1, T, T + 60) };
    assert_eq!(e.target(), 3);
}

#[test]
fn assignments_flatten_in_group_order() {
    let groups = vec![
        RoleGroup {
            role: "Guard".to_string(),
            users: vec![
                Member { person: 1, name: "Ann".to_string(), staff: false },
                Member { person: 2, name: "Bob".to_string(), staff: true },
            ],
        },
        RoleGroup { role: "Empty".to_string(), users: vec![] },
        RoleGroup {
            role: "Lead".to_string(),
            users: vec![Member { person: 3, name: "Cid".to_string(), staff: false }],
        },
    ];
    let r = flatten_assignments(&groups);
    let got: Vec<(String, String, i64, bool)> =
        r.iter().map(|a| (a.name.clone(), a.role.clone(), a.person, a.staff)).collect();
    assert_eq!(
        got,
        vec![
            ("Ann".to_string(), "Guard".to_string(), 1, false),
            ("Bob".to_string(), "Guard".to_string(), 2, true),
            ("Cid".to_string(), "Lead".to_string(), 3, false),
        ]
    );
    assert!(flatten_assignments(&vec![]).is_empty());
}
