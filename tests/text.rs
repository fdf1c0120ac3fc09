use critter_bot::event::Event;
use critter_bot::shift::{Assignee, Shift, Timestamp};

fn at(secs: i64) -> Timestamp {
    Timestamp { secs, nanos: 0 }
}

// 2024-07-03 10:00:00 UTC
const T: i64 = 1_720_000_800;

fn sample(ppe: bool) -> Shift {
    Shift {
        id: 1,
        title: "Door".to_string(),
        category: "Security".to_string(),
        location: "Hall A".to_string(),
        start: at(T),
        end: at(T + 3600),
        tz: "Europe/Berlin".to_string(),
        critters: vec![
            Assignee { name: "Ann".to_string(), role: "Guard".to_string(), person: 10, staff: false },
            Assignee { name: "Bob".to_string(), role: "Lead".to_string(), person: 11, staff: true },
        ],
        managers: vec![],
        req: 3,
        ppe,
    }
}

#[test]
fn upcoming_text() {
    let e = Event::UserUpcoming { uid: 11, shift: sample(true) };
    assert_eq!(
        e.render(at(T - 600)),
        "**Upcoming shift:** Door (Security) as Lead\nLocation: Hall A\nStarts: 2024-07-03 12:00:00 CEST (in PT600S)\nEnds: 2024-07-03 13:00:00 CEST (PT3600S total)\n**PPE is required**\n"
    );
}

#[test]
fn manager_text() {
    let e = Event::ManagerUpcoming { uid: 1, shift: sample(false) };
    assert_eq!(
        e.render(at(T)),
        "**Upcoming shift:** Door (Security)\nLocation: Hall A\nStarts: 2024-07-03 12:00:00 CEST (in P0D)\nEnds: 2024-07-03 13:00:00 CEST (PT3600S total)\nAssigned critters: (2/3)\n- Ann as Guard\n- Bob (Staff) as Lead\n"
    );
}

#[test]
fn time_changed_text() {
    let e = Event::UserTimeChanged { uid: 10, shift: sample(false), old_start: at(T - 1800), old_end: at(T + 1800) };
    assert_eq!(
        e.render(at(T - 60)),
        "**Starttime of shift changed:** Door (Security) as Guard\nNow Starts: **2024-07-03 10:00:00 UTC (in PT60S)**, originally 2024-07-03 09:30:00 UTC\nEnds: **2024-07-03 11:00:00 UTC (PT3600S total)**, originally 2024-07-03 10:30:00 UTC\n"
    );
}

#[test]
fn canceled_text() {
    let e = Event::UserCanceled { uid: 10, shift: sample(false) };
    assert_eq!(
        e.render(at(T)),
        "**Shift canceled:** Door (Security) as Guard\nYou no longer need to show up.\n\nIf you believe this was a mistake please contact the responsible shift manager.\n"
    );
}

#[test]
fn daily_text() {
    let e = Event::UserDaily { uid: 10, next: vec![sample(true)] };
    assert_eq!(
        e.render(at(T - 60)),
        "Your shifts today: \n- **Door (Security) as Guard** @ Hall A: 2024-07-03 10:00:00 UTC (in PT60S) -> 2024-07-03 11:00:00 UTC (PT3600S total) **[PPE]**\n"
    );
}

#[test]
fn unknown_zone_shows_question_mark() {
    let mut s = sample(false);
    s.tz = "Nowhere/Land".to_string();
    let e = Event::UserUpcoming { uid: 10, shift: s };
    assert_eq!(
        e.render(at(T)),
        "**Upcoming shift:** Door (Security) as Guard\nLocation: Hall A\nStarts: ? (in P0D)\nEnds: ? (PT3600S total)\n"
    );
}

#[test]
fn unassigned_target_cannot_render() {
    let e = Event::UserCanceled { uid: 99, shift: sample(false) };
    assert!(!e.can_render());
    let e = Event::UserCanceled { uid: 11, shift: sample(false) };
    assert!(e.can_render());
    let e = Event::UserDaily { uid: 10, next: vec![sample(false), sample(true)] };
    assert!(e.can_render());
    let e = Event::ManagerUpcoming { uid: 99, shift: sample(false) };
    assert!(e.can_render());
}

#[test]
fn spans_with_fractions_and_signs() {
    let mut s = sample(false);
    s.start = Timestamp { secs: T, nanos: 500_000_000 };
    s.end = Timestamp { secs: T + 2, nanos: 0 };
    let e = Event::ManagerUpcoming { uid: 1, shift: s };
    let text = e.render(Timestamp { secs: T + 1, nanos: 0 });
    assert!(text.contains("(in -PT0.5S)"), "{text}");
    assert!(text.contains("(PT1.5S total)"), "{text}");
    assert!(text.contains("Assigned critters: (2/3)"), "{text}");
}
