//! Reconciliation of a stored snapshot of shifts against a freshly polled one.
use vstd::prelude::*;

use crate::shift::{Shift, ShiftView, Timestamp};

verus! {

/// How a shift changed between two snapshots.
#[derive(Clone, Copy, Debug, PartialEq, Eq, Structural)]
pub enum ShiftDiff {
    Created,
    Updated,
    TimeUpdated { old_start: Timestamp, old_end: Timestamp },
    Deleted,
}

/// The classification of one identity, given its record in the old and the new snapshot.
/// `None` means that nothing changed.
pub open spec fn classify(old: Option<ShiftView>, new: Option<ShiftView>) -> Option<ShiftDiff> {
    if old == new {
        None
    } else {
        match (old, new) {
            (None, _) => Some(ShiftDiff::Created),
            (_, None) => Some(ShiftDiff::Deleted),
            (Some(o), Some(n)) => if o.start != n.start || o.end != n.end {
                Some(ShiftDiff::TimeUpdated { old_start: o.start, old_end: o.end })
            } else {
                Some(ShiftDiff::Updated)
            },
        }
    }
}

pub open spec fn view_of(s: Option<&Shift>) -> Option<ShiftView> {
    match s {
        Some(x) => Some(x@),
        None => None,
    }
}

/// The models of the records of a snapshot, in order.
pub open spec fn snapshot(s: Seq<Shift>) -> Seq<ShiftView> {
    s.map_values(|x: Shift| x@)
}

/// Whether some record of the snapshot carries the identity.
pub open spec fn has_id(s: Seq<ShiftView>, id: i64) -> bool {
    exists|k: int| 0 <= k < s.len() && s[k].id == id
}

/// The record that a snapshot holds for an identity: the last one that carries it.
pub open spec fn latest(s: Seq<ShiftView>, id: i64) -> Option<ShiftView>
    decreases s.len(),
{
    if s.len() == 0 {
        None
    } else if s.last().id == id {
        Some(s.last())
    } else {
        latest(s.drop_last(), id)
    }
}

/// The record that stands for an identity: the new one, or the old one where it is gone.
pub open spec fn representative(old: Option<ShiftView>, new: Option<ShiftView>) -> ShiftView {
    match new {
        Some(n) => n,
        None => old.unwrap(),
    }
}

/// The outcome that reconciliation gives for an identity.
pub open spec fn reconciled(old: Seq<ShiftView>, new: Seq<ShiftView>, id: i64) -> (
    ShiftView,
    Option<ShiftDiff>,
) {
    (representative(latest(old, id), latest(new, id)), classify(latest(old, id), latest(new, id)))
}

pub proof fn lemma_latest(s: Seq<ShiftView>, id: i64)
    ensures
        latest(s, id) is Some <==> has_id(s, id),
        latest(s, id) is Some ==> latest(s, id)->0.id == id,
    decreases s.len(),
{
    if s.len() > 0 {
        lemma_latest(s.drop_last(), id);
        if has_id(s, id) && s.last().id != id {
            let k = choose|k: int| 0 <= k < s.len() && s[k].id == id;
            assert(s.drop_last()[k].id == id);
        }
        if has_id(s.drop_last(), id) {
            let k = choose|k: int| 0 <= k < s.len() - 1 && s.drop_last()[k].id == id;
            assert(s[k].id == id);
        }
    }
}

/// Classifies the change of one shift from its old record to its new one.
pub fn diff_shift(old: Option<&Shift>, new: Option<&Shift>) -> (r: Option<ShiftDiff>)
    ensures
        r == classify(view_of(old), view_of(new)),
{
    match (old, new) {
        (None, None) => None,
        (None, Some(_)) => Some(ShiftDiff::Created),
        (Some(_), None) => Some(ShiftDiff::Deleted),
        (Some(o), Some(n)) => {
            if o == n {
                None
            } else if o.start != n.start || o.end != n.end {
                Some(ShiftDiff::TimeUpdated { old_start: o.start, old_end: o.end })
            } else {
                Some(ShiftDiff::Updated)
            }
        },
    }
}

/// The record that a snapshot holds for an identity.
fn find_latest(s: &Vec<Shift>, id: i64) -> (r: Option<&Shift>)
    ensures
        view_of(r) == latest(snapshot(s@), id),
{
    let ghost full = snapshot(s@);
    let mut i: usize = s.len();
    assert(full.subrange(0, i as int) =~= full);
    while i > 0
        invariant
            i <= s@.len(),
            full == snapshot(s@),
            latest(full, id) == latest(full.subrange(0, i as int), id),
        decreases i,
    {
        i = i - 1;
        let ghost pre = full.subrange(0, i as int + 1);
        assert(pre.drop_last() =~= full.subrange(0, i as int));
        if s[i].id == id {
            return Some(&s[i]);
        }
    }
    assert(full.subrange(0, 0) =~= Seq::<ShiftView>::empty());
    None
}

/// Whether the list holds the identity.
fn holds_id(keys: &Vec<i64>, id: i64) -> (r: bool)
    ensures
        r == keys@.contains(id),
{
    let mut i: usize = 0;
    while i < keys.len()
        invariant
            i <= keys@.len(),
            forall|j: int| 0 <= j < i ==> keys@[j] != id,
        decreases keys@.len() - i,
    {
        if keys[i] == id {
            assert(keys@[i as int] == id);
            return true;
        }
        i = i + 1;
    }
    false
}

/// The entry of the reconciliation for one identity of either snapshot.
fn entry(old: &Vec<Shift>, new: &Vec<Shift>, id: i64) -> (e: (Shift, Option<ShiftDiff>))
    requires
        has_id(snapshot(old@), id) || has_id(snapshot(new@), id),
    ensures
        e.0.id == id,
        (e.0@, e.1) == reconciled(snapshot(old@), snapshot(new@), id),
{
    proof {
        lemma_latest(snapshot(old@), id);
        lemma_latest(snapshot(new@), id);
    }
    let o = find_latest(old, id);
    let n = find_latest(new, id);
    let rep = match n {
        Some(x) => x.clone(),
        None => o.unwrap().clone(),
    };
    (rep, diff_shift(o, n))
}

/// Adds an entry for each identity of `src` that `keys` does not hold yet.
fn absorb(
    before: &Vec<Shift>,
    after: &Vec<Shift>,
    src: &Vec<Shift>,
    keys: &mut Vec<i64>,
    r: &mut Vec<(Shift, Option<ShiftDiff>)>,
)
    requires
        snapshot(src@) == snapshot(before@) || snapshot(src@) == snapshot(after@),
        old(keys)@.len() == old(r)@.len(),
        forall|k: int| 0 <= k < old(r)@.len() ==> old(r)@[k].0.id == old(keys)@[k],
        forall|a: int, b: int| 0 <= a < b < old(keys)@.len() ==> old(keys)@[a] != old(keys)@[b],
        forall|k: int|
            0 <= k < old(r)@.len() ==> (old(r)@[k].0@, old(r)@[k].1) == reconciled(
                snapshot(before@),
                snapshot(after@),
                old(keys)@[k],
            ),
    ensures
        final(keys)@.len() == final(r)@.len(),
        forall|k: int| 0 <= k < final(r)@.len() ==> final(r)@[k].0.id == final(keys)@[k],
        forall|a: int, b: int|
            0 <= a < b < final(keys)@.len() ==> final(keys)@[a] != final(keys)@[b],
        forall|k: int|
            0 <= k < final(r)@.len() ==> (final(r)@[k].0@, final(r)@[k].1) == reconciled(
                snapshot(before@),
                snapshot(after@),
                final(keys)@[k],
            ),
        forall|x: i64|
            final(keys)@.contains(x) <==> (old(keys)@.contains(x) || has_id(snapshot(src@), x)),
{
    let ghost ov = snapshot(before@);
    let ghost nv = snapshot(after@);
    let ghost sv = snapshot(src@);
    let ghost start = keys@;
    let mut i: usize = 0;
    while i < src.len()
        invariant
            ov == snapshot(before@),
            nv == snapshot(after@),
            sv == snapshot(src@),
            sv == ov || sv == nv,
            i <= src@.len(),
            keys@.len() == r@.len(),
            forall|k: int| 0 <= k < r@.len() ==> r@[k].0.id == keys@[k],
            forall|a: int, b: int| 0 <= a < b < keys@.len() ==> keys@[a] != keys@[b],
            forall|x: i64|
                keys@.contains(x) <==> (start.contains(x) || exists|k: int|
                    0 <= k < i && sv[k].id == x),
            forall|k: int|
                0 <= k < r@.len() ==> (r@[k].0@, r@[k].1) == reconciled(ov, nv, keys@[k]),
        decreases src@.len() - i,
    {
        let id = src[i].id;
        assert(sv[i as int].id == id);
        let ghost keys0 = keys@;
        if !holds_id(keys, id) {
            let e = entry(before, after, id);
            keys.push(id);
            r.push(e);
        }
        let ghost i0 = i;
        i = i + 1;
        proof {
            assert forall|x: i64|
                keys@.contains(x) <==> (start.contains(x) || exists|k: int|
                    0 <= k < i && sv[k].id == x) by {
                if keys@.contains(x) {
                    let a = choose|a: int| 0 <= a < keys@.len() && keys@[a] == x;
                    if a < keys0.len() {
                        assert(keys0[a] == x);
                        assert(keys0.contains(x));
                        if !start.contains(x) {
                            let k = choose|k: int| 0 <= k < i0 && sv[k].id == x;
                            assert(0 <= k < i && sv[k].id == x);
                        }
                    } else {
                        assert(sv[i0 as int].id == x);
                    }
                }
                if start.contains(x) || exists|k: int| 0 <= k < i && sv[k].id == x {
                    if start.contains(x) {
                        assert(keys0.contains(x));
                    } else {
                        let k = choose|k: int| 0 <= k < i && sv[k].id == x;
                        if k < i0 {
                            assert(keys0.contains(x));
                        }
                    }
                    if keys0.contains(x) {
                        let a = choose|a: int| 0 <= a < keys0.len() && keys0[a] == x;
                        assert(keys@[a] == x);
                    } else {
                        assert(keys@[keys@.len() - 1] == x);
                    }
                }
            }
        }
    }
    assert(i == sv.len());
    assert forall|x: i64| keys@.contains(x) <==> (start.contains(x) || has_id(sv, x)) by {
        assert(keys@.contains(x) <==> (start.contains(x) || exists|k: int|
                    0 <= k < i && sv[k].id == x));
        if has_id(sv, x) {
            let k = choose|k: int| 0 <= k < sv.len() && sv[k].id == x;
            assert(0 <= k < i && sv[k].id == x);
        }
        if keys@.contains(x) && !start.contains(x) {
            let k = choose|k: int| 0 <= k < i && sv[k].id == x;
            assert(0 <= k < sv.len() && sv[k].id == x);
        }
    }
}

/// Reconciles the stored snapshot `old` with the polled snapshot `new`: one entry for each
/// identity that either holds, with the record that stands for it and how it changed.
/// Where a snapshot holds an identity twice, its last record counts.
/// The entries come in the order in which their identities first appear, the new snapshot
/// before the old one. The identities seen so far are kept in a `Vec` for that reason: a
/// `HashMap` or `HashSet` would hand them out in an order that its hasher, seeded anew in
/// each process, decides.
pub fn reconcile(old: &Vec<Shift>, new: &Vec<Shift>) -> (r: Vec<(Shift, Option<ShiftDiff>)>)
    ensures
        forall|i: int, j: int| 0 <= i < j < r@.len() ==> r@[i].0.id != r@[j].0.id,
        forall|id: i64|
            (exists|i: int| 0 <= i < r@.len() && r@[i].0.id == id) <==> (has_id(
                snapshot(old@),
                id,
            ) || has_id(snapshot(new@), id)),
        forall|i: int|
            0 <= i < r@.len() ==> (r@[i].0@, r@[i].1) == reconciled(
                snapshot(old@),
                snapshot(new@),
                r@[i].0.id,
            ),
        old@.len() == 0 ==> forall|i: int| 0 <= i < r@.len() ==> r@[i].1 == Some(ShiftDiff::Created),
        new@.len() == 0 ==> forall|i: int| 0 <= i < r@.len() ==> r@[i].1 == Some(ShiftDiff::Deleted),
        snapshot(old@) == snapshot(new@) ==> forall|i: int| 0 <= i < r@.len() ==> r@[i].1 is None,
{
    let ghost ov = snapshot(old@);
    let ghost nv = snapshot(new@);
    let mut keys: Vec<i64> = Vec::new();
    let mut r: Vec<(Shift, Option<ShiftDiff>)> = Vec::new();
    absorb(old, new, new, &mut keys, &mut r);
    absorb(old, new, old, &mut keys, &mut r);
    assert forall|id: i64|
        (exists|i: int| 0 <= i < r@.len() && r@[i].0.id == id) <==> (has_id(ov, id) || has_id(
            nv,
            id,
        )) by {
        if keys@.contains(id) {
            let k = choose|k: int| 0 <= k < keys@.len() && keys@[k] == id;
            assert(r@[k].0.id == id);
        }
        if exists|i: int| 0 <= i < r@.len() && r@[i].0.id == id {
            let i = choose|i: int| 0 <= i < r@.len() && r@[i].0.id == id;
            assert(keys@[i] == id);
            assert(keys@.contains(id));
        }
    }
    assert forall|i: int| 0 <= i < r@.len() implies (r@[i].0@, r@[i].1) == reconciled(
        ov,
        nv,
        r@[i].0.id,
    ) by {
        assert(r@[i].0.id == keys@[i]);
    }
    assert forall|a: int, b: int| 0 <= a < b < r@.len() implies r@[a].0.id != r@[b].0.id by {
        assert(keys@[a] != keys@[b]);
    }
    proof {
        assert forall|i: int| 0 <= i < r@.len() implies {
            &&& old@.len() == 0 ==> r@[i].1 == Some(ShiftDiff::Created)
            &&& new@.len() == 0 ==> r@[i].1 == Some(ShiftDiff::Deleted)
            &&& ov == nv ==> r@[i].1 is None
        } by {
            let id = r@[i].0.id;
            assert(keys@[i] == id);
            assert(keys@.contains(id));
            if old@.len() == 0 {
                assert(ov =~= Seq::<ShiftView>::empty());
                lemma_empty_old_created(nv, id);
            }
            if new@.len() == 0 {
                assert(nv =~= Seq::<ShiftView>::empty());
                lemma_empty_new_deleted(ov, id);
            }
        }
    }
    r
}

/// Comparing a snapshot with itself finds no change for any identity.
pub proof fn lemma_same_snapshot_unchanged(s: Seq<ShiftView>, id: i64)
    ensures
        reconciled(s, s, id).1 is None,
{
}

/// Against an empty old snapshot, every identity of the new one is created.
pub proof fn lemma_empty_old_created(new: Seq<ShiftView>, id: i64)
    requires
        has_id(new, id),
    ensures
        reconciled(Seq::empty(), new, id).1 == Some(ShiftDiff::Created),
{
    lemma_latest(new, id);
    lemma_latest(Seq::<ShiftView>::empty(), id);
}

/// Against an empty new snapshot, every identity of the old one is deleted.
pub proof fn lemma_empty_new_deleted(old: Seq<ShiftView>, id: i64)
    requires
        has_id(old, id),
    ensures
        reconciled(old, Seq::empty(), id).1 == Some(ShiftDiff::Deleted),
{
    lemma_latest(old, id);
    lemma_latest(Seq::<ShiftView>::empty(), id);
}

/// Where the start or the end moved, the change is a time update that carries the old
/// start and end, whatever else changed; in particular never a plain update.
pub proof fn lemma_time_change_wins(old: ShiftView, new: ShiftView)
    requires
        old.start != new.start || old.end != new.end,
    ensures
        classify(Some(old), Some(new)) == Some(
            ShiftDiff::TimeUpdated { old_start: old.start, old_end: old.end },
        ),
{
}

} // verus!
