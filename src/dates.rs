//! Reconciliation of the set of valid days. A day is its number counted from the common era.
use vstd::prelude::*;

verus! {

/// The days of `a` that `b` does not hold, each once, in the order in which `a` first
/// lists them.
pub open spec fn absent_from(a: Seq<i32>, b: Seq<i32>) -> Seq<i32>
    decreases a.len(),
{
    if a.len() == 0 {
        Seq::empty()
    } else {
        let prev = absent_from(a.drop_last(), b);
        if b.contains(a.last()) || prev.contains(a.last()) {
            prev
        } else {
            prev.push(a.last())
        }
    }
}

/// Whether the list holds the day.
fn holds_day(days: &Vec<i32>, d: i32) -> (r: bool)
    ensures
        r == days@.contains(d),
{
    let mut i: usize = 0;
    while i < days.len()
        invariant
            i <= days@.len(),
            forall|j: int| 0 <= j < i ==> days@[j] != d,
        decreases days@.len() - i,
    {
        if days[i] == d {
            assert(days@[i as int] == d);
            return true;
        }
        i = i + 1;
    }
    false
}

/// The days of `a` that `b` does not hold.
fn days_absent(a: &Vec<i32>, b: &Vec<i32>) -> (r: Vec<i32>)
    ensures
        r@ == absent_from(a@, b@),
{
    let mut r: Vec<i32> = Vec::new();
    let mut i: usize = 0;
    while i < a.len()
        invariant
            i <= a@.len(),
            r@ == absent_from(a@.subrange(0, i as int), b@),
        decreases a@.len() - i,
    {
        assert(a@.subrange(0, i as int + 1).drop_last() =~= a@.subrange(0, i as int));
        if !holds_day(b, a[i]) && !holds_day(&r, a[i]) {
            r.push(a[i]);
        }
        i = i + 1;
    }
    assert(a@.subrange(0, a@.len() as int) =~= a@);
    r
}

/// The changes that bring the stored days to the current ones: the current days that are
/// missing from the store, to insert, and the stored days that are no longer current, to
/// delete.
pub fn date_changes(current: &Vec<i32>, stored: &Vec<i32>) -> (r: (Vec<i32>, Vec<i32>))
    ensures
        r.0@ == absent_from(current@, stored@),
        r.1@ == absent_from(stored@, current@),
        r.0@.no_duplicates(),
        r.1@.no_duplicates(),
{
    proof {
        lemma_absent_members(current@, stored@, 0);
        lemma_absent_members(stored@, current@, 0);
    }
    (days_absent(current, stored), days_absent(stored, current))
}

/// A day is missing from the store exactly when it is current and not stored, and no day
/// is listed twice.
pub proof fn lemma_absent_members(a: Seq<i32>, b: Seq<i32>, d: i32)
    ensures
        absent_from(a, b).contains(d) <==> (a.contains(d) && !b.contains(d)),
        absent_from(a, b).no_duplicates(),
    decreases a.len(),
{
    if a.len() > 0 {
        lemma_absent_members(a.drop_last(), b, d);
        lemma_absent_members(a.drop_last(), b, a.last());
        let r = absent_from(a.drop_last(), b);
        let x = a.last();
        assert(x == a[a.len() - 1]);
        if a.contains(d) && d != x {
            let k = choose|k: int| 0 <= k < a.len() && a[k] == d;
            assert(a.drop_last()[k] == d);
        }
        if a.drop_last().contains(d) {
            let k = choose|k: int| 0 <= k < a.len() - 1 && a.drop_last()[k] == d;
            assert(a[k] == d);
        }
        if !(b.contains(x) || r.contains(x)) {
            assert(r.push(x).last() == x);
            if r.contains(d) {
                let k = choose|k: int| 0 <= k < r.len() && r[k] == d;
                assert(r.push(x)[k] == d);
            }
            if r.push(x).contains(d) && d != x {
                let k = choose|k: int| 0 <= k < r.len() + 1 && r.push(x)[k] == d;
                assert(r[k] == d);
            }
            assert forall|i: int, j: int|
                0 <= i < j < r.len() + 1 implies r.push(x)[i] != r.push(x)[j] by {
                if j == r.len() {
                    assert(r[i] == r.push(x)[i]);
                }
            }
        }
    }
}

} // verus!
