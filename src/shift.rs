//! The shift record and its mathematical model.
use vstd::prelude::*;

verus! {

/// An absolute instant: whole seconds since the Unix epoch and a sub-second part.
#[derive(Clone, Copy, Debug, PartialEq, Eq, Structural, Hash)]
pub struct Timestamp {
    pub secs: i64,
    pub nanos: u32,
}

/// One person assigned to a shift: display name, role label, person identity, staff flag.
#[derive(Debug)]
pub struct Assignee {
    pub name: String,
    pub role: String,
    pub person: i64,
    pub staff: bool,
}

pub struct AssigneeView {
    pub name: Seq<char>,
    pub role: Seq<char>,
    pub person: i64,
    pub staff: bool,
}

impl View for Assignee {
    type V = AssigneeView;

    open spec fn view(&self) -> AssigneeView {
        AssigneeView { name: self.name@, role: self.role@, person: self.person, staff: self.staff }
    }
}

/// A manager of a shift: display name and person identity.
#[derive(Debug)]
pub struct Manager {
    pub name: String,
    pub person: i64,
}

pub struct ManagerView {
    pub name: Seq<char>,
    pub person: i64,
}

impl View for Manager {
    type V = ManagerView;

    open spec fn view(&self) -> ManagerView {
        ManagerView { name: self.name@, person: self.person }
    }
}

/// A scheduled work block.
#[derive(Debug)]
pub struct Shift {
    pub id: i64,
    pub title: String,
    pub category: String,
    pub location: String,
    pub start: Timestamp,
    pub end: Timestamp,
    /// Name of the time zone in which the shift is displayed.
    pub tz: String,
    pub critters: Vec<Assignee>,
    pub managers: Vec<Manager>,
    pub req: usize,
    pub ppe: bool,
}

pub struct ShiftView {
    pub id: i64,
    pub title: Seq<char>,
    pub category: Seq<char>,
    pub location: Seq<char>,
    pub start: Timestamp,
    pub end: Timestamp,
    pub tz: Seq<char>,
    pub critters: Seq<AssigneeView>,
    pub managers: Seq<ManagerView>,
    pub req: usize,
    pub ppe: bool,
}

impl View for Shift {
    type V = ShiftView;

    open spec fn view(&self) -> ShiftView {
        ShiftView {
            id: self.id,
            title: self.title@,
            category: self.category@,
            location: self.location@,
            start: self.start,
            end: self.end,
            tz: self.tz@,
            critters: self.critters@.map_values(|a: Assignee| a@),
            managers: self.managers@.map_values(|m: Manager| m@),
            req: self.req,
            ppe: self.ppe,
        }
    }
}

impl Clone for Assignee {
    fn clone(&self) -> (r: Self)
        ensures
            r == *self,
    {
        Assignee {
            name: self.name.clone(),
            role: self.role.clone(),
            person: self.person,
            staff: self.staff,
        }
    }
}

impl Clone for Manager {
    fn clone(&self) -> (r: Self)
        ensures
            r == *self,
    {
        Manager { name: self.name.clone(), person: self.person }
    }
}

impl Clone for Shift {
    fn clone(&self) -> (r: Self)
        ensures
            r@ == self@,
    {
        let critters = self.critters.clone();
        let managers = self.managers.clone();
        assert(critters@ =~= self.critters@);
        assert(managers@ =~= self.managers@);
        Shift {
            id: self.id,
            title: self.title.clone(),
            category: self.category.clone(),
            location: self.location.clone(),
            start: self.start,
            end: self.end,
            tz: self.tz.clone(),
            critters,
            managers,
            req: self.req,
            ppe: self.ppe,
        }
    }
}

impl PartialEq for Assignee {
    fn eq(&self, o: &Assignee) -> (r: bool)
        ensures
            r == (self@ == o@),
    {
        self.person == o.person && self.staff == o.staff && self.name == o.name && self.role
            == o.role
    }
}

impl vstd::std_specs::cmp::PartialEqSpecImpl for Assignee {
    open spec fn obeys_eq_spec() -> bool {
        true
    }

    open spec fn eq_spec(&self, o: &Assignee) -> bool {
        self@ == o@
    }
}

impl PartialEq for Manager {
    fn eq(&self, o: &Manager) -> (r: bool)
        ensures
            r == (self@ == o@),
    {
        self.person == o.person && self.name == o.name
    }
}

impl vstd::std_specs::cmp::PartialEqSpecImpl for Manager {
    open spec fn obeys_eq_spec() -> bool {
        true
    }

    open spec fn eq_spec(&self, o: &Manager) -> bool {
        self@ == o@
    }
}

/// Whether two lists of assignees have the same model.
fn same_assignees(a: &Vec<Assignee>, b: &Vec<Assignee>) -> (r: bool)
    ensures
        r == (a@.map_values(|x: Assignee| x@) == b@.map_values(|x: Assignee| x@)),
{
    if a.len() != b.len() {
        assert(a@.map_values(|x: Assignee| x@).len() != b@.map_values(|x: Assignee| x@).len());
        return false;
    }
    let mut i: usize = 0;
    while i < a.len()
        invariant
            a@.len() == b@.len(),
            i <= a@.len(),
            forall|j: int| 0 <= j < i ==> a@[j]@ == b@[j]@,
        decreases a@.len() - i,
    {
        if a[i] != b[i] {
            assert(a@.map_values(|x: Assignee| x@)[i as int] != b@.map_values(|x: Assignee| x@)[i as int]);
            return false;
        }
        i = i + 1;
    }
    assert(a@.map_values(|x: Assignee| x@) =~= b@.map_values(|x: Assignee| x@));
    true
}

/// Whether two lists of managers have the same model.
fn same_managers(a: &Vec<Manager>, b: &Vec<Manager>) -> (r: bool)
    ensures
        r == (a@.map_values(|x: Manager| x@) == b@.map_values(|x: Manager| x@)),
{
    if a.len() != b.len() {
        assert(a@.map_values(|x: Manager| x@).len() != b@.map_values(|x: Manager| x@).len());
        return false;
    }
    let mut i: usize = 0;
    while i < a.len()
        invariant
            a@.len() == b@.len(),
            i <= a@.len(),
            forall|j: int| 0 <= j < i ==> a@[j]@ == b@[j]@,
        decreases a@.len() - i,
    {
        if a[i] != b[i] {
            assert(a@.map_values(|x: Manager| x@)[i as int] != b@.map_values(|x: Manager| x@)[i as int]);
            return false;
        }
        i = i + 1;
    }
    assert(a@.map_values(|x: Manager| x@) =~= b@.map_values(|x: Manager| x@));
    true
}

impl PartialEq for Shift {
    /// Structural equality over every field.
    fn eq(&self, o: &Shift) -> (r: bool)
        ensures
            r == (self@ == o@),
    {
        self.id == o.id && self.title == o.title && self.category == o.category && self.location
            == o.location && self.start == o.start && self.end == o.end && self.tz == o.tz
            && same_assignees(&self.critters, &o.critters) && same_managers(
            &self.managers,
            &o.managers,
        ) && self.req == o.req && self.ppe == o.ppe
    }
}

impl vstd::std_specs::cmp::PartialEqSpecImpl for Shift {
    open spec fn obeys_eq_spec() -> bool {
        true
    }

    open spec fn eq_spec(&self, o: &Shift) -> bool {
        self@ == o@
    }
}

/// A person in a role group, as the scheduling service lists assignments.
#[derive(Debug)]
pub struct Member {
    pub person: i64,
    pub name: String,
    pub staff: bool,
}

/// The people assigned to a shift in one role.
#[derive(Debug)]
pub struct RoleGroup {
    pub role: String,
    pub users: Vec<Member>,
}

pub open spec fn member_as_assignee(m: Member, role: Seq<char>) -> AssigneeView {
    AssigneeView { name: m.name@, role, person: m.person, staff: m.staff }
}

/// The assignees of a group, in its order.
pub open spec fn group_assignees(g: RoleGroup) -> Seq<AssigneeView> {
    g.users@.map_values(|m: Member| member_as_assignee(m, g.role@))
}

/// The assignees of all groups: group after group, each in its own order.
pub open spec fn flattened(gs: Seq<RoleGroup>) -> Seq<AssigneeView>
    decreases gs.len(),
{
    if gs.len() == 0 {
        Seq::empty()
    } else {
        flattened(gs.drop_last()) + group_assignees(gs.last())
    }
}

/// The assignment list of a shift: each member of each role group with that group's role,
/// group after group.
pub fn flatten_assignments(groups: &Vec<RoleGroup>) -> (r: Vec<Assignee>)
    ensures
        r@.map_values(|a: Assignee| a@) == flattened(groups@),
{
    let mut r: Vec<Assignee> = Vec::new();
    let mut i: usize = 0;
    assert(groups@.subrange(0, 0) =~= Seq::<RoleGroup>::empty());
    assert(r@.map_values(|a: Assignee| a@) =~= Seq::<AssigneeView>::empty());
    while i < groups.len()
        invariant
            i <= groups@.len(),
            r@.map_values(|a: Assignee| a@) == flattened(groups@.subrange(0, i as int)),
        decreases groups@.len() - i,
    {
        let g = &groups[i];
        let ghost base = r@.map_values(|a: Assignee| a@);
        let mut j: usize = 0;
        assert(base + g.users@.subrange(0, 0).map_values(|m: Member| member_as_assignee(m, g.role@))
            =~= base);
        while j < g.users.len()
            invariant
                j <= g.users@.len(),
                r@.map_values(|a: Assignee| a@) == base + g.users@.subrange(0, j as int).map_values(
                    |m: Member| member_as_assignee(m, g.role@),
                ),
            decreases g.users@.len() - j,
        {
            let m = &g.users[j];
            let ghost prev = r@;
            r.push(Assignee { name: m.name.clone(), role: g.role.clone(), person: m.person, staff: m.staff });
            assert(r@.map_values(|a: Assignee| a@) =~= prev.map_values(|a: Assignee| a@).push(
                member_as_assignee(*m, g.role@),
            ));
            assert(g.users@.subrange(0, j as int + 1).map_values(
                |m: Member| member_as_assignee(m, g.role@),
            ) =~= g.users@.subrange(0, j as int).map_values(
                |m: Member| member_as_assignee(m, g.role@),
            ).push(member_as_assignee(*m, g.role@)));
            j = j + 1;
        }
        assert(g.users@.subrange(0, g.users@.len() as int) =~= g.users@);
        assert(groups@.subrange(0, i as int + 1).drop_last() =~= groups@.subrange(0, i as int));
        assert(groups@.subrange(0, i as int + 1).last() == *g);
        i = i + 1;
    }
    assert(groups@.subrange(0, groups@.len() as int) =~= groups@);
    r
}

} // verus!
