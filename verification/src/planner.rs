//! The request planner: splits point paths of the form
//! `/<interface>/<slave>/<point>` and groups a flat list of requests by
//! interface, keeping first-seen group order and within-group arrival order.
//! A path of any other shape is dropped silently.

use vstd::prelude::*;

verus! {

use vstd::string::StrSliceExecFns;
use crate::value::Scalar;

/// One planned point operation: the slave name, the point name and the value
/// to write, if any.
pub type PlanItem = (String, (String, Option<Scalar>));

/// The ghost reading of one planned operation.
pub type PlanItemView = (Seq<char>, (Seq<char>, Option<Scalar>));

pub open spec fn item_view(i: PlanItem) -> PlanItemView {
    (i.0@, (i.1.0@, i.1.1))
}

pub open spec fn items_view(v: Seq<PlanItem>) -> Seq<PlanItemView> {
    v.map_values(|i: PlanItem| item_view(i))
}

/// The ghost reading of a whole plan: group names with their item lists, in
/// order.
pub open spec fn plan_view(groups: Seq<(String, Vec<PlanItem>)>) -> Seq<
    (Seq<char>, Seq<PlanItemView>),
> {
    groups.map_values(|g: (String, Vec<PlanItem>)| (g.0@, items_view(g.1@)))
}

/// The first position at or after `start` where `c` occurs, or the length of
/// the sequence if it does not.
pub open spec fn index_of_from(s: Seq<char>, c: char, start: int) -> int
    recommends
        0 <= start <= s.len(),
    decreases s.len() - start when 0 <= start <= s.len()
{
    if start >= s.len() {
        s.len() as int
    } else if s[start] == c {
        start
    } else {
        index_of_from(s, c, start + 1)
    }
}

/// A valid point path starts with a separator and holds exactly three of
/// them: the three named segments follow the first, second and third.
pub open spec fn spec_valid_path(s: Seq<char>) -> bool {
    &&& s.len() > 0
    &&& s[0] == '/'
    &&& index_of_from(s, '/', 1) < s.len()
    &&& index_of_from(s, '/', index_of_from(s, '/', 1) + 1) < s.len()
    &&& index_of_from(s, '/', index_of_from(s, '/', index_of_from(s, '/', 1) + 1) + 1) == s.len()
}

/// The interface segment of a valid path.
pub open spec fn spec_path_interface(s: Seq<char>) -> Seq<char> {
    s.subrange(1, index_of_from(s, '/', 1))
}

/// The slave segment of a valid path.
pub open spec fn spec_path_slave(s: Seq<char>) -> Seq<char> {
    let q1 = index_of_from(s, '/', 1);
    s.subrange(q1 + 1, index_of_from(s, '/', q1 + 1))
}

/// The point segment of a valid path.
pub open spec fn spec_path_point(s: Seq<char>) -> Seq<char> {
    let q1 = index_of_from(s, '/', 1);
    let q2 = index_of_from(s, '/', q1 + 1);
    s.subrange(q2 + 1, s.len() as int)
}

/// Finds the next separator at or after `start`.
fn find_sep(s: &str, start: usize) -> (r: usize)
    requires
        start <= s@.len(),
    ensures
        r == index_of_from(s@, '/', start as int),
        start <= r <= s@.len(),
{
    let n = s.unicode_len();
    let mut i = start;
    while i < n
        invariant
            start <= i <= n,
            n == s@.len(),
            index_of_from(s@, '/', start as int) == index_of_from(s@, '/', i as int),
        decreases n - i,
    {
        if s.get_char(i) == '/' {
            return i;
        }
        i += 1;
    }
    n
}

/// The three segments of a point path, or nothing for a path of the wrong
/// shape.
pub fn parse_path(path: &str) -> (r: Option<(String, String, String)>)
    ensures
        r is Some <==> spec_valid_path(path@),
        r matches Some(p) ==> p.0@ == spec_path_interface(path@) && p.1@ == spec_path_slave(path@)
            && p.2@ == spec_path_point(path@),
{
    let n = path.unicode_len();
    if n == 0 {
        return None;
    }
    if path.get_char(0) != '/' {
        return None;
    }
    let q1 = find_sep(path, 1);
    if q1 >= n {
        return None;
    }
    let q2 = find_sep(path, q1 + 1);
    if q2 >= n {
        return None;
    }
    let q3 = find_sep(path, q2 + 1);
    if q3 < n {
        return None;
    }
    let interface = path.substring_char(1, q1).to_owned();
    let slave = path.substring_char(q1 + 1, q2).to_owned();
    let point = path.substring_char(q2 + 1, n).to_owned();
    Some((interface, slave, point))
}

/// What pushing one item into a plan yields: the item joins the first group
/// of its interface, or opens a new group at the end.
pub open spec fn spec_plan_push(
    pv: Seq<(Seq<char>, Seq<PlanItemView>)>,
    iface: Seq<char>,
    item: PlanItemView,
) -> Seq<(Seq<char>, Seq<PlanItemView>)>
    decreases pv.len(),
{
    if pv.len() == 0 {
        seq![(iface, seq![item])]
    } else if pv[0].0 == iface {
        seq![(pv[0].0, pv[0].1.push(item))] + pv.skip(1)
    } else {
        seq![pv[0]] + spec_plan_push(pv.skip(1), iface, item)
    }
}

proof fn lemma_plan_push_hit(
    pv: Seq<(Seq<char>, Seq<PlanItemView>)>,
    g: int,
    iface: Seq<char>,
    item: PlanItemView,
)
    requires
        0 <= g < pv.len(),
        pv[g].0 == iface,
        forall|j: int| 0 <= j < g ==> pv[j].0 != iface,
    ensures
        spec_plan_push(pv, iface, item) == pv.update(g, (iface, pv[g].1.push(item))),
    decreases g,
{
    if g == 0 {
        assert(spec_plan_push(pv, iface, item) =~= pv.update(0, (iface, pv[0].1.push(item))));
    } else {
        lemma_plan_push_hit(pv.skip(1), g - 1, iface, item);
        assert(pv.skip(1)[g - 1] == pv[g]);
        assert(spec_plan_push(pv, iface, item) =~= pv.update(g, (iface, pv[g].1.push(item))))
            by {
            assert(spec_plan_push(pv.skip(1), iface, item) == pv.skip(1).update(
                g - 1,
                (iface, pv[g].1.push(item)),
            ));
        };
    }
}

proof fn lemma_plan_push_miss(
    pv: Seq<(Seq<char>, Seq<PlanItemView>)>,
    iface: Seq<char>,
    item: PlanItemView,
)
    requires
        forall|j: int| 0 <= j < pv.len() ==> pv[j].0 != iface,
    ensures
        spec_plan_push(pv, iface, item) == pv.push((iface, seq![item])),
    decreases pv.len(),
{
    if pv.len() == 0 {
        assert(spec_plan_push(pv, iface, item) =~= pv.push((iface, seq![item])));
    } else {
        lemma_plan_push_miss(pv.skip(1), iface, item);
        assert(spec_plan_push(pv, iface, item) =~= pv.push((iface, seq![item])));
    }
}

/// The grouped plan of one request: per-interface ordered lists of point
/// operations, groups in first-seen order.
pub struct TaskPlan {
    pub todo_list: Vec<(String, Vec<PlanItem>)>,
}

impl TaskPlan {
    pub fn new() -> (r: TaskPlan)
        ensures
            r.todo_list@.len() == 0,
    {
        TaskPlan { todo_list: Vec::new() }
    }

    /// Parses one path and files its operation under the path's interface;
    /// a path of the wrong shape changes nothing.
    pub fn push(&mut self, path: &str, value: Option<Scalar>)
        ensures
            !spec_valid_path(path@) ==> plan_view(final(self).todo_list@) == plan_view(
                old(self).todo_list@,
            ),
            spec_valid_path(path@) ==> plan_view(final(self).todo_list@) == spec_plan_push(
                plan_view(old(self).todo_list@),
                spec_path_interface(path@),
                (spec_path_slave(path@), (spec_path_point(path@), value)),
            ),
    {
        let parsed = match parse_path(path) {
            Some(p) => p,
            None => {
                return ;
            },
        };
        let (interface, slave, point) = parsed;
        let item: PlanItem = (slave, (point, value));
        let ghost item_v = item_view(item);
        let ghost iface_v = interface@;
        let ghost pv0 = plan_view(self.todo_list@);
        let n = self.todo_list.len();
        let mut g: usize = 0;
        while g < n
            invariant
                n == self.todo_list@.len(),
                g <= n,
                self.todo_list@ == old(self).todo_list@,
                pv0 == plan_view(self.todo_list@),
                iface_v == interface@,
                item_v == item_view(item),
                spec_valid_path(path@),
                iface_v == spec_path_interface(path@),
                item_v == (spec_path_slave(path@), (spec_path_point(path@), value)),
                forall|j: int| 0 <= j < g ==> plan_view(self.todo_list@)[j].0 != iface_v,
            decreases n - g,
        {
            if crate::text::str_eq(self.todo_list[g].0.as_str(), interface.as_str()) {
                let entry = self.todo_list.remove(g);
                let (group_name, mut items) = entry;
                let ghost items0 = items@;
                items.push(item);
                proof {
                    assert(items@ =~= items0.push(item));
                }
                self.todo_list.insert(g, (group_name, items));
                proof {
                    let pv1 = plan_view(self.todo_list@);
                    assert(self.todo_list@ =~= old(self).todo_list@.update(
                        g as int,
                        (old(self).todo_list@[g as int].0, self.todo_list@[g as int].1),
                    ));
                    assert(items_view(items@) =~~= items_view(items0).push(item_v));
                    assert(pv1 =~~= pv0.update(g as int, (iface_v, pv0[g as int].1.push(item_v))));
                    lemma_plan_push_hit(pv0, g as int, iface_v, item_v);
                }
                return ;
            }
            g += 1;
        }
        self.todo_list.push((interface, item_to_vec(item)));
        proof {
            assert(plan_view(self.todo_list@) =~~= pv0.push((iface_v, seq![item_v])));
            lemma_plan_push_miss(pv0, iface_v, item_v);
        }
    }

    /// The grouped plan, in first-seen group order.
    pub fn plan(&self) -> (r: &Vec<(String, Vec<PlanItem>)>)
        ensures
            r@ == self.todo_list@,
    {
        &self.todo_list
    }
}

fn item_to_vec(item: PlanItem) -> (r: Vec<PlanItem>)
    ensures
        r@ =~= seq![item],
{
    let mut v: Vec<PlanItem> = Vec::new();
    v.push(item);
    proof {
        assert(v@ =~= seq![item]);
    }
    v
}

} // verus!
