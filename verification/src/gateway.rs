//! The request gateway: the pure decisions of one request/reply cycle.
//! The transport loop parses one JSON request into a method name and a body
//! in library terms, asks `screen_request` what to do, runs one batch per
//! interface group if asked, merges the groups' outcomes, and sends exactly
//! one reply. A group that fails contributes nothing; only a malformed
//! request or an unknown interface rejects the request as a whole.

use vstd::prelude::*;

verus! {

use vstd::string::StrSliceExecFns;
use crate::assoc::{assoc_find, assoc_has, assoc_contains};
use crate::catalog::Interface;
use crate::error::ModbusError;
use crate::planner::{PlanItem, PlanItemView, TaskPlan, plan_view, spec_plan_push, spec_valid_path,
    spec_path_interface, spec_path_slave, spec_path_point};
use crate::resolver::GetOrSet;
use crate::value::Scalar;

/// The method of a request, read case-insensitively.
#[derive(Clone, Copy, PartialEq, Eq, Structural, Debug)]
pub enum MethodKind {
    Test,
    GetPoints,
    SetPoints,
    Unknown,
}

/// Whether `c` reads as the upper-case letter `u` ignoring ASCII case.
pub open spec fn char_ci_matches(c: char, u: char) -> bool {
    c == u || (c as int) == (u as int) + 32
}

/// Case-insensitive match of a name against an upper-case ASCII word.
pub open spec fn ci_matches(s: Seq<char>, upper: Seq<char>) -> bool {
    s.len() == upper.len() && (forall|i: int|
        0 <= i < s.len() ==> char_ci_matches(s[i], #[trigger] upper[i]))
}

/// Compares a name against an upper-case ASCII word, ignoring ASCII case.
fn str_ci_eq(s: &str, upper: &str) -> (r: bool)
    ensures
        r == ci_matches(s@, upper@),
{
    let n = s.unicode_len();
    if n != upper.unicode_len() {
        return false;
    }
    let mut i: usize = 0;
    while i < n
        invariant
            i <= n,
            n == s@.len(),
            n == upper@.len(),
            forall|j: int| 0 <= j < i ==> char_ci_matches(s@[j], #[trigger] upper@[j]),
        decreases n - i,
    {
        let c = s.get_char(i);
        let u = upper.get_char(i);
        if c != u && (c as u32) != (u as u32) + 32 {
            proof {
                assert(!char_ci_matches(s@[i as int], upper@[i as int]));
            }
            return false;
        }
        i += 1;
    }
    true
}

/// Reads the request method: `TEST`, `GET` and `SET` in any ASCII case,
/// anything else unknown.
pub fn method_kind(name: &str) -> (r: MethodKind)
    ensures
        r == MethodKind::Test <==> ci_matches(name@, "TEST"@),
        r == MethodKind::GetPoints <==> ci_matches(name@, "GET"@),
        r == MethodKind::SetPoints <==> ci_matches(name@, "SET"@),
{
    proof {
        reveal_strlit("TEST");
        reveal_strlit("GET");
        reveal_strlit("SET");
        lemma_methods_distinct(name@);
    }
    if str_ci_eq(name, "TEST") {
        MethodKind::Test
    } else if str_ci_eq(name, "GET") {
        MethodKind::GetPoints
    } else if str_ci_eq(name, "SET") {
        MethodKind::SetPoints
    } else {
        MethodKind::Unknown
    }
}

proof fn lemma_methods_distinct(s: Seq<char>)
    ensures
        !(ci_matches(s, "GET"@) && ci_matches(s, "SET"@)),
        !(ci_matches(s, "TEST"@) && ci_matches(s, "GET"@)),
        !(ci_matches(s, "TEST"@) && ci_matches(s, "SET"@)),
{
    reveal_strlit("TEST");
    reveal_strlit("GET");
    reveal_strlit("SET");
    if ci_matches(s, "GET"@) && ci_matches(s, "SET"@) {
        assert(char_ci_matches(s[0], "GET"@[0]));
        assert(char_ci_matches(s[0], "SET"@[0]));
        assert(false);
    }
}

/// The plan a list of path-and-value entries builds up, one push at a time;
/// entries with an invalid path drop out silently.
pub open spec fn spec_plan_of(entries: Seq<(Seq<char>, Option<Scalar>)>) -> Seq<
    (Seq<char>, Seq<PlanItemView>),
>
    decreases entries.len(),
{
    if entries.len() == 0 {
        Seq::empty()
    } else {
        let prev = spec_plan_of(entries.drop_last());
        let e = entries.last();
        if spec_valid_path(e.0) {
            spec_plan_push(
                prev,
                spec_path_interface(e.0),
                (spec_path_slave(e.0), (spec_path_point(e.0), e.1)),
            )
        } else {
            prev
        }
    }
}

/// The entry views of a list of paths to read.
pub open spec fn paths_view(paths: Seq<String>) -> Seq<(Seq<char>, Option<Scalar>)> {
    paths.map_values(|p: String| (p@, None::<Scalar>))
}

/// The entry views of a list of path-to-value assignments.
pub open spec fn entries_view(entries: Seq<(String, Scalar)>) -> Seq<(Seq<char>, Option<Scalar>)> {
    entries.map_values(|e: (String, Scalar)| (e.0@, Some(e.1)))
}

/// Groups a list of paths to read into a plan.
pub fn plan_paths(paths: &Vec<String>) -> (r: TaskPlan)
    ensures
        plan_view(r.todo_list@) == spec_plan_of(paths_view(paths@)),
{
    let mut plan = TaskPlan::new();
    let n = paths.len();
    let mut i: usize = 0;
    proof {
        assert(plan_view(plan.todo_list@) =~= spec_plan_of(paths_view(paths@.take(0))));
    }
    while i < n
        invariant
            i <= n,
            n == paths@.len(),
            plan_view(plan.todo_list@) == spec_plan_of(paths_view(paths@.take(i as int))),
        decreases n - i,
    {
        plan.push(paths[i].as_str(), None);
        proof {
            assert(paths_view(paths@.take(i + 1)).drop_last() =~= paths_view(
                paths@.take(i as int),
            ));
            assert(paths_view(paths@.take(i + 1)).last() == (paths@[i as int]@, None::<Scalar>));
        }
        i += 1;
    }
    proof {
        assert(paths@.take(n as int) =~= paths@);
    }
    plan
}

/// Groups a list of path-to-value assignments into a plan.
pub fn plan_entries(entries: &Vec<(String, Scalar)>) -> (r: TaskPlan)
    ensures
        plan_view(r.todo_list@) == spec_plan_of(entries_view(entries@)),
{
    let mut plan = TaskPlan::new();
    let n = entries.len();
    let mut i: usize = 0;
    proof {
        assert(plan_view(plan.todo_list@) =~= spec_plan_of(entries_view(entries@.take(0))));
    }
    while i < n
        invariant
            i <= n,
            n == entries@.len(),
            plan_view(plan.todo_list@) == spec_plan_of(entries_view(entries@.take(i as int))),
        decreases n - i,
    {
        plan.push(entries[i].0.as_str(), Some(entries[i].1));
        proof {
            assert(entries_view(entries@.take(i + 1)).drop_last() =~= entries_view(
                entries@.take(i as int),
            ));
            assert(entries_view(entries@.take(i + 1)).last() == (
                entries@[i as int].0@,
                Some(entries@[i as int].1),
            ));
        }
        i += 1;
    }
    proof {
        assert(entries@.take(n as int) =~= entries@);
    }
    plan
}

/// The first planned group whose interface the catalog does not know.
pub open spec fn spec_first_unknown(
    groups: Seq<(Seq<char>, Seq<PlanItemView>)>,
    catalog: Seq<(String, Interface)>,
) -> Option<Seq<char>>
    decreases groups.len(),
{
    if groups.len() == 0 {
        None
    } else if !assoc_has(catalog, groups[0].0) {
        Some(groups[0].0)
    } else {
        spec_first_unknown(groups.skip(1), catalog)
    }
}

/// Checks every planned group against the catalog; the whole request is
/// rejected when any group names an unknown interface, before any lookup or
/// I/O happens.
pub fn find_unknown_interface(plan: &TaskPlan, catalog: &Vec<(String, Interface)>) -> (r: Option<
    String,
>)
    ensures
        match r {
            Some(s) => spec_first_unknown(plan_view(plan.todo_list@), catalog@) == Some(s@),
            None => spec_first_unknown(plan_view(plan.todo_list@), catalog@) is None,
        },
{
    let n = plan.todo_list.len();
    let mut i: usize = 0;
    proof {
        assert(plan_view(plan.todo_list@).skip(0) =~= plan_view(plan.todo_list@));
    }
    while i < n
        invariant
            i <= n,
            n == plan.todo_list@.len(),
            spec_first_unknown(plan_view(plan.todo_list@), catalog@) == spec_first_unknown(
                plan_view(plan.todo_list@).skip(i as int),
                catalog@,
            ),
            forall|j: int| 0 <= j < i ==> assoc_has(catalog@, plan_view(plan.todo_list@)[j].0),
        decreases n - i,
    {
        if !assoc_contains(catalog, plan.todo_list[i].0.as_str()) {
            proof {
                let pv = plan_view(plan.todo_list@);
                assert(pv.skip(i as int)[0] == pv[i as int]);
            }
            return Some(plan.todo_list[i].0.clone());
        }
        proof {
            let pv = plan_view(plan.todo_list@);
            assert(pv.skip(i as int)[0] == pv[i as int]);
            assert(pv.skip(i as int).skip(1) =~= pv.skip(i as int + 1));
        }
        i += 1;
    }
    proof {
        assert(plan_view(plan.todo_list@).skip(n as int) =~= Seq::<
            (Seq<char>, Seq<PlanItemView>),
        >::empty());
    }
    None
}

/// The flat sequence of read results that the successful groups contribute,
/// in group order; failed groups contribute nothing.
pub open spec fn spec_flatten(
    outcomes: Seq<Result<Vec<(String, Scalar)>, ModbusError>>,
) -> Seq<(String, Scalar)>
    decreases outcomes.len(),
{
    if outcomes.len() == 0 {
        Seq::empty()
    } else {
        spec_flatten(outcomes.drop_last()) + (match outcomes.last() {
            Ok(v) => v@,
            Err(_) => Seq::empty(),
        })
    }
}

/// A failed group leaves the merged response exactly as it would be without
/// that group: one interface's transport failure never suppresses another
/// group's successful points.
pub proof fn lemma_failed_group_contributes_nothing(
    outcomes: Seq<Result<Vec<(String, Scalar)>, ModbusError>>,
    i: int,
)
    requires
        0 <= i < outcomes.len(),
        outcomes[i] is Err,
    ensures
        spec_flatten(outcomes) == spec_flatten(outcomes.remove(i)),
    decreases outcomes.len(),
{
    if i == outcomes.len() - 1 {
        assert(outcomes.remove(i) =~= outcomes.drop_last());
    } else {
        lemma_failed_group_contributes_nothing(outcomes.drop_last(), i);
        assert(outcomes.remove(i).drop_last() =~= outcomes.drop_last().remove(i));
        assert(outcomes.remove(i).last() == outcomes.last());
    }
}

/// The last value recorded under a point name, scanning from the end.
pub open spec fn items_rfind(items: Seq<(String, Scalar)>, key: Seq<char>) -> Option<Scalar>
    decreases items.len(),
{
    if items.len() == 0 {
        None
    } else if items.last().0@ == key {
        Some(items.last().1)
    } else {
        items_rfind(items.drop_last(), key)
    }
}

proof fn lemma_items_rfind_push(items: Seq<(String, Scalar)>, entry: (String, Scalar), key: Seq<char>)
    ensures
        items_rfind(items.push(entry), key) == (if entry.0@ == key {
            Some(entry.1)
        } else {
            items_rfind(items, key)
        }),
{
    assert(items.push(entry).last() == entry);
    assert(items.push(entry).drop_last() =~= items);
}

/// Merges the per-group outcomes into one flat response mapping keyed by
/// point name: every successful group contributes all of its results, a
/// later value for the same name overwrites an earlier one, and a failed
/// group is simply absent.
pub fn merge_group_results(outcomes: &Vec<Result<Vec<(String, Scalar)>, ModbusError>>) -> (r: Vec<
    (String, Scalar),
>)
    ensures
        forall|key: Seq<char>|
            #[trigger] assoc_find(r@, key) == items_rfind(spec_flatten(outcomes@), key),
{
    let mut out: Vec<(String, Scalar)> = Vec::new();
    let n = outcomes.len();
    let mut i: usize = 0;
    while i < n
        invariant
            i <= n,
            n == outcomes@.len(),
            forall|key: Seq<char>|
                #[trigger] assoc_find(out@, key) == items_rfind(
                    spec_flatten(outcomes@.take(i as int)),
                    key,
                ),
        decreases n - i,
    {
        match &outcomes[i] {
            Ok(items) => {
                let m = items.len();
                let mut j: usize = 0;
                while j < m
                    invariant
                        j <= m,
                        i < n,
                        n == outcomes@.len(),
                        m == items@.len(),
                        outcomes@[i as int] matches Ok(v) && v@ == items@,
                        forall|key: Seq<char>|
                            #[trigger] assoc_find(out@, key) == items_rfind(
                                spec_flatten(outcomes@.take(i as int)) + items@.take(j as int),
                                key,
                            ),
                    decreases m - j,
                {
                    let name = items[j].0.clone();
                    let value = items[j].1;
                    crate::assoc::assoc_insert(&mut out, name, value);
                    proof {
                        let flat = spec_flatten(outcomes@.take(i as int));
                        assert(flat + items@.take(j + 1) =~= (flat + items@.take(j as int)).push(
                            items@[j as int],
                        ));
                        assert forall|key: Seq<char>|
                            #[trigger] assoc_find(out@, key) == items_rfind(
                                flat + items@.take(j + 1),
                                key,
                            ) by {
                            lemma_items_rfind_push(
                                flat + items@.take(j as int),
                                items@[j as int],
                                key,
                            );
                        };
                    }
                    j += 1;
                }
                proof {
                    assert(outcomes@.take(i + 1).drop_last() =~= outcomes@.take(i as int));
                    assert(items@.take(m as int) =~= items@);
                    assert(spec_flatten(outcomes@.take(i + 1)) =~= spec_flatten(
                        outcomes@.take(i as int),
                    ) + items@);
                }
            },
            Err(_) => {
                proof {
                    assert(outcomes@.take(i + 1).drop_last() =~= outcomes@.take(i as int));
                    assert(spec_flatten(outcomes@.take(i + 1)) =~= spec_flatten(
                        outcomes@.take(i as int),
                    ));
                }
            },
        }
        i += 1;
    }
    proof {
        assert(outcomes@.take(n as int) =~= outcomes@);
    }
    out
}

/// One reply per request, by construction: each request screens to exactly
/// one of these, and a batch outcome folds into the data reply instead of
/// raising a second one.
pub enum Reply {
    TestEcho(String),
    GetResult(Vec<(String, Scalar)>),
    SetDone,
    Rejected(String),
}

/// What to do with one request: answer immediately, or run one batch per
/// planned group and then reply with the merged data.
pub enum RequestOutcome {
    Immediate(Reply),
    RunBatches { plan: TaskPlan, get_or_set: GetOrSet },
}

/// A request body, already read into library terms by the transport loop:
/// a plain string, an array of paths, an object of path-to-value
/// assignments, or anything else.
pub enum RequestBody {
    Text(String),
    Paths(Vec<String>),
    Entries(Vec<(String, Scalar)>),
    Malformed,
}

/// Screens one request: resolves the method name case-insensitively, builds
/// the plan for a read or write request, and rejects in one step a body of
/// the wrong shape, an unknown method, or a plan that names an interface
/// absent from the catalog. The test method echoes its body whether or not
/// the catalog knows the name.
pub fn screen_request(method: &str, body: RequestBody, catalog: &Vec<(String, Interface)>) -> (r:
    RequestOutcome)
    ensures
        ci_matches(method@, "TEST"@) ==> match body {
            RequestBody::Text(t) => r matches RequestOutcome::Immediate(Reply::TestEcho(s)) && s@
                == t@,
            _ => r matches RequestOutcome::Immediate(Reply::Rejected(c)) && c@ == "INVAILED TEST"@,
        },
        ci_matches(method@, "GET"@) ==> match body {
            RequestBody::Paths(ps) => ({
                let pv = spec_plan_of(paths_view(ps@));
                if spec_first_unknown(pv, catalog@) is Some {
                    r matches RequestOutcome::Immediate(Reply::Rejected(c)) && c@
                        == "INVAILED GET"@
                } else {
                    r matches RequestOutcome::RunBatches { plan, get_or_set } && plan_view(
                        plan.todo_list@,
                    ) == pv && get_or_set == GetOrSet::Read
                }
            }),
            _ => r matches RequestOutcome::Immediate(Reply::Rejected(c)) && c@ == "INVAILED GET"@,
        },
        ci_matches(method@, "SET"@) ==> match body {
            RequestBody::Entries(es) => ({
                let pv = spec_plan_of(entries_view(es@));
                if spec_first_unknown(pv, catalog@) is Some {
                    r matches RequestOutcome::Immediate(Reply::Rejected(c)) && c@
                        == "INVAILED SET"@
                } else {
                    r matches RequestOutcome::RunBatches { plan, get_or_set } && plan_view(
                        plan.todo_list@,
                    ) == pv && get_or_set == GetOrSet::Write
                }
            }),
            _ => r matches RequestOutcome::Immediate(Reply::Rejected(c)) && c@ == "INVAILED SET"@,
        },
        (!ci_matches(method@, "TEST"@) && !ci_matches(method@, "GET"@) && !ci_matches(
            method@,
            "SET"@,
        )) ==> (r matches RequestOutcome::Immediate(Reply::Rejected(c)) && c@
            == "INVAILED METHOD"@),
{
    match method_kind(method) {
        MethodKind::Test => match body {
            RequestBody::Text(t) => RequestOutcome::Immediate(Reply::TestEcho(t)),
            _ => RequestOutcome::Immediate(Reply::Rejected(str_to_string("INVAILED TEST"))),
        },
        MethodKind::GetPoints => match body {
            RequestBody::Paths(ps) => {
                let plan = plan_paths(&ps);
                match find_unknown_interface(&plan, catalog) {
                    Some(_) => RequestOutcome::Immediate(
                        Reply::Rejected(str_to_string("INVAILED GET")),
                    ),
                    None => RequestOutcome::RunBatches { plan, get_or_set: GetOrSet::Read },
                }
            },
            _ => RequestOutcome::Immediate(Reply::Rejected(str_to_string("INVAILED GET"))),
        },
        MethodKind::SetPoints => match body {
            RequestBody::Entries(es) => {
                let plan = plan_entries(&es);
                match find_unknown_interface(&plan, catalog) {
                    Some(_) => RequestOutcome::Immediate(
                        Reply::Rejected(str_to_string("INVAILED SET")),
                    ),
                    None => RequestOutcome::RunBatches { plan, get_or_set: GetOrSet::Write },
                }
            },
            _ => RequestOutcome::Immediate(Reply::Rejected(str_to_string("INVAILED SET"))),
        },
        MethodKind::Unknown => RequestOutcome::Immediate(
            Reply::Rejected(str_to_string("INVAILED METHOD")),
        ),
    }
}

fn str_to_string(s: &str) -> (r: String)
    ensures
        r@ == s@,
{
    s.to_owned()
}

/// Folds the per-group outcomes into the one data reply of the request: the
/// merged read results for a read request, the bare acknowledgment for a
/// write. Group failures never raise a reply of their own.
pub fn batch_reply(
    get_or_set: GetOrSet,
    outcomes: &Vec<Result<Vec<(String, Scalar)>, ModbusError>>,
) -> (r: Reply)
    ensures
        get_or_set == GetOrSet::Read ==> (r matches Reply::GetResult(merged)
            && (forall|key: Seq<char>|
            #[trigger] assoc_find(merged@, key) == items_rfind(spec_flatten(outcomes@), key))),
        get_or_set == GetOrSet::Write ==> r is SetDone,
{
    match get_or_set {
        GetOrSet::Read => Reply::GetResult(merge_group_results(outcomes)),
        GetOrSet::Write => Reply::SetDone,
    }
}

} // verus!
