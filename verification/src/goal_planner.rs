//! Goal selection: which actionable goal the autonomous loop pursues next,
//! and the JSON part of the planner's answers about goals.
//!
//! Priorities and deadlines are real numbers in the goal store.  Here each is
//! carried by an order key: an integer that orders the goals exactly as the
//! number does (a larger key is a larger priority, a smaller key an earlier
//! deadline).
use vstd::prelude::*;
use crate::tags::opt_str_is;
use crate::text::{chars_of, find, find_char, rfind_char, rfind_char_exec, slice_copy, string_of, trim, trim_exec};

verus! {

/// What goal selection reads of a goal.
pub struct GoalCandidate {
    pub id: String,
    /// Order key of the priority.
    pub priority_key: u64,
    /// Order key of the deadline, if the goal has one.
    pub deadline_key: Option<u64>,
}

/// The rank of a deadline: earlier deadlines first, no deadline last.
pub open spec fn deadline_rank(d: Option<u64>) -> int {
    match d {
        Some(x) => x as int,
        None => 0x1_0000_0000_0000_0000,
    }
}

/// `a` is ranked strictly before `b`: higher priority, or equal priority and an
/// earlier deadline (a goal with a deadline before one without).
pub open spec fn ranks_before(a: GoalCandidate, b: GoalCandidate) -> bool {
    ||| a.priority_key > b.priority_key
    ||| (a.priority_key == b.priority_key && deadline_rank(a.deadline_key) < deadline_rank(
        b.deadline_key,
    ))
}

/// `k` is the goal that comes first when the goals are sorted stably by rank:
/// no goal ranks before it, and every goal listed before it ranks after it.
pub open spec fn is_first_best(goals: Seq<GoalCandidate>, k: int) -> bool {
    &&& 0 <= k < goals.len()
    &&& forall|j: int| 0 <= j < goals.len() ==> !ranks_before(#[trigger] goals[j], goals[k])
    &&& forall|j: int| 0 <= j < k ==> ranks_before(goals[k], #[trigger] goals[j])
}

/// The goal that comes first has the highest priority key of all; among the
/// goals of that priority it has a deadline if any of them has one, and then
/// the earliest; and every goal listed before it has a lower priority, or the
/// same priority and no deadline or a later one.
pub proof fn law_first_best_order(goals: Seq<GoalCandidate>, k: int)
    requires
        is_first_best(goals, k),
    ensures
        forall|j: int|
            0 <= j < goals.len() ==> #[trigger] goals[j].priority_key <= goals[k].priority_key,
        forall|j: int|
            0 <= j < goals.len() && goals[j].priority_key == goals[k].priority_key
                && #[trigger] goals[j].deadline_key is Some ==> goals[k].deadline_key is Some
                && goals[k].deadline_key->0 <= goals[j].deadline_key->0,
        forall|j: int|
            0 <= j < k ==> (#[trigger] goals[j]).priority_key < goals[k].priority_key || (
            goals[j].priority_key == goals[k].priority_key && goals[k].deadline_key is Some && (
            goals[j].deadline_key is None || goals[k].deadline_key->0
                < goals[j].deadline_key->0)),
{
    assert forall|j: int| 0 <= j < goals.len() implies #[trigger] goals[j].priority_key
        <= goals[k].priority_key by {
        assert(!ranks_before(goals[j], goals[k]));
    }
    assert forall|j: int|
        0 <= j < goals.len() && goals[j].priority_key == goals[k].priority_key
            && #[trigger] goals[j].deadline_key is Some implies goals[k].deadline_key is Some
        && goals[k].deadline_key->0 <= goals[j].deadline_key->0 by {
        assert(!ranks_before(goals[j], goals[k]));
    }
    assert forall|j: int| 0 <= j < k implies (#[trigger] goals[j]).priority_key
        < goals[k].priority_key || (goals[j].priority_key == goals[k].priority_key
        && goals[k].deadline_key is Some && (goals[j].deadline_key is None
        || goals[k].deadline_key->0 < goals[j].deadline_key->0)) by {
        assert(ranks_before(goals[k], goals[j]));
    }
}

fn ranks_before_exec(a: &GoalCandidate, b: &GoalCandidate) -> (r: bool)
    ensures
        r == ranks_before(*a, *b),
{
    if a.priority_key != b.priority_key {
        return a.priority_key > b.priority_key;
    }
    match (a.deadline_key, b.deadline_key) {
        (Some(x), Some(y)) => x < y,
        (Some(_), None) => true,
        _ => false,
    }
}

/// Select the highest-priority actionable goal: the first one in the stable
/// order by priority (highest first), then deadline (earliest first, goals
/// without a deadline last).  Returns its ID, or `None` when there are no goals.
pub fn select_goal(actionable: &[GoalCandidate]) -> (r: Option<String>)
    ensures
        actionable@.len() == 0 <==> r is None,
        r matches Some(id) ==> exists|k: int|
            is_first_best(actionable@, k) && id@ == #[trigger] actionable@[k].id@,
        r matches Some(id) ==> exists|k: int|
            0 <= k < actionable@.len() && id@ == #[trigger] actionable@[k].id@ && (forall|j: int|
                0 <= j < actionable@.len() ==> #[trigger] actionable@[j].priority_key
                    <= actionable@[k].priority_key) && (forall|j: int|
                0 <= j < actionable@.len() && actionable@[j].priority_key
                    == actionable@[k].priority_key && #[trigger] actionable@[j].deadline_key
                    is Some ==> actionable@[k].deadline_key is Some
                    && actionable@[k].deadline_key->0 <= actionable@[j].deadline_key->0),
{
    if actionable.len() == 0 {
        return None;
    }
    let mut best: usize = 0;
    let mut i: usize = 1;
    while i < actionable.len()
        invariant
            1 <= i <= actionable@.len(),
            best < i,
            forall|j: int| 0 <= j < i ==> !ranks_before(#[trigger] actionable@[j], actionable@[best as int]),
            forall|j: int| 0 <= j < best ==> ranks_before(actionable@[best as int], #[trigger] actionable@[j]),
        decreases actionable.len() - i,
    {
        if ranks_before_exec(&actionable[i], &actionable[best]) {
            best = i;
        }
        i = i + 1;
    }
    let id = actionable[best].id.clone();
    assert(is_first_best(actionable@, best as int));
    proof {
        law_first_best_order(actionable@, best as int);
    }
    assert(id@ == actionable@[best as int].id@);
    Some(id)
}

// ───────────────────────── the planner's answers ─────────────────────────

/// The JSON part of an answer: the trimmed text from its first `open` to its
/// last `close`, both included; `None` when either is missing.
pub open spec fn spec_json_span(text: Seq<char>, open: char, close: char) -> Option<Seq<char>> {
    let t = trim(text);
    match find(t, seq![open]) {
        Some(a) => match rfind_char(t, close) {
            Some(b) => Some(t.subrange(a, b + 1)),
            None => None,
        },
        None => None,
    }
}

/// The last `close` does not stand before the first `open` by more than one
/// place, so the span between them can be cut out.
pub open spec fn json_span_ordered(text: Seq<char>, open: char, close: char) -> bool {
    let t = trim(text);
    match find(t, seq![open]) {
        Some(a) => match rfind_char(t, close) {
            Some(b) => a <= b + 1,
            None => true,
        },
        None => true,
    }
}

/// The JSON part of an answer, from its first `open` to its last `close`.
pub fn json_span(text: &str, open: char, close: char) -> (r: Option<String>)
    requires
        json_span_ordered(text@, open, close),
    ensures
        opt_str_is(r, spec_json_span(text@, open, close)),
{
    let c = chars_of(text);
    let t = trim_exec(c.as_slice());
    let a = match find_char(t.as_slice(), open) {
        Some(a) => a,
        None => return None,
    };
    let b = match rfind_char_exec(t.as_slice(), close) {
        Some(b) => b,
        None => return None,
    };
    let tl = t.len();
    assert(b < tl);
    assert(t@ == trim(text@));
    let span = slice_copy(t.as_slice(), a, b + 1);
    Some(string_of(span.as_slice()))
}

} // verus!
