//! Wave-based scheduling of a plan's tasks that respects `depends_on`.
//!
//! Wave 0 dispatches the tasks with no unmet dependency; each later wave
//! dispatches the tasks whose dependencies all completed in earlier waves.  When
//! no remaining task is ready the rest are dispatched anyway (their
//! dependencies can never be met), and scheduling stops.  At most 20 waves run.
use vstd::prelude::*;
use crate::models::strings_view;
use crate::text::{chars_of, eq_chars};

verus! {

/// One task of a plan.
pub struct AgentTask {
    pub task_id: String,
    pub tool_type: String,
    pub description: String,
    pub depends_on: Vec<String>,
}

/// The greatest number of waves a plan runs.
pub const MAX_WAVES: usize = 20;

/// Every dependency in `deps` is among the completed task ids `done`.
pub open spec fn deps_met(deps: Seq<Seq<char>>, done: Seq<Seq<char>>) -> bool {
    forall|i: int| 0 <= i < deps.len() ==> done.contains(#[trigger] deps[i])
}

/// Task `t` may run once the tasks `done` have completed.
pub open spec fn task_ready(t: AgentTask, done: Seq<Seq<char>>) -> bool {
    deps_met(strings_view(t.depends_on@), done)
}

/// The ready tasks of `ts`, in order.
pub open spec fn ready_part(ts: Seq<AgentTask>, done: Seq<Seq<char>>) -> Seq<AgentTask>
    decreases ts.len(),
{
    if ts.len() == 0 {
        ts
    } else if task_ready(ts.last(), done) {
        ready_part(ts.drop_last(), done).push(ts.last())
    } else {
        ready_part(ts.drop_last(), done)
    }
}

/// The tasks of `ts` that are not ready, in order.
pub open spec fn blocked_part(ts: Seq<AgentTask>, done: Seq<Seq<char>>) -> Seq<AgentTask>
    decreases ts.len(),
{
    if ts.len() == 0 {
        ts
    } else if task_ready(ts.last(), done) {
        blocked_part(ts.drop_last(), done)
    } else {
        blocked_part(ts.drop_last(), done).push(ts.last())
    }
}

/// Splitting a list into its ready and blocked tasks loses and invents nothing:
/// the two parts hold exactly the tasks of the list, every ready task is ready
/// and every blocked task is not.
pub proof fn lemma_partition(ts: Seq<AgentTask>, done: Seq<Seq<char>>)
    ensures
        ready_part(ts, done).len() + blocked_part(ts, done).len() == ts.len(),
        ready_part(ts, done).to_multiset().add(blocked_part(ts, done).to_multiset())
            =~= ts.to_multiset(),
        forall|i: int|
            0 <= i < ready_part(ts, done).len() ==> task_ready(
                #[trigger] ready_part(ts, done)[i],
                done,
            ),
        forall|i: int|
            0 <= i < blocked_part(ts, done).len() ==> !task_ready(
                #[trigger] blocked_part(ts, done)[i],
                done,
            ),
    decreases ts.len(),
{
    broadcast use vstd::seq_lib::group_to_multiset_ensures;

    if ts.len() > 0 {
        lemma_partition(ts.drop_last(), done);
        assert(ts.drop_last().push(ts.last()) =~= ts);
        let r = ready_part(ts.drop_last(), done);
        let b = blocked_part(ts.drop_last(), done);
        if task_ready(ts.last(), done) {
            assert forall|i: int| 0 <= i < r.push(ts.last()).len() implies task_ready(
                #[trigger] r.push(ts.last())[i],
                done,
            ) by {
                if i < r.len() {
                    assert(r.push(ts.last())[i] == r[i]);
                }
            }
        } else {
            assert forall|i: int| 0 <= i < b.push(ts.last()).len() implies !task_ready(
                #[trigger] b.push(ts.last())[i],
                done,
            ) by {
                if i < b.len() {
                    assert(b.push(ts.last())[i] == b[i]);
                }
            }
        }
    }
}

/// Whether `id` is among `done`.
fn contains_id(done: &Vec<String>, id: &[char]) -> (r: bool)
    ensures
        r == strings_view(done@).contains(id@),
{
    let mut i: usize = 0;
    while i < done.len()
        invariant
            i <= done@.len(),
            forall|j: int| 0 <= j < i ==> strings_view(done@)[j] != id@,
        decreases done.len() - i,
    {
        let d = chars_of(done[i].as_str());
        if eq_chars(d.as_slice(), id) {
            assert(strings_view(done@)[i as int] == id@);
            return true;
        }
        i = i + 1;
    }
    assert(!strings_view(done@).contains(id@)) by {
        if strings_view(done@).contains(id@) {
            let j = choose|j: int| 0 <= j < done@.len() && strings_view(done@)[j] == id@;
        }
    }
    false
}

/// Whether every dependency of `t` is among `done`.
pub fn is_ready(t: &AgentTask, done: &Vec<String>) -> (r: bool)
    ensures
        r == task_ready(*t, strings_view(done@)),
        r <==> forall|j: int|
            0 <= j < t.depends_on@.len() ==> strings_view(done@).contains(
                #[trigger] t.depends_on@[j]@,
            ),
{
    let mut i: usize = 0;
    while i < t.depends_on.len()
        invariant
            i <= t.depends_on@.len(),
            forall|j: int|
                0 <= j < i ==> strings_view(done@).contains(
                    #[trigger] strings_view(t.depends_on@)[j],
                ),
        decreases t.depends_on.len() - i,
    {
        let d = chars_of(t.depends_on[i].as_str());
        assert(strings_view(t.depends_on@)[i as int] == d@);
        if !contains_id(done, d.as_slice()) {
            assert(!deps_met(strings_view(t.depends_on@), strings_view(done@)));
            assert(!strings_view(done@).contains(t.depends_on@[i as int]@));
            return false;
        }
        i = i + 1;
    }
    assert forall|j: int| 0 <= j < t.depends_on@.len() implies strings_view(done@).contains(
        #[trigger] t.depends_on@[j]@,
    ) by {
        assert(strings_view(t.depends_on@)[j] == t.depends_on@[j]@);
    }
    true
}

/// Split `tasks` into the ready ones and the blocked ones, each in order.
pub fn partition_ready(tasks: Vec<AgentTask>, done: &Vec<String>) -> (r: (
    Vec<AgentTask>,
    Vec<AgentTask>,
))
    ensures
        r.0@ == ready_part(tasks@, strings_view(done@)),
        r.1@ == blocked_part(tasks@, strings_view(done@)),
{
    let ghost all = tasks@;
    let ghost d = strings_view(done@);
    let mut ready: Vec<AgentTask> = Vec::new();
    let mut blocked: Vec<AgentTask> = Vec::new();
    let ghost n = all.len();
    assert(n == tasks.len());
    let mut src = tasks;
    let mut rest: Vec<AgentTask> = Vec::new();
    while src.len() > 0
        invariant
            all.len() == n,
            n <= usize::MAX,
            src@.len() + rest@.len() == n,
            src@ == all.subrange(0, src@.len() as int),
            forall|j: int| 0 <= j < rest@.len() ==> #[trigger] rest@[j] == all[n - 1 - j],
        decreases src.len(),
    {
        let t = src.pop().unwrap();
        rest.push(t);
    }
    let mut i: usize = 0;
    while rest.len() > 0
        invariant
            all.len() == n,
            n <= usize::MAX,
            i + rest@.len() == n,
            forall|j: int| 0 <= j < rest@.len() ==> #[trigger] rest@[j] == all[n - 1 - j],
            ready@ == ready_part(all.subrange(0, i as int), d),
            blocked@ == blocked_part(all.subrange(0, i as int), d),
            d == strings_view(done@),
        decreases rest.len(),
    {
        let t = rest.pop().unwrap();
        assert(t == all[i as int]);
        assert(all.subrange(0, i + 1).drop_last() =~= all.subrange(0, i as int));
        assert(all.subrange(0, i + 1).last() == t);
        if is_ready(&t, done) {
            ready.push(t);
        } else {
            blocked.push(t);
        }
        i = i + 1;
    }
    assert(all.subrange(0, n as int) =~= all);
    (ready, blocked)
}

/// What the scheduler asks the runtime to do next.
pub enum WaveStep {
    /// Dispatch these ready tasks in parallel, then report the ids that completed.
    Run(Vec<AgentTask>),
    /// No remaining task can become ready: dispatch them all anyway; this is the
    /// last wave.
    ForceRun(Vec<AgentTask>),
    /// Nothing is left to dispatch.
    Finished,
}

/// The scheduling state of one plan.
pub struct PlanScheduler {
    /// Tasks not dispatched yet, in plan order.
    pub remaining: Vec<AgentTask>,
    /// Ids of the tasks that completed.
    pub completed: Vec<String>,
    /// Waves dispatched so far.
    pub wave: usize,
    /// Scheduling has ended.
    pub stopped: bool,
}

impl PlanScheduler {
    /// The state for a fresh plan.
    pub fn new(tasks: Vec<AgentTask>) -> (r: PlanScheduler)
        ensures
            r.remaining@ == tasks@,
            r.completed@.len() == 0,
            r.wave == 0,
            !r.stopped,
    {
        PlanScheduler { remaining: tasks, completed: Vec::new(), wave: 0, stopped: false }
    }

    /// Decide the next wave.  When scheduling has ended, nothing remains, or the
    /// wave limit is reached: `Finished`.  Otherwise the ready tasks are
    /// dispatched and the blocked ones kept; if none is ready, all remaining
    /// tasks are force-dispatched and scheduling ends.
    pub fn next_wave(&mut self) -> (r: WaveStep)
        ensures
            final(self).completed@ == old(self).completed@,
            ({
                let done = strings_view(old(self).completed@);
                let ready = ready_part(old(self).remaining@, done);
                let blocked = blocked_part(old(self).remaining@, done);
                if old(self).stopped || old(self).remaining@.len() == 0 || old(self).wave
                    >= MAX_WAVES {
                    &&& r is Finished
                    &&& final(self).stopped
                    &&& final(self).remaining@ == old(self).remaining@
                    &&& final(self).wave == old(self).wave
                } else if ready.len() == 0 {
                    &&& r matches WaveStep::ForceRun(v) && v@ == old(self).remaining@
                    &&& final(self).stopped
                    &&& final(self).remaining@.len() == 0
                    &&& final(self).wave == old(self).wave + 1
                } else {
                    &&& r matches WaveStep::Run(v) && v@ == ready && (forall|i: int, j: int|
                        0 <= i < v@.len() && 0 <= j < v@[i].depends_on@.len() ==> done.contains(
                            #[trigger] v@[i].depends_on@[j]@,
                        ))
                    &&& !final(self).stopped
                    &&& final(self).remaining@ == blocked
                    &&& final(self).wave == old(self).wave + 1
                }
            }),
    {
        if self.stopped || self.remaining.len() == 0 || self.wave >= MAX_WAVES {
            self.stopped = true;
            return WaveStep::Finished;
        }
        let mut tasks: Vec<AgentTask> = Vec::new();
        std::mem::swap(&mut tasks, &mut self.remaining);
        let ghost all = tasks@;
        let (ready, blocked) = partition_ready(tasks, &self.completed);
        self.wave = self.wave + 1;
        if ready.len() == 0 {
            proof {
                lemma_partition(all, strings_view(self.completed@));
            }
            assert(blocked@ =~= all) by {
                lemma_blocked_all(all, strings_view(self.completed@));
            }
            self.stopped = true;
            WaveStep::ForceRun(blocked)
        } else {
            proof {
                law_wave_waits_for_every_dependency(all, strings_view(self.completed@));
            }
            self.remaining = blocked;
            WaveStep::Run(ready)
        }
    }

    /// Record that the task `task_id` completed.
    pub fn record_completed(&mut self, task_id: String)
        ensures
            final(self).completed@ == old(self).completed@.push(task_id),
            final(self).remaining@ == old(self).remaining@,
            final(self).wave == old(self).wave,
            final(self).stopped == old(self).stopped,
    {
        self.completed.push(task_id);
    }
}

/// A task is dispatched in a wave only once every one of its dependencies, not
/// merely the first, has completed: each task of the ready part has all of its
/// `depends_on` among `done`, and each task of the blocked part has one that is
/// not.
pub proof fn law_wave_waits_for_every_dependency(ts: Seq<AgentTask>, done: Seq<Seq<char>>)
    ensures
        forall|i: int, j: int|
            0 <= i < ready_part(ts, done).len() && 0 <= j < ready_part(
                ts,
                done,
            )[i].depends_on@.len() ==> done.contains(
                #[trigger] ready_part(ts, done)[i].depends_on@[j]@,
            ),
        forall|i: int|
            0 <= i < blocked_part(ts, done).len() ==> (#[trigger] blocked_part(
                ts,
                done,
            )[i]).depends_on@.len() > 0 && !(forall|j: int|
                0 <= j < blocked_part(ts, done)[i].depends_on@.len() ==> done.contains(
                    #[trigger] blocked_part(ts, done)[i].depends_on@[j]@,
                )),
{
    lemma_partition(ts, done);
    assert forall|i: int, j: int|
        0 <= i < ready_part(ts, done).len() && 0 <= j < ready_part(
            ts,
            done,
        )[i].depends_on@.len() implies done.contains(
        #[trigger] ready_part(ts, done)[i].depends_on@[j]@,
    ) by {
        let t = ready_part(ts, done)[i];
        assert(task_ready(t, done));
        assert(strings_view(t.depends_on@)[j] == t.depends_on@[j]@);
    }
    assert forall|i: int|
        0 <= i < blocked_part(ts, done).len() implies (#[trigger] blocked_part(
            ts,
            done,
        )[i]).depends_on@.len() > 0 && !(forall|j: int|
            0 <= j < blocked_part(ts, done)[i].depends_on@.len() ==> done.contains(
                #[trigger] blocked_part(ts, done)[i].depends_on@[j]@,
            )) by {
        let t = blocked_part(ts, done)[i];
        lemma_unready_has_unmet(t, done);
        let j = choose|j: int|
            #![trigger t.depends_on@[j]]
            0 <= j < t.depends_on@.len() && !done.contains(t.depends_on@[j]@);
        assert(!done.contains(blocked_part(ts, done)[i].depends_on@[j]@));
    }
}

/// A task that is not ready has a dependency outside `done`.
proof fn lemma_unready_has_unmet(t: AgentTask, done: Seq<Seq<char>>)
    requires
        !task_ready(t, done),
    ensures
        exists|j: int|
            #![trigger t.depends_on@[j]]
            0 <= j < t.depends_on@.len() && !done.contains(t.depends_on@[j]@),
{
    let j = choose|j: int|
        0 <= j < strings_view(t.depends_on@).len() && !done.contains(
            #[trigger] strings_view(t.depends_on@)[j],
        );
    assert(strings_view(t.depends_on@)[j] == t.depends_on@[j]@);
}

/// When no task is ready, the blocked part is the whole list.
pub proof fn lemma_blocked_all(ts: Seq<AgentTask>, done: Seq<Seq<char>>)
    requires
        ready_part(ts, done).len() == 0,
    ensures
        blocked_part(ts, done) == ts,
    decreases ts.len(),
{
    if ts.len() > 0 {
        if task_ready(ts.last(), done) {
            assert(ready_part(ts, done).len() > 0);
        } else {
            lemma_blocked_all(ts.drop_last(), done);
            assert(ts.drop_last().push(ts.last()) =~= ts);
        }
    }
}

} // verus!
