//! The dispatcher: walks a plan in order, applies the exclude and only
//! filters at the per-member boundary, and stops issuing steps at the
//! first reported failure.  The runner outside the library asks for the
//! next step, performs it, and reports the outcome.

use vstd::prelude::*;
use crate::plan::{Scope, ScopeView, Step, StepView, plan_view};
use crate::strings::{str_eq, views};

verus! {

/// Whether `name` stands in `list`.
pub open spec fn spec_name_in(list: Seq<Seq<char>>, name: Seq<char>) -> bool {
    exists|i: int| 0 <= i < list.len() && list[i] == name
}

fn name_in(list: &Vec<String>, name: &str) -> (r: bool)
    ensures
        r == spec_name_in(views(list@), name@),
{
    let ghost lv = views(list@);
    let mut i: usize = 0;
    while i < list.len()
        invariant
            i <= list@.len(),
            lv == views(list@),
            lv.len() == list@.len(),
            forall|k: int| 0 <= k < i ==> lv[k] != name@,
        decreases list@.len() - i,
    {
        if str_eq(list[i].as_str(), name) {
            proof {
                assert(lv[i as int] == name@);
            }
            return true;
        }
        i += 1;
    }
    false
}

/// The per-member filters admit a name iff it is not excluded and, when
/// the only list is non-empty, it is named there.
pub open spec fn spec_member_selected(
    name: Seq<char>,
    exclude: Seq<Seq<char>>,
    only: Seq<Seq<char>>,
) -> bool {
    !spec_name_in(exclude, name) && (only.len() == 0 || spec_name_in(only, name))
}

/// Decides the per-member filters for one member name.
pub fn member_selected(name: &String, exclude: &Vec<String>, only: &Vec<String>) -> (r: bool)
    ensures
        r == spec_member_selected(name@, views(exclude@), views(only@)),
{
    if name_in(exclude, name.as_str()) {
        return false;
    }
    if only.len() == 0 {
        return true;
    }
    name_in(only, name.as_str())
}

/// Whether a step is issued under the filters: a run scoped to one member
/// goes through the per-member filter; every other step always runs.
pub open spec fn spec_step_selected(
    s: StepView,
    exclude: Seq<Seq<char>>,
    only: Seq<Seq<char>>,
) -> bool {
    match s {
        StepView::Run(inv) => match inv.scope {
            ScopeView::Member { name } => spec_member_selected(name, exclude, only),
            _ => true,
        },
        _ => true,
    }
}

fn step_selected(s: &Step, exclude: &Vec<String>, only: &Vec<String>) -> (r: bool)
    ensures
        r == spec_step_selected(s@, views(exclude@), views(only@)),
{
    match s {
        Step::Run(inv) => match &inv.scope {
            Scope::Member { name } => member_selected(name, exclude, only),
            Scope::Workspace => true,
        },
        _ => true,
    }
}

/// The first selected step at or after `from`, if any.
pub open spec fn spec_first_selected(
    plan: Seq<StepView>,
    exclude: Seq<Seq<char>>,
    only: Seq<Seq<char>>,
    from: int,
) -> Option<int>
    decreases plan.len() - from,
{
    if from < 0 || from >= plan.len() {
        None
    } else if spec_step_selected(plan[from], exclude, only) {
        Some(from)
    } else {
        spec_first_selected(plan, exclude, only, from + 1)
    }
}

/// Walks a plan in order under the filters, fail-fast.
pub struct Dispatcher {
    pub plan: Vec<Step>,
    pub exclude: Vec<String>,
    pub only: Vec<String>,
    pub next: usize,
    pub halted: bool,
}

/// What the dispatcher issues next: nothing once halted, else the first
/// selected step it has not yet issued.
pub open spec fn spec_next_step(d: Dispatcher) -> Option<int> {
    if d.halted {
        None
    } else {
        spec_first_selected(plan_view(d.plan@), views(d.exclude@), views(d.only@), d.next as int)
    }
}

/// The dispatcher after an outcome is reported: a failure halts it for
/// good; a success changes nothing.
pub open spec fn spec_report(d: Dispatcher, success: bool) -> Dispatcher {
    Dispatcher {
        plan: d.plan,
        exclude: d.exclude,
        only: d.only,
        next: d.next,
        halted: d.halted || !success,
    }
}

impl Dispatcher {
    /// A fresh dispatcher over `plan` with the given filters.
    pub fn new(plan: Vec<Step>, exclude: Vec<String>, only: Vec<String>) -> (r: Dispatcher)
        ensures
            r.plan == plan,
            r.exclude == exclude,
            r.only == only,
            r.next == 0,
            !r.halted,
    {
        Dispatcher { plan, exclude, only, next: 0, halted: false }
    }

    /// The index of the next step to perform, advancing past it; `None`
    /// once the plan is exhausted or a failure was reported.  Steps the
    /// filters reject are skipped silently.
    pub fn next_step(&mut self) -> (r: Option<usize>)
        ensures
            r matches Some(i) ==> {
                &&& spec_next_step(*old(self)) == Some(i as int)
                &&& i < old(self).plan@.len()
                &&& final(self).next == i + 1
                &&& final(self).plan == old(self).plan
                &&& final(self).exclude == old(self).exclude
                &&& final(self).only == old(self).only
                &&& final(self).halted == old(self).halted
            },
            r is None ==> {
                &&& spec_next_step(*old(self)) is None
                &&& *final(self) == *old(self)
            },
    {
        if self.halted {
            return None;
        }
        let ghost pv = plan_view(self.plan@);
        let ghost ex = views(self.exclude@);
        let ghost on = views(self.only@);
        let mut i: usize = if self.next <= self.plan.len() {
            self.next
        } else {
            self.plan.len()
        };
        while i < self.plan.len()
            invariant
                *self == *old(self),
                !self.halted,
                i <= self.plan@.len(),
                pv == plan_view(self.plan@),
                ex == views(self.exclude@),
                on == views(self.only@),
                spec_first_selected(pv, ex, on, self.next as int) == spec_first_selected(
                    pv,
                    ex,
                    on,
                    i as int,
                ),
            decreases self.plan@.len() - i,
        {
            if step_selected(&self.plan[i], &self.exclude, &self.only) {
                proof {
                    assert(spec_first_selected(pv, ex, on, i as int) == Some(i as int));
                }
                self.next = i + 1;
                return Some(i);
            }
            i += 1;
        }
        None
    }

    /// A borrow of the step at `i`.
    pub fn step_at(&self, i: usize) -> (r: &Step)
        requires
            i < self.plan@.len(),
        ensures
            r@ == plan_view(self.plan@)[i as int],
    {
        &self.plan[i]
    }

    /// Records the outcome of the step last issued.
    pub fn report(&mut self, success: bool)
        ensures
            *final(self) == spec_report(*old(self), success),
    {
        if !success {
            self.halted = true;
        }
    }
}

/// Fail-fast: after a failure is reported, the dispatcher issues nothing
/// more, whatever still stands in the plan — later members and later
/// phases of a composite command are never reached.
pub proof fn lemma_fail_fast(d: Dispatcher)
    ensures
        spec_report(d, false).halted,
        spec_next_step(spec_report(d, false)) is None,
{
}

/// A success leaves the dispatcher exactly as it was.
pub proof fn lemma_success_continues(d: Dispatcher)
    ensures
        spec_report(d, true) == d,
{
}

} // verus!
