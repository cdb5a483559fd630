//! The display list: which top-level tasks a filter shows, and in what order.
use vstd::prelude::*;
use crate::task::{Date, Task, is_top_level};

verus! {

/// Which top-level tasks are shown.
#[derive(Debug)]
pub enum Filter {
    All,
    Today,
    Overdue,
    ProjectId(String),
}

/// `t` is shown at top level under `filter` when the local date is `today`.
pub open spec fn shown(t: Task, filter: Filter, today: Date) -> bool {
    is_top_level(t) && match filter {
        Filter::All => true,
        Filter::Today => t.due is Some && t.due.unwrap().date == today,
        Filter::Overdue => t.due is Some && t.due.unwrap().date.before(today),
        Filter::ProjectId(p) => t.project_id@ == p@,
    }
}

/// The store indices of the tasks of `tasks` that `filter` shows, in store order.
pub open spec fn display_spec(tasks: Seq<Task>, filter: Filter, today: Date) -> Seq<usize>
    decreases tasks.len(),
{
    if tasks.len() == 0 {
        Seq::empty()
    } else {
        let rest = display_spec(tasks.drop_last(), filter, today);
        if shown(tasks.last(), filter, today) {
            rest.push((tasks.len() - 1) as usize)
        } else {
            rest
        }
    }
}

/// Position `a` of `ids` comes before position `b` when listing by
/// descending priority, ties kept in the order of `ids`.
pub open spec fn ranks_before(tasks: Seq<Task>, ids: Seq<usize>, a: int, b: int) -> bool {
    tasks[ids[a] as int].priority > tasks[ids[b] as int].priority || (tasks[ids[a] as int].priority
        == tasks[ids[b] as int].priority && a < b)
}

/// `perm` lists every position of `ids` once, by descending priority, ties
/// in the order of `ids`.
pub open spec fn stable_order(tasks: Seq<Task>, ids: Seq<usize>, perm: Seq<usize>) -> bool {
    &&& perm.len() == ids.len()
    &&& perm.no_duplicates()
    &&& forall|i: int| 0 <= i < perm.len() ==> #[trigger] perm[i] < ids.len()
    &&& forall|i: int, j: int|
        0 <= i < j < perm.len() ==> ranks_before(tasks, ids, #[trigger] perm[i] as int, #[trigger] perm[j] as int)
}

/// `r` is `ids` stably sorted by descending priority: a rearrangement of
/// `ids` in which entries of equal priority keep their order in `ids`.
pub open spec fn sorted_by_priority(tasks: Seq<Task>, ids: Seq<usize>, r: Seq<usize>) -> bool {
    exists|perm: Seq<usize>|
        #[trigger] stable_order(tasks, ids, perm) && r.len() == perm.len() && forall|i: int|
            0 <= i < r.len() ==> r[i] == ids[perm[i] as int]
}

/// Every entry of `s` is an index into `tasks`.
pub open spec fn indices_in(tasks: Seq<Task>, s: Seq<usize>) -> bool {
    forall|i: int| 0 <= i < s.len() ==> #[trigger] s[i] < tasks.len()
}

/// The entries of `s` increase strictly.
pub open spec fn strictly_increasing(s: Seq<usize>) -> bool {
    forall|i: int, j: int| 0 <= i < j < s.len() ==> #[trigger] s[i] < #[trigger] s[j]
}

/// The display list holds indices into the store, in strictly increasing
/// order, and only of top-level tasks that the filter shows.
pub proof fn lemma_display_spec_shape(tasks: Seq<Task>, filter: Filter, today: Date)
    requires
        tasks.len() <= usize::MAX,
    ensures
        indices_in(tasks, display_spec(tasks, filter, today)),
        strictly_increasing(display_spec(tasks, filter, today)),
        forall|i: int|
            0 <= i < display_spec(tasks, filter, today).len() ==> shown(
                tasks[#[trigger] display_spec(tasks, filter, today)[i] as int],
                filter,
                today,
            ),
    decreases tasks.len(),
{
    if tasks.len() > 0 {
        let rest = tasks.drop_last();
        lemma_display_spec_shape(rest, filter, today);
        let r = display_spec(rest, filter, today);
        assert forall|i: int| 0 <= i < r.len() implies tasks[r[i] as int] == rest[r[i] as int] by {}
        if shown(tasks.last(), filter, today) {
            let last = (tasks.len() - 1) as usize;
            let d = r.push(last);
            assert(d == display_spec(tasks, filter, today));
            assert forall|i: int, j: int| 0 <= i < j < d.len() implies #[trigger] d[i] < #[trigger] d[j] by {
                if j < r.len() {
                    assert(d[i] == r[i] && d[j] == r[j]);
                } else {
                    assert(d[i] == r[i]);
                }
            }
            assert forall|i: int| 0 <= i < d.len() implies shown(tasks[#[trigger] d[i] as int], filter, today) by {
                if i < r.len() {
                    assert(d[i] == r[i]);
                }
            }
        }
    }
}

/// No task with a parent is ever in a display list, whatever the filter and
/// the store.
pub proof fn lemma_display_only_top_level(tasks: Seq<Task>, filter: Filter, today: Date)
    requires
        tasks.len() <= usize::MAX,
    ensures
        forall|i: int|
            0 <= i < display_spec(tasks, filter, today).len() ==> is_top_level(
                tasks[#[trigger] display_spec(tasks, filter, today)[i] as int],
            ),
{
    lemma_display_spec_shape(tasks, filter, today);
}

/// Whether `filter` shows `t` when the local date is `today`.
pub fn is_shown(t: &Task, filter: &Filter, today: &Date) -> (r: bool)
    ensures
        r == shown(*t, *filter, *today),
{
    if t.parent_id.is_some() {
        return false;
    }
    match filter {
        Filter::All => true,
        Filter::Today => match &t.due {
            Some(d) => d.date == *today,
            None => false,
        },
        Filter::Overdue => match &t.due {
            Some(d) => d.date.is_before(today),
            None => false,
        },
        Filter::ProjectId(p) => t.project_id.eq(p),
    }
}

/// The indices of the tasks that `filter` shows, in store order.
pub fn filter_indices(tasks: &Vec<Task>, filter: &Filter, today: &Date) -> (r: Vec<usize>)
    ensures
        r@ == display_spec(tasks@, *filter, *today),
{
    let mut r: Vec<usize> = Vec::new();
    let mut i: usize = 0;
    while i < tasks.len()
        invariant
            i <= tasks@.len(),
            r@ == display_spec(tasks@.take(i as int), *filter, *today),
        decreases tasks@.len() - i,
    {
        assert(tasks@.take(i + 1).drop_last() =~= tasks@.take(i as int));
        if is_shown(&tasks[i], filter, today) {
            r.push(i);
        }
        i = i + 1;
    }
    assert(tasks@.take(i as int) =~= tasks@);
    r
}

/// The positions of `ids` in the order of a stable sort by descending
/// priority.
fn stable_priority_order(tasks: &Vec<Task>, ids: &Vec<usize>) -> (perm: Vec<usize>)
    requires
        indices_in(tasks@, ids@),
    ensures
        stable_order(tasks@, ids@, perm@),
{
    let mut perm: Vec<usize> = Vec::new();
    let mut i: usize = 0;
    while i < ids.len()
        invariant
            i <= ids@.len(),
            indices_in(tasks@, ids@),
            perm@.len() == i,
            perm@.no_duplicates(),
            forall|j: int| 0 <= j < perm@.len() ==> #[trigger] perm@[j] < i,
            forall|a: int, b: int|
                0 <= a < b < perm@.len() ==> ranks_before(tasks@, ids@, #[trigger] perm@[a] as int, #[trigger] perm@[b] as int),
        decreases ids@.len() - i,
    {
        let px = tasks[ids[i]].priority;
        let mut k: usize = 0;
        while k < perm.len() && !(px > tasks[ids[perm[k]]].priority)
            invariant
                k <= perm@.len(),
                i < ids@.len(),
                indices_in(tasks@, ids@),
                px == tasks@[ids@[i as int] as int].priority,
                forall|j: int| 0 <= j < perm@.len() ==> #[trigger] perm@[j] < i,
                forall|j: int| 0 <= j < k ==> ranks_before(tasks@, ids@, #[trigger] perm@[j] as int, i as int),
            decreases perm@.len() - k,
        {
            k = k + 1;
        }
        let ghost old_p = perm@;
        proof {
            old_p.insert_ensures(k as int, i);
        }
        perm.insert(k, i);
        proof {
            assert forall|a: int| 0 <= a < perm@.len() implies #[trigger] perm@[a] < i + 1 by {
                if a < k {
                    assert(perm@[a] == old_p[a]);
                } else if a > k {
                    assert(perm@[a] == old_p[a - 1]);
                }
            }
            assert forall|a: int, b: int| 0 <= a < perm@.len() && 0 <= b < perm@.len() && a != b implies perm@[a] != perm@[b] by {
                let pa = if a < k { old_p[a] } else if a == k { i } else { old_p[a - 1] };
                let pb = if b < k { old_p[b] } else if b == k { i } else { old_p[b - 1] };
                assert(perm@[a] == pa && perm@[b] == pb);
                if a != k && b != k {
                    let ia = if a < k { a } else { a - 1 };
                    let ib = if b < k { b } else { b - 1 };
                    assert(old_p[ia] != old_p[ib]);
                }
            }
            assert forall|a: int, b: int| 0 <= a < b < perm@.len() implies ranks_before(
                tasks@,
                ids@,
                #[trigger] perm@[a] as int,
                #[trigger] perm@[b] as int,
            ) by {
                if b < k {
                    assert(perm@[a] == old_p[a] && perm@[b] == old_p[b]);
                } else if b == k {
                    assert(perm@[a] == old_p[a]);
                } else if a < k {
                    assert(perm@[a] == old_p[a] && perm@[b] == old_p[b - 1]);
                } else if a == k {
                    assert(perm@[b] == old_p[b - 1]);
                    assert(ranks_before(tasks@, ids@, i as int, old_p[k as int] as int));
                    if b - 1 > k {
                        assert(ranks_before(tasks@, ids@, old_p[k as int] as int, old_p[b - 1] as int));
                    }
                } else {
                    assert(perm@[a] == old_p[a - 1] && perm@[b] == old_p[b - 1]);
                }
            }
        }
        i = i + 1;
    }
    perm
}

/// Sorts `ids` stably by descending priority of the tasks they index.
pub fn sort_by_priority(tasks: &Vec<Task>, ids: &Vec<usize>) -> (r: Vec<usize>)
    requires
        indices_in(tasks@, ids@),
    ensures
        sorted_by_priority(tasks@, ids@, r@),
        indices_in(tasks@, r@),
{
    let perm = stable_priority_order(tasks, ids);
    let mut r: Vec<usize> = Vec::new();
    let mut j: usize = 0;
    while j < perm.len()
        invariant
            j <= perm@.len(),
            stable_order(tasks@, ids@, perm@),
            indices_in(tasks@, ids@),
            r@.len() == j,
            forall|m: int| 0 <= m < j ==> #[trigger] r@[m] == ids@[perm@[m] as int],
        decreases perm@.len() - j,
    {
        r.push(ids[perm[j]]);
        j = j + 1;
    }
    proof {
        assert(stable_order(tasks@, ids@, perm@));
        assert forall|m: int| 0 <= m < r@.len() implies #[trigger] r@[m] < tasks@.len() by {
            assert(perm@[m] < ids@.len());
        }
    }
    r
}

/// The display list of `tasks` under `filter` when the local date is `today`,
/// by descending priority when `by_priority` holds, else in store order.
pub fn compute_display(tasks: &Vec<Task>, filter: &Filter, today: &Date, by_priority: bool) -> (r:
    Vec<usize>)
    ensures
        !by_priority ==> r@ == display_spec(tasks@, *filter, *today),
        by_priority ==> sorted_by_priority(tasks@, display_spec(tasks@, *filter, *today), r@),
        r@.len() == display_spec(tasks@, *filter, *today).len(),
        forall|i: int| 0 <= i < r@.len() ==> #[trigger] r@[i] < tasks@.len() && shown(tasks@[r@[i] as int], *filter, *today),
{
    let ids = filter_indices(tasks, filter, today);
    let n = tasks.len();
    proof {
        lemma_display_spec_shape(tasks@, *filter, *today);
    }
    if by_priority {
        let r = sort_by_priority(tasks, &ids);
        proof {
            let perm = choose|perm: Seq<usize>|
                #[trigger] stable_order(tasks@, ids@, perm) && r@.len() == perm.len() && forall|i: int|
                    0 <= i < r@.len() ==> r@[i] == ids@[perm[i] as int];
            assert forall|i: int| 0 <= i < r@.len() implies #[trigger] r@[i] < tasks@.len() && shown(tasks@[r@[i] as int], *filter, *today) by {
                assert(r@[i] == ids@[perm[i] as int]);
                assert(perm[i] < ids@.len());
            }
        }
        r
    } else {
        ids
    }
}

} // verus!
