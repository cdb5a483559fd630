//! The task store: the local tasks in insertion order, and an index from a
//! parent's id to the number of its direct sub-tasks.
use vstd::prelude::*;
use crate::cursor::{ListCursor, next_spec, previous_spec};
use crate::display::{Filter, compute_display, display_spec, indices_in, sort_by_priority, sorted_by_priority};
use crate::error::TaskError;
use crate::task::{Date, Due, Task, has_parent, local_today};

verus! {

/// The number of tasks of `tasks` that are direct sub-tasks of `id`.
pub open spec fn count_children(tasks: Seq<Task>, id: Seq<char>) -> nat
    decreases tasks.len(),
{
    if tasks.len() == 0 {
        0
    } else {
        count_children(tasks.drop_last(), id) + if has_parent(tasks.last(), id) {
            1nat
        } else {
            0nat
        }
    }
}

proof fn lemma_count_children_bound(tasks: Seq<Task>, id: Seq<char>)
    ensures
        count_children(tasks, id) <= tasks.len(),
    decreases tasks.len(),
{
    if tasks.len() > 0 {
        lemma_count_children_bound(tasks.drop_last(), id);
    }
}

proof fn lemma_count_children_push(tasks: Seq<Task>, t: Task, id: Seq<char>)
    ensures
        count_children(tasks.push(t), id) == count_children(tasks, id) + if has_parent(t, id) {
            1nat
        } else {
            0nat
        },
{
    assert(tasks.push(t).drop_last() =~= tasks);
}

proof fn lemma_count_children_remove(tasks: Seq<Task>, k: int, id: Seq<char>)
    requires
        0 <= k < tasks.len(),
    ensures
        count_children(tasks, id) == count_children(tasks.remove(k), id) + if has_parent(
            tasks[k],
            id,
        ) {
            1nat
        } else {
            0nat
        },
    decreases tasks.len(),
{
    if k == tasks.len() - 1 {
        assert(tasks.remove(k) =~= tasks.drop_last());
    } else {
        let rest = tasks.drop_last();
        lemma_count_children_remove(rest, k, id);
        assert(tasks.remove(k) =~= rest.remove(k).push(tasks.last()));
        lemma_count_children_push(rest.remove(k), tasks.last(), id);
    }
}

proof fn lemma_count_children_update(tasks: Seq<Task>, k: int, t: Task, id: Seq<char>)
    requires
        0 <= k < tasks.len(),
        t.parent_id == tasks[k].parent_id,
    ensures
        count_children(tasks.update(k, t), id) == count_children(tasks, id),
    decreases tasks.len(),
{
    if k == tasks.len() - 1 {
        assert(tasks.update(k, t).drop_last() =~= tasks.drop_last());
    } else {
        let rest = tasks.drop_last();
        lemma_count_children_update(rest, k, t, id);
        assert(tasks.update(k, t).drop_last() =~= rest.update(k, t));
    }
}

/// One entry of the child-count index.
#[derive(Debug)]
pub struct ChildCount {
    pub parent_id: String,
    pub count: usize,
}

/// `index` counts the children of each parent in `tasks`: its keys are
/// distinct, each entry holds its key's exact count, and every task that has
/// children has an entry.
pub open spec fn index_matches(index: Seq<ChildCount>, tasks: Seq<Task>) -> bool {
    &&& forall|i: int, j: int|
        0 <= i < index.len() && 0 <= j < index.len() && i != j ==> #[trigger] index[i].parent_id@
            != #[trigger] index[j].parent_id@
    &&& forall|i: int|
        0 <= i < index.len() ==> #[trigger] index[i].count == count_children(
            tasks,
            index[i].parent_id@,
        )
    &&& forall|id: Seq<char>|
        #[trigger] count_children(tasks, id) > 0 ==> exists|i: int|
            0 <= i < index.len() && #[trigger] index[i].parent_id@ == id
}

/// The position of the entry of `id` in `index`, if it has one.
fn find_entry(index: &Vec<ChildCount>, id: &String) -> (r: Option<usize>)
    ensures
        match r {
            Some(i) => i < index@.len() && index@[i as int].parent_id@ == id@,
            None => forall|i: int| 0 <= i < index@.len() ==> index@[i].parent_id@ != id@,
        },
{
    let mut i: usize = 0;
    while i < index.len()
        invariant
            i <= index@.len(),
            forall|j: int| 0 <= j < i ==> index@[j].parent_id@ != id@,
        decreases index@.len() - i,
    {
        if index[i].parent_id.eq(id) {
            return Some(i);
        }
        i = i + 1;
    }
    None
}

/// The number of direct sub-tasks of `id` recorded in `index`.
fn lookup_count(index: &Vec<ChildCount>, id: &String, Ghost(tasks): Ghost<Seq<Task>>) -> (r: usize)
    requires
        index_matches(index@, tasks),
    ensures
        r == count_children(tasks, id@),
{
    match find_entry(index, id) {
        Some(i) => index[i].count,
        None => {
            proof {
                if count_children(tasks, id@) > 0 {
                    assert(exists|i: int| 0 <= i < index@.len() && #[trigger] index@[i].parent_id@ == id@);
                }
            }
            0
        },
    }
}

/// Counts one more child of `parent`, after `t` joined the end of `tasks`.
fn record_child(
    index: &mut Vec<ChildCount>,
    parent: &String,
    Ghost(tasks): Ghost<Seq<Task>>,
    Ghost(t): Ghost<Task>,
)
    requires
        index_matches(old(index)@, tasks),
        has_parent(t, parent@),
        tasks.len() < usize::MAX,
    ensures
        index_matches(final(index)@, tasks.push(t)),
{
    let ghost after = tasks.push(t);
    proof {
        assert forall|id: Seq<char>| #[trigger] count_children(after, id) == count_children(tasks, id)
            + if has_parent(t, id) { 1nat } else { 0nat } by {
            lemma_count_children_push(tasks, t, id);
        }
        lemma_count_children_bound(tasks, parent@);
    }
    match find_entry(index, parent) {
        Some(i) => {
            let c = index[i].count;
            let ghost before = index@;
            index.set(i, ChildCount { parent_id: parent.clone(), count: c + 1 });
            proof {
                assert forall|j: int| 0 <= j < index@.len() && j != i implies #[trigger] index@[j]
                    == before[j] by {}
                assert forall|id: Seq<char>| #[trigger] count_children(after, id) > 0 implies exists|
                    j: int,
                | 0 <= j < index@.len() && #[trigger] index@[j].parent_id@ == id by {
                    if id == parent@ {
                        assert(index@[i as int].parent_id@ == id);
                    } else {
                        assert(count_children(tasks, id) > 0);
                        let j = choose|j: int| 0 <= j < before.len() && #[trigger] before[j].parent_id@ == id;
                        assert(index@[j].parent_id@ == id);
                    }
                }
            }
        },
        None => {
            let ghost before = index@;
            index.push(ChildCount { parent_id: parent.clone(), count: 1 });
            proof {
                assert forall|j: int| 0 <= j < before.len() implies #[trigger] index@[j] == before[j] by {}
                assert(count_children(tasks, parent@) == 0) by {
                    if count_children(tasks, parent@) > 0 {
                        let j = choose|j: int| 0 <= j < before.len() && #[trigger] before[j].parent_id@ == parent@;
                    }
                }
                assert forall|id: Seq<char>| #[trigger] count_children(after, id) > 0 implies exists|
                    j: int,
                | 0 <= j < index@.len() && #[trigger] index@[j].parent_id@ == id by {
                    if id == parent@ {
                        assert(index@[before.len() as int].parent_id@ == id);
                    } else {
                        assert(count_children(tasks, id) > 0);
                        let j = choose|j: int| 0 <= j < before.len() && #[trigger] before[j].parent_id@ == id;
                        assert(index@[j].parent_id@ == id);
                    }
                }
            }
        },
    }
}

/// Counts one child of `parent` less, after the task at `k` left `tasks`.
fn forget_child(
    index: &mut Vec<ChildCount>,
    parent: &String,
    Ghost(tasks): Ghost<Seq<Task>>,
    Ghost(k): Ghost<int>,
)
    requires
        index_matches(old(index)@, tasks),
        0 <= k < tasks.len(),
        has_parent(tasks[k], parent@),
    ensures
        index_matches(final(index)@, tasks.remove(k)),
{
    let ghost after = tasks.remove(k);
    proof {
        assert forall|id: Seq<char>| #[trigger] count_children(after, id) + (if has_parent(tasks[k], id) { 1nat } else { 0nat })
            == count_children(tasks, id) by {
            lemma_count_children_remove(tasks, k, id);
        }
        assert(count_children(after, parent@) + 1 == count_children(tasks, parent@));
    }
    match find_entry(index, parent) {
        Some(i) => {
            let c = index[i].count;
            let ghost before = index@;
            index.set(i, ChildCount { parent_id: parent.clone(), count: c - 1 });
            proof {
                assert forall|j: int| 0 <= j < index@.len() && j != i implies #[trigger] index@[j]
                    == before[j] by {}
                assert forall|id: Seq<char>| #[trigger] count_children(after, id) > 0 implies exists|
                    j: int,
                | 0 <= j < index@.len() && #[trigger] index@[j].parent_id@ == id by {
                    assert(count_children(tasks, id) > 0);
                    let j = choose|j: int| 0 <= j < before.len() && #[trigger] before[j].parent_id@ == id;
                    assert(index@[j].parent_id@ == id);
                }
            }
        },
        None => {
            proof {
                let j = choose|j: int| 0 <= j < index@.len() && #[trigger] index@[j].parent_id@ == parent@;
            }
        },
    }
}

/// Some task of `tasks` has the id `id`.
pub open spec fn has_id(tasks: Seq<Task>, id: Seq<char>) -> bool {
    exists|k: int| 0 <= k < tasks.len() && #[trigger] tasks[k].id@ == id
}

/// `k` is the first position in `tasks` of a task with the id `id`.
pub open spec fn first_with_id(tasks: Seq<Task>, id: Seq<char>, k: int) -> bool {
    &&& 0 <= k < tasks.len()
    &&& tasks[k].id@ == id
    &&& forall|j: int| 0 <= j < k ==> #[trigger] tasks[j].id@ != id
}

/// `t` with its editable fields replaced: the title, the description, and the
/// text of its due specification if it has one.
pub open spec fn with_fields(t: Task, content: String, description: String, due_string: String) -> Task {
    Task {
        content: content,
        description: description,
        due: match t.due {
            Some(d) => Some(Due { string: due_string, ..d }),
            None => None,
        },
        ..t
    }
}

/// In a well-formed store, which `new`, `load`, `append` and `remove` keep
/// well-formed, the index holds for every task id exactly the number of tasks
/// whose parent is that id: the entry of the id has that count, and an id
/// without an entry has no children.
pub proof fn lemma_child_index_exact(store: Tasks, id: Seq<char>)
    requires
        store.wf(),
    ensures
        forall|i: int|
            0 <= i < store.tasks_with_children@.len() && #[trigger] store.tasks_with_children@[i].parent_id@ == id
                ==> store.tasks_with_children@[i].count == count_children(store.tasks@, id),
        (forall|i: int|
            0 <= i < store.tasks_with_children@.len() ==> #[trigger] store.tasks_with_children@[i].parent_id@ != id)
            ==> count_children(store.tasks@, id) == 0,
{
    if count_children(store.tasks@, id) > 0 {
        assert(exists|i: int| 0 <= i < store.tasks_with_children@.len() && #[trigger] store.tasks_with_children@[i].parent_id@ == id);
    }
}

/// The position of the first task with the id `id`.
pub fn position_of(tasks: &Vec<Task>, id: &String) -> (r: Option<usize>)
    ensures
        match r {
            Some(k) => first_with_id(tasks@, id@, k as int),
            None => !has_id(tasks@, id@),
        },
{
    let mut k: usize = 0;
    while k < tasks.len()
        invariant
            k <= tasks@.len(),
            forall|j: int| 0 <= j < k ==> #[trigger] tasks@[j].id@ != id@,
        decreases tasks@.len() - k,
    {
        if tasks[k].id.eq(id) {
            return Some(k);
        }
        k = k + 1;
    }
    None
}

/// Builds the child-count index of `tasks` in one pass.
pub fn build_child_index(tasks: &Vec<Task>) -> (r: Vec<ChildCount>)
    ensures
        index_matches(r@, tasks@),
{
    let mut index: Vec<ChildCount> = Vec::new();
    let mut i: usize = 0;
    let n = tasks.len();
    proof {
        assert forall|id: Seq<char>| #[trigger] count_children(tasks@.take(0), id) == 0 by {}
    }
    while i < tasks.len()
        invariant
            i <= tasks@.len(),
            n == tasks@.len(),
            index_matches(index@, tasks@.take(i as int)),
        decreases tasks@.len() - i,
    {
        assert(tasks@.take(i + 1) =~= tasks@.take(i as int).push(tasks@[i as int]));
        match &tasks[i].parent_id {
            Some(p) => {
                record_child(&mut index, p, Ghost(tasks@.take(i as int)), Ghost(tasks@[i as int]));
            },
            None => {
                proof {
                    assert forall|id: Seq<char>| #[trigger] count_children(tasks@.take(i + 1), id)
                        == count_children(tasks@.take(i as int), id) by {
                        lemma_count_children_push(tasks@.take(i as int), tasks@[i as int], id);
                    }
                }
            },
        }
        i = i + 1;
    }
    assert(tasks@.take(i as int) =~= tasks@);
    index
}

/// The local tasks, the child-count index derived from them, the active
/// filter, and the display list with its selection.
#[derive(Debug)]
pub struct Tasks {
    /// Every task, in insertion order.
    pub tasks: Vec<Task>,
    pub filter: Filter,
    /// The selection in the display list.
    pub state: ListCursor,
    /// The number of direct sub-tasks of each parent.
    pub tasks_with_children: Vec<ChildCount>,
    /// Store positions of the tasks on display.
    pub display_tasks: Vec<usize>,
}

impl Tasks {
    /// The index counts the children in the store exactly, and the display
    /// list holds positions of the store.
    pub open spec fn wf(&self) -> bool {
        &&& index_matches(self.tasks_with_children@, self.tasks@)
        &&& indices_in(self.tasks@, self.display_tasks@)
    }

    /// A store holding `items`, its index built, under the filter of tasks due
    /// today, with nothing on display yet.
    pub fn new(items: Vec<Task>) -> (r: Tasks)
        ensures
            r.wf(),
            r.tasks@ == items@,
            r.filter == Filter::Today,
            r.display_tasks@.len() == 0,
            r.state.selected is None && r.state.offset == 0,
    {
        let index = build_child_index(&items);
        Tasks {
            tasks: items,
            filter: Filter::Today,
            state: ListCursor::new(),
            tasks_with_children: index,
            display_tasks: Vec::new(),
        }
    }

    /// Replaces every task with `items` and rebuilds the index; the display
    /// list is emptied until the next refresh.
    pub fn load(&mut self, items: Vec<Task>)
        ensures
            final(self).wf(),
            final(self).tasks@ == items@,
            final(self).filter == old(self).filter,
            final(self).display_tasks@.len() == 0,
            final(self).state.selected is None,
    {
        self.tasks_with_children = build_child_index(&items);
        self.tasks = items;
        self.display_tasks = Vec::new();
        self.state = ListCursor::new();
    }

    /// Recomputes the child-count index from the tasks.
    pub fn find_tasks_with_children(&mut self)
        ensures
            index_matches(final(self).tasks_with_children@, final(self).tasks@),
            final(self).tasks == old(self).tasks,
            final(self).filter == old(self).filter,
            final(self).state == old(self).state,
            final(self).display_tasks == old(self).display_tasks,
    {
        self.tasks_with_children = build_child_index(&self.tasks);
    }

    /// The number of direct sub-tasks of the task `id`; 0 for an unknown id.
    pub fn children_of(&self, id: &String) -> (r: usize)
        requires
            self.wf(),
        ensures
            r == count_children(self.tasks@, id@),
    {
        lookup_count(&self.tasks_with_children, id, Ghost(self.tasks@))
    }

    /// Adds `task` at the end of the store and counts it under its parent.
    pub fn append(&mut self, task: Task)
        requires
            old(self).wf(),
            old(self).tasks@.len() < usize::MAX,
        ensures
            final(self).wf(),
            final(self).tasks@ == old(self).tasks@.push(task),
            final(self).filter == old(self).filter,
            final(self).state == old(self).state,
            final(self).display_tasks == old(self).display_tasks,
    {
        let ghost before = self.tasks@;
        match &task.parent_id {
            Some(p) => {
                record_child(&mut self.tasks_with_children, p, Ghost(before), Ghost(task));
            },
            None => {
                proof {
                    assert forall|id: Seq<char>| #[trigger] count_children(before.push(task), id)
                        == count_children(before, id) by {
                        lemma_count_children_push(before, task, id);
                    }
                }
            },
        }
        self.tasks.push(task);
    }

    /// Removes the first task with the id `id` and uncounts it under its
    /// parent. The display list is emptied and the selection dropped until the
    /// next refresh, since the positions after the removed task shift.
    pub fn remove(&mut self, id: &String) -> (r: Result<Task, TaskError>)
        requires
            old(self).wf(),
        ensures
            final(self).wf(),
            final(self).filter == old(self).filter,
            match r {
                Ok(t) => exists|k: int|
                    first_with_id(old(self).tasks@, id@, k) && t == old(self).tasks@[k]
                        && final(self).tasks@ == old(self).tasks@.remove(k)
                        && final(self).display_tasks@.len() == 0
                        && final(self).state.selected is None,
                Err(e) => e is NotFound && !has_id(old(self).tasks@, id@) && final(self).tasks
                    == old(self).tasks && final(self).display_tasks == old(self).display_tasks
                    && final(self).state == old(self).state,
            },
    {
        match position_of(&self.tasks, id) {
            None => Err(TaskError::NotFound),
            Some(k) => Ok(self.remove_at(k)),
        }
    }

    /// Removes the task at store position `k` and uncounts it under its
    /// parent. The display list is emptied and the selection dropped until the
    /// next refresh, since the positions after `k` shift.
    pub fn remove_at(&mut self, k: usize) -> (r: Task)
        requires
            old(self).wf(),
            k < old(self).tasks@.len(),
        ensures
            final(self).wf(),
            r == old(self).tasks@[k as int],
            final(self).tasks@ == old(self).tasks@.remove(k as int),
            final(self).display_tasks@.len() == 0,
            final(self).state.selected is None,
            final(self).state.offset == old(self).state.offset,
            final(self).filter == old(self).filter,
    {
        let ghost before = self.tasks@;
        match &self.tasks[k].parent_id {
            Some(p) => {
                forget_child(&mut self.tasks_with_children, p, Ghost(before), Ghost(k as int));
            },
            None => {
                proof {
                    assert forall|id: Seq<char>| #[trigger] count_children(before.remove(k as int), id)
                        == count_children(before, id) by {
                        lemma_count_children_remove(before, k as int, id);
                    }
                }
            },
        }
        let t = self.tasks.remove(k);
        self.display_tasks = Vec::new();
        self.state.unselect();
        t
    }

    /// Replaces the title, the description and the due text of the first task
    /// with the id `id`; the due text is kept only by a task that has a due
    /// specification.
    pub fn update_fields(&mut self, id: &String, content: String, description: String, due_string: String) -> (r: Result<(), TaskError>)
        requires
            old(self).wf(),
        ensures
            final(self).wf(),
            final(self).filter == old(self).filter,
            final(self).state == old(self).state,
            final(self).display_tasks == old(self).display_tasks,
            match r {
                Ok(_) => exists|k: int|
                    first_with_id(old(self).tasks@, id@, k) && final(self).tasks@ == old(self).tasks@.update(
                        k,
                        with_fields(old(self).tasks@[k], content, description, due_string),
                    ),
                Err(e) => e is NotFound && !has_id(old(self).tasks@, id@) && final(self).tasks
                    == old(self).tasks,
            },
    {
        match position_of(&self.tasks, id) {
            None => Err(TaskError::NotFound),
            Some(k) => {
                self.update_fields_at(k, content, description, due_string);
                Ok(())
            },
        }
    }

    /// Replaces the editable fields of the task at position `k`, as
    /// `update_fields` does for the task it finds.
    pub fn update_fields_at(&mut self, k: usize, content: String, description: String, due_string: String)
        requires
            old(self).wf(),
            k < old(self).tasks@.len(),
        ensures
            final(self).wf(),
            final(self).filter == old(self).filter,
            final(self).state == old(self).state,
            final(self).display_tasks == old(self).display_tasks,
            final(self).tasks_with_children == old(self).tasks_with_children,
            final(self).tasks@ == old(self).tasks@.update(
                k as int,
                with_fields(old(self).tasks@[k as int], content, description, due_string),
            ),
    {
        let ghost before = self.tasks@;
        let ghost changed = with_fields(before[k as int], content, description, due_string);
        self.tasks[k].content = content;
        self.tasks[k].description = description;
        match &mut self.tasks[k].due {
            Some(d) => {
                d.string = due_string;
            },
            None => {},
        }
        proof {
            assert(self.tasks@[k as int] == changed);
            assert(self.tasks@ =~= before.update(k as int, changed));
            assert forall|id: Seq<char>| #[trigger] count_children(self.tasks@, id)
                == count_children(before, id) by {
                lemma_count_children_update(before, k as int, changed, id);
            }
        }
    }

    /// Selects the next task on display, wrapping around.
    pub fn next(&mut self)
        ensures
            final(self).state.selected == next_spec(old(self).state.selected, old(self).display_tasks@.len()),
            final(self).state.offset == old(self).state.offset,
            final(self).tasks == old(self).tasks,
            final(self).tasks_with_children == old(self).tasks_with_children,
            final(self).display_tasks == old(self).display_tasks,
            final(self).filter == old(self).filter,
    {
        let n = self.display_tasks.len();
        self.state.select_next(n);
    }

    /// Selects the previous task on display, wrapping around.
    pub fn previous(&mut self)
        ensures
            final(self).state.selected == previous_spec(old(self).state.selected, old(self).display_tasks@.len()),
            final(self).state.offset == old(self).state.offset,
            final(self).tasks == old(self).tasks,
            final(self).tasks_with_children == old(self).tasks_with_children,
            final(self).display_tasks == old(self).display_tasks,
            final(self).filter == old(self).filter,
    {
        let n = self.display_tasks.len();
        self.state.select_previous(n);
    }

    /// Drops the selection; the list stays scrolled where it was.
    pub fn unselect(&mut self)
        ensures
            final(self).state.selected is None,
            final(self).state.offset == old(self).state.offset,
            final(self).tasks == old(self).tasks,
            final(self).tasks_with_children == old(self).tasks_with_children,
            final(self).display_tasks == old(self).display_tasks,
            final(self).filter == old(self).filter,
    {
        self.state.unselect();
    }

    /// Recomputes the display list in store order for the local date `today`,
    /// and drops the selection.
    pub fn refresh_display(&mut self, today: &Date)
        requires
            old(self).wf(),
        ensures
            final(self).wf(),
            final(self).display_tasks@ == display_spec(old(self).tasks@, old(self).filter, *today),
            final(self).state.selected is None && final(self).state.offset == 0,
            final(self).tasks == old(self).tasks,
            final(self).tasks_with_children == old(self).tasks_with_children,
            final(self).filter == old(self).filter,
    {
        let d = compute_display(&self.tasks, &self.filter, today, false);
        self.display_tasks = d;
        self.state = ListCursor::new();
    }

    /// Recomputes the display list for the current local date, and drops the
    /// selection.
    pub fn filter_task_list(&mut self)
        requires
            old(self).wf(),
        ensures
            final(self).wf(),
            exists|today: Date|
                today.in_calendar_range() && final(self).display_tasks@ == display_spec(
                    old(self).tasks@,
                    old(self).filter,
                    today,
                ),
            final(self).state.selected is None && final(self).state.offset == 0,
            final(self).tasks == old(self).tasks,
            final(self).tasks_with_children == old(self).tasks_with_children,
            final(self).filter == old(self).filter,
    {
        let today = local_today();
        self.refresh_display(&today);
    }

    /// Orders the display list by descending priority; entries of equal
    /// priority keep their order in the list.
    pub fn sort_tasks(&mut self)
        requires
            old(self).wf(),
        ensures
            final(self).wf(),
            sorted_by_priority(old(self).tasks@, old(self).display_tasks@, final(self).display_tasks@),
            final(self).tasks == old(self).tasks,
            final(self).tasks_with_children == old(self).tasks_with_children,
            final(self).filter == old(self).filter,
            final(self).state == old(self).state,
    {
        let d = sort_by_priority(&self.tasks, &self.display_tasks);
        self.display_tasks = d;
    }

    /// The store position of the selected task on display, if any.
    pub fn selected_index(&self) -> (r: Option<usize>)
        requires
            self.wf(),
        ensures
            match self.state.selected {
                Some(i) => if i < self.display_tasks@.len() {
                    r == Some(self.display_tasks@[i as int]) && r.unwrap() < self.tasks@.len()
                } else {
                    r is None
                },
                None => r is None,
            },
    {
        match self.state.selected {
            Some(i) => {
                if i < self.display_tasks.len() {
                    Some(self.display_tasks[i])
                } else {
                    None
                }
            },
            None => None,
        }
    }
}

} // verus!