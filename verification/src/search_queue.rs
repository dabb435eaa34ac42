//! The search task queue: tasks are numbered as they arrive, one processor
//! works through them, and only the newest waiting task survives each
//! finished search. The searching itself is done by the caller, which asks
//! this queue what to do next and reports back what happened.

use vstd::prelude::*;

use std::collections::VecDeque;

use crate::search::{SearchResult, SearchTask};

verus! {

/// A search task with the number it was given when queued.
#[derive(Debug, PartialEq, Eq)]
pub struct QueuedSearchTask {
    pub task: SearchTask,
    pub id: u32,
}

/// What the caller must do after `start_processor`.
#[derive(Debug, Clone, Copy, PartialEq, Eq, Structural)]
pub enum ProcessorStart {
    /// No processor was running: start one.
    Spawn,
    /// A processor is running already: wake it.
    Notify,
}

/// The state of the search task queue.
pub struct SearchTaskQueue {
    queue: VecDeque<QueuedSearchTask>,
    result: Vec<SearchResult>,
    is_running: bool,
    last_finished_task_id: u32,
    taken_task_id: Option<u32>,
}

/// The abstract state of a `SearchTaskQueue`.
pub struct TaskQueueView {
    /// The waiting tasks, oldest first.
    pub tasks: Seq<QueuedSearchTask>,
    /// The results of the last finished search.
    pub result: Seq<SearchResult>,
    /// Whether a processor is working through the queue.
    pub running: bool,
    /// The number of the last finished task.
    pub last_finished: u32,
    /// The number of the task taken for searching and not yet finished.
    pub taken: Option<u32>,
}

impl View for SearchTaskQueue {
    type V = TaskQueueView;

    closed spec fn view(&self) -> TaskQueueView {
        TaskQueueView {
            tasks: self.queue@,
            result: self.result@,
            running: self.is_running,
            last_finished: self.last_finished_task_id,
            taken: self.taken_task_id,
        }
    }
}

/// Task numbers run from 0 to 99 and then start again.
pub open spec fn task_ids_in_range(tasks: Seq<QueuedSearchTask>) -> bool {
    forall|i: int| 0 <= i < tasks.len() ==> #[trigger] tasks[i].id < 100
}

/// Each waiting task's number is one more, modulo 100, than that of the
/// task waiting just before it.
pub open spec fn consecutive_ids(tasks: Seq<QueuedSearchTask>) -> bool {
    forall|i: int, j: int|
        0 <= i && j == i + 1 && j < tasks.len() ==> #[trigger] tasks[j].id == (#[trigger] tasks[i].id + 1) % 100
}

/// The numbering the queue keeps at all times: waiting tasks are numbered
/// below 100 and consecutively; the last finished number is the initial
/// one or that of a task that was taken; a taken task's number is below
/// 100.
pub open spec fn numbering_holds(v: TaskQueueView) -> bool {
    &&& task_ids_in_range(v.tasks)
    &&& consecutive_ids(v.tasks)
    &&& (v.last_finished == initial_finished_id() || v.last_finished < 100)
    &&& (v.taken matches Some(id) ==> id < 100)
}

/// The number the next queued task gets: 0 for an empty queue, else one
/// more than the newest waiting task's, modulo 100.
pub open spec fn next_task_id(tasks: Seq<QueuedSearchTask>) -> u32 {
    if tasks.len() == 0 {
        0
    } else {
        ((tasks.last().id + 1) % 100) as u32
    }
}

/// The waiting tasks after a search finished: of several, only the newest
/// stays.
pub open spec fn trimmed(tasks: Seq<QueuedSearchTask>) -> Seq<QueuedSearchTask> {
    if tasks.len() > 1 {
        seq![tasks.last()]
    } else {
        tasks
    }
}

/// The number that `last_finished` holds before any search finished.
pub open spec fn initial_finished_id() -> u32 {
    1000
}

/// Consecutively queued tasks get consecutive numbers, modulo 100.
pub proof fn law_consecutive_ids(tasks: Seq<QueuedSearchTask>, task: SearchTask)
    ensures
        next_task_id(tasks.push((QueuedSearchTask { task: task, id: next_task_id(tasks) })))
            == (next_task_id(tasks) + 1) % 100,
{
}

/// After a search finishes at most one task waits, and it is the newest
/// of those that waited.
pub proof fn law_newest_task_survives(tasks: Seq<QueuedSearchTask>)
    ensures
        trimmed(tasks).len() <= 1,
        tasks.len() > 0 ==> trimmed(tasks).len() == 1 && trimmed(tasks)[0] == tasks.last(),
{
}

/// One round of the processor, with no task added meanwhile: the oldest
/// waiting task is taken, and once its search finishes only the newest of
/// the rest keeps waiting.
pub open spec fn after_round(tasks: Seq<QueuedSearchTask>) -> Seq<QueuedSearchTask> {
    trimmed(tasks.drop_first())
}

/// With no task added meanwhile, the newest waiting task is taken within
/// two rounds of the processor: at once if it is the only one, else in the
/// next round, as the only task left.
pub proof fn law_newest_task_taken_within_two_rounds(tasks: Seq<QueuedSearchTask>)
    requires
        tasks.len() > 0,
    ensures
        tasks.len() == 1 ==> tasks[0] == tasks.last(),
        tasks.len() > 1 ==> after_round(tasks) == seq![tasks.last()],
        tasks.len() > 1 ==> after_round(tasks)[0] == tasks.last() && after_round(after_round(tasks)).len() == 0,
{
    if tasks.len() > 1 {
        let rest = tasks.drop_first();
        assert(rest.last() == tasks.last());
        if rest.len() == 1 {
            assert(rest =~= seq![tasks.last()]);
        }
        assert(seq![tasks.last()].drop_first() =~= Seq::<QueuedSearchTask>::empty());
    }
}

/// A finished search never drops the newest waiting task: it stays the
/// newest, and it is taken next when it is the only one left.
pub proof fn law_finish_keeps_newest(tasks: Seq<QueuedSearchTask>)
    requires
        tasks.len() > 0,
    ensures
        trimmed(tasks).len() > 0,
        trimmed(tasks).last() == tasks.last(),
        trimmed(tasks).len() == 1 ==> trimmed(tasks)[0] == tasks.last(),
{
}

impl SearchTaskQueue {
    #[verifier::type_invariant]
    spec fn numbered(self) -> bool {
        numbering_holds(self@)
    }

    /// An empty, idle queue.
    pub fn new() -> (r: Self)
        ensures
            r@.tasks.len() == 0,
            r@.result.len() == 0,
            !r@.running,
            r@.last_finished == initial_finished_id(),
            r@.taken is None,
            numbering_holds(r@),
    {
        let r = SearchTaskQueue {
            queue: VecDeque::new(),
            result: Vec::new(),
            is_running: false,
            last_finished_task_id: 1000,
            taken_task_id: None,
        };
        assert(r@.tasks =~= Seq::<QueuedSearchTask>::empty());
        r
    }

    /// Queues `task` and returns the number it was given.
    pub fn add_task(&mut self, task: SearchTask) -> (id: u32)
        ensures
            id == next_task_id(old(self)@.tasks),
            id < 100,
            final(self)@.tasks == old(self)@.tasks.push((QueuedSearchTask { task: task, id: id })),
            final(self)@.result == old(self)@.result,
            final(self)@.running == old(self)@.running,
            final(self)@.last_finished == old(self)@.last_finished,
            final(self)@.taken == old(self)@.taken,
            numbering_holds(final(self)@),
    {
        proof {
            use_type_invariant(&*self);
        }
        let len = self.queue.len();
        let id: u32 = if len == 0 {
            0
        } else {
            (self.queue[len - 1].id + 1) % 100
        };
        let mut q = VecDeque::new();
        std::mem::swap(&mut q, &mut self.queue);
        q.push_back(QueuedSearchTask { task, id });
        proof {
            let old_tasks = old(self)@.tasks;
            assert forall|i: int, j: int|
                0 <= i && j == i + 1 && j < q@.len() implies #[trigger] q@[j].id == (#[trigger] q@[i].id + 1) % 100 by {
                if j < old_tasks.len() {
                    assert(q@[i] == old_tasks[i] && q@[j] == old_tasks[j]);
                }
            }
        }
        self.queue = q;
        proof {
            use_type_invariant(&*self);
        }
        id
    }

    /// Marks the processor as running. It answers `Spawn` when none was
    /// running, and `Notify` when one was.
    pub fn start_processor(&mut self) -> (r: ProcessorStart)
        ensures
            r == (if old(self)@.running {
                ProcessorStart::Notify
            } else {
                ProcessorStart::Spawn
            }),
            final(self)@.running,
            final(self)@.tasks == old(self)@.tasks,
            final(self)@.result == old(self)@.result,
            final(self)@.last_finished == old(self)@.last_finished,
            final(self)@.taken == old(self)@.taken,
            numbering_holds(final(self)@),
    {
        proof {
            use_type_invariant(&*self);
        }
        let r = if self.is_running {
            ProcessorStart::Notify
        } else {
            self.is_running = true;
            ProcessorStart::Spawn
        };
        proof {
            use_type_invariant(&*self);
        }
        r
    }

    /// Takes the oldest waiting task, if any, and records its number as
    /// the one being searched for.
    pub fn next_task(&mut self) -> (r: Option<QueuedSearchTask>)
        ensures
            match r {
                Some(t) => {
                    &&& old(self)@.tasks.len() > 0
                    &&& t == old(self)@.tasks[0]
                    &&& final(self)@.tasks == old(self)@.tasks.drop_first()
                    &&& final(self)@.taken == Some(t.id)
                },
                None => {
                    &&& old(self)@.tasks.len() == 0
                    &&& final(self)@.tasks == old(self)@.tasks
                    &&& final(self)@.taken == old(self)@.taken
                },
            },
            final(self)@.result == old(self)@.result,
            final(self)@.running == old(self)@.running,
            final(self)@.last_finished == old(self)@.last_finished,
            numbering_holds(final(self)@),
    {
        proof {
            use_type_invariant(&*self);
        }
        let mut q = VecDeque::new();
        std::mem::swap(&mut q, &mut self.queue);
        let r = q.pop_front();
        proof {
            let old_tasks = old(self)@.tasks;
            if r is Some {
                assert(q@ =~= old_tasks.drop_first());
                assert forall|i: int, j: int|
                    0 <= i && j == i + 1 && j < q@.len() implies #[trigger] q@[j].id == (#[trigger] q@[i].id + 1) % 100 by {
                    assert(q@[i] == old_tasks[i + 1] && q@[j] == old_tasks[j + 1]);
                }
                assert(old_tasks[0].id < 100);
            }
            assert(task_ids_in_range(q@));
        }
        self.queue = q;
        match &r {
            Some(t) => {
                self.taken_task_id = Some(t.id);
            },
            None => {},
        }
        proof {
            use_type_invariant(&*self);
        }
        r
    }

    /// The number of the task taken for searching and not yet finished.
    pub fn taken_task_id(&self) -> (r: Option<u32>)
        ensures
            r == self@.taken,
    {
        self.taken_task_id
    }

    /// Records that the taken task finished with `results`: its number
    /// becomes the last finished one. Of several waiting tasks only the
    /// newest stays. Answers whether the processor goes on; it stops, and is
    /// marked as not running, when no task waits.
    pub fn finish_task(&mut self, results: Vec<SearchResult>) -> (go_on: bool)
        requires
            old(self)@.taken is Some,
        ensures
            final(self)@.result == results@,
            final(self)@.last_finished == old(self)@.taken->0,
            final(self)@.taken is None,
            final(self)@.tasks == trimmed(old(self)@.tasks),
            go_on == (old(self)@.tasks.len() > 0),
            final(self)@.running == (old(self)@.running && go_on),
            numbering_holds(final(self)@),
    {
        proof {
            use_type_invariant(&*self);
        }
        self.result = results;
        let id = match self.taken_task_id {
            Some(id) => id,
            None => {
                proof {
                    assert(false);
                }
                0
            },
        };
        self.last_finished_task_id = id;
        self.taken_task_id = None;
        let len = self.queue.len();
        let go_on = if len > 1 {
            let mut q = VecDeque::new();
            std::mem::swap(&mut q, &mut self.queue);
            let last = q.pop_back();
            let mut kept = VecDeque::new();
            match last {
                Some(t) => {
                    kept.push_back(t);
                    assert(kept@ =~= trimmed(old(self)@.tasks));
                    assert(kept@[0].id < 100);
                },
                None => {},
            }
            self.queue = kept;
            true
        } else if len == 0 {
            self.is_running = false;
            false
        } else {
            true
        };
        proof {
            use_type_invariant(&*self);
        }
        go_on
    }

    /// Drops every waiting task and marks the processor as stopped. Answers
    /// whether a processor was running.
    pub fn stop(&mut self) -> (was_running: bool)
        ensures
            was_running == old(self)@.running,
            final(self)@.tasks.len() == 0,
            !final(self)@.running,
            final(self)@.result == old(self)@.result,
            final(self)@.last_finished == old(self)@.last_finished,
            final(self)@.taken == old(self)@.taken,
            numbering_holds(final(self)@),
    {
        proof {
            use_type_invariant(&*self);
        }
        self.queue = VecDeque::new();
        let was_running = if self.is_running {
            self.is_running = false;
            true
        } else {
            false
        };
        proof {
            use_type_invariant(&*self);
        }
        was_running
    }

    /// The results of the last finished search.
    pub fn get_result(&self) -> (r: Vec<SearchResult>)
        ensures
            r@ == self@.result,
    {
        self.result.clone()
    }

    /// The number of the last finished task.
    pub fn get_last_finished_task_id(&self) -> (r: u32)
        ensures
            r == self@.last_finished,
            r == initial_finished_id() || r < 100,
    {
        proof {
            use_type_invariant(self);
        }
        self.last_finished_task_id
    }

    /// Whether a processor is marked as running.
    pub fn is_running(&self) -> (r: bool)
        ensures
            r == self@.running,
    {
        self.is_running
    }
}

} // verus!
