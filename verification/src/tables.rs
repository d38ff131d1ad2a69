//! The mathematical model of the store: two tables of rows, and what each
//! query makes of them.

use crate::model::{is_protected, kind_of, TaskPatch, TaskRow, TopicKind, TopicRow};
use crate::seq_lemmas::{lemma_filter_commutes, lemma_filter_members, lemma_filter_removes};
use vstd::prelude::*;

verus! {

/// Whether a task is listed under a topic. The favourites topic lists every
/// favourite task and the default topic lists every task, whatever topic they
/// belong to; any other topic lists the tasks that belong to it.
pub open spec fn shows(topic: TopicRow, task: TaskRow) -> bool {
    match kind_of(topic.name) {
        TopicKind::Favourites => task.favourite,
        TopicKind::Default => true,
        _ => task.topic_id == topic.id,
    }
}

/// The tasks listed under a topic, in the order of the table.
pub open spec fn view_of(tasks: Seq<TaskRow>, topic: TopicRow) -> Seq<TaskRow> {
    tasks.filter(|task: TaskRow| shows(topic, task))
}

/// Whether the identities of the tasks grow strictly along the table.
pub open spec fn tasks_ascending(tasks: Seq<TaskRow>) -> bool {
    forall|i: int, j: int| 0 <= i < j < tasks.len() ==> tasks[i].id < tasks[j].id
}

/// Whether the identities of the topics grow strictly along the table.
pub open spec fn topics_ascending(topics: Seq<TopicRow>) -> bool {
    forall|i: int, j: int| 0 <= i < j < topics.len() ==> topics[i].id < topics[j].id
}

/// Whether no two topics share a name.
pub open spec fn names_distinct(topics: Seq<TopicRow>) -> bool {
    forall|i: int, j: int|
        0 <= i < topics.len() && 0 <= j < topics.len() && i != j ==> topics[i].name
            != topics[j].name
}

/// Whether some topic has this name.
pub open spec fn has_name(topics: Seq<TopicRow>, name: Seq<char>) -> bool {
    exists|i: int| 0 <= i < topics.len() && #[trigger] topics[i].name == name
}

/// Whether some topic has this identity.
pub open spec fn has_topic(topics: Seq<TopicRow>, id: i32) -> bool {
    exists|i: int| 0 <= i < topics.len() && #[trigger] topics[i].id == id
}

/// The topic with this identity, where there is one.
pub open spec fn topic_by_id(topics: Seq<TopicRow>, id: i32) -> TopicRow {
    topics[choose|i: int| 0 <= i < topics.len() && #[trigger] topics[i].id == id]
}

/// Whether some task has this identity.
pub open spec fn has_task(tasks: Seq<TaskRow>, id: i32) -> bool {
    exists|i: int| 0 <= i < tasks.len() && #[trigger] tasks[i].id == id
}

/// The task with this identity, where there is one.
pub open spec fn task_by_id(tasks: Seq<TaskRow>, id: i32) -> TaskRow {
    tasks[choose|i: int| 0 <= i < tasks.len() && #[trigger] tasks[i].id == id]
}

/// The topics but the one with this identity.
pub open spec fn without_topic(topics: Seq<TopicRow>, id: i32) -> Seq<TopicRow> {
    topics.filter(|topic: TopicRow| topic.id != id)
}

/// The tasks but the one with this identity.
pub open spec fn without_task(tasks: Seq<TaskRow>, id: i32) -> Seq<TaskRow> {
    tasks.filter(|task: TaskRow| task.id != id)
}

/// A task after a change: each field that the change gives is replaced, and
/// the time of the change is stamped.
pub open spec fn patched(task: TaskRow, patch: TaskPatch) -> TaskRow {
    TaskRow {
        id: task.id,
        topic_id: task.topic_id,
        name: match patch.name {
            Some(name) => name,
            None => task.name,
        },
        description: match patch.description {
            Some(description) => description,
            None => task.description,
        },
        completed: match patch.completed {
            Some(completed) => completed,
            None => task.completed,
        },
        favourite: match patch.favourite {
            Some(favourite) => favourite,
            None => task.favourite,
        },
        created_at: task.created_at,
        updated_at: patch.updated_at,
    }
}

/// The tasks with the change applied to the one with this identity.
pub open spec fn with_patch(tasks: Seq<TaskRow>, id: i32, patch: TaskPatch) -> Seq<TaskRow> {
    tasks.map_values(
        |task: TaskRow|
            if task.id == id {
                patched(task, patch)
            } else {
                task
            },
    )
}

/// The change that flips the completion flag of a task and nothing else.
pub open spec fn completion_flip(task: TaskRow, now: Seq<char>) -> TaskPatch {
    TaskPatch {
        name: None,
        description: None,
        completed: Some(!task.completed),
        favourite: None,
        updated_at: now,
    }
}

/// The change that flips the favourite flag of a task and nothing else.
pub open spec fn favourite_flip(task: TaskRow, now: Seq<char>) -> TaskPatch {
    TaskPatch {
        name: None,
        description: None,
        completed: None,
        favourite: Some(!task.favourite),
        updated_at: now,
    }
}

/// The two tables, with the highest identity that each has ever given out.
pub struct Tables {
    pub topics: Seq<TopicRow>,
    pub tasks: Seq<TaskRow>,
    pub last_topic_id: i32,
    pub last_task_id: i32,
}

impl Tables {
    /// The empty store.
    pub open spec fn empty() -> Tables {
        Tables { topics: Seq::empty(), tasks: Seq::empty(), last_topic_id: 0, last_task_id: 0 }
    }

    /// What the store keeps true of its tables: rows are ordered by identity,
    /// no identity is given out twice, and no two topics share a name.
    pub open spec fn wf(self) -> bool {
        &&& topics_ascending(self.topics)
        &&& tasks_ascending(self.tasks)
        &&& names_distinct(self.topics)
        &&& forall|i: int| 0 <= i < self.topics.len() ==> self.topics[i].id <= self.last_topic_id
        &&& forall|i: int| 0 <= i < self.tasks.len() ==> self.tasks[i].id <= self.last_task_id
    }

    /// Whether the topic table takes a new topic of this name.
    pub open spec fn accepts_topic(self, name: Seq<char>) -> bool {
        !has_name(self.topics, name) && self.last_topic_id < i32::MAX
    }

    /// The row that a new topic gets.
    pub open spec fn new_topic(self, name: Seq<char>, description: Seq<char>, now: Seq<char>) -> TopicRow {
        TopicRow {
            id: (self.last_topic_id + 1) as i32,
            name,
            description,
            created_at: now,
            updated_at: now,
        }
    }

    /// The store after a topic was added.
    pub open spec fn insert_topic(self, name: Seq<char>, description: Seq<char>, now: Seq<char>) -> Tables {
        Tables {
            topics: self.topics.push(self.new_topic(name, description, now)),
            last_topic_id: (self.last_topic_id + 1) as i32,
            ..self
        }
    }

    /// Whether deleting the topic with this identity removes a row: the topic
    /// exists and its name is not protected.
    pub open spec fn deletes_topic(self, id: i32) -> bool {
        has_topic(self.topics, id) && !is_protected(topic_by_id(self.topics, id).name)
    }

    /// The store after the deletion of a topic was asked for.
    pub open spec fn delete_topic(self, id: i32) -> Tables {
        if self.deletes_topic(id) {
            Tables { topics: without_topic(self.topics, id), ..self }
        } else {
            self
        }
    }

    /// Whether the task table takes a new task.
    pub open spec fn accepts_task(self) -> bool {
        self.last_task_id < i32::MAX
    }

    /// The row that a new task gets: neither completed nor favourite.
    pub open spec fn new_task(
        self,
        topic_id: i32,
        name: Seq<char>,
        description: Seq<char>,
        now: Seq<char>,
    ) -> TaskRow {
        TaskRow {
            id: (self.last_task_id + 1) as i32,
            topic_id,
            name,
            description,
            completed: false,
            favourite: false,
            created_at: now,
            updated_at: now,
        }
    }

    /// The store after a task was added.
    pub open spec fn insert_task(
        self,
        topic_id: i32,
        name: Seq<char>,
        description: Seq<char>,
        now: Seq<char>,
    ) -> Tables {
        Tables {
            tasks: self.tasks.push(self.new_task(topic_id, name, description, now)),
            last_task_id: (self.last_task_id + 1) as i32,
            ..self
        }
    }

    /// The store after a change to the task with this identity.
    pub open spec fn update_task(self, id: i32, patch: TaskPatch) -> Tables {
        Tables { tasks: with_patch(self.tasks, id, patch), ..self }
    }

    /// The store after the completion flag of a task was flipped.
    pub open spec fn toggle_completion(self, id: i32, now: Seq<char>) -> Tables {
        self.update_task(id, completion_flip(task_by_id(self.tasks, id), now))
    }

    /// The store after the favourite flag of a task was flipped.
    pub open spec fn toggle_favourite(self, id: i32, now: Seq<char>) -> Tables {
        self.update_task(id, favourite_flip(task_by_id(self.tasks, id), now))
    }

    /// The store after the task with this identity was deleted.
    pub open spec fn delete_task(self, id: i32) -> Tables {
        Tables { tasks: without_task(self.tasks, id), ..self }
    }

    /// In tables that are in order, the topic at a position is the topic
    /// with its identity.
    pub proof fn lemma_topic_at(self, k: int)
        requires
            self.wf(),
            0 <= k < self.topics.len(),
        ensures
            has_topic(self.topics, self.topics[k].id),
            topic_by_id(self.topics, self.topics[k].id) == self.topics[k],
    {
        let topics = self.topics;
        let id = topics[k].id;
        let c = choose|i: int| 0 <= i < topics.len() && #[trigger] topics[i].id == id;
        assert(c == k) by {
            if c < k {
                assert(topics[c].id < topics[k].id);
            }
            if k < c {
                assert(topics[k].id < topics[c].id);
            }
        }
    }

    /// In tables that are in order, the task at a position is the task with
    /// its identity.
    pub proof fn lemma_task_at(self, k: int)
        requires
            self.wf(),
            0 <= k < self.tasks.len(),
        ensures
            has_task(self.tasks, self.tasks[k].id),
            task_by_id(self.tasks, self.tasks[k].id) == self.tasks[k],
    {
        let tasks = self.tasks;
        let id = tasks[k].id;
        let c = choose|i: int| 0 <= i < tasks.len() && #[trigger] tasks[i].id == id;
        assert(c == k) by {
            if c < k {
                assert(tasks[c].id < tasks[k].id);
            }
            if k < c {
                assert(tasks[k].id < tasks[c].id);
            }
        }
    }

    /// A change to a task that exists leaves the tables in order and reaches
    /// that task alone.
    pub proof fn lemma_update_task(self, id: i32, patch: TaskPatch)
        requires
            self.wf(),
            has_task(self.tasks, id),
        ensures
            self.update_task(id, patch).wf(),
            has_task(self.update_task(id, patch).tasks, id),
            task_by_id(self.update_task(id, patch).tasks, id) == patched(
                task_by_id(self.tasks, id),
                patch,
            ),
    {
        let after = self.update_task(id, patch);
        let k = choose|i: int| 0 <= i < self.tasks.len() && #[trigger] self.tasks[i].id == id;
        assert(forall|i: int| 0 <= i < self.tasks.len() ==> after.tasks[i].id == self.tasks[i].id);
        assert(after.wf());
        self.lemma_task_at(k);
        assert(after.tasks[k].id == id);
        after.lemma_task_at(k);
    }
}

/// A task that a topic lists is a task of the table.
pub proof fn lemma_view_member(tasks: Seq<TaskRow>, topic: TopicRow, k: int)
    requires
        tasks_ascending(tasks),
        0 <= k < view_of(tasks, topic).len(),
    ensures
        shows(topic, view_of(tasks, topic)[k]),
        has_task(tasks, view_of(tasks, topic)[k].id),
        task_by_id(tasks, view_of(tasks, topic)[k].id) == view_of(tasks, topic)[k],
{
    let pred = |task: TaskRow| shows(topic, task);
    let row = view_of(tasks, topic)[k];
    assert(view_of(tasks, topic).contains(row));
    lemma_filter_members(tasks, pred, row);
    let j = choose|j: int| 0 <= j < tasks.len() && tasks[j] == row;
    assert(tasks[j].id == row.id);
    let c = choose|i: int| 0 <= i < tasks.len() && #[trigger] tasks[i].id == row.id;
    if c < j {
        assert(tasks[c].id < tasks[j].id);
    }
    if j < c {
        assert(tasks[j].id < tasks[c].id);
    }
}

/// The tasks that a topic lists are ordered by identity, as the table is.
pub proof fn lemma_view_ascending(tasks: Seq<TaskRow>, topic: TopicRow)
    requires
        tasks_ascending(tasks),
    ensures
        tasks_ascending(view_of(tasks, topic)),
    decreases tasks.len(),
{
    reveal(Seq::filter);
    let pred = |task: TaskRow| shows(topic, task);
    if tasks.len() > 0 {
        let front = tasks.drop_last();
        lemma_view_ascending(front, topic);
        let kept = view_of(front, topic);
        assert forall|i: int| 0 <= i < kept.len() implies (#[trigger] kept[i]).id
            < tasks.last().id by {
            assert(kept.contains(kept[i]));
            lemma_filter_members(front, pred, kept[i]);
            let j = choose|j: int| 0 <= j < front.len() && front[j] == kept[i];
            assert(tasks[j].id < tasks[tasks.len() - 1].id);
        }
    }
}

/// Deleting a task takes it from every list, and from nothing else.
pub proof fn lemma_view_without(tasks: Seq<TaskRow>, topic: TopicRow, id: i32)
    ensures
        view_of(without_task(tasks, id), topic) == without_task(view_of(tasks, topic), id),
{
    lemma_filter_commutes(
        tasks,
        |task: TaskRow| task.id != id,
        |task: TaskRow| shows(topic, task),
    );
}

/// Deleting the task at a position of an ordered list removes that position.
pub proof fn lemma_without_at(tasks: Seq<TaskRow>, k: int)
    requires
        tasks_ascending(tasks),
        0 <= k < tasks.len(),
    ensures
        without_task(tasks, tasks[k].id) == tasks.remove(k),
{
    let id = tasks[k].id;
    let pred = |task: TaskRow| task.id != id;
    assert forall|i: int| 0 <= i < tasks.len() && i != k implies pred(#[trigger] tasks[i]) by {
        if i < k {
            assert(tasks[i].id < tasks[k].id);
        } else {
            assert(tasks[k].id < tasks[i].id);
        }
    }
    lemma_filter_removes(tasks, pred, k);
}

} // verus!
