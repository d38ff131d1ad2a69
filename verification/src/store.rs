//! The store: the topic table and the task table, held in memory in the
//! order of their identities.

use crate::model::{classify, QueryError, Task, TaskRow, TaskUpdate, Topic, TopicKind, TopicRow};
use crate::seq_lemmas::{lemma_filter_all, lemma_filter_push, lemma_filter_removes};
use crate::tables::{
    has_name, has_task, has_topic, names_distinct, patched, shows, Tables, task_by_id,
    tasks_ascending, topic_by_id, topics_ascending, view_of, with_patch, without_topic,
};
use crate::text::same_text;
use vstd::prelude::*;

verus! {

/// The two tables and, for each, the highest identity it has given out.
#[derive(Debug, PartialEq, Eq)]
pub struct Store {
    pub topics: Vec<Topic>,
    pub tasks: Vec<Task>,
    pub last_topic_id: i32,
    pub last_task_id: i32,
}

impl View for Store {
    type V = Tables;

    open spec fn view(&self) -> Tables {
        Tables {
            topics: self.topics.deep_view(),
            tasks: self.tasks.deep_view(),
            last_topic_id: self.last_topic_id,
            last_task_id: self.last_task_id,
        }
    }
}

/// Copies a list of topics.
pub fn clone_topics(topics: &Vec<Topic>) -> (result: Vec<Topic>)
    ensures
        result.deep_view() == topics.deep_view(),
{
    let mut result: Vec<Topic> = Vec::new();
    let mut i: usize = 0;
    while i < topics.len()
        invariant
            i <= topics.len(),
            result.len() == i,
            forall|k: int| 0 <= k < i ==> result[k]@ == topics[k]@,
        decreases topics.len() - i,
    {
        result.push(topics[i].clone());
        i += 1;
    }
    assert(result.deep_view() =~= topics.deep_view());
    result
}

/// Copies a list of tasks.
pub fn clone_tasks(tasks: &Vec<Task>) -> (result: Vec<Task>)
    ensures
        result.deep_view() == tasks.deep_view(),
{
    let mut result: Vec<Task> = Vec::new();
    let mut i: usize = 0;
    while i < tasks.len()
        invariant
            i <= tasks.len(),
            result.len() == i,
            forall|k: int| 0 <= k < i ==> result[k]@ == tasks[k]@,
        decreases tasks.len() - i,
    {
        result.push(tasks[i].clone());
        i += 1;
    }
    assert(result.deep_view() =~= tasks.deep_view());
    result
}

impl Clone for Store {
    fn clone(&self) -> (result: Store)
        ensures
            result@ == self@,
    {
        Store {
            topics: clone_topics(&self.topics),
            tasks: clone_tasks(&self.tasks),
            last_topic_id: self.last_topic_id,
            last_task_id: self.last_task_id,
        }
    }
}

impl Store {
    /// Whether the tables are in order: see [`Tables::wf`].
    pub open spec fn wf(&self) -> bool {
        self@.wf()
    }

    /// A store with no rows.
    pub fn new() -> (result: Store)
        ensures
            result@ == Tables::empty(),
            result.wf(),
    {
        let result = Store {
            topics: Vec::new(),
            tasks: Vec::new(),
            last_topic_id: 0,
            last_task_id: 0,
        };
        assert(result@.topics =~= Seq::<TopicRow>::empty());
        assert(result@.tasks =~= Seq::<TaskRow>::empty());
        result
    }

    /// Where the topic with this identity stands in its table.
    pub fn topic_position(&self, id: i32) -> (result: Option<usize>)
        ensures
            match result {
                Some(k) => k < self.topics.len() && self@.topics[k as int].id == id,
                None => !has_topic(self@.topics, id),
            },
    {
        let mut i: usize = 0;
        while i < self.topics.len()
            invariant
                i <= self.topics.len(),
                forall|k: int| 0 <= k < i ==> self@.topics[k].id != id,
            decreases self.topics.len() - i,
        {
            if self.topics[i].id == id {
                return Some(i);
            }
            i += 1;
        }
        None
    }

    /// Where the task with this identity stands in its table.
    pub fn task_position(&self, id: i32) -> (result: Option<usize>)
        ensures
            match result {
                Some(k) => k < self.tasks.len() && self@.tasks[k as int].id == id,
                None => !has_task(self@.tasks, id),
            },
    {
        let mut i: usize = 0;
        while i < self.tasks.len()
            invariant
                i <= self.tasks.len(),
                forall|k: int| 0 <= k < i ==> self@.tasks[k].id != id,
            decreases self.tasks.len() - i,
        {
            if self.tasks[i].id == id {
                return Some(i);
            }
            i += 1;
        }
        None
    }

    /// Whether a topic of this name exists.
    pub fn name_taken(&self, name: &str) -> (result: bool)
        ensures
            result == has_name(self@.topics, name@),
    {
        let mut i: usize = 0;
        while i < self.topics.len()
            invariant
                i <= self.topics.len(),
                forall|k: int| 0 <= k < i ==> self@.topics[k].name != name@,
            decreases self.topics.len() - i,
        {
            if same_text(self.topics[i].name.as_str(), name) {
                assert(self@.topics[i as int].name == name@);
                return true;
            }
            i += 1;
        }
        false
    }

    /// Every topic, ordered by identity.
    pub fn all_topics(&self) -> (result: Vec<Topic>)
        ensures
            result.deep_view() == self@.topics,
    {
        clone_topics(&self.topics)
    }

    /// The topic with this identity.
    pub fn find_topic(&self, id: i32) -> (result: Option<Topic>)
        requires
            self.wf(),
        ensures
            result.is_some() == has_topic(self@.topics, id),
            result.is_some() ==> result.unwrap()@ == topic_by_id(self@.topics, id),
    {
        match self.topic_position(id) {
            Some(k) => {
                proof {
                    self@.lemma_topic_at(k as int);
                }
                Some(self.topics[k].clone())
            },
            None => None,
        }
    }

    /// The task with this identity.
    pub fn find_task(&self, id: i32) -> (result: Option<Task>)
        requires
            self.wf(),
        ensures
            result.is_some() == has_task(self@.tasks, id),
            result.is_some() ==> result.unwrap()@ == task_by_id(self@.tasks, id),
    {
        match self.task_position(id) {
            Some(k) => {
                proof {
                    self@.lemma_task_at(k as int);
                }
                Some(self.tasks[k].clone())
            },
            None => None,
        }
    }

    /// The tasks listed under a topic, ordered by identity.
    pub fn select_tasks(&self, topic: &Topic) -> (result: Vec<Task>)
        ensures
            result.deep_view() == view_of(self@.tasks, topic@),
    {
        let kind = classify(topic.name.as_str());
        let ghost pred = |task: TaskRow| shows(topic@, task);
        let mut result: Vec<Task> = Vec::new();
        let mut i: usize = 0;
        proof {
            assert(self@.tasks.take(0) =~= Seq::<TaskRow>::empty());
            lemma_filter_all(Seq::<TaskRow>::empty(), pred);
            assert(result.deep_view() =~= Seq::<TaskRow>::empty());
        }
        while i < self.tasks.len()
            invariant
                i <= self.tasks.len(),
                kind == crate::model::kind_of(topic@.name),
                pred == (|task: TaskRow| shows(topic@, task)),
                result.deep_view() == self@.tasks.take(i as int).filter(pred),
            decreases self.tasks.len() - i,
        {
            let task = &self.tasks[i];
            let listed = match kind {
                TopicKind::Favourites => task.favourite,
                TopicKind::Default => true,
                _ => task.topic_id == topic.id,
            };
            proof {
                assert(listed == pred(task@));
                lemma_filter_push(self@.tasks.take(i as int), pred, task@);
                assert(self@.tasks.take(i as int).push(task@) =~= self@.tasks.take(i + 1));
            }
            if listed {
                let ghost before = result.deep_view();
                result.push(task.clone());
                assert(result.deep_view() =~= before.push(task@));
            }
            i += 1;
        }
        assert(self@.tasks.take(i as int) =~= self@.tasks);
        result
    }
}

impl Store {
    /// Adds a topic with the next identity, stamped `now`. The store refuses
    /// a name that is taken, and a table that has run out of identities.
    pub fn insert_topic(&mut self, name: &str, description: &str, now: &str) -> (result: Result<
        Topic,
        QueryError,
    >)
        requires
            old(self).wf(),
        ensures
            final(self).wf(),
            match result {
                Ok(topic) => {
                    &&& old(self)@.accepts_topic(name@)
                    &&& final(self)@ == old(self)@.insert_topic(name@, description@, now@)
                    &&& topic@ == old(self)@.new_topic(name@, description@, now@)
                },
                Err(error) => {
                    &&& !old(self)@.accepts_topic(name@)
                    &&& final(self)@ == old(self)@
                    &&& error == if has_name(old(self)@.topics, name@) {
                        QueryError::UniqueViolation
                    } else {
                        QueryError::StoreFull
                    }
                },
            },
    {
        if self.name_taken(name) {
            return Err(QueryError::UniqueViolation);
        }
        if self.last_topic_id == i32::MAX {
            return Err(QueryError::StoreFull);
        }
        let id: i32 = self.last_topic_id + 1;
        let topic = Topic {
            id,
            name: name.to_owned(),
            description: description.to_owned(),
            created_at: now.to_owned(),
            updated_at: now.to_owned(),
        };
        let copy = topic.clone();
        self.topics.push(topic);
        self.last_topic_id = id;
        proof {
            let before = old(self)@;
            let after = before.insert_topic(name@, description@, now@);
            assert(self@.topics =~= after.topics);
            assert(self@.tasks =~= before.tasks);
            assert(forall|i: int| 0 <= i < before.topics.len() ==> after.topics[i] == before.topics[i]);
        }
        Ok(copy)
    }

    /// Deletes the topic with this identity, whatever its name, and returns
    /// the number of rows that went.
    pub fn remove_topic(&mut self, id: i32) -> (count: usize)
        requires
            old(self).wf(),
        ensures
            final(self).wf(),
            final(self)@ == (Tables { topics: without_topic(old(self)@.topics, id), ..old(self)@ }),
            count == if has_topic(old(self)@.topics, id) {
                1usize
            } else {
                0usize
            },
            has_topic(old(self)@.topics, id) ==> final(self)@.topics.len() + 1 == old(self)@.topics.len(),
    {
        let ghost pred = |topic: TopicRow| topic.id != id;
        match self.topic_position(id) {
            Some(k) => {
                self.topics.remove(k);
                proof {
                    let before = old(self)@.topics;
                    assert forall|i: int| 0 <= i < before.len() && i != k implies pred(
                        #[trigger] before[i],
                    ) by {
                        if i < k {
                            assert(before[i].id < before[k as int].id);
                        } else {
                            assert(before[k as int].id < before[i].id);
                        }
                    }
                    lemma_filter_removes(before, pred, k as int);
                    assert(self@.topics =~= before.remove(k as int));
                    assert(self@.tasks =~= old(self)@.tasks);
                }
                1
            },
            None => {
                proof {
                    lemma_filter_all(old(self)@.topics, pred);
                }
                0
            },
        }
    }

    /// Adds a task with the next identity, neither completed nor favourite,
    /// stamped `now`. The store refuses it when the table has run out of
    /// identities.
    pub fn insert_task(&mut self, topic_id: i32, name: &str, description: &str, now: &str) -> (result:
        Result<Task, QueryError>)
        requires
            old(self).wf(),
        ensures
            final(self).wf(),
            match result {
                Ok(task) => {
                    &&& old(self)@.accepts_task()
                    &&& final(self)@ == old(self)@.insert_task(topic_id, name@, description@, now@)
                    &&& task@ == old(self)@.new_task(topic_id, name@, description@, now@)
                },
                Err(error) => {
                    &&& !old(self)@.accepts_task()
                    &&& final(self)@ == old(self)@
                    &&& error == QueryError::StoreFull
                },
            },
    {
        if self.last_task_id == i32::MAX {
            return Err(QueryError::StoreFull);
        }
        let id: i32 = self.last_task_id + 1;
        let task = Task {
            id,
            topic_id,
            name: name.to_owned(),
            description: description.to_owned(),
            completed: false,
            favourite: false,
            created_at: now.to_owned(),
            updated_at: now.to_owned(),
        };
        let copy = task.clone();
        self.tasks.push(task);
        self.last_task_id = id;
        proof {
            let before = old(self)@;
            let after = before.insert_task(topic_id, name@, description@, now@);
            assert(self@.tasks =~= after.tasks);
            assert(self@.topics =~= before.topics);
            assert(forall|i: int| 0 <= i < before.tasks.len() ==> after.tasks[i] == before.tasks[i]);
        }
        Ok(copy)
    }

    /// Applies a change to the task with this identity and returns the number
    /// of rows that it reached.
    pub fn patch_task(&mut self, id: i32, update: &TaskUpdate) -> (count: usize)
        requires
            old(self).wf(),
        ensures
            final(self).wf(),
            final(self)@ == old(self)@.update_task(id, update@),
            count == if has_task(old(self)@.tasks, id) {
                1usize
            } else {
                0usize
            },
    {
        match self.task_position(id) {
            Some(k) => {
                let current = &self.tasks[k];
                let changed = Task {
                    id: current.id,
                    topic_id: current.topic_id,
                    name: match update.name {
                        Some(name) => name.to_owned(),
                        None => current.name.clone(),
                    },
                    description: match update.description {
                        Some(description) => description.to_owned(),
                        None => current.description.clone(),
                    },
                    completed: match update.completed {
                        Some(completed) => completed,
                        None => current.completed,
                    },
                    favourite: match update.favourite {
                        Some(favourite) => favourite,
                        None => current.favourite,
                    },
                    created_at: current.created_at.clone(),
                    updated_at: update.updated_at.to_owned(),
                };
                assert(changed@ == patched(current@, update@));
                self.tasks.set(k, changed);
                proof {
                    let before = old(self)@.tasks;
                    let after = with_patch(before, id, update@);
                    assert forall|i: int| 0 <= i < before.len() implies #[trigger] self@.tasks[i]
                        == after[i] by {
                        if i < k {
                            assert(before[i].id < before[k as int].id);
                        }
                        if k < i {
                            assert(before[k as int].id < before[i].id);
                        }
                    }
                    assert(self@.tasks =~= after);
                    assert(self@.topics =~= old(self)@.topics);
                }
                1
            },
            None => {
                proof {
                    let before = old(self)@.tasks;
                    assert(with_patch(before, id, update@) =~= before);
                }
                0
            },
        }
    }

    /// Deletes the task with this identity and returns the number of rows
    /// that went.
    pub fn remove_task(&mut self, id: i32) -> (count: usize)
        requires
            old(self).wf(),
        ensures
            final(self).wf(),
            final(self)@ == old(self)@.delete_task(id),
            count == if has_task(old(self)@.tasks, id) {
                1usize
            } else {
                0usize
            },
    {
        let ghost pred = |task: TaskRow| task.id != id;
        match self.task_position(id) {
            Some(k) => {
                self.tasks.remove(k);
                proof {
                    let before = old(self)@.tasks;
                    assert forall|i: int| 0 <= i < before.len() && i != k implies pred(
                        #[trigger] before[i],
                    ) by {
                        if i < k {
                            assert(before[i].id < before[k as int].id);
                        } else {
                            assert(before[k as int].id < before[i].id);
                        }
                    }
                    lemma_filter_removes(before, pred, k as int);
                    assert(self@.tasks =~= before.remove(k as int));
                    assert(self@.topics =~= old(self)@.topics);
                }
                1
            },
            None => {
                proof {
                    lemma_filter_all(old(self)@.tasks, pred);
                }
                0
            },
        }
    }
}

/// Whether the identities of the topics grow strictly and none is above
/// `last`.
fn topics_in_order(topics: &Vec<Topic>, last: i32) -> (result: bool)
    ensures
        result == (topics_ascending(topics.deep_view()) && forall|i: int|
            0 <= i < topics.len() ==> topics.deep_view()[i].id <= last),
{
    let ghost rows = topics.deep_view();
    let mut i: usize = 0;
    while i < topics.len()
        invariant
            i <= topics.len(),
            rows == topics.deep_view(),
            rows.len() == topics.len(),
            forall|a: int, b: int| 0 <= a < b < i ==> rows[a].id < rows[b].id,
            forall|a: int| 0 <= a < i ==> rows[a].id <= last,
        decreases topics.len() - i,
    {
        if topics[i].id > last {
            assert(rows[i as int].id > last);
            return false;
        }
        if i > 0 && topics[i - 1].id >= topics[i].id {
            assert(!(rows[i - 1].id < rows[i as int].id));
            return false;
        }
        proof {
            assert forall|a: int| 0 <= a < i implies rows[a].id < rows[i as int].id by {
                if a < i - 1 {
                    assert(rows[a].id < rows[i - 1].id);
                }
            }
        }
        i += 1;
    }
    true
}

/// Whether the identities of the tasks grow strictly and none is above
/// `last`.
fn tasks_in_order(tasks: &Vec<Task>, last: i32) -> (result: bool)
    ensures
        result == (tasks_ascending(tasks.deep_view()) && forall|i: int|
            0 <= i < tasks.len() ==> tasks.deep_view()[i].id <= last),
{
    let ghost rows = tasks.deep_view();
    let mut i: usize = 0;
    while i < tasks.len()
        invariant
            i <= tasks.len(),
            rows == tasks.deep_view(),
            rows.len() == tasks.len(),
            forall|a: int, b: int| 0 <= a < b < i ==> rows[a].id < rows[b].id,
            forall|a: int| 0 <= a < i ==> rows[a].id <= last,
        decreases tasks.len() - i,
    {
        if tasks[i].id > last {
            assert(rows[i as int].id > last);
            return false;
        }
        if i > 0 && tasks[i - 1].id >= tasks[i].id {
            assert(!(rows[i - 1].id < rows[i as int].id));
            return false;
        }
        proof {
            assert forall|a: int| 0 <= a < i implies rows[a].id < rows[i as int].id by {
                if a < i - 1 {
                    assert(rows[a].id < rows[i - 1].id);
                }
            }
        }
        i += 1;
    }
    true
}

/// Whether no two topics share a name.
fn names_unique(topics: &Vec<Topic>) -> (result: bool)
    ensures
        result == names_distinct(topics.deep_view()),
{
    let ghost rows = topics.deep_view();
    let mut i: usize = 0;
    while i < topics.len()
        invariant
            i <= topics.len(),
            rows == topics.deep_view(),
            rows.len() == topics.len(),
            forall|a: int, b: int| 0 <= a < i && 0 <= b < a ==> rows[a].name != rows[b].name,
        decreases topics.len() - i,
    {
        let mut j: usize = 0;
        while j < i
            invariant
                j <= i,
                i < topics.len(),
                rows == topics.deep_view(),
                rows.len() == topics.len(),
                forall|b: int| 0 <= b < j ==> rows[i as int].name != rows[b].name,
            decreases i - j,
        {
            if same_text(topics[i].name.as_str(), topics[j].name.as_str()) {
                assert(rows[i as int].name == rows[j as int].name);
                return false;
            }
            j += 1;
        }
        i += 1;
    }
    assert forall|a: int, b: int|
        0 <= a < rows.len() && 0 <= b < rows.len() && a != b implies rows[a].name
        != rows[b].name by {
        if b < a {
            assert(rows[a].name != rows[b].name);
        } else {
            assert(rows[b].name != rows[a].name);
        }
    }
    true
}

impl Store {
    /// A store of the given rows, where they are in order: identities grow
    /// strictly along each table, none is above the highest that its table
    /// has given out, and no two topics share a name.
    pub fn from_rows(
        topics: Vec<Topic>,
        tasks: Vec<Task>,
        last_topic_id: i32,
        last_task_id: i32,
    ) -> (result: Option<Store>)
        ensures
            result.is_some() == (Tables {
                topics: topics.deep_view(),
                tasks: tasks.deep_view(),
                last_topic_id,
                last_task_id,
            }).wf(),
            result.is_some() ==> result.unwrap()@ == (Tables {
                topics: topics.deep_view(),
                tasks: tasks.deep_view(),
                last_topic_id,
                last_task_id,
            }),
    {
        if topics_in_order(&topics, last_topic_id) && tasks_in_order(&tasks, last_task_id)
            && names_unique(&topics) {
            Some(Store { topics, tasks, last_topic_id, last_task_id })
        } else {
            None
        }
    }

    /// Whether the tables are in order.
    pub fn is_in_order(&self) -> (result: bool)
        ensures
            result == self.wf(),
    {
        topics_in_order(&self.topics, self.last_topic_id) && tasks_in_order(
            &self.tasks,
            self.last_task_id,
        ) && names_unique(&self.topics)
    }
}

} // verus!
