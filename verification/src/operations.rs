//! The repository: the queries that the rest of the program may put to the
//! store, with the guard that keeps the protected topics.

use crate::clock::current_timestamp;
use crate::model::{is_protected, QueryError, Task, TaskUpdate, Topic};
use crate::store::Store;
use crate::tables::{has_task, has_topic, Tables, task_by_id, topic_by_id, view_of};
use crate::text::same_text;
use vstd::prelude::*;

verus! {

/// The gateway to the store.
pub struct DbOperations {
    pub store: Store,
}

impl View for DbOperations {
    type V = Tables;

    open spec fn view(&self) -> Tables {
        self.store@
    }
}

impl DbOperations {
    /// Whether the store behind the repository is in order.
    pub open spec fn wf(&self) -> bool {
        self.store.wf()
    }

    /// A repository over the given store.
    pub fn new(store: Store) -> (result: DbOperations)
        ensures
            result.store == store,
    {
        DbOperations { store }
    }

    /// Whether a topic of this name is protected from deletion.
    pub fn is_special_topic(&self, name: &str) -> (result: bool)
        ensures
            result == is_protected(name@),
    {
        same_text(name, "Favourites") || same_text(name, "Default") || same_text(
            name,
            "Completed",
        )
    }

    /// Every topic, ordered by identity.
    pub fn load_topics(&self) -> (result: Result<Vec<Topic>, QueryError>)
        ensures
            result.is_ok(),
            result.unwrap().deep_view() == self@.topics,
    {
        Ok(self.store.all_topics())
    }

    /// Adds a topic, stamped with the present time, and returns its row.
    /// Fails, and changes nothing, when the store refuses the topic.
    pub fn add_topic(&mut self, name: &str, description: &str) -> (result: Result<Topic, QueryError>)
        requires
            old(self).wf(),
        ensures
            final(self).wf(),
            result.is_ok() == old(self)@.accepts_topic(name@),
            match result {
                Ok(topic) => {
                    &&& final(self)@ == old(self)@.insert_topic(
                        name@,
                        description@,
                        topic@.created_at,
                    )
                    &&& topic@ == old(self)@.new_topic(name@, description@, topic@.created_at)
                },
                Err(error) => {
                    &&& final(self)@ == old(self)@
                    &&& error == if crate::tables::has_name(old(self)@.topics, name@) {
                        QueryError::UniqueViolation
                    } else {
                        QueryError::StoreFull
                    }
                },
            },
    {
        let now = current_timestamp();
        self.store.insert_topic(name, description, now.as_str())
    }

    /// Deletes the topic with this identity, unless it is one of the three
    /// protected topics: then nothing is deleted and the count is zero. Fails
    /// when there is no such topic.
    pub fn delete_topic(&mut self, topic_id: i32) -> (result: Result<usize, QueryError>)
        requires
            old(self).wf(),
        ensures
            final(self).wf(),
            final(self)@ == old(self)@.delete_topic(topic_id),
            result == if !has_topic(old(self)@.topics, topic_id) {
                Err::<usize, QueryError>(QueryError::NotFound)
            } else if is_protected(topic_by_id(old(self)@.topics, topic_id).name) {
                Ok(0usize)
            } else {
                Ok(1usize)
            },
            old(self)@.deletes_topic(topic_id) ==> final(self)@.topics.len() + 1 == old(self)@.topics.len(),
    {
        let topic = match self.store.find_topic(topic_id) {
            Some(topic) => topic,
            None => {
                return Err(QueryError::NotFound);
            },
        };
        if self.is_special_topic(topic.name.as_str()) {
            return Ok(0);
        }
        Ok(self.store.remove_topic(topic_id))
    }

    /// The tasks listed under a topic, ordered by identity.
    pub fn load_tasks(&self, current_topic: &Topic) -> (result: Result<Vec<Task>, QueryError>)
        ensures
            result.is_ok(),
            result.unwrap().deep_view() == view_of(self@.tasks, current_topic@),
    {
        Ok(self.store.select_tasks(current_topic))
    }

    /// Adds a task to a topic, stamped with the present time, and returns its
    /// row. Fails, and changes nothing, when the store refuses the task.
    pub fn add_task(&mut self, topic_id: i32, name: &str, description: &str) -> (result: Result<
        Task,
        QueryError,
    >)
        requires
            old(self).wf(),
        ensures
            final(self).wf(),
            result.is_ok() == old(self)@.accepts_task(),
            match result {
                Ok(task) => {
                    &&& final(self)@ == old(self)@.insert_task(
                        topic_id,
                        name@,
                        description@,
                        task@.created_at,
                    )
                    &&& task@ == old(self)@.new_task(topic_id, name@, description@, task@.created_at)
                },
                Err(error) => final(self)@ == old(self)@ && error == QueryError::StoreFull,
            },
    {
        let now = current_timestamp();
        self.store.insert_task(topic_id, name, description, now.as_str())
    }

    /// Applies a change to a task and returns the row as the store holds it
    /// afterwards. Fails, and changes nothing, when there is no such task.
    pub fn update_task(&mut self, task_id: i32, update: TaskUpdate) -> (result: Result<
        Task,
        QueryError,
    >)
        requires
            old(self).wf(),
        ensures
            final(self).wf(),
            final(self)@ == old(self)@.update_task(task_id, update@),
            result.is_ok() == has_task(old(self)@.tasks, task_id),
            match result {
                Ok(task) => task@ == task_by_id(final(self)@.tasks, task_id),
                Err(error) => error == QueryError::NotFound && final(self)@ == old(self)@,
            },
    {
        self.store.patch_task(task_id, &update);
        proof {
            if has_task(old(self)@.tasks, task_id) {
                old(self)@.lemma_update_task(task_id, update@);
            } else {
                assert(old(self)@.update_task(task_id, update@).tasks =~= old(self)@.tasks);
            }
        }
        match self.store.find_task(task_id) {
            Some(task) => Ok(task),
            None => Err(QueryError::NotFound),
        }
    }

    /// Flips the completion flag of a task, stamps the present time, and
    /// returns the row as the store holds it afterwards. Fails, and changes
    /// nothing, when there is no such task.
    pub fn toggle_task_completion(&mut self, task_id: i32) -> (result: Result<Task, QueryError>)
        requires
            old(self).wf(),
        ensures
            final(self).wf(),
            result.is_ok() == has_task(old(self)@.tasks, task_id),
            match result {
                Ok(task) => {
                    &&& final(self)@ == old(self)@.toggle_completion(task_id, task@.updated_at)
                    &&& task@ == task_by_id(final(self)@.tasks, task_id)
                },
                Err(error) => error == QueryError::NotFound && final(self)@ == old(self)@,
            },
    {
        let current = match self.store.find_task(task_id) {
            Some(task) => task,
            None => {
                return Err(QueryError::NotFound);
            },
        };
        let now = current_timestamp();
        let update = TaskUpdate {
            name: None,
            description: None,
            completed: Some(!current.completed),
            favourite: None,
            updated_at: now.as_str(),
        };
        proof {
            old(self)@.lemma_update_task(task_id, update@);
        }
        self.update_task(task_id, update)
    }

    /// Flips the favourite flag of a task, stamps the present time, and
    /// returns the row as the store holds it afterwards. Fails, and changes
    /// nothing, when there is no such task.
    pub fn toggle_task_favourite(&mut self, task_id: i32) -> (result: Result<Task, QueryError>)
        requires
            old(self).wf(),
        ensures
            final(self).wf(),
            result.is_ok() == has_task(old(self)@.tasks, task_id),
            match result {
                Ok(task) => {
                    &&& final(self)@ == old(self)@.toggle_favourite(task_id, task@.updated_at)
                    &&& task@ == task_by_id(final(self)@.tasks, task_id)
                },
                Err(error) => error == QueryError::NotFound && final(self)@ == old(self)@,
            },
    {
        let current = match self.store.find_task(task_id) {
            Some(task) => task,
            None => {
                return Err(QueryError::NotFound);
            },
        };
        let now = current_timestamp();
        let update = TaskUpdate {
            name: None,
            description: None,
            completed: None,
            favourite: Some(!current.favourite),
            updated_at: now.as_str(),
        };
        proof {
            old(self)@.lemma_update_task(task_id, update@);
        }
        self.update_task(task_id, update)
    }

    /// Deletes the task with this identity and returns the number of rows
    /// that went.
    pub fn delete_task(&mut self, task_id: i32) -> (result: Result<usize, QueryError>)
        requires
            old(self).wf(),
        ensures
            final(self).wf(),
            final(self)@ == old(self)@.delete_task(task_id),
            result == Ok::<usize, QueryError>(
                if has_task(old(self)@.tasks, task_id) {
                    1usize
                } else {
                    0usize
                },
            ),
    {
        Ok(self.store.remove_task(task_id))
    }
}

} // verus!
