//! The state of a session: the cached topics and tasks, what is selected,
//! the input mode with its buffers, and the log.

use crate::clock::current_timestamp;
use crate::model::{
    completed_name, default_name, favourites_name, is_protected, is_view, kind_of, QueryError,
    same_task_list, same_topic_list, Task, TaskPatch, TaskRow, TaskUpdate, Topic, TopicKind,
    TopicRow,
};
use crate::operations::DbOperations;
use crate::store::Store;
use crate::tables::{
    has_name, lemma_view_ascending, lemma_view_member, lemma_view_without, lemma_without_at,
    Tables, task_by_id, view_of,
};
use crate::text::{decimal, decimal_text, same_text, truncate_chars, truncated};
use std::collections::HashSet;
use vstd::prelude::*;
use vstd::std_specs::hash::*;
use vstd::string::*;

verus! {

/// What a keystroke means at the moment.
#[derive(Clone, Copy, Debug, PartialEq, Eq, Structural)]
pub enum InputMode {
    Normal,
    AddingTask,
    AddingTaskName,
    AddingTaskDescription,
    EditingTask,
    AddingTopic,
    Help,
}

/// One line of the log: the time, the level in square brackets, the message.
pub open spec fn log_line(stamp: Seq<char>, level: Seq<char>, message: Seq<char>) -> Seq<char> {
    stamp + " ["@ + level + "] "@ + message
}

/// Whether a line of the log carries this level and message, whatever its
/// time.
pub open spec fn reports(entry: Seq<char>, level: Seq<char>, message: Seq<char>) -> bool {
    exists|stamp: Seq<char>| entry == #[trigger] log_line(stamp, level, message)
}

/// Writes one line of the log.
pub fn format_log_entry(stamp: &str, level: &str, message: &str) -> (entry: String)
    ensures
        entry@ == log_line(stamp@, level@, message@),
{
    let mut entry: String = stamp.to_owned();
    entry.append(" [");
    entry.append(level);
    entry.append("] ");
    entry.append(message);
    entry
}

/// A selection moved down into a list of `len` entries: the last entry where
/// it pointed past the end, the first where the list is empty.
pub open spec fn clamped(selected: usize, len: nat) -> usize {
    if len == 0 {
        0
    } else if selected >= len {
        (len - 1) as usize
    } else {
        selected
    }
}

/// The level of a line that reports what was done.
pub open spec fn info_level() -> Seq<char> {
    "INFO"@
}

/// The level of a line that reports a failure.
pub open spec fn error_level() -> Seq<char> {
    "ERROR"@
}

/// The message logged when the completion of a task was toggled.
pub open spec fn toggled_message(id: i32) -> Seq<char> {
    "Toggled task id: "@ + decimal(id as int)
}

/// The message logged when the favourite flag of a task was toggled.
pub open spec fn favourite_message(id: i32) -> Seq<char> {
    "Toggled favourite for task id: "@ + decimal(id as int)
}

/// The message logged when a task was deleted.
pub open spec fn deleted_message(id: i32) -> Seq<char> {
    "Deleted task id: "@ + decimal(id as int)
}

/// The message logged when a topic was deleted.
pub open spec fn deleted_topic_message(id: i32) -> Seq<char> {
    "Deleted topic id: "@ + decimal(id as int)
}

/// The message logged when a task was edited.
pub open spec fn edited_message(id: i32) -> Seq<char> {
    "Successfully edited task, with id: "@ + decimal(id as int)
}

/// The message logged when a task was added with a name and a description.
pub open spec fn added_details_message(name: Seq<char>, description: Seq<char>) -> Seq<char> {
    "Added task: "@ + name + " - "@ + description
}

/// The message logged when a task was added from its description alone.
pub open spec fn added_message(description: Seq<char>) -> Seq<char> {
    "Added task: "@ + description
}

/// The name given to a task that was added from its description alone: a
/// fixed label and the first twenty characters of the description.
pub open spec fn short_name(description: Seq<char>) -> Seq<char> {
    "Task "@ + truncated(description, 20)
}

/// The change that an edit makes: a new description, and the name and both
/// flags as they were.
pub open spec fn edit_patch(task: TaskRow, description: Seq<char>, now: Seq<char>) -> TaskPatch {
    TaskPatch {
        name: Some(task.name),
        description: Some(description),
        completed: Some(task.completed),
        favourite: Some(task.favourite),
        updated_at: now,
    }
}

/// The store after a topic of this name was made sure of: as it was where
/// the topic exists, and with the topic added, without a description, where
/// it does not.
pub open spec fn ensured(tables: Tables, name: Seq<char>, now: Seq<char>) -> Tables {
    if has_name(tables.topics, name) {
        tables
    } else {
        tables.insert_topic(name, Seq::empty(), now)
    }
}

/// The store after startup: the favourites topic, the default topic and the
/// completed topic were made sure of, in this order.
pub open spec fn bootstrapped(
    tables: Tables,
    first: Seq<char>,
    second: Seq<char>,
    third: Seq<char>,
) -> Tables {
    ensured(
        ensured(ensured(tables, favourites_name(), first), default_name(), second),
        completed_name(),
        third,
    )
}

/// One where no topic has this name, nought where one has.
pub open spec fn lacks(tables: Tables, name: Seq<char>) -> nat {
    if has_name(tables.topics, name) {
        0
    } else {
        1
    }
}

/// How many of the three topics of startup the store does not hold.
pub open spec fn missing_names(tables: Tables) -> nat {
    lacks(tables, favourites_name()) + lacks(tables, default_name()) + lacks(
        tables,
        completed_name(),
    )
}

/// Making sure of a topic adds at most that topic, and leaves the tables in
/// order.
pub proof fn lemma_ensured(tables: Tables, name: Seq<char>, now: Seq<char>, other: Seq<char>)
    requires
        tables.wf(),
        has_name(tables.topics, name) || tables.last_topic_id < i32::MAX,
    ensures
        ensured(tables, name, now).wf(),
        ensured(tables, name, now).tasks == tables.tasks,
        ensured(tables, name, now).last_topic_id == tables.last_topic_id + lacks(tables, name),
        has_name(ensured(tables, name, now).topics, name),
        other != name ==> has_name(ensured(tables, name, now).topics, other) == has_name(
            tables.topics,
            other,
        ),
{
    let after = ensured(tables, name, now);
    if !has_name(tables.topics, name) {
        let n = tables.topics.len() as int;
        assert(after.topics[n].name == name);
        assert(forall|i: int| 0 <= i < n ==> after.topics[i] == tables.topics[i]);
        assert(after.wf());
        if has_name(tables.topics, other) {
            let i = choose|i: int| 0 <= i < n && #[trigger] tables.topics[i].name == other;
            assert(after.topics[i].name == other);
        }
        if other != name && has_name(after.topics, other) {
            let i = choose|i: int| 0 <= i < n + 1 && #[trigger] after.topics[i].name == other;
            assert(tables.topics[i].name == other);
        }
    }
}

/// The three names of startup differ from each other.
pub proof fn lemma_names_differ()
    ensures
        favourites_name() != default_name(),
        favourites_name() != completed_name(),
        default_name() != completed_name(),
{
    reveal_strlit("Favourites");
    reveal_strlit("Default");
    reveal_strlit("Completed");
    assert(favourites_name().len() == 10);
    assert(default_name().len() == 7);
    assert(completed_name().len() == 9);
}

/// A message made of a fixed label and an identity.
fn labelled_id(label: &str, id: i32) -> (message: String)
    ensures
        message@ == label@ + decimal(id as int),
{
    let mut message: String = label.to_owned();
    let number = decimal_text(id);
    message.append(number.as_str());
    message
}

/// The state of a session.
pub struct App {
    /// The repository.
    pub db_ops: DbOperations,
    /// The topics, as last read from the store.
    pub topics: Vec<Topic>,
    /// The position of the current topic.
    pub selected_topic: usize,
    /// The tasks listed under the current topic, as last read from the store.
    pub tasks: Vec<Task>,
    /// The position of the selected task.
    pub selected: usize,
    /// The input mode.
    pub input_mode: InputMode,
    /// The text typed for a new topic, a task added in one step, or an edit.
    pub input: String,
    /// The name typed for a new task.
    pub task_name_input: String,
    /// The description typed for a new task.
    pub task_description_input: String,
    /// The log, oldest line first.
    pub logs: Vec<String>,
    /// How many lines the log is scrolled back from its newest line.
    pub log_offset: usize,
    /// The identities of the tasks shown in full.
    pub expanded: HashSet<i32>,
    /// Whether the help is shown.
    pub show_help: bool,
}

impl App {
    /// The tasks that the store lists under the current topic: none where
    /// there is no topic.
    pub open spec fn listed(&self) -> Seq<TaskRow> {
        if self.topics.len() == 0 {
            Seq::empty()
        } else {
            view_of(self.db_ops@.tasks, self.topics[self.selected_topic as int]@)
        }
    }

    /// Whether the cached topics are those of the store, and the current
    /// topic is one of them.
    pub open spec fn topics_in_step(&self) -> bool {
        &&& self.db_ops.wf()
        &&& self.topics.deep_view() == self.db_ops@.topics
        &&& (self.selected_topic < self.topics.len() || self.selected_topic == 0)
    }

    /// Whether the cached tasks are those that the store lists under the
    /// current topic, and the selected task is one of them.
    pub open spec fn tasks_in_step(&self) -> bool {
        &&& self.tasks.deep_view() == self.listed()
        &&& (self.selected < self.tasks.len() || self.selected == 0)
    }

    /// What holds between any two operations: the caches reflect the store,
    /// both selections are in range, and the help is shown exactly in the
    /// help mode.
    pub open spec fn wf(&self) -> bool {
        &&& self.topics_in_step()
        &&& self.tasks_in_step()
        &&& self.show_help == (self.input_mode == InputMode::Help)
    }

    /// Whether two states agree on the input mode, the buffers, the expanded
    /// tasks and the help.
    pub open spec fn same_input(&self, other: &App) -> bool {
        &&& self.input_mode == other.input_mode
        &&& self.input@ == other.input@
        &&& self.task_name_input@ == other.task_name_input@
        &&& self.task_description_input@ == other.task_description_input@
        &&& self.expanded@ == other.expanded@
        &&& self.show_help == other.show_help
    }

    /// Whether two states agree on the log and its scroll offset.
    pub open spec fn same_log(&self, other: &App) -> bool {
        &&& self.logs@ == other.logs@
        &&& self.log_offset == other.log_offset
    }

    /// Whether `self` has the log of `before` and one more line, of this
    /// level and message, and shows the newest line.
    pub open spec fn logged(&self, before: &App, level: Seq<char>, message: Seq<char>) -> bool {
        &&& self.logs@.len() == before.logs@.len() + 1
        &&& self.logs@.drop_last() == before.logs@
        &&& reports(self.logs@.last()@, level, message)
        &&& self.log_offset == 0
    }

    /// Whether two states agree on the store, the cached topics and the
    /// current topic.
    pub open spec fn same_topics(&self, other: &App) -> bool {
        &&& self.db_ops@ == other.db_ops@
        &&& self.topics.deep_view() == other.topics.deep_view()
        &&& self.topics.len() == other.topics.len()
        &&& self.selected_topic == other.selected_topic
        &&& self.selected_topic < self.topics.len() ==> self.current_topic()
            == other.current_topic()
    }

    /// Whether two states agree on the cached tasks and the selected task.
    pub open spec fn same_tasks(&self, other: &App) -> bool {
        &&& self.tasks.deep_view() == other.tasks.deep_view()
        &&& self.tasks.len() == other.tasks.len()
        &&& self.selected == other.selected
        &&& self.selected < self.tasks.len() ==> self.selected_task() == other.selected_task()
    }

    /// Appends a line with the given time to the log and scrolls the log to
    /// its newest line.
    pub fn add_log_at(&mut self, stamp: &str, level: &str, msg: &str)
        ensures
            final(self).logs@.len() == old(self).logs@.len() + 1,
            final(self).logs@.drop_last() == old(self).logs@,
            final(self).logs@.last()@ == log_line(stamp@, level@, msg@),
            final(self).log_offset == 0,
            final(self).logged(old(self), level@, msg@),
            final(self).same_input(old(self)),
            final(self).same_topics(old(self)),
            final(self).same_tasks(old(self)),
            final(self).db_ops == old(self).db_ops,
            final(self).topics == old(self).topics,
            final(self).tasks == old(self).tasks,
    {
        let entry = format_log_entry(stamp, level, msg);
        self.logs.push(entry);
        self.log_offset = 0;
        assert(self.logs@.drop_last() =~= old(self).logs@);
    }

    /// Appends a line with the present time to the log and scrolls the log
    /// to its newest line.
    pub fn add_log(&mut self, level: &str, msg: &str)
        ensures
            final(self).logged(old(self), level@, msg@),
            final(self).same_input(old(self)),
            final(self).same_topics(old(self)),
            final(self).same_tasks(old(self)),
            final(self).db_ops == old(self).db_ops,
            final(self).topics == old(self).topics,
            final(self).tasks == old(self).tasks,
    {
        let now = current_timestamp();
        self.add_log_at(now.as_str(), level, msg);
    }

    /// Reads the topics anew from the store.
    pub fn load_topics(&mut self) -> (result: Result<(), QueryError>)
        ensures
            result.is_ok(),
            final(self).topics.deep_view() == old(self).db_ops@.topics,
            final(self).db_ops == old(self).db_ops,
            final(self).selected_topic == old(self).selected_topic,
            final(self).tasks == old(self).tasks,
            final(self).same_tasks(old(self)),
            final(self).same_input(old(self)),
            final(self).same_log(old(self)),
    {
        match self.db_ops.load_topics() {
            Ok(topics) => {
                self.topics = topics;
                Ok(())
            },
            Err(error) => Err(error),
        }
    }

    /// Reads the tasks of the current topic anew from the store, and moves
    /// the selection down where the list has become shorter.
    pub fn load_tasks(&mut self) -> (result: Result<(), QueryError>)
        requires
            old(self).topics_in_step(),
        ensures
            result.is_ok(),
            final(self).topics_in_step(),
            final(self).tasks_in_step(),
            final(self).selected == clamped(old(self).selected, final(self).tasks.len() as nat),
            final(self).db_ops == old(self).db_ops,
            final(self).topics == old(self).topics,
            final(self).same_topics(old(self)),
            final(self).same_input(old(self)),
            final(self).same_log(old(self)),
    {
        self.tasks.clear();
        if self.topics.len() == 0 {
            self.selected = 0;
            assert(self.tasks.deep_view() =~= self.listed());
            return Ok(());
        }
        let loaded = self.db_ops.load_tasks(&self.topics[self.selected_topic]);
        match loaded {
            Ok(tasks) => {
                self.tasks = tasks;
                if self.tasks.len() == 0 {
                    self.selected = 0;
                } else if self.selected >= self.tasks.len() {
                    self.selected = self.tasks.len() - 1;
                }
                Ok(())
            },
            Err(error) => Err(error),
        }
    }

    /// The current topic, where there is one.
    pub open spec fn current_topic(&self) -> TopicRow {
        self.topics[self.selected_topic as int]@
    }

    /// The selected task, where there is one.
    pub open spec fn selected_task(&self) -> TaskRow {
        self.tasks[self.selected as int]@
    }

    /// Whether two states agree on everything but the input mode, the
    /// buffers, the expanded tasks and the help.
    pub open spec fn untouched(&self, before: &App) -> bool {
        &&& self.same_topics(before)
        &&& self.same_tasks(before)
        &&& self.same_log(before)
    }

    /// What toggling the completion of the selected task leaves: nothing
    /// changed where no task is listed; else the flag flipped in the store,
    /// one line logged, and the tasks read anew.
    pub open spec fn after_toggle_task(&self, before: &App) -> bool {
        &&& self.topics.deep_view() == before.topics.deep_view()
        &&& self.selected_topic == before.selected_topic
        &&& if before.tasks.len() == 0 {
            self.untouched(before)
        } else {
            let id = before.selected_task().id;
            &&& self.db_ops@ == before.db_ops@.toggle_completion(
                id,
                task_by_id(self.db_ops@.tasks, id).updated_at,
            )
            &&& self.logged(before, info_level(), toggled_message(id))
            &&& self.selected == clamped(before.selected, self.tasks.len() as nat)
        }
    }

    /// What toggling the favourite flag of the selected task leaves: nothing
    /// changed where no task is listed; else the flag flipped in the store,
    /// one line logged, and the tasks read anew.
    pub open spec fn after_toggle_favourite(&self, before: &App) -> bool {
        &&& self.topics.deep_view() == before.topics.deep_view()
        &&& self.selected_topic == before.selected_topic
        &&& if before.tasks.len() == 0 {
            self.untouched(before)
        } else {
            let id = before.selected_task().id;
            &&& self.db_ops@ == before.db_ops@.toggle_favourite(
                id,
                task_by_id(self.db_ops@.tasks, id).updated_at,
            )
            &&& self.logged(before, info_level(), favourite_message(id))
            &&& self.selected == clamped(before.selected, self.tasks.len() as nat)
        }
    }

    /// What deleting the selected task leaves: nothing changed where no task
    /// is listed; else the task gone from the store and from the list, one
    /// line logged, and the selection moved up where it pointed at the last
    /// task.
    pub open spec fn after_delete_task(&self, before: &App) -> bool {
        &&& self.topics.deep_view() == before.topics.deep_view()
        &&& self.selected_topic == before.selected_topic
        &&& if before.tasks.len() == 0 {
            self.untouched(before)
        } else {
            let id = before.selected_task().id;
            &&& self.db_ops@ == before.db_ops@.delete_task(id)
            &&& self.logged(before, info_level(), deleted_message(id))
            &&& self.tasks.deep_view() == before.tasks.deep_view().remove(before.selected as int)
            &&& self.selected == clamped(before.selected, (before.tasks.len() - 1) as nat)
        }
    }

    /// What adding a task leaves. Under the favourites topic, or without a
    /// topic, nothing changes and the call succeeds. Else the call succeeds
    /// exactly when the store takes the task: then the task stands in the
    /// store under the current topic and at the end of the list, and one
    /// line is logged. Where the store refuses, nothing changes.
    pub open spec fn after_add(
        &self,
        before: &App,
        name: Seq<char>,
        description: Seq<char>,
        message: Seq<char>,
        result: Result<(), QueryError>,
    ) -> bool {
        &&& self.topics.deep_view() == before.topics.deep_view()
        &&& self.selected_topic == before.selected_topic
        &&& result.is_ok() == (!before.takes_tasks() || before.db_ops@.accepts_task())
        &&& result.is_err() ==> result == Err::<(), QueryError>(QueryError::StoreFull)
        &&& if before.takes_tasks() && result.is_ok() {
            let row = self.db_ops@.tasks.last();
            &&& self.db_ops@ == before.db_ops@.insert_task(
                before.current_topic().id,
                name,
                description,
                row.created_at,
            )
            &&& self.tasks.deep_view() == before.tasks.deep_view().push(row)
            &&& self.logged(before, info_level(), message)
            &&& self.selected == before.selected
        } else {
            self.untouched(before)
        }
    }

    /// What adding a topic leaves. The call succeeds exactly when the store
    /// takes the topic: then the topic stands in the store, without a
    /// description, and in the cached topics. Where the store refuses,
    /// nothing changes. Nothing is logged.
    pub open spec fn after_add_topic(
        &self,
        before: &App,
        name: Seq<char>,
        result: Result<(), QueryError>,
    ) -> bool {
        &&& self.same_log(before)
        &&& self.selected_topic == before.selected_topic
        &&& result.is_ok() == before.db_ops@.accepts_topic(name)
        &&& match result {
            Ok(_) => {
                &&& self.db_ops@ == before.db_ops@.insert_topic(
                    name,
                    Seq::empty(),
                    self.db_ops@.topics.last().created_at,
                )
                &&& before.topics.len() > 0 ==> self.same_tasks(before)
            },
            Err(error) => {
                &&& error == if has_name(before.db_ops@.topics, name) {
                    QueryError::UniqueViolation
                } else {
                    QueryError::StoreFull
                }
                &&& self.untouched(before)
            },
        }
    }

    /// What deleting the current topic leaves. Under a protected topic, or
    /// without a topic, nothing changes. Else the topic is gone from the
    /// store, one line is logged, the first topic is current, and its tasks
    /// are read.
    pub open spec fn after_delete_topic(&self, before: &App) -> bool {
        if before.topics.len() > 0 && !is_protected(before.current_topic().name) {
            let id = before.current_topic().id;
            &&& self.db_ops@ == before.db_ops@.delete_topic(id)
            &&& self.db_ops@.topics.len() + 1 == before.db_ops@.topics.len()
            &&& self.selected_topic == 0
            &&& self.selected == clamped(before.selected, self.tasks.len() as nat)
            &&& self.logged(before, info_level(), deleted_topic_message(id))
        } else {
            self.untouched(before)
        }
    }

    /// What editing the selected task leaves: nothing changed where no task
    /// is listed; else the description replaced in the store, the name and
    /// both flags kept, one line logged, and the tasks read anew.
    pub open spec fn after_edit(&self, before: &App, description: Seq<char>) -> bool {
        &&& self.topics.deep_view() == before.topics.deep_view()
        &&& self.selected_topic == before.selected_topic
        &&& if before.tasks.len() == 0 {
            self.untouched(before)
        } else {
            let task = before.selected_task();
            &&& self.db_ops@ == before.db_ops@.update_task(
                task.id,
                edit_patch(
                    task,
                    description,
                    task_by_id(self.db_ops@.tasks, task.id).updated_at,
                ),
            )
            &&& self.logged(before, info_level(), edited_message(task.id))
            &&& self.selected == clamped(before.selected, self.tasks.len() as nat)
        }
    }

    /// Whether the current topic takes new tasks: there is a current topic,
    /// and it is not the favourites topic, which owns no tasks.
    pub open spec fn takes_tasks(&self) -> bool {
        self.topics.len() > 0 && kind_of(self.current_topic().name) != TopicKind::Favourites
    }

    /// In a state that is in order, the selected task is a row of the store.
    pub proof fn lemma_selected_stored(&self)
        requires
            self.wf(),
            self.tasks.len() > 0,
        ensures
            crate::tables::has_task(self.db_ops@.tasks, self.selected_task().id),
            task_by_id(self.db_ops@.tasks, self.selected_task().id) == self.selected_task(),
            self.topics.len() > 0,
    {
        assert(self.tasks.deep_view().len() == self.tasks.len());
        assert(self.tasks.deep_view()[self.selected as int] == self.selected_task());
        lemma_view_member(self.db_ops@.tasks, self.current_topic(), self.selected as int);
    }

    /// Toggles the completion of the selected task, logs it, and reads the
    /// tasks anew. Does nothing where no task is listed.
    pub fn toggle_task(&mut self) -> (result: Result<(), QueryError>)
        requires
            old(self).wf(),
        ensures
            final(self).wf(),
            result.is_ok(),
            final(self).same_input(old(self)),
            final(self).after_toggle_task(old(self)),
    {
        if self.selected >= self.tasks.len() {
            return Ok(());
        }
        let id: i32 = self.tasks[self.selected].id;
        proof {
            self.lemma_selected_stored();
        }
        match self.db_ops.toggle_task_completion(id) {
            Ok(_) => {},
            Err(error) => {
                return Err(error);
            },
        }
        let message = labelled_id("Toggled task id: ", id);
        self.add_log("INFO", message.as_str());
        self.load_tasks()
    }

    /// Toggles the favourite flag of the selected task, logs it, and reads
    /// the tasks anew. Does nothing where no task is listed.
    pub fn toggle_favourite(&mut self) -> (result: Result<(), QueryError>)
        requires
            old(self).wf(),
        ensures
            final(self).wf(),
            result.is_ok(),
            final(self).same_input(old(self)),
            final(self).after_toggle_favourite(old(self)),
    {
        if self.selected >= self.tasks.len() {
            return Ok(());
        }
        let id: i32 = self.tasks[self.selected].id;
        proof {
            self.lemma_selected_stored();
        }
        match self.db_ops.toggle_task_favourite(id) {
            Ok(_) => {},
            Err(error) => {
                return Err(error);
            },
        }
        let message = labelled_id("Toggled favourite for task id: ", id);
        self.add_log("INFO", message.as_str());
        self.load_tasks()
    }

    /// Deletes the selected task, logs it, and reads the tasks anew; the
    /// selection stays where it was unless it pointed at the last task, and
    /// then moves one up. Does nothing where no task is listed.
    pub fn delete_task(&mut self) -> (result: Result<(), QueryError>)
        requires
            old(self).wf(),
        ensures
            final(self).wf(),
            result.is_ok(),
            final(self).same_input(old(self)),
            final(self).after_delete_task(old(self)),
    {
        if self.selected >= self.tasks.len() {
            return Ok(());
        }
        let id: i32 = self.tasks[self.selected].id;
        proof {
            self.lemma_selected_stored();
            let stored = self.db_ops@.tasks;
            let topic = self.current_topic();
            lemma_view_without(stored, topic, id);
            lemma_view_ascending(stored, topic);
            lemma_without_at(view_of(stored, topic), self.selected as int);
        }
        match self.db_ops.delete_task(id) {
            Ok(_) => {},
            Err(error) => {
                return Err(error);
            },
        }
        let message = labelled_id("Deleted task id: ", id);
        self.add_log("INFO", message.as_str());
        match self.load_tasks() {
            Ok(_) => {},
            Err(error) => {
                return Err(error);
            },
        }
        if self.selected > 0 && self.selected >= self.tasks.len() {
            self.selected -= 1;
        }
        proof {
            let before = old(self).tasks.deep_view();
            assert(before == view_of(old(self).db_ops@.tasks, old(self).current_topic()));
            assert(before[old(self).selected as int].id == id);
            assert(self.topics[self.selected_topic as int]@ == old(self).current_topic());
            assert(self.tasks.deep_view() == before.remove(old(self).selected as int));
            assert(self.tasks.deep_view().len() == self.tasks.len());
        }
        Ok(())
    }

    /// Whether the current topic is the favourites topic.
    pub fn current_topic_is_favourites(&self) -> (result: bool)
        requires
            self.selected_topic < self.topics.len() || self.topics.len() == 0,
        ensures
            result == (self.topics.len() > 0 && self.current_topic().name == favourites_name()),
    {
        if self.topics.len() == 0 {
            false
        } else {
            same_text(self.topics[self.selected_topic].name.as_str(), "Favourites")
        }
    }

    /// Whether the current topic is the favourites topic or the default
    /// topic: a view over the tasks of every topic.
    pub fn current_topic_is_special(&self) -> (result: bool)
        requires
            self.selected_topic < self.topics.len() || self.topics.len() == 0,
        ensures
            result == (self.topics.len() > 0 && is_view(self.current_topic().name)),
    {
        if self.topics.len() == 0 {
            false
        } else {
            let name = self.topics[self.selected_topic].name.as_str();
            same_text(name, "Favourites") || same_text(name, "Default")
        }
    }

    /// Empties the two buffers of a new task.
    pub fn reset_task_inputs(&mut self)
        ensures
            final(self).task_name_input@ == Seq::<char>::empty(),
            final(self).task_description_input@ == Seq::<char>::empty(),
            final(self).input@ == old(self).input@,
            final(self).input_mode == old(self).input_mode,
            final(self).expanded@ == old(self).expanded@,
            final(self).show_help == old(self).show_help,
            final(self).same_topics(old(self)),
            final(self).same_tasks(old(self)),
            final(self).same_log(old(self)),
            final(self).db_ops == old(self).db_ops,
            final(self).topics == old(self).topics,
            final(self).tasks == old(self).tasks,
    {
        self.task_name_input.clear();
        self.task_description_input.clear();
    }

    /// Adds a task to the current topic and reads the tasks anew.
    fn insert_and_reload(&mut self, name: &str, desc: &str, message: &str) -> (result: Result<
        (),
        QueryError,
    >)
        requires
            old(self).wf(),
            old(self).takes_tasks(),
        ensures
            final(self).wf(),
            final(self).same_input(old(self)),
            final(self).after_add(old(self), name@, desc@, message@, result),
    {
        let topic_id: i32 = self.topics[self.selected_topic].id;
        match self.db_ops.add_task(topic_id, name, desc) {
            Ok(_) => {},
            Err(error) => {
                return Err(error);
            },
        }
        self.add_log("INFO", message);
        proof {
            let topic = old(self).current_topic();
            let stored = old(self).db_ops@.tasks;
            let row = self.db_ops@.tasks.last();
            assert(self.db_ops@.tasks == stored.push(row));
            crate::seq_lemmas::lemma_filter_push(
                stored,
                |task: TaskRow| crate::tables::shows(topic, task),
                row,
            );
            assert(crate::tables::shows(topic, row));
            assert(old(self).tasks.deep_view().len() == old(self).tasks.len());
        }
        let reloaded = self.load_tasks();
        proof {
            assert(self.tasks.deep_view().len() == self.tasks.len());
        }
        reloaded
    }

    /// Adds a task with a name and a description to the current topic, logs
    /// it, and reads the tasks anew. Does nothing under the favourites
    /// topic, or where there is no topic.
    pub fn add_task_with_details(&mut self, name: &str, desc: &str) -> (result: Result<
        (),
        QueryError,
    >)
        requires
            old(self).wf(),
        ensures
            final(self).wf(),
            final(self).same_input(old(self)),
            final(self).after_add(
                old(self),
                name@,
                desc@,
                added_details_message(name@, desc@),
                result,
            ),
    {
        if self.topics.len() == 0 {
            return Ok(());
        }
        if same_text(self.topics[self.selected_topic].name.as_str(), "Favourites") {
            return Ok(());
        }
        let mut message: String = String::from_str("Added task: ");
        message.append(name);
        message.append(" - ");
        message.append(desc);
        self.insert_and_reload(name, desc, message.as_str())
    }

    /// Adds a task from its description alone, under a name made from the
    /// description, logs it, and reads the tasks anew. Does nothing under
    /// the favourites topic, or where there is no topic.
    pub fn add_task(&mut self, desc: &str) -> (result: Result<(), QueryError>)
        requires
            old(self).wf(),
        ensures
            final(self).wf(),
            final(self).same_input(old(self)),
            final(self).after_add(
                old(self),
                short_name(desc@),
                desc@,
                added_message(desc@),
                result,
            ),
    {
        if self.topics.len() == 0 {
            return Ok(());
        }
        if same_text(self.topics[self.selected_topic].name.as_str(), "Favourites") {
            return Ok(());
        }
        let mut name: String = String::from_str("Task ");
        let head = truncate_chars(desc, 20);
        name.append(head.as_str());
        let mut message: String = String::from_str("Added task: ");
        message.append(desc);
        self.insert_and_reload(name.as_str(), desc, message.as_str())
    }

    /// Adds a topic with an empty description and reads the topics anew.
    /// Fails, and changes nothing, when the store refuses the topic.
    pub fn add_topic(&mut self, name: &str) -> (result: Result<(), QueryError>)
        requires
            old(self).wf(),
        ensures
            final(self).wf(),
            final(self).same_input(old(self)),
            final(self).after_add_topic(old(self), name@, result),
    {
        proof {
            reveal_strlit("");
            assert(""@ =~= Seq::<char>::empty());
        }
        match self.db_ops.add_topic(name, "") {
            Ok(_) => {},
            Err(error) => {
                return Err(error);
            },
        }
        match self.load_topics() {
            Ok(_) => {},
            Err(error) => {
                return Err(error);
            },
        }
        proof {
            assert(old(self).topics.deep_view().len() == old(self).topics.len());
            assert(self.topics.deep_view().len() == self.topics.len());
            if old(self).topics.len() > 0 {
                let at = self.selected_topic as int;
                assert(self.topics.deep_view()[at] == old(self).topics.deep_view()[at]);
            }
        }
        let reloaded = self.load_tasks();
        proof {
            assert(self.tasks.deep_view().len() == self.tasks.len());
            assert(old(self).tasks.deep_view().len() == old(self).tasks.len());
            if old(self).topics.len() > 0 && self.selected < self.tasks.len() {
                let at = self.selected as int;
                assert(self.tasks.deep_view()[at] == old(self).tasks.deep_view()[at]);
            }
        }
        reloaded
    }

    /// Deletes the current topic, logs it, reads the topics anew, makes the
    /// first topic current and reads its tasks. Does nothing, and logs
    /// nothing, under a protected topic or where there is no topic.
    pub fn delete_topic(&mut self) -> (result: Result<(), QueryError>)
        requires
            old(self).wf(),
        ensures
            final(self).wf(),
            result.is_ok(),
            final(self).same_input(old(self)),
            final(self).after_delete_topic(old(self)),
    {
        if self.topics.len() == 0 {
            return Ok(());
        }
        if same_text(self.topics[self.selected_topic].name.as_str(), "Favourites") {
            return Ok(());
        }
        let topic_id: i32 = self.topics[self.selected_topic].id;
        proof {
            assert(self.topics.deep_view()[self.selected_topic as int] == self.current_topic());
            self.db_ops@.lemma_topic_at(self.selected_topic as int);
        }
        let count = match self.db_ops.delete_topic(topic_id) {
            Ok(count) => count,
            Err(error) => {
                return Err(error);
            },
        };
        if count == 0 {
            return Ok(());
        }
        let message = labelled_id("Deleted topic id: ", topic_id);
        self.add_log("INFO", message.as_str());
        match self.load_topics() {
            Ok(_) => {},
            Err(error) => {
                return Err(error);
            },
        }
        self.selected_topic = 0;
        self.load_tasks()
    }

    /// Replaces the description of the selected task, keeping its name and
    /// both flags, logs it, and reads the tasks anew. Does nothing where no
    /// task is listed.
    pub fn edit_task(&mut self, desc: &str) -> (result: Result<(), QueryError>)
        requires
            old(self).wf(),
        ensures
            final(self).wf(),
            result.is_ok(),
            final(self).same_input(old(self)),
            final(self).after_edit(old(self), desc@),
    {
        if self.selected >= self.tasks.len() {
            return Ok(());
        }
        let task = self.tasks[self.selected].clone();
        let now = current_timestamp();
        let update = TaskUpdate {
            name: Some(task.name.as_str()),
            description: Some(desc),
            completed: Some(task.completed),
            favourite: Some(task.favourite),
            updated_at: now.as_str(),
        };
        proof {
            self.lemma_selected_stored();
            assert(update@ == edit_patch(old(self).selected_task(), desc@, now@));
            self.db_ops@.lemma_update_task(task.id, update@);
        }
        match self.db_ops.update_task(task.id, update) {
            Ok(_) => {},
            Err(error) => {
                return Err(error);
            },
        }
        let message = labelled_id("Successfully edited task, with id: ", task.id);
        self.add_log("INFO", message.as_str());
        self.load_tasks()
    }

    /// Where the first cached topic of this name stands.
    pub fn position_of(&self, name: &str) -> (result: Option<usize>)
        ensures
            match result {
                Some(k) => {
                    &&& k < self.topics.len()
                    &&& self.topics[k as int]@.name == name@
                    &&& forall|j: int| 0 <= j < k ==> self.topics[j]@.name != name@
                },
                None => !has_name(self.topics.deep_view(), name@),
            },
    {
        let mut i: usize = 0;
        while i < self.topics.len()
            invariant
                i <= self.topics.len(),
                forall|k: int| 0 <= k < i ==> self.topics[k]@.name != name@,
            decreases self.topics.len() - i,
        {
            if same_text(self.topics[i].name.as_str(), name) {
                return Some(i);
            }
            i += 1;
        }
        assert(forall|k: int|
            0 <= k < self.topics.deep_view().len() ==> self.topics.deep_view()[k]
                == self.topics[k]@);
        None
    }

    /// Makes sure that a topic of this name exists: adds it, without a
    /// description, and reads the topics anew where none does.
    fn ensure_topic(&mut self, name: &str) -> (result: Result<(), QueryError>)
        requires
            old(self).topics_in_step(),
        ensures
            final(self).topics_in_step(),
            result.is_ok() == (has_name(old(self).db_ops@.topics, name@)
                || old(self).db_ops@.last_topic_id < i32::MAX),
            match result {
                Ok(_) => final(self).db_ops@ == ensured(
                    old(self).db_ops@,
                    name@,
                    final(self).db_ops@.topics.last().created_at,
                ),
                Err(error) => {
                    &&& error == QueryError::StoreFull
                    &&& final(self).db_ops@ == old(self).db_ops@
                },
            },
            final(self).selected_topic == old(self).selected_topic,
            final(self).same_tasks(old(self)),
            final(self).same_input(old(self)),
            final(self).same_log(old(self)),
    {
        proof {
            reveal_strlit("");
            assert(""@ =~= Seq::<char>::empty());
        }
        match self.position_of(name) {
            Some(k) => {
                assert(self.topics.deep_view()[k as int].name == name@);
                Ok(())
            },
            None => {
                match self.db_ops.add_topic(name, "") {
                    Ok(_) => {},
                    Err(error) => {
                        return Err(error);
                    },
                }
                let reloaded = self.load_topics();
                proof {
                    assert(old(self).topics.deep_view().len() == old(self).topics.len());
                    assert(self.topics.deep_view().len() == self.topics.len());
                }
                reloaded
            },
        }
    }

    /// Starts a session on a store: reads the topics, makes sure of the
    /// favourites, default and completed topics, in this order, makes the
    /// favourites topic current, reads its tasks, and logs each step. Fails
    /// when the store cannot take the topics that are missing.
    pub fn new(store: Store) -> (result: Result<App, QueryError>)
        requires
            store.wf(),
        ensures
            result.is_ok() == (store@.last_topic_id + missing_names(store@) <= i32::MAX),
            match result {
                Ok(app) => {
                    &&& app.wf()
                    &&& exists|first: Seq<char>, second: Seq<char>, third: Seq<char>|
                        app.db_ops@ == #[trigger] bootstrapped(store@, first, second, third)
                    &&& app.selected_topic < app.topics.len()
                    &&& app.current_topic().name == favourites_name()
                    &&& app.selected == 0
                    &&& app.input_mode == InputMode::Normal
                    &&& app.input@ == Seq::<char>::empty()
                    &&& app.task_name_input@ == Seq::<char>::empty()
                    &&& app.task_description_input@ == Seq::<char>::empty()
                    &&& app.expanded@ == Set::<i32>::empty()
                    &&& !app.show_help
                    &&& app.log_offset == 0
                    &&& app.logs@.len() == 3
                    &&& reports(app.logs@[0]@, info_level(), "Topics loaded"@)
                    &&& reports(app.logs@[1]@, info_level(), "Tasks loaded"@)
                    &&& reports(app.logs@[2]@, info_level(), "Application started"@)
                },
                Err(error) => error == QueryError::StoreFull,
            },
    {
        let db_ops = DbOperations::new(store);
        let mut app = App {
            db_ops,
            topics: Vec::new(),
            tasks: Vec::new(),
            selected: 0,
            selected_topic: 0,
            input_mode: InputMode::Normal,
            input: String::new(),
            task_name_input: String::new(),
            task_description_input: String::new(),
            logs: Vec::new(),
            log_offset: 0,
            expanded: HashSet::new(),
            show_help: false,
        };
        let ghost t0 = store@;
        proof {
            lemma_names_differ();
        }
        match app.load_topics() {
            Ok(_) => {},
            Err(error) => {
                return Err(error);
            },
        }
        match app.ensure_topic("Favourites") {
            Ok(_) => {},
            Err(error) => {
                return Err(error);
            },
        }
        let ghost t1 = app.db_ops@;
        let ghost s1 = t1.topics.last().created_at;
        proof {
            lemma_ensured(t0, favourites_name(), s1, default_name());
            lemma_ensured(t0, favourites_name(), s1, completed_name());
        }
        match app.ensure_topic("Default") {
            Ok(_) => {},
            Err(error) => {
                return Err(error);
            },
        }
        let ghost t2 = app.db_ops@;
        let ghost s2 = t2.topics.last().created_at;
        proof {
            lemma_ensured(t1, default_name(), s2, completed_name());
            lemma_ensured(t1, default_name(), s2, favourites_name());
        }
        match app.ensure_topic("Completed") {
            Ok(_) => {},
            Err(error) => {
                return Err(error);
            },
        }
        let ghost t3 = app.db_ops@;
        let ghost s3 = t3.topics.last().created_at;
        proof {
            lemma_ensured(t2, completed_name(), s3, favourites_name());
            assert(t3 == bootstrapped(t0, s1, s2, s3));
        }
        app.add_log("INFO", "Topics loaded");
        match app.position_of("Favourites") {
            Some(k) => {
                app.selected_topic = k;
            },
            None => {},
        }
        match app.load_tasks() {
            Ok(_) => {},
            Err(error) => {
                return Err(error);
            },
        }
        app.add_log("INFO", "Tasks loaded");
        app.add_log("INFO", "Application started");
        proof {
            assert(app.logs@[2] == app.logs@.last());
            assert(app.logs@[1] == app.logs@.drop_last().last());
            assert(app.logs@[0] == app.logs@.drop_last().drop_last().last());
        }
        Ok(app)
    }

    /// Whether the state is in order: see [`App::wf`].
    pub fn is_in_order(&self) -> (result: bool)
        ensures
            result == self.wf(),
    {
        if !self.db_ops.store.is_in_order() {
            return false;
        }
        if !same_topic_list(&self.topics, &self.db_ops.store.topics) {
            return false;
        }
        if self.selected_topic >= self.topics.len() && self.selected_topic != 0 {
            return false;
        }
        if self.selected >= self.tasks.len() && self.selected != 0 {
            return false;
        }
        if self.show_help != (self.input_mode == InputMode::Help) {
            return false;
        }
        if self.topics.len() == 0 {
            proof {
                assert(self.tasks.deep_view().len() == self.tasks.len());
                if self.tasks.len() == 0 {
                    assert(self.tasks.deep_view() =~= self.listed());
                }
            }
            self.tasks.len() == 0
        } else {
            let listed = self.db_ops.store.select_tasks(&self.topics[self.selected_topic]);
            same_task_list(&self.tasks, &listed)
        }
    }

    /// Puts an earlier state of the store back, for a change that could not
    /// be kept, and reads the topics and the tasks anew from it. Both
    /// selections move down where their lists have become shorter; the
    /// input mode, the buffers and the log stay.
    pub fn roll_back(&mut self, store: Store)
        requires
            store.wf(),
        ensures
            final(self).topics_in_step(),
            final(self).tasks_in_step(),
            final(self).db_ops@ == store@,
            final(self).selected_topic == clamped(
                old(self).selected_topic,
                final(self).topics.len() as nat,
            ),
            final(self).selected == clamped(old(self).selected, final(self).tasks.len() as nat),
            final(self).same_input(old(self)),
            final(self).same_log(old(self)),
            old(self).show_help == (old(self).input_mode == InputMode::Help) ==> final(self).wf(),
    {
        self.db_ops = DbOperations::new(store);
        let _ = self.load_topics();
        if self.topics.len() == 0 {
            self.selected_topic = 0;
        } else if self.selected_topic >= self.topics.len() {
            self.selected_topic = self.topics.len() - 1;
        }
        let _ = self.load_tasks();
    }
}

} // verus!
