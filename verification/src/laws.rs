//! What holds of the store and of a session whatever they contain.

use crate::app::App;
use crate::model::{default_name, favourites_name, is_protected, TaskRow, TopicRow};
use crate::seq_lemmas::{lemma_filter_all, lemma_filter_members};
use crate::tables::{
    has_name, has_task, has_topic, shows, Tables, task_by_id, topic_by_id, view_of,
};
use vstd::prelude::*;

verus! {

/// The favourites topic lists a task exactly when the task is a favourite,
/// whatever topic the task belongs to.
pub proof fn law_favourites_lists_favourites(tasks: Seq<TaskRow>, topic: TopicRow, task: TaskRow)
    requires
        topic.name == favourites_name(),
    ensures
        view_of(tasks, topic).contains(task) <==> tasks.contains(task) && task.favourite,
{
    lemma_filter_members(tasks, |row: TaskRow| shows(topic, row), task);
}

/// After the favourite flag of a task was toggled, the favourites topic
/// lists that task exactly when it was no favourite before, and lists every
/// other task exactly when it did before.
pub proof fn law_favourites_follows_toggle(
    tables: Tables,
    topic: TopicRow,
    id: i32,
    now: Seq<char>,
    other: i32,
)
    requires
        tables.wf(),
        topic.name == favourites_name(),
        has_task(tables.tasks, id),
        other != id,
    ensures
        has_task(view_of(tables.toggle_favourite(id, now).tasks, topic), id) == !task_by_id(
            tables.tasks,
            id,
        ).favourite,
        has_task(view_of(tables.toggle_favourite(id, now).tasks, topic), other) == has_task(
            view_of(tables.tasks, topic),
            other,
        ),
{
    let after = tables.toggle_favourite(id, now).tasks;
    let before = tables.tasks;
    let pred = |row: TaskRow| shows(topic, row);
    let k = choose|i: int| 0 <= i < before.len() && #[trigger] before[i].id == id;
    tables.lemma_task_at(k);
    assert(after.len() == before.len());
    assert(forall|i: int| 0 <= i < before.len() ==> (#[trigger] after[i]).id == before[i].id);
    assert forall|i: int| 0 <= i < before.len() && i != k implies #[trigger] after[i]
        == before[i] by {
        if i < k {
            assert(before[i].id < before[k].id);
        } else {
            assert(before[k].id < before[i].id);
        }
    }
    assert(after[k].favourite == !before[k].favourite);
    lemma_listed_by_id(after, topic, id);
    lemma_listed_by_id(after, topic, other);
    lemma_listed_by_id(before, topic, other);
    if exists|i: int| 0 <= i < after.len() && #[trigger] after[i].id == id && shows(topic, after[i]) {
        let i = choose|i: int|
            0 <= i < after.len() && #[trigger] after[i].id == id && shows(topic, after[i]);
        if i < k {
            assert(before[i].id < before[k].id);
        }
        if k < i {
            assert(before[k].id < before[i].id);
        }
    }
    if !before[k].favourite {
        assert(after[k].id == id && shows(topic, after[k]));
    }
    if exists|i: int|
        0 <= i < after.len() && #[trigger] after[i].id == other && shows(topic, after[i]) {
        let i = choose|i: int|
            0 <= i < after.len() && #[trigger] after[i].id == other && shows(topic, after[i]);
        assert(before[i].id == other && shows(topic, before[i]));
    }
    if exists|i: int|
        0 <= i < before.len() && #[trigger] before[i].id == other && shows(topic, before[i]) {
        let i = choose|i: int|
            0 <= i < before.len() && #[trigger] before[i].id == other && shows(topic, before[i]);
        assert(after[i].id == other && shows(topic, after[i]));
    }
}

/// A topic lists a task of some identity exactly when the table holds a
/// task of that identity that the topic shows.
pub proof fn lemma_listed_by_id(tasks: Seq<TaskRow>, topic: TopicRow, id: i32)
    ensures
        has_task(view_of(tasks, topic), id) <==> exists|i: int|
            0 <= i < tasks.len() && #[trigger] tasks[i].id == id && shows(topic, tasks[i]),
{
    let pred = |row: TaskRow| shows(topic, row);
    let listed = view_of(tasks, topic);
    if has_task(listed, id) {
        let j = choose|j: int| 0 <= j < listed.len() && #[trigger] listed[j].id == id;
        assert(listed.contains(listed[j]));
        lemma_filter_members(tasks, pred, listed[j]);
        let i = choose|i: int| 0 <= i < tasks.len() && tasks[i] == listed[j];
        assert(tasks[i].id == id && shows(topic, tasks[i]));
    }
    if exists|i: int| 0 <= i < tasks.len() && #[trigger] tasks[i].id == id && shows(topic, tasks[i]) {
        let i = choose|i: int|
            0 <= i < tasks.len() && #[trigger] tasks[i].id == id && shows(topic, tasks[i]);
        assert(tasks.contains(tasks[i]));
        lemma_filter_members(tasks, pred, tasks[i]);
        let j = choose|j: int| 0 <= j < listed.len() && listed[j] == tasks[i];
        assert(listed[j].id == id);
    }
}

/// The default topic lists every task of the store, in the order of the
/// store, whatever topic each belongs to.
pub proof fn law_default_lists_all(tasks: Seq<TaskRow>, topic: TopicRow)
    requires
        topic.name == default_name(),
    ensures
        view_of(tasks, topic) == tasks,
{
    crate::app::lemma_names_differ();
    lemma_filter_all(tasks, |row: TaskRow| shows(topic, row));
}

/// Asking for the deletion of the favourites topic, of the default topic or
/// of the completed topic deletes nothing: the store stays as it was.
pub proof fn law_protected_topic_stays(tables: Tables, id: i32)
    requires
        has_topic(tables.topics, id),
        is_protected(topic_by_id(tables.topics, id).name),
    ensures
        !tables.deletes_topic(id),
        tables.delete_topic(id) == tables,
{
}

/// In a session that is in order, deleting the current topic changes
/// nothing where that topic is protected.
pub proof fn law_protected_delete_is_ignored(before: &App, after: &App)
    requires
        before.wf(),
        before.topics.len() > 0,
        is_protected(before.current_topic().name),
        after.after_delete_topic(before),
    ensures
        after.db_ops@ == before.db_ops@,
        after.topics.deep_view() == before.topics.deep_view(),
        after.selected_topic == before.selected_topic,
        after.tasks.deep_view() == before.tasks.deep_view(),
        after.selected == before.selected,
        after.logs@ == before.logs@,
{
}

/// No deletion of a topic, whichever is asked for, takes a protected name
/// from the store.
pub proof fn law_protected_names_survive(tables: Tables, id: i32, name: Seq<char>)
    requires
        tables.wf(),
        is_protected(name),
        has_name(tables.topics, name),
    ensures
        has_name(tables.delete_topic(id).topics, name),
{
    if tables.deletes_topic(id) {
        let topics = tables.topics;
        let k = choose|i: int| 0 <= i < topics.len() && #[trigger] topics[i].name == name;
        let c = choose|i: int| 0 <= i < topics.len() && #[trigger] topics[i].id == id;
        assert(topics[k].id != id) by {
            if topics[k].id == id {
                if c < k {
                    assert(topics[c].id < topics[k].id);
                }
                if k < c {
                    assert(topics[k].id < topics[c].id);
                }
            }
        }
        assert(topics.contains(topics[k]));
        let kept = tables.delete_topic(id).topics;
        lemma_filter_members(topics, |topic: TopicRow| topic.id != id, topics[k]);
        let j = choose|j: int| 0 <= j < kept.len() && kept[j] == topics[k];
        assert(kept[j].name == name);
    }
}

/// Toggling the completion of a task twice gives the task its first value
/// back: the store is as it was, but for the time of the last change of that
/// task.
pub proof fn law_toggle_twice(tables: Tables, id: i32, first: Seq<char>, second: Seq<char>)
    requires
        tables.wf(),
        has_task(tables.tasks, id),
    ensures
        ({
            let twice = tables.toggle_completion(id, first).toggle_completion(id, second);
            &&& twice.topics == tables.topics
            &&& twice.last_topic_id == tables.last_topic_id
            &&& twice.last_task_id == tables.last_task_id
            &&& twice.tasks.len() == tables.tasks.len()
            &&& task_by_id(twice.tasks, id) == (TaskRow {
                updated_at: second,
                ..task_by_id(tables.tasks, id)
            })
            &&& forall|i: int|
                0 <= i < tables.tasks.len() && tables.tasks[i].id != id ==> #[trigger] twice.tasks[i]
                    == tables.tasks[i]
        }),
{
    let once = tables.toggle_completion(id, first);
    let patch = crate::tables::completion_flip(task_by_id(tables.tasks, id), first);
    tables.lemma_update_task(id, patch);
    let again = crate::tables::completion_flip(task_by_id(once.tasks, id), second);
    once.lemma_update_task(id, again);
}

/// After the last task of a list was selected and deleted, the selection
/// stands two below the former length of the list, or at nought where the
/// list had a single task.
pub proof fn law_selection_after_last_deleted(before: &App, after: &App)
    requires
        before.wf(),
        before.tasks.len() > 0,
        before.selected == before.tasks.len() - 1,
        after.after_delete_task(before),
    ensures
        after.selected == if before.tasks.len() >= 2 {
            before.tasks.len() - 2
        } else {
            0
        },
        after.tasks.deep_view().len() == before.tasks.len() - 1,
{
    assert(before.tasks.deep_view().len() == before.tasks.len());
}

} // verus!
