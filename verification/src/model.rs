//! The records of the store and their mathematical models.

use crate::text::same_text;
use vstd::prelude::*;

verus! {

/// The name of the topic that shows every favourite task.
pub open spec fn favourites_name() -> Seq<char> {
    "Favourites"@
}

/// The name of the topic that shows every task.
pub open spec fn default_name() -> Seq<char> {
    "Default"@
}

/// The name of the topic that is created at startup for finished work.
pub open spec fn completed_name() -> Seq<char> {
    "Completed"@
}

/// What a topic's name makes of it: one of the three topics that are made at
/// startup, or a topic of the user's own.
#[derive(Clone, Copy, Debug, PartialEq, Eq, Structural)]
pub enum TopicKind {
    Favourites,
    Default,
    Completed,
    Custom,
}

/// The kind that a topic's name stands for.
pub open spec fn kind_of(name: Seq<char>) -> TopicKind {
    if name == favourites_name() {
        TopicKind::Favourites
    } else if name == default_name() {
        TopicKind::Default
    } else if name == completed_name() {
        TopicKind::Completed
    } else {
        TopicKind::Custom
    }
}

/// Whether a topic of this name is protected from deletion: the three
/// topics that are made at startup are.
pub open spec fn is_protected(name: Seq<char>) -> bool {
    name == favourites_name() || name == default_name() || name == completed_name()
}

/// Whether a topic of this name is a view over the tasks of every topic
/// rather than a group of its own: the favourites topic and the default
/// topic are.
pub open spec fn is_view(name: Seq<char>) -> bool {
    name == favourites_name() || name == default_name()
}

/// Resolves a topic's name to its kind.
pub fn classify(name: &str) -> (kind: TopicKind)
    ensures
        kind == kind_of(name@),
{
    if same_text(name, "Favourites") {
        TopicKind::Favourites
    } else if same_text(name, "Default") {
        TopicKind::Default
    } else if same_text(name, "Completed") {
        TopicKind::Completed
    } else {
        TopicKind::Custom
    }
}

/// Why the store refused a query.
#[derive(Clone, Copy, Debug, PartialEq, Eq, Structural)]
pub enum QueryError {
    /// No row has the identity that was asked for.
    NotFound,
    /// A topic of that name exists already.
    UniqueViolation,
    /// The table has used up its identities.
    StoreFull,
}

/// The model of a topic: what one row of the topic table holds.
pub struct TopicRow {
    pub id: i32,
    pub name: Seq<char>,
    pub description: Seq<char>,
    pub created_at: Seq<char>,
    pub updated_at: Seq<char>,
}

/// A named group of tasks.
#[derive(Debug, PartialEq, Eq)]
pub struct Topic {
    pub id: i32,
    pub name: String,
    pub description: String,
    pub created_at: String,
    pub updated_at: String,
}

impl View for Topic {
    type V = TopicRow;

    open spec fn view(&self) -> TopicRow {
        TopicRow {
            id: self.id,
            name: self.name@,
            description: self.description@,
            created_at: self.created_at@,
            updated_at: self.updated_at@,
        }
    }
}

impl DeepView for Topic {
    type V = TopicRow;

    open spec fn deep_view(&self) -> TopicRow {
        self@
    }
}

impl Clone for Topic {
    fn clone(&self) -> (result: Topic)
        ensures
            result@ == self@,
    {
        Topic {
            id: self.id,
            name: self.name.clone(),
            description: self.description.clone(),
            created_at: self.created_at.clone(),
            updated_at: self.updated_at.clone(),
        }
    }
}

/// The model of a task: what one row of the task table holds.
pub struct TaskRow {
    pub id: i32,
    pub topic_id: i32,
    pub name: Seq<char>,
    pub description: Seq<char>,
    pub completed: bool,
    pub favourite: bool,
    pub created_at: Seq<char>,
    pub updated_at: Seq<char>,
}

/// A unit of work that belongs to one topic.
#[derive(Debug, PartialEq, Eq)]
pub struct Task {
    pub id: i32,
    pub topic_id: i32,
    pub name: String,
    pub description: String,
    pub completed: bool,
    pub favourite: bool,
    pub created_at: String,
    pub updated_at: String,
}

impl View for Task {
    type V = TaskRow;

    open spec fn view(&self) -> TaskRow {
        TaskRow {
            id: self.id,
            topic_id: self.topic_id,
            name: self.name@,
            description: self.description@,
            completed: self.completed,
            favourite: self.favourite,
            created_at: self.created_at@,
            updated_at: self.updated_at@,
        }
    }
}

impl DeepView for Task {
    type V = TaskRow;

    open spec fn deep_view(&self) -> TaskRow {
        self@
    }
}

impl Clone for Task {
    fn clone(&self) -> (result: Task)
        ensures
            result@ == self@,
    {
        Task {
            id: self.id,
            topic_id: self.topic_id,
            name: self.name.clone(),
            description: self.description.clone(),
            completed: self.completed,
            favourite: self.favourite,
            created_at: self.created_at.clone(),
            updated_at: self.updated_at.clone(),
        }
    }
}

/// The model of a change to a task: for each field the new value, or `None`
/// where the field stays.
pub struct TaskPatch {
    pub name: Option<Seq<char>>,
    pub description: Option<Seq<char>>,
    pub completed: Option<bool>,
    pub favourite: Option<bool>,
    pub updated_at: Seq<char>,
}

/// A change to a task: the fields that are given are written, the others
/// stay, and the time of the change is always stamped.
#[derive(Debug)]
pub struct TaskUpdate<'a> {
    pub name: Option<&'a str>,
    pub description: Option<&'a str>,
    pub completed: Option<bool>,
    pub favourite: Option<bool>,
    pub updated_at: &'a str,
}

impl<'a> View for TaskUpdate<'a> {
    type V = TaskPatch;

    open spec fn view(&self) -> TaskPatch {
        TaskPatch {
            name: match self.name {
                Some(text) => Some(text@),
                None => None,
            },
            description: match self.description {
                Some(text) => Some(text@),
                None => None,
            },
            completed: self.completed,
            favourite: self.favourite,
            updated_at: self.updated_at@,
        }
    }
}

/// Whether two topics hold the same row.
pub fn same_topic(a: &Topic, b: &Topic) -> (result: bool)
    ensures
        result == (a@ == b@),
{
    a.id == b.id && a.name == b.name && a.description == b.description && a.created_at
        == b.created_at && a.updated_at == b.updated_at
}

/// Whether two tasks hold the same row.
pub fn same_task(a: &Task, b: &Task) -> (result: bool)
    ensures
        result == (a@ == b@),
{
    a.id == b.id && a.topic_id == b.topic_id && a.name == b.name && a.description
        == b.description && a.completed == b.completed && a.favourite == b.favourite
        && a.created_at == b.created_at && a.updated_at == b.updated_at
}

/// Whether two lists of topics hold the same rows in the same order.
pub fn same_topic_list(a: &Vec<Topic>, b: &Vec<Topic>) -> (result: bool)
    ensures
        result == (a.deep_view() == b.deep_view()),
{
    if a.len() != b.len() {
        assert(a.deep_view().len() != b.deep_view().len());
        return false;
    }
    let mut i: usize = 0;
    while i < a.len()
        invariant
            i <= a.len(),
            a.len() == b.len(),
            forall|k: int| 0 <= k < i ==> a[k]@ == b[k]@,
        decreases a.len() - i,
    {
        if !same_topic(&a[i], &b[i]) {
            assert(a.deep_view()[i as int] != b.deep_view()[i as int]);
            return false;
        }
        i += 1;
    }
    assert(a.deep_view() =~= b.deep_view());
    true
}

/// Whether two lists of tasks hold the same rows in the same order.
pub fn same_task_list(a: &Vec<Task>, b: &Vec<Task>) -> (result: bool)
    ensures
        result == (a.deep_view() == b.deep_view()),
{
    if a.len() != b.len() {
        assert(a.deep_view().len() != b.deep_view().len());
        return false;
    }
    let mut i: usize = 0;
    while i < a.len()
        invariant
            i <= a.len(),
            a.len() == b.len(),
            forall|k: int| 0 <= k < i ==> a[k]@ == b[k]@,
        decreases a.len() - i,
    {
        if !same_task(&a[i], &b[i]) {
            assert(a.deep_view()[i as int] != b.deep_view()[i as int]);
            return false;
        }
        i += 1;
    }
    assert(a.deep_view() =~= b.deep_view());
    true
}

} // verus!
