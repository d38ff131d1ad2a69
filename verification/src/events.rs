//! Keys, the events that they stand for in each input mode, and the moves
//! that change nothing in the store.

use crate::app::{App, InputMode};
use crate::model::QueryError;
use vstd::prelude::*;
use vstd::std_specs::hash::*;

verus! {

/// A key of the keyboard, as far as the program tells keys apart.
#[derive(Clone, Copy, Debug, PartialEq, Eq, Structural)]
pub enum Key {
    Char(char),
    Enter,
    Esc,
    Tab,
    Backspace,
    Up,
    Down,
    Left,
    Right,
    PageUp,
    PageDown,
    Other,
}

/// What the user asks for.
#[derive(Clone, Copy, Debug, PartialEq, Eq, Structural)]
pub enum Event {
    /// Leave the program.
    Quit,
    /// Begin a task with a name and a description.
    StartTask,
    /// Begin a task from its description alone.
    StartQuickTask,
    /// Begin the edit of the selected task.
    StartEdit,
    /// Begin a topic.
    StartTopic,
    /// Delete the selected task.
    DeleteTask,
    /// Delete the current topic.
    DeleteTopic,
    /// Toggle the completion of the selected task.
    ToggleTask,
    /// Toggle the favourite flag of the selected task.
    ToggleFavourite,
    /// Show the selected task in full, or in short again.
    ToggleExpanded,
    /// Show or leave the help.
    ToggleHelp,
    /// Select the next task.
    SelectNext,
    /// Select the previous task.
    SelectPrevious,
    /// Make the topic to the left current.
    TopicLeft,
    /// Make the topic to the right current.
    TopicRight,
    /// Scroll the log towards older lines.
    ScrollBack,
    /// Scroll the log towards newer lines.
    ScrollForward,
    /// Commit what was typed.
    Commit,
    /// Give up what was typed.
    Cancel,
    /// Go back from the description of a new task to its name.
    Back,
    /// Type a character.
    Type(char),
    /// Erase the last character.
    Erase,
}

/// Whether the program goes on after an event.
#[derive(Clone, Copy, Debug, PartialEq, Eq, Structural)]
pub enum Flow {
    Continue,
    Quit,
}

/// The event that a key stands for while tasks are browsed.
pub open spec fn browse_event(key: Key) -> Option<Event> {
    match key {
        Key::Char(c) => if c == 'q' {
            Some(Event::Quit)
        } else if c == 'a' {
            Some(Event::StartTask)
        } else if c == 'd' {
            Some(Event::DeleteTask)
        } else if c == 'e' {
            Some(Event::StartEdit)
        } else if c == 'f' {
            Some(Event::ToggleFavourite)
        } else if c == 'H' {
            Some(Event::ToggleHelp)
        } else if c == 't' {
            Some(Event::ToggleTask)
        } else if c == 'j' {
            Some(Event::SelectNext)
        } else if c == 'k' {
            Some(Event::SelectPrevious)
        } else if c == 'h' {
            Some(Event::TopicLeft)
        } else if c == 'l' {
            Some(Event::TopicRight)
        } else if c == 'N' {
            Some(Event::StartTopic)
        } else if c == 'X' {
            Some(Event::DeleteTopic)
        } else {
            None
        },
        Key::Enter => Some(Event::ToggleExpanded),
        Key::Down => Some(Event::SelectNext),
        Key::Up => Some(Event::SelectPrevious),
        Key::Left => Some(Event::TopicLeft),
        Key::Right => Some(Event::TopicRight),
        Key::PageUp => Some(Event::ScrollBack),
        Key::PageDown => Some(Event::ScrollForward),
        _ => None,
    }
}

/// The event that a key stands for while text is typed.
pub open spec fn typing_event(key: Key) -> Option<Event> {
    match key {
        Key::Enter => Some(Event::Commit),
        Key::Esc => Some(Event::Cancel),
        Key::Char(c) => Some(Event::Type(c)),
        Key::Backspace => Some(Event::Erase),
        _ => None,
    }
}

/// The event that a key stands for in an input mode, if any.
pub open spec fn event_of(mode: InputMode, key: Key) -> Option<Event> {
    match mode {
        InputMode::Normal => browse_event(key),
        InputMode::AddingTaskDescription => if key == Key::Tab {
            Some(Event::Back)
        } else {
            typing_event(key)
        },
        InputMode::Help => if key == Key::Esc {
            Some(Event::Cancel)
        } else if key == Key::Char('H') {
            Some(Event::ToggleHelp)
        } else {
            None
        },
        _ => typing_event(key),
    }
}

fn browse_key(key: Key) -> (result: Option<Event>)
    ensures
        result == browse_event(key),
{
    match key {
        Key::Char(c) => {
            if c == 'q' {
                Some(Event::Quit)
            } else if c == 'a' {
                Some(Event::StartTask)
            } else if c == 'd' {
                Some(Event::DeleteTask)
            } else if c == 'e' {
                Some(Event::StartEdit)
            } else if c == 'f' {
                Some(Event::ToggleFavourite)
            } else if c == 'H' {
                Some(Event::ToggleHelp)
            } else if c == 't' {
                Some(Event::ToggleTask)
            } else if c == 'j' {
                Some(Event::SelectNext)
            } else if c == 'k' {
                Some(Event::SelectPrevious)
            } else if c == 'h' {
                Some(Event::TopicLeft)
            } else if c == 'l' {
                Some(Event::TopicRight)
            } else if c == 'N' {
                Some(Event::StartTopic)
            } else if c == 'X' {
                Some(Event::DeleteTopic)
            } else {
                None
            }
        },
        Key::Enter => Some(Event::ToggleExpanded),
        Key::Down => Some(Event::SelectNext),
        Key::Up => Some(Event::SelectPrevious),
        Key::Left => Some(Event::TopicLeft),
        Key::Right => Some(Event::TopicRight),
        Key::PageUp => Some(Event::ScrollBack),
        Key::PageDown => Some(Event::ScrollForward),
        _ => None,
    }
}

fn typing_key(key: Key) -> (result: Option<Event>)
    ensures
        result == typing_event(key),
{
    match key {
        Key::Enter => Some(Event::Commit),
        Key::Esc => Some(Event::Cancel),
        Key::Char(c) => Some(Event::Type(c)),
        Key::Backspace => Some(Event::Erase),
        _ => None,
    }
}

/// Reads a key in an input mode.
pub fn key_event(mode: InputMode, key: Key) -> (result: Option<Event>)
    ensures
        result == event_of(mode, key),
{
    match mode {
        InputMode::Normal => browse_key(key),
        InputMode::AddingTaskDescription => match key {
            Key::Tab => Some(Event::Back),
            _ => typing_key(key),
        },
        InputMode::Help => match key {
            Key::Esc => Some(Event::Cancel),
            Key::Char(c) => if c == 'H' {
                Some(Event::ToggleHelp)
            } else {
                None
            },
            _ => None,
        },
        _ => typing_key(key),
    }
}

/// The first line of the log that a window of `height` lines shows, when
/// the log has `total` lines and is scrolled back by `offset`.
pub open spec fn window_start(total: nat, height: nat, offset: nat) -> nat {
    if total > height + offset {
        (total - height - offset) as nat
    } else {
        0
    }
}

impl App {
    /// Whether two states agree on everything but the selected task.
    pub open spec fn same_but_selected(&self, before: &App) -> bool {
        &&& self.same_topics(before)
        &&& self.tasks.deep_view() == before.tasks.deep_view()
        &&& self.same_log(before)
        &&& self.same_input(before)
    }

    /// Whether two states agree on everything but the scroll offset of the
    /// log.
    pub open spec fn same_but_offset(&self, before: &App) -> bool {
        &&& self.same_topics(before)
        &&& self.same_tasks(before)
        &&& self.logs@ == before.logs@
        &&& self.same_input(before)
    }

    /// Selects the next task; at the last task nothing moves.
    pub fn select_next(&mut self)
        ensures
            old(self).wf() ==> final(self).wf(),
            final(self).same_but_selected(old(self)),
            final(self).selected == if old(self).selected + 1 < old(self).tasks.len() {
                (old(self).selected + 1) as usize
            } else {
                old(self).selected
            },
    {
        if self.tasks.len() > 0 && self.selected < self.tasks.len() - 1 {
            self.selected += 1;
        }
    }

    /// Selects the previous task; at the first task nothing moves.
    pub fn select_previous(&mut self)
        ensures
            old(self).wf() ==> final(self).wf(),
            final(self).same_but_selected(old(self)),
            final(self).selected == if old(self).selected > 0 {
                (old(self).selected - 1) as usize
            } else {
                0usize
            },
    {
        if self.selected > 0 {
            self.selected -= 1;
        }
    }

    /// What a move to another topic leaves: that topic current, its tasks
    /// read, and the first of them selected.
    pub open spec fn switched_to(&self, before: &App, position: usize) -> bool {
        &&& self.db_ops@ == before.db_ops@
        &&& self.topics.deep_view() == before.topics.deep_view()
        &&& self.selected_topic == position
        &&& self.selected == 0
        &&& self.same_log(before)
        &&& self.same_input(before)
    }

    /// Makes the topic to the left current, reads its tasks and selects the
    /// first; at the first topic nothing moves.
    pub fn topic_left(&mut self) -> (result: Result<(), QueryError>)
        requires
            old(self).topics_in_step(),
        ensures
            final(self).topics_in_step(),
            old(self).wf() ==> final(self).wf(),
            result.is_ok(),
            if old(self).selected_topic > 0 {
                final(self).switched_to(old(self), (old(self).selected_topic - 1) as usize)
            } else {
                final(self).untouched(old(self)) && final(self).same_input(old(self))
            },
    {
        if self.selected_topic > 0 {
            self.selected_topic -= 1;
            match self.load_tasks() {
                Ok(_) => {},
                Err(error) => {
                    return Err(error);
                },
            }
            self.selected = 0;
        }
        Ok(())
    }

    /// Makes the topic to the right current, reads its tasks and selects the
    /// first; at the last topic nothing moves.
    pub fn topic_right(&mut self) -> (result: Result<(), QueryError>)
        requires
            old(self).topics_in_step(),
        ensures
            final(self).topics_in_step(),
            old(self).wf() ==> final(self).wf(),
            result.is_ok(),
            if old(self).selected_topic + 1 < old(self).topics.len() {
                final(self).switched_to(old(self), (old(self).selected_topic + 1) as usize)
            } else {
                final(self).untouched(old(self)) && final(self).same_input(old(self))
            },
    {
        if self.topics.len() > 0 && self.selected_topic < self.topics.len() - 1 {
            self.selected_topic += 1;
            match self.load_tasks() {
                Ok(_) => {},
                Err(error) => {
                    return Err(error);
                },
            }
            self.selected = 0;
        }
        Ok(())
    }

    /// Scrolls the log one line towards its older lines.
    pub fn scroll_back(&mut self)
        ensures
            old(self).wf() ==> final(self).wf(),
            final(self).same_but_offset(old(self)),
            final(self).log_offset == if old(self).log_offset < usize::MAX {
                (old(self).log_offset + 1) as usize
            } else {
                old(self).log_offset
            },
    {
        if self.log_offset < usize::MAX {
            self.log_offset += 1;
        }
    }

    /// Scrolls the log one line towards its newer lines; at the newest line
    /// nothing moves.
    pub fn scroll_forward(&mut self)
        ensures
            old(self).wf() ==> final(self).wf(),
            final(self).same_but_offset(old(self)),
            final(self).log_offset == if old(self).log_offset > 0 {
                (old(self).log_offset - 1) as usize
            } else {
                0usize
            },
    {
        if self.log_offset > 0 {
            self.log_offset -= 1;
        }
    }

    /// The position of the first line of the log that a window of `height`
    /// lines shows.
    pub fn log_window_start(&self, height: usize) -> (start: usize)
        ensures
            start == window_start(
                self.logs@.len(),
                height as nat,
                self.log_offset as nat,
            ),
            start <= self.logs@.len(),
    {
        let total: usize = self.logs.len();
        if total > height && total - height > self.log_offset {
            total - height - self.log_offset
        } else {
            0
        }
    }

    /// Whether two states agree on everything but the expanded tasks.
    pub open spec fn same_but_expanded(&self, before: &App) -> bool {
        &&& self.untouched(before)
        &&& self.input_mode == before.input_mode
        &&& self.input@ == before.input@
        &&& self.task_name_input@ == before.task_name_input@
        &&& self.task_description_input@ == before.task_description_input@
        &&& self.show_help == before.show_help
    }

    /// Shows the selected task in full, or in short again where it was shown
    /// in full. Does nothing where no task is selected.
    pub fn toggle_expanded(&mut self)
        ensures
            old(self).wf() ==> final(self).wf(),
            final(self).same_but_expanded(old(self)),
            final(self).expanded@ == if old(self).selected >= old(self).tasks.len() {
                old(self).expanded@
            } else if old(self).expanded@.contains(old(self).selected_task().id) {
                old(self).expanded@.remove(old(self).selected_task().id)
            } else {
                old(self).expanded@.insert(old(self).selected_task().id)
            },
    {
        broadcast use group_hash_axioms;

        if self.selected < self.tasks.len() {
            let id: i32 = self.tasks[self.selected].id;
            if self.expanded.contains(&id) {
                self.expanded.remove(&id);
            } else {
                self.expanded.insert(id);
            }
        }
    }
}

} // verus!
