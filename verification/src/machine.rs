//! The input-mode state machine: what each event does in each mode.

use crate::app::{
    added_details_message, added_message, App, error_level, info_level, InputMode, short_name,
};
use crate::events::{Event, event_of, Flow, Key, key_event};
use crate::model::{favourites_name, is_view};
use vstd::prelude::*;
use vstd::string::*;

verus! {

/// The message logged when a topic was added.
pub open spec fn topic_message(name: Seq<char>) -> Seq<char> {
    "Added topic: "@ + name
}

impl App {
    /// Whether the three buffers are empty.
    pub open spec fn buffers_empty(&self) -> bool {
        &&& self.input@.len() == 0
        &&& self.task_name_input@.len() == 0
        &&& self.task_description_input@.len() == 0
    }

    /// Whether two states agree on the three buffers.
    pub open spec fn same_buffers(&self, before: &App) -> bool {
        &&& self.input@ == before.input@
        &&& self.task_name_input@ == before.task_name_input@
        &&& self.task_description_input@ == before.task_description_input@
    }

    /// Whether two states agree on everything.
    pub open spec fn unchanged(&self, before: &App) -> bool {
        self.untouched(before) && self.same_input(before)
    }

    /// Whether `self` is `before` moved to another mode and nothing else.
    pub open spec fn moved_to(&self, before: &App, mode: InputMode) -> bool {
        &&& self.untouched(before)
        &&& self.input_mode == mode
        &&& self.same_buffers(before)
        &&& self.expanded@ == before.expanded@
        &&& self.show_help == (mode == InputMode::Help)
    }

    /// Whether `self` is in the given mode with empty buffers, and shows the
    /// tasks in full that `before` shows in full.
    pub open spec fn fresh_in(&self, before: &App, mode: InputMode) -> bool {
        &&& self.input_mode == mode
        &&& self.buffers_empty()
        &&& self.expanded@ == before.expanded@
        &&& self.show_help == (mode == InputMode::Help)
    }

    /// Whether the current topic is the favourites topic.
    pub open spec fn on_favourites(&self) -> bool {
        self.topics.len() > 0 && self.current_topic().name == favourites_name()
    }

    /// Whether the current topic is a view over the tasks of every topic.
    pub open spec fn on_view(&self) -> bool {
        self.topics.len() > 0 && is_view(self.current_topic().name)
    }

    /// What committing a new task leaves, but for the mode and the buffers:
    /// the task added as [`App::after_add`] says, or, where the store
    /// refuses it, one line logged that reports the failure.
    pub open spec fn committed_task(
        &self,
        before: &App,
        name: Seq<char>,
        description: Seq<char>,
        message: Seq<char>,
    ) -> bool {
        if !before.takes_tasks() || before.db_ops@.accepts_task() {
            self.after_add(before, name, description, message, Ok(()))
        } else {
            &&& self.same_topics(before)
            &&& self.same_tasks(before)
            &&& self.logged(before, error_level(), "Failed to add task"@)
        }
    }

    /// What committing a new topic leaves, but for the mode and the buffers:
    /// the topic added and reported in the log, or, where the store refuses
    /// it, one line logged that reports the failure.
    pub open spec fn committed_topic(&self, before: &App, name: Seq<char>) -> bool {
        if before.db_ops@.accepts_topic(name) {
            &&& self.db_ops@ == before.db_ops@.insert_topic(
                name,
                Seq::empty(),
                self.db_ops@.topics.last().created_at,
            )
            &&& self.selected_topic == before.selected_topic
            &&& before.topics.len() > 0 ==> self.same_tasks(before)
            &&& self.logged(before, info_level(), topic_message(name))
        } else {
            &&& self.same_topics(before)
            &&& self.same_tasks(before)
            &&& self.logged(before, error_level(), "Failed to add topic"@)
        }
    }

    /// What typing into a buffer leaves of it.
    pub open spec fn typed(buffer: Seq<char>, event: Event) -> Seq<char> {
        match event {
            Event::Type(c) => buffer.push(c),
            Event::Erase => if buffer.len() > 0 {
                buffer.drop_last()
            } else {
                buffer
            },
            _ => buffer,
        }
    }

    /// What an event leaves while tasks are browsed.
    pub open spec fn browsed(&self, before: &App, event: Event) -> bool {
        match event {
            Event::StartTask => if before.on_favourites() {
                self.unchanged(before)
            } else {
                self.untouched(before) && self.fresh_in(before, InputMode::AddingTaskName)
            },
            Event::StartQuickTask => if before.on_favourites() {
                self.unchanged(before)
            } else {
                self.untouched(before) && self.fresh_in(before, InputMode::AddingTask)
            },
            Event::StartEdit => self.untouched(before) && self.fresh_in(
                before,
                InputMode::EditingTask,
            ),
            Event::StartTopic => self.untouched(before) && self.fresh_in(
                before,
                InputMode::AddingTopic,
            ),
            Event::ToggleHelp => self.moved_to(before, InputMode::Help),
            Event::DeleteTask => self.same_input(before) && self.after_delete_task(before),
            Event::ToggleTask => self.same_input(before) && self.after_toggle_task(before),
            Event::ToggleFavourite => self.same_input(before) && self.after_toggle_favourite(before),
            Event::DeleteTopic => if before.on_view() {
                self.unchanged(before)
            } else {
                self.same_input(before) && self.after_delete_topic(before)
            },
            Event::ToggleExpanded => {
                &&& self.same_but_expanded(before)
                &&& self.expanded@ == if before.selected >= before.tasks.len() {
                    before.expanded@
                } else if before.expanded@.contains(before.selected_task().id) {
                    before.expanded@.remove(before.selected_task().id)
                } else {
                    before.expanded@.insert(before.selected_task().id)
                }
            },
            Event::SelectNext => {
                &&& self.same_but_selected(before)
                &&& self.selected == if before.selected + 1 < before.tasks.len() {
                    (before.selected + 1) as usize
                } else {
                    before.selected
                }
            },
            Event::SelectPrevious => {
                &&& self.same_but_selected(before)
                &&& self.selected == if before.selected > 0 {
                    (before.selected - 1) as usize
                } else {
                    0usize
                }
            },
            Event::TopicLeft => if before.selected_topic > 0 {
                self.switched_to(before, (before.selected_topic - 1) as usize)
            } else {
                self.unchanged(before)
            },
            Event::TopicRight => if before.selected_topic + 1 < before.topics.len() {
                self.switched_to(before, (before.selected_topic + 1) as usize)
            } else {
                self.unchanged(before)
            },
            Event::ScrollBack => {
                &&& self.same_but_offset(before)
                &&& self.log_offset == if before.log_offset < usize::MAX {
                    (before.log_offset + 1) as usize
                } else {
                    before.log_offset
                }
            },
            Event::ScrollForward => {
                &&& self.same_but_offset(before)
                &&& self.log_offset == if before.log_offset > 0 {
                    (before.log_offset - 1) as usize
                } else {
                    0usize
                }
            },
            _ => self.unchanged(before),
        }
    }

    /// What an event leaves in a mode that fills the single buffer: a task
    /// from its description alone, an edit, or a topic.
    pub open spec fn filled(&self, before: &App, event: Event) -> bool {
        match event {
            Event::Commit => if before.input@.len() == 0 {
                self.unchanged(before)
            } else {
                &&& self.fresh_in(before, InputMode::Normal)
                &&& match before.input_mode {
                    InputMode::AddingTask => self.committed_task(
                        before,
                        short_name(before.input@),
                        before.input@,
                        added_message(before.input@),
                    ),
                    InputMode::EditingTask => self.after_edit(before, before.input@),
                    _ => self.committed_topic(before, before.input@),
                }
            },
            Event::Cancel => self.untouched(before) && self.fresh_in(before, InputMode::Normal),
            Event::Type(_) | Event::Erase => {
                &&& self.untouched(before)
                &&& self.input_mode == before.input_mode
                &&& self.input@ == Self::typed(before.input@, event)
                &&& self.task_name_input@ == before.task_name_input@
                &&& self.task_description_input@ == before.task_description_input@
                &&& self.expanded@ == before.expanded@
                &&& self.show_help == before.show_help
            },
            _ => self.unchanged(before),
        }
    }

    /// What an event leaves while the name of a new task is typed.
    pub open spec fn named(&self, before: &App, event: Event) -> bool {
        match event {
            Event::Commit => if before.task_name_input@.len() == 0 {
                self.unchanged(before)
            } else {
                self.moved_to(before, InputMode::AddingTaskDescription)
            },
            Event::Cancel => self.untouched(before) && self.fresh_in(before, InputMode::Normal),
            Event::Type(_) | Event::Erase => {
                &&& self.untouched(before)
                &&& self.input_mode == before.input_mode
                &&& self.input@ == before.input@
                &&& self.task_name_input@ == Self::typed(before.task_name_input@, event)
                &&& self.task_description_input@ == before.task_description_input@
                &&& self.expanded@ == before.expanded@
                &&& self.show_help == before.show_help
            },
            _ => self.unchanged(before),
        }
    }

    /// What an event leaves while the description of a new task is typed.
    pub open spec fn described(&self, before: &App, event: Event) -> bool {
        match event {
            Event::Commit => if before.task_name_input@.len() == 0 {
                self.unchanged(before)
            } else {
                &&& self.fresh_in(before, InputMode::Normal)
                &&& self.committed_task(
                    before,
                    before.task_name_input@,
                    before.task_description_input@,
                    added_details_message(
                        before.task_name_input@,
                        before.task_description_input@,
                    ),
                )
            },
            Event::Back => self.moved_to(before, InputMode::AddingTaskName),
            Event::Cancel => self.untouched(before) && self.fresh_in(before, InputMode::Normal),
            Event::Type(_) | Event::Erase => {
                &&& self.untouched(before)
                &&& self.input_mode == before.input_mode
                &&& self.input@ == before.input@
                &&& self.task_name_input@ == before.task_name_input@
                &&& self.task_description_input@ == Self::typed(
                    before.task_description_input@,
                    event,
                )
                &&& self.expanded@ == before.expanded@
                &&& self.show_help == before.show_help
            },
            _ => self.unchanged(before),
        }
    }

    /// What an event leaves while the help is shown.
    pub open spec fn helped(&self, before: &App, event: Event) -> bool {
        match event {
            Event::Cancel | Event::ToggleHelp => self.moved_to(before, InputMode::Normal),
            _ => self.unchanged(before),
        }
    }

    /// What an event leaves, by the mode in which it arrives.
    pub open spec fn stepped(&self, before: &App, event: Event) -> bool {
        match before.input_mode {
            InputMode::Normal => self.browsed(before, event),
            InputMode::AddingTask | InputMode::EditingTask | InputMode::AddingTopic => self.filled(
                before,
                event,
            ),
            InputMode::AddingTaskName => self.named(before, event),
            InputMode::AddingTaskDescription => self.described(before, event),
            InputMode::Help => self.helped(before, event),
        }
    }

    /// Empties the three buffers.
    fn clear_buffers(&mut self)
        ensures
            final(self).buffers_empty(),
            final(self).untouched(old(self)),
            final(self).input_mode == old(self).input_mode,
            final(self).expanded@ == old(self).expanded@,
            final(self).show_help == old(self).show_help,
            final(self).db_ops == old(self).db_ops,
            final(self).topics == old(self).topics,
            final(self).tasks == old(self).tasks,
            final(self).selected == old(self).selected,
            final(self).selected_topic == old(self).selected_topic,
    {
        self.input.clear();
        self.task_name_input.clear();
        self.task_description_input.clear();
    }

    /// Enters a mode in which text is typed, with empty buffers.
    fn enter(&mut self, mode: InputMode)
        requires
            old(self).wf(),
            mode != InputMode::Help,
            !old(self).show_help,
        ensures
            final(self).wf(),
            final(self).untouched(old(self)),
            final(self).fresh_in(old(self), mode),
    {
        self.clear_buffers();
        self.input_mode = mode;
    }

    /// Handles an event while tasks are browsed.
    fn browse(&mut self, event: Event) -> (flow: Flow)
        requires
            old(self).wf(),
            old(self).input_mode == InputMode::Normal,
        ensures
            final(self).wf(),
            final(self).browsed(old(self), event),
            (flow == Flow::Quit) == (event == Event::Quit),
    {
        match event {
            Event::Quit => {
                return Flow::Quit;
            },
            Event::StartTask => {
                if !self.current_topic_is_favourites() {
                    self.enter(InputMode::AddingTaskName);
                }
            },
            Event::StartQuickTask => {
                if !self.current_topic_is_favourites() {
                    self.enter(InputMode::AddingTask);
                }
            },
            Event::StartEdit => {
                self.enter(InputMode::EditingTask);
            },
            Event::StartTopic => {
                self.enter(InputMode::AddingTopic);
            },
            Event::ToggleHelp => {
                self.input_mode = InputMode::Help;
                self.show_help = true;
            },
            Event::DeleteTask => {
                if self.delete_task().is_err() {
                    self.add_log("ERROR", "Failed to delete task");
                }
            },
            Event::ToggleTask => {
                if self.toggle_task().is_err() {
                    self.add_log("ERROR", "Failed to toggle task");
                }
            },
            Event::ToggleFavourite => {
                if self.toggle_favourite().is_err() {
                    self.add_log("ERROR", "Failed to toggle favourite");
                }
            },
            Event::DeleteTopic => {
                if !self.current_topic_is_special() {
                    if self.delete_topic().is_err() {
                        self.add_log("ERROR", "Failed to delete topic");
                    }
                }
            },
            Event::ToggleExpanded => {
                self.toggle_expanded();
            },
            Event::SelectNext => {
                self.select_next();
            },
            Event::SelectPrevious => {
                self.select_previous();
            },
            Event::TopicLeft => {
                let _ = self.topic_left();
            },
            Event::TopicRight => {
                let _ = self.topic_right();
            },
            Event::ScrollBack => {
                self.scroll_back();
            },
            Event::ScrollForward => {
                self.scroll_forward();
            },
            _ => {},
        }
        Flow::Continue
    }

    /// Applies a typing event to the single buffer.
    fn type_input(&mut self, event: Event)
        requires
            old(self).wf(),
        ensures
            final(self).wf(),
            final(self).untouched(old(self)),
            final(self).input_mode == old(self).input_mode,
            final(self).input@ == Self::typed(old(self).input@, event),
            final(self).task_name_input@ == old(self).task_name_input@,
            final(self).task_description_input@ == old(self).task_description_input@,
            final(self).expanded@ == old(self).expanded@,
            final(self).show_help == old(self).show_help,
    {
        match event {
            Event::Type(c) => {
                self.input.push(c);
            },
            Event::Erase => {
                let _ = self.input.pop();
            },
            _ => {},
        }
    }

    /// Commits the single buffer, which is not empty: adds the task, makes
    /// the edit or adds the topic, and logs a failure.
    fn commit_input(&mut self)
        requires
            old(self).wf(),
            old(self).input@.len() > 0,
            old(self).input_mode == InputMode::AddingTask || old(self).input_mode
                == InputMode::EditingTask || old(self).input_mode == InputMode::AddingTopic,
        ensures
            final(self).wf(),
            final(self).same_input(old(self)),
            match old(self).input_mode {
                InputMode::AddingTask => final(self).committed_task(
                    old(self),
                    short_name(old(self).input@),
                    old(self).input@,
                    added_message(old(self).input@),
                ),
                InputMode::EditingTask => final(self).after_edit(old(self), old(self).input@),
                _ => final(self).committed_topic(old(self), old(self).input@),
            },
    {
        let text = self.input.clone();
        match self.input_mode {
            InputMode::AddingTask => {
                if self.add_task(text.as_str()).is_err() {
                    self.add_log("ERROR", "Failed to add task");
                }
            },
            InputMode::EditingTask => {
                if self.edit_task(text.as_str()).is_err() {
                    self.add_log("ERROR", "Failed to edit task");
                }
            },
            _ => {
                if self.add_topic(text.as_str()).is_err() {
                    self.add_log("ERROR", "Failed to add topic");
                } else {
                    let mut message: String = String::from_str("Added topic: ");
                    message.append(text.as_str());
                    self.add_log("INFO", message.as_str());
                }
            },
        }
    }

    /// Handles an event in a mode that fills the single buffer.
    fn fill(&mut self, event: Event)
        requires
            old(self).wf(),
            old(self).input_mode == InputMode::AddingTask || old(self).input_mode
                == InputMode::EditingTask || old(self).input_mode == InputMode::AddingTopic,
        ensures
            final(self).wf(),
            final(self).filled(old(self), event),
    {
        match event {
            Event::Commit => {
                if !self.input.as_str().is_empty() {
                    self.commit_input();
                    self.clear_buffers();
                    self.input_mode = InputMode::Normal;
                }
            },
            Event::Cancel => {
                self.clear_buffers();
                self.input_mode = InputMode::Normal;
            },
            Event::Type(_) | Event::Erase => {
                self.type_input(event);
            },
            _ => {},
        }
    }

    /// Handles an event while the name of a new task is typed.
    fn name_task(&mut self, event: Event)
        requires
            old(self).wf(),
            old(self).input_mode == InputMode::AddingTaskName,
        ensures
            final(self).wf(),
            final(self).named(old(self), event),
    {
        match event {
            Event::Commit => {
                if !self.task_name_input.as_str().is_empty() {
                    self.input_mode = InputMode::AddingTaskDescription;
                }
            },
            Event::Cancel => {
                self.clear_buffers();
                self.input_mode = InputMode::Normal;
            },
            Event::Type(c) => {
                self.task_name_input.push(c);
            },
            Event::Erase => {
                let _ = self.task_name_input.pop();
            },
            _ => {},
        }
    }

    /// Handles an event while the description of a new task is typed.
    fn describe_task(&mut self, event: Event)
        requires
            old(self).wf(),
            old(self).input_mode == InputMode::AddingTaskDescription,
        ensures
            final(self).wf(),
            final(self).described(old(self), event),
    {
        match event {
            Event::Commit => {
                if !self.task_name_input.as_str().is_empty() {
                    let name = self.task_name_input.clone();
                    let description = self.task_description_input.clone();
                    if self.add_task_with_details(name.as_str(), description.as_str()).is_err() {
                        self.add_log("ERROR", "Failed to add task");
                    }
                    self.reset_task_inputs();
                    self.input.clear();
                    self.input_mode = InputMode::Normal;
                }
            },
            Event::Back => {
                self.input_mode = InputMode::AddingTaskName;
            },
            Event::Cancel => {
                self.clear_buffers();
                self.input_mode = InputMode::Normal;
            },
            Event::Type(c) => {
                self.task_description_input.push(c);
            },
            Event::Erase => {
                let _ = self.task_description_input.pop();
            },
            _ => {},
        }
    }

    /// Handles an event while the help is shown.
    fn help(&mut self, event: Event)
        requires
            old(self).wf(),
            old(self).input_mode == InputMode::Help,
        ensures
            final(self).wf(),
            final(self).helped(old(self), event),
    {
        match event {
            Event::Cancel | Event::ToggleHelp => {
                self.show_help = false;
                self.input_mode = InputMode::Normal;
            },
            _ => {},
        }
    }

    /// Handles one event in the present input mode, and says whether the
    /// program goes on: it ends when leaving is asked for while tasks are
    /// browsed.
    pub fn handle_event(&mut self, event: Event) -> (flow: Flow)
        requires
            old(self).wf(),
        ensures
            final(self).wf(),
            final(self).stepped(old(self), event),
            (flow == Flow::Quit) == (old(self).input_mode == InputMode::Normal && event
                == Event::Quit),
    {
        match self.input_mode {
            InputMode::Normal => self.browse(event),
            InputMode::AddingTask | InputMode::EditingTask | InputMode::AddingTopic => {
                self.fill(event);
                Flow::Continue
            },
            InputMode::AddingTaskName => {
                self.name_task(event);
                Flow::Continue
            },
            InputMode::AddingTaskDescription => {
                self.describe_task(event);
                Flow::Continue
            },
            InputMode::Help => {
                self.help(event);
                Flow::Continue
            },
        }
    }

    /// Handles one key: the event that it stands for in the present input
    /// mode, or nothing where it stands for none.
    pub fn handle_key(&mut self, key: Key) -> (flow: Flow)
        requires
            old(self).wf(),
        ensures
            final(self).wf(),
            match event_of(old(self).input_mode, key) {
                Some(event) => {
                    &&& final(self).stepped(old(self), event)
                    &&& (flow == Flow::Quit) == (old(self).input_mode == InputMode::Normal
                        && event == Event::Quit)
                },
                None => final(self).unchanged(old(self)) && flow == Flow::Continue,
            },
    {
        match key_event(self.input_mode, key) {
            Some(event) => self.handle_event(event),
            None => Flow::Continue,
        }
    }
}

} // verus!
