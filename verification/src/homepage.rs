//! The tools that the launcher offers.

use vstd::prelude::*;

verus! {

/// A tool that can be started from the launcher.
#[derive(Clone, Copy, Debug, PartialEq, Eq, Structural)]
pub enum AppTool {
    TaskManager,
}

impl AppTool {
    /// The text of the tool's title, as a sequence of characters.
    pub open spec fn title_text(self) -> Seq<char> {
        match self {
            AppTool::TaskManager => "Task Manager"@,
        }
    }

    /// The title shown for this tool in the launcher's list.
    pub fn title(&self) -> (result: &'static str)
        ensures
            result@ == self.title_text(),
    {
        match self {
            AppTool::TaskManager => "Task Manager",
        }
    }

    /// Every tool of the launcher, in the order in which they are listed.
    pub fn all() -> (result: Vec<AppTool>)
        ensures
            result@ == seq![AppTool::TaskManager],
    {
        vec![AppTool::TaskManager]
    }
}

} // verus!
