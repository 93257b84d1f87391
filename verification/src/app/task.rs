//! The tasks that the application's task loop runs.

use vstd::prelude::*;

verus! {

/// A task for the application's task loop.
pub enum Task {
    /// A demo task that carries a message.
    Demo(String),
}

impl Task {
    /// What running the task prints.
    pub open spec fn spec_report(&self) -> Seq<char> {
        match self {
            Task::Demo(msg) => "New Demo Task: "@ + msg@,
        }
    }

    /// The line that running the task prints.
    pub fn report(&self) -> (r: String)
        ensures
            r@ == self.spec_report(),
    {
        match self {
            Task::Demo(msg) => {
                proof {
                    reveal_strlit("New Demo Task: ");
                }
                let mut line = String::from_str("New Demo Task: ");
                line.append(msg.as_str());
                line
            },
        }
    }
}

} // verus!
