use vstd::prelude::*;
use crate::execute_time::{ExecuteTime, TimeOfDay};
use crate::original_task::OriginalTask;

verus! {

/// A task in a device's run queue: the stored task, with the fields the
/// scheduler reads copied out of it.
pub struct PipeTask {
    ot: OriginalTask,
    id: i32,
    name: String,
    active: bool,
    command: String,
    execute_time: ExecuteTime,
}

impl PipeTask {
    #[verifier::type_invariant]
    spec fn copies_agree(self) -> bool {
        &&& self.id == self.ot.id
        &&& self.name == self.ot.name
        &&& self.active == self.ot.active
        &&& self.command == self.ot.command
        &&& self.execute_time.time_spec() == self.ot.execute_time
    }

    /// The stored task this entry was made from.
    pub closed spec fn task(self) -> OriginalTask {
        self.ot
    }

    /// The queue entry for `ot`.
    pub fn from(ot: OriginalTask) -> (p: PipeTask)
        ensures
            p.task() == ot,
    {
        PipeTask {
            ot: ot.clone(),
            id: ot.id(),
            name: ot.name(),
            active: ot.active(),
            command: ot.command(),
            execute_time: ExecuteTime::from(ot.execute_time()),
        }
    }

    /// The task's name.
    pub fn name(&self) -> (r: String)
        ensures
            r == self.task().name,
    {
        proof {
            use_type_invariant(self);
        }
        self.name.clone()
    }

    /// Whether the task is switched on.
    pub fn active(&self) -> (r: bool)
        ensures
            r == self.task().active,
    {
        proof {
            use_type_invariant(self);
        }
        self.active
    }

    /// The command sent to the device.
    pub fn command(&self) -> (r: String)
        ensures
            r == self.task().command,
    {
        proof {
            use_type_invariant(self);
        }
        self.command.clone()
    }

    /// When the task runs each day.
    pub fn execute_time(&self) -> (r: ExecuteTime)
        ensures
            r.time_spec() == self.task().execute_time,
    {
        proof {
            use_type_invariant(self);
        }
        self.execute_time
    }

    /// A copy of the stored task.
    pub fn original_task(&self) -> (r: OriginalTask)
        ensures
            r == self.task(),
    {
        self.ot.clone()
    }
}

} // verus!
