use std::collections::VecDeque;
use vstd::prelude::*;
use crate::device::{owner_for, Device};
use crate::execute_time::{delay_nanos, ExecuteTime, TimeOfDay};
use crate::original_task::{tasks_for, OriginalTask};
use crate::pipe_task::PipeTask;

verus! {

/// One due run of an active task: what to print, what to send, and how long
/// to wait before sending it.
pub struct TaskRun {
    pub name: String,
    pub command: String,
    pub execute_time: ExecuteTime,
    pub delay_nanos: u64,
    pub task: OriginalTask,
}

/// `r` is the run of task `t`: its fields are copied from `t`, and its delay
/// is the wait until `t`'s time of day from some reading of the clock.
pub open spec fn is_run_of(r: TaskRun, t: OriginalTask) -> bool {
    &&& r.task == t
    &&& r.name == t.name
    &&& r.command == t.command
    &&& r.execute_time.time_spec() == t.execute_time
    &&& exists|now: TimeOfDay|
        #![trigger delay_nanos(t.execute_time, now)]
        now.is_valid() && now.frac_spec() < 1_000_000_000 && r.delay_nanos == delay_nanos(
            t.execute_time,
            now,
        )
}

/// Every run of `runs` waits from the one clock reading `now` until the time
/// of day of the matching task of `tasks`.
pub open spec fn all_delays_from(runs: Seq<TaskRun>, tasks: Seq<OriginalTask>, now: TimeOfDay) -> bool {
    forall|i: int|
        0 <= i < runs.len() ==> #[trigger] runs[i].delay_nanos == delay_nanos(tasks[i].execute_time, now)
}

/// The switched-on tasks of `q`, in order.
pub open spec fn active_tasks(q: Seq<OriginalTask>) -> Seq<OriginalTask> {
    q.filter(|t: OriginalTask| is_active(t))
}

/// Whether task `t` is switched on.
pub open spec fn is_active(t: OriginalTask) -> bool {
    t.active
}

/// The tasks of one connected device, in the order they are run.
pub struct PipeTasks {
    owner: String,
    device_token: String,
    tasks: VecDeque<PipeTask>,
}

impl PipeTasks {
    /// The owner of the device; empty when no device carries the token.
    pub closed spec fn owner_spec(&self) -> Seq<char> {
        self.owner@
    }

    /// The token of the device.
    pub closed spec fn token_spec(&self) -> Seq<char> {
        self.device_token@
    }

    /// The queued tasks, front first.
    pub closed spec fn queue(&self) -> Seq<OriginalTask> {
        self.tasks@.map_values(|p: PipeTask| p.task())
    }

    /// The tasks of the device with token `token`: the tasks of `tasks` that
    /// belong to it, in order, and the owner that `devices` records for it.
    pub fn new(token: &str, tasks: &Vec<OriginalTask>, devices: &Vec<Device>) -> (p: PipeTasks)
        ensures
            p.token_spec() == token@,
            p.owner_spec() == owner_for(devices@, token@),
            p.queue() == tasks_for(tasks@, token@),
    {
        let queue = OriginalTask::get_all_task_by_token(tasks, token);
        let owner = Device::get_owner_by_token(devices, token);
        PipeTasks { owner, device_token: token.to_owned(), tasks: queue }
    }

    /// Whether no registered device carries the token (its owner is empty).
    pub fn is_invalid(&self) -> (b: bool)
        ensures
            b == (self.owner_spec().len() == 0),
    {
        self.owner.as_str().is_empty()
    }

    /// Whether the queue holds no task.
    pub fn is_empty(&self) -> (b: bool)
        ensures
            b == (self.queue().len() == 0),
    {
        self.tasks.len() == 0
    }

    /// Takes the front task off the queue.
    pub fn pop(&mut self) -> (r: Option<PipeTask>)
        ensures
            final(self).owner_spec() == old(self).owner_spec(),
            final(self).token_spec() == old(self).token_spec(),
            match r {
                Some(t) => old(self).queue().len() > 0 && t.task() == old(self).queue()[0]
                    && final(self).queue() == old(self).queue().drop_first(),
                None => old(self).queue().len() == 0 && final(self).queue() == old(self).queue(),
            },
    {
        let r = self.tasks.pop_front();
        proof {
            let q = old(self).tasks@;
            if r is Some {
                assert(self.tasks@.map_values(|p: PipeTask| p.task())
                    =~= q.map_values(|p: PipeTask| p.task()).drop_first());
            }
        }
        r
    }

    /// The runs due for this device: one for each active task, in queue
    /// order, each with the wait until its time of day. The queue is the
    /// same afterwards, inactive tasks included.
    pub fn get_all_future(&mut self) -> (runs: Vec<TaskRun>)
        ensures
            final(self).owner_spec() == old(self).owner_spec(),
            final(self).token_spec() == old(self).token_spec(),
            final(self).queue() == old(self).queue(),
            runs@.len() == old(self).queue().filter(|t: OriginalTask| is_active(t)).len(),
            forall|i: int|
                0 <= i < runs@.len() ==> is_run_of(
                    #[trigger] runs@[i],
                    old(self).queue().filter(|t: OriginalTask| is_active(t))[i],
                ),
            exists|now: TimeOfDay|
                now.is_valid() && now.frac_spec() < 1_000_000_000 && #[trigger] all_delays_from(
                    runs@,
                    active_tasks(old(self).queue()),
                    now,
                ),
    {
        let ghost q = self.queue();
        let ghost pred = |t: OriginalTask| is_active(t);
        let mut runs: Vec<TaskRun> = Vec::new();
        let mut kept: VecDeque<PipeTask> = VecDeque::new();
        let now = TimeOfDay::now_local();
        let ghost mut k: int = 0;
        assert(q.take(0) =~= Seq::<OriginalTask>::empty());
        assert(q.take(0).filter(pred) =~= Seq::<OriginalTask>::empty()) by {
            reveal(Seq::filter);
        }
        assert(q.skip(0) =~= q);
        loop
            invariant
                0 <= k <= q.len(),
                pred == (|t: OriginalTask| is_active(t)),
                self.owner_spec() == old(self).owner_spec(),
                self.token_spec() == old(self).token_spec(),
                q == old(self).queue(),
                self.queue() == q.skip(k),
                kept@.map_values(|p: PipeTask| p.task()) == q.take(k),
                runs@.len() == q.take(k).filter(pred).len(),
                forall|i: int|
                    0 <= i < runs@.len() ==> is_run_of(#[trigger] runs@[i], q.take(k).filter(pred)[i]),
                now.is_valid(),
                now.frac_spec() < 1_000_000_000,
                all_delays_from(runs@, q.take(k).filter(pred), now),
            ensures
                k == q.len(),
                self.owner_spec() == old(self).owner_spec(),
                self.token_spec() == old(self).token_spec(),
                kept@.map_values(|p: PipeTask| p.task()) == q,
                runs@.len() == q.filter(pred).len(),
                forall|i: int|
                    0 <= i < runs@.len() ==> is_run_of(#[trigger] runs@[i], q.filter(pred)[i]),
                all_delays_from(runs@, q.filter(pred), now),
            decreases q.len() - k,
        {
            let ghost kept_before = kept@;
            let ghost runs_before = runs@;
            match self.pop() {
                None => {
                    assert(q.take(k) =~= q);
                    break;
                },
                Some(t) => {
                    let ghost tt = t.task();
                    assert(tt == q[k]);
                    assert(q.take(k + 1) =~= q.take(k).push(tt));
                    assert(self.queue() =~= q.skip(k + 1));
                    proof {
                        q.take(k).lemma_filter_push(tt, pred);
                    }
                    if t.active() {
                        let execute_time = t.execute_time();
                        let target = execute_time.time();
                        proof {
                            crate::execute_time::law_delay_defined_for_clock_readings(target, now);
                        }
                        let delay = execute_time.duration_from(now);
                        assert(delay == delay_nanos(tt.execute_time, now));
                        let run = TaskRun {
                            name: t.name(),
                            command: t.command(),
                            execute_time,
                            delay_nanos: delay,
                            task: t.original_task(),
                        };
                        runs.push(run);
                        assert(q.take(k + 1).filter(pred) == q.take(k).filter(pred).push(tt));
                        assert forall|i: int| 0 <= i < runs@.len() implies #[trigger] runs@[i].delay_nanos
                            == delay_nanos(q.take(k + 1).filter(pred)[i].execute_time, now) by {
                            if i < runs_before.len() {
                                assert(runs@[i] == runs_before[i]);
                            }
                        }
                        assert forall|i: int| 0 <= i < runs@.len() implies is_run_of(
                            #[trigger] runs@[i],
                            q.take(k + 1).filter(pred)[i],
                        ) by {
                            if i < runs_before.len() {
                                assert(runs@[i] == runs_before[i]);
                            }
                        }
                    }
                    kept.push_back(t);
                    assert(kept@.map_values(|p: PipeTask| p.task())
                        =~= kept_before.map_values(|p: PipeTask| p.task()).push(tt));
                    proof {
                        k = k + 1;
                    }
                },
            }
        }
        self.tasks = kept;
        assert(active_tasks(q) == q.filter(pred));
        assert(all_delays_from(runs@, active_tasks(old(self).queue()), now));
        runs
    }
}

} // verus!
