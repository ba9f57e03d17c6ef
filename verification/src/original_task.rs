use std::collections::VecDeque;
use vstd::prelude::*;
use crate::execute_time::TimeOfDay;
use crate::pipe_task::PipeTask;
use crate::text::{push_signed_decimal, signed_decimal};

verus! {

/// A date and time on the local wall clock without a time zone, as chrono's
/// `NaiveDateTime` holds it: seconds since 1970-01-01 00:00:00 and the
/// nanoseconds past that second.
#[derive(Clone, Copy)]
pub struct LocalDateTime {
    pub secs: i64,
    pub nanos: u32,
}

/// Reads the local wall clock with chrono's `Local::now().naive_local()`.
/// Claimed: the fraction is below one second (chrono builds `Local::now` from
/// the system clock through `DateTime::from_timestamp`). What the reading is
/// depends on the clock and is not stated.
#[verifier::external_body]
fn local_datetime_now() -> (t: LocalDateTime)
    ensures
        t.nanos < 1_000_000_000,
{
    let now = chrono::Local::now().naive_local().and_utc();
    LocalDateTime { secs: now.timestamp(), nanos: now.timestamp_subsec_nanos() }
}

/// A task as the database keeps it: a command sent to a device each day at
/// `execute_time`, with its run counters.
pub struct OriginalTask {
    pub id: i32,
    pub name: String,
    pub succeed_count: i32,
    pub failed_count: i32,
    pub last_executed: LocalDateTime,
    pub owner: String,
    pub command: String,
    pub execute_time: TimeOfDay,
    pub device_token: String,
    pub active: bool,
}

impl Clone for OriginalTask {
    fn clone(&self) -> (r: Self)
        ensures
            r == *self,
    {
        OriginalTask {
            id: self.id,
            name: self.name.clone(),
            succeed_count: self.succeed_count,
            failed_count: self.failed_count,
            last_executed: self.last_executed,
            owner: self.owner.clone(),
            command: self.command.clone(),
            execute_time: self.execute_time,
            device_token: self.device_token.clone(),
            active: self.active,
        }
    }
}

/// Whether task `t` belongs to the device with token `token`.
pub open spec fn belongs_to(t: OriginalTask, token: Seq<char>) -> bool {
    t.device_token@ == token
}

/// The tasks of `tasks` that belong to the device with token `token`, in order.
pub open spec fn tasks_for(tasks: Seq<OriginalTask>, token: Seq<char>) -> Seq<OriginalTask> {
    tasks.filter(|t: OriginalTask| belongs_to(t, token))
}

/// A device's tasks are chosen by equality of the token text alone, in list
/// order: none from an empty list; a task appended to the list is appended
/// to the device's tasks exactly when its device token equals the token;
/// every chosen task carries the token, and every task of the list that
/// carries it is chosen.
pub proof fn law_tasks_for_selects_by_token(tasks: Seq<OriginalTask>, t: OriginalTask, token: Seq<char>)
    ensures
        tasks_for(Seq::empty(), token) == Seq::<OriginalTask>::empty(),
        tasks_for(tasks.push(t), token) == (if t.device_token@ == token {
            tasks_for(tasks, token).push(t)
        } else {
            tasks_for(tasks, token)
        }),
        forall|i: int|
            0 <= i < tasks_for(tasks, token).len() ==> (#[trigger] tasks_for(tasks, token)[i]).device_token@
                == token,
        forall|i: int|
            0 <= i < tasks.len() && (#[trigger] tasks[i]).device_token@ == token ==> tasks_for(
                tasks,
                token,
            ).contains(tasks[i]),
{
    let pred = |x: OriginalTask| belongs_to(x, token);
    assert(tasks_for(Seq::empty(), token) =~= Seq::<OriginalTask>::empty()) by {
        reveal(Seq::filter);
    }
    tasks.lemma_filter_push(t, pred);
    assert forall|i: int| 0 <= i < tasks_for(tasks, token).len() implies (#[trigger] tasks_for(
        tasks,
        token,
    )[i]).device_token@ == token by {
        tasks.lemma_filter_pred(pred, i);
    }
    assert forall|i: int| 0 <= i < tasks.len() && (#[trigger] tasks[i]).device_token@ == token implies tasks_for(
        tasks,
        token,
    ).contains(tasks[i]) by {
        tasks.lemma_filter_contains(pred, i);
    }
}

/// The path under which the database updates task `id`.
pub open spec fn update_path(id: i32) -> Seq<char> {
    "/task/update/"@ + signed_decimal(id as int)
}

/// `ot` after one more run with outcome `succeeded`, finished at `now`.
pub open spec fn after_run(ot: OriginalTask, succeeded: bool, now: LocalDateTime) -> OriginalTask {
    OriginalTask {
        succeed_count: if succeeded { (ot.succeed_count + 1) as i32 } else { ot.succeed_count },
        failed_count: if succeeded { ot.failed_count } else { (ot.failed_count + 1) as i32 },
        last_executed: now,
        ..ot
    }
}

impl OriginalTask {
    /// Turns the task list that the database returned into the queue of tasks
    /// of the device with token `token`, in the order of the list.
    pub fn get_all_task_by_token(tasks: &Vec<OriginalTask>, token: &str) -> (r: VecDeque<PipeTask>)
        ensures
            r@.map_values(|p: PipeTask| p.task()) == tasks_for(tasks@, token@),
    {
        let wanted: String = token.to_owned();
        let mut r: VecDeque<PipeTask> = VecDeque::new();
        let ghost pred = |t: OriginalTask| belongs_to(t, token@);
        let mut i: usize = 0;
        assert(tasks@.take(0) =~= Seq::<OriginalTask>::empty());
        assert(r@.map_values(|p: PipeTask| p.task()) =~= tasks@.take(0).filter(pred)) by {
            reveal(Seq::filter);
        }
        while i < tasks.len()
            invariant
                i <= tasks@.len(),
                wanted@ == token@,
                pred == (|t: OriginalTask| belongs_to(t, token@)),
                r@.map_values(|p: PipeTask| p.task()) == tasks@.take(i as int).filter(pred),
            decreases tasks@.len() - i,
        {
            let ghost before = r@;
            assert(tasks@.take(i + 1) =~= tasks@.take(i as int).push(tasks@[i as int]));
            proof {
                tasks@.take(i as int).lemma_filter_push(tasks@[i as int], pred);
            }
            if tasks[i].device_token == wanted {
                let p = tasks[i].clone().to_pipe_task();
                r.push_back(p);
                assert(r@.map_values(|p: PipeTask| p.task())
                    =~= before.map_values(|p: PipeTask| p.task()).push(tasks@[i as int]));
            }
            i = i + 1;
        }
        assert(tasks@.take(tasks@.len() as int) =~= tasks@);
        r
    }

    /// The task's name.
    pub fn name(&self) -> (r: String)
        ensures
            r == self.name,
    {
        self.name.clone()
    }

    /// Whether the task is switched on.
    pub fn active(&self) -> (r: bool)
        ensures
            r == self.active,
    {
        self.active
    }

    /// The task's database id.
    pub fn id(&self) -> (r: i32)
        ensures
            r == self.id,
    {
        self.id
    }

    /// The command sent to the device.
    pub fn command(&self) -> (r: String)
        ensures
            r == self.command,
    {
        self.command.clone()
    }

    /// The time of day at which the task runs.
    pub fn execute_time(&self) -> (r: TimeOfDay)
        ensures
            r == self.execute_time,
    {
        self.execute_time
    }

    /// The task as a queue entry.
    pub fn to_pipe_task(self) -> (p: PipeTask)
        ensures
            p.task() == self,
    {
        PipeTask::from(self)
    }

    /// The path under which the database updates task `id`: `/task/update/{id}`.
    pub fn update_path(id: i32) -> (p: String)
        ensures
            p@ == update_path(id),
    {
        let mut p: String = "/task/update/".to_owned();
        push_signed_decimal(&mut p, id);
        p
    }

    /// `ot` after a run that reached the device, finished at `now`: one more
    /// success, and `now` as the last run. Also the path to store it under.
    pub fn record_success(ot: OriginalTask, now: LocalDateTime) -> (r: (OriginalTask, String))
        requires
            ot.succeed_count < i32::MAX,
        ensures
            r.0 == after_run(ot, true, now),
            r.1@ == update_path(ot.id),
    {
        let mut ot = ot;
        ot.succeed_count = ot.succeed_count + 1;
        ot.last_executed = now;
        let path = OriginalTask::update_path(ot.id);
        (ot, path)
    }

    /// `ot` after a run that did not reach the device, finished at `now`: one
    /// more failure, and `now` as the last run. Also the path to store it under.
    pub fn record_failure(ot: OriginalTask, now: LocalDateTime) -> (r: (OriginalTask, String))
        requires
            ot.failed_count < i32::MAX,
        ensures
            r.0 == after_run(ot, false, now),
            r.1@ == update_path(ot.id),
    {
        let mut ot = ot;
        ot.failed_count = ot.failed_count + 1;
        ot.last_executed = now;
        let path = OriginalTask::update_path(ot.id);
        (ot, path)
    }

    /// `ot` after a successful run finishing now on the local clock, and the
    /// path to store it under.
    pub fn update_success(ot: OriginalTask) -> (r: (OriginalTask, String))
        requires
            ot.succeed_count < i32::MAX,
        ensures
            r.0.last_executed.nanos < 1_000_000_000,
            r.0 == after_run(ot, true, r.0.last_executed),
            r.1@ == update_path(ot.id),
    {
        let now = local_datetime_now();
        OriginalTask::record_success(ot, now)
    }

    /// `ot` after a failed run finishing now on the local clock, and the path
    /// to store it under.
    pub fn update_failed(ot: OriginalTask) -> (r: (OriginalTask, String))
        requires
            ot.failed_count < i32::MAX,
        ensures
            r.0.last_executed.nanos < 1_000_000_000,
            r.0 == after_run(ot, false, r.0.last_executed),
            r.1@ == update_path(ot.id),
    {
        let now = local_datetime_now();
        OriginalTask::record_failure(ot, now)
    }
}

} // verus!
