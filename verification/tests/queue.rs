use device_scheduler::device::Device;
use device_scheduler::execute_time::{TimeOfDay, NANOS_PER_DAY};
use device_scheduler::original_task::{LocalDateTime, OriginalTask};
use device_scheduler::pipe_tasks::PipeTasks;

fn task(id: i32, token: &str, active: bool) -> OriginalTask {
    OriginalTask {
        id,
        name: format!("task{}", id),
        succeed_count: 0,
        failed_count: 0,
        last_executed: LocalDateTime { secs: 0, nanos: 0 },
        owner: "alice".to_string(),
        command: format!("cmd{}", id),
        execute_time: TimeOfDay::from_num_seconds_from_midnight_opt(60 * id as u32, 0).unwrap(),
        device_token: token.to_string(),
        active,
    }
}

fn devices() -> Vec<Device> {
    vec![Device { token: "t1".to_string(), name: "lamp".to_string(), owner: "alice".to_string() }]
}

fn all_tasks() -> Vec<OriginalTask> {
    vec![task(1, "t1", true), task(2, "t2", true), task(3, "t1", false), task(4, "t1", true)]
}

fn drain_ids(p: &mut PipeTasks) -> Vec<i32> {
    let mut ids = Vec::new();
    while let Some(t) = p.pop() {
        ids.push(t.original_task().id());
    }
    ids
}

#[test]
fn new_queue_holds_the_device_tasks() {
    let mut p = PipeTasks::new("t1", &all_tasks(), &devices());
    assert!(!p.is_invalid());
    assert!(!p.is_empty());
    assert_eq!(drain_ids(&mut p), vec![1, 3, 4]);
    assert!(p.is_empty());
    assert!(p.pop().is_none());
}

#[test]
fn unknown_device_is_invalid() {
    let p = PipeTasks::new("t2", &all_tasks(), &devices());
    assert!(p.is_invalid());
    assert!(!p.is_empty());
    let q = PipeTasks::new("t9", &all_tasks(), &devices());
    assert!(q.is_invalid());
    assert!(q.is_empty());
}

#[test]
fn planning_runs_active_tasks_and_keeps_the_queue() {
    let mut p = PipeTasks::new("t1", &all_tasks(), &devices());
    let runs = p.get_all_future();
    let ids: Vec<i32> = runs.iter().map(|r| r.task.id()).collect();
    assert_eq!(ids, vec![1, 4]);
    assert_eq!(runs[0].name, "task1");
    assert_eq!(runs[1].command, "cmd4");
    assert_eq!(runs[1].execute_time.time().num_seconds_from_midnight(), 240);
    assert!(runs.iter().all(|r| r.delay_nanos < NANOS_PER_DAY));
    // the queue is untouched, inactive task included, so planning repeats
    let again: Vec<i32> = p.get_all_future().iter().map(|r| r.task.id()).collect();
    assert_eq!(again, vec![1, 4]);
    assert_eq!(drain_ids(&mut p), vec![1, 3, 4]);
}

#[test]
fn planning_an_empty_queue_gives_no_runs() {
    let mut p = PipeTasks::new("t9", &all_tasks(), &devices());
    assert!(p.get_all_future().is_empty());
}
