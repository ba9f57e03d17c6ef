use device_scheduler::device::Device;
use device_scheduler::execute_time::TimeOfDay;
use device_scheduler::original_task::{LocalDateTime, OriginalTask};
use device_scheduler::request::api_url;

fn device(token: &str, owner: &str) -> Device {
    Device { token: token.to_string(), name: format!("dev-{}", token), owner: owner.to_string() }
}

fn task(id: i32, token: &str, active: bool) -> OriginalTask {
    OriginalTask {
        id,
        name: format!("task{}", id),
        succeed_count: 3,
        failed_count: 1,
        last_executed: LocalDateTime { secs: 1_600_000_000, nanos: 0 },
        owner: "alice".to_string(),
        command: format!("cmd{}", id),
        execute_time: TimeOfDay::from_num_seconds_from_midnight_opt(3600 * id as u32, 0).unwrap(),
        device_token: token.to_string(),
        active,
    }
}

#[test]
fn owner_of_first_matching_device() {
    let devices = vec![device("a", "ann"), device("b", "bob"), device("b", "ben")];
    assert_eq!(Device::get_owner_by_token(&devices, "b"), "bob");
    assert_eq!(Device::get_owner_by_token(&devices, "a"), "ann");
}

#[test]
fn owner_of_unknown_token_is_empty() {
    let devices = vec![device("a", "ann")];
    assert_eq!(Device::get_owner_by_token(&devices, "zz"), "");
    assert_eq!(Device::get_owner_by_token(&Vec::new(), "a"), "");
}

#[test]
fn tasks_of_a_token_keep_their_order() {
    let tasks = vec![task(1, "a", true), task(2, "b", true), task(3, "a", false), task(4, "a", true)];
    let mut queue = OriginalTask::get_all_task_by_token(&tasks, "a");
    let ids: Vec<i32> = queue.drain(..).map(|p| p.original_task().id()).collect();
    assert_eq!(ids, vec![1, 3, 4]);
    assert!(OriginalTask::get_all_task_by_token(&tasks, "c").is_empty());
}

#[test]
fn update_path_spells_the_id() {
    assert_eq!(OriginalTask::update_path(42), "/task/update/42");
    assert_eq!(OriginalTask::update_path(0), "/task/update/0");
    assert_eq!(OriginalTask::update_path(-7), "/task/update/-7");
    assert_eq!(OriginalTask::update_path(i32::MIN), "/task/update/-2147483648");
    assert_eq!(OriginalTask::update_path(i32::MAX), "/task/update/2147483647");
}

#[test]
fn recorded_runs_count() {
    let now = LocalDateTime { secs: 1_700_000_000, nanos: 5 };
    let (ok, path) = OriginalTask::record_success(task(9, "a", true), now);
    assert_eq!((ok.succeed_count, ok.failed_count), (4, 1));
    assert_eq!((ok.last_executed.secs, ok.last_executed.nanos), (1_700_000_000, 5));
    assert_eq!(path, "/task/update/9");
    let (failed, path) = OriginalTask::record_failure(task(9, "a", true), now);
    assert_eq!((failed.succeed_count, failed.failed_count), (3, 2));
    assert_eq!(failed.last_executed.secs, 1_700_000_000);
    assert_eq!(path, "/task/update/9");
    assert_eq!(failed.name(), "task9");
    assert_eq!(failed.command(), "cmd9");
}

#[test]
fn update_success_stamps_the_clock() {
    let (ok, path) = OriginalTask::update_success(task(5, "a", true));
    assert_eq!(ok.succeed_count, 4);
    assert!(ok.last_executed.secs > 1_600_000_000);
    assert!(ok.last_executed.nanos < 1_000_000_000);
    assert_eq!(path, "/task/update/5");
    let (failed, _) = OriginalTask::update_failed(task(5, "a", true));
    assert_eq!(failed.failed_count, 2);
    assert!(failed.last_executed.secs > 1_600_000_000);
}

#[test]
fn clone_and_getters_copy_the_task() {
    let t = task(2, "a", false);
    let c = t.clone();
    assert_eq!(c.id(), 2);
    assert!(!c.active());
    assert_eq!(c.execute_time().num_seconds_from_midnight(), 7200);
    let p = c.to_pipe_task();
    assert_eq!(p.name(), "task2");
    assert_eq!(p.command(), "cmd2");
    assert!(!p.active());
    assert_eq!(p.execute_time().time().num_seconds_from_midnight(), 7200);
}

#[test]
fn api_url_joins_root_and_path() {
    assert_eq!(api_url("http://db:8000", "/task/read"), "http://db:8000/task/read");
    assert_eq!(api_url("", "/device/read"), "/device/read");
}
