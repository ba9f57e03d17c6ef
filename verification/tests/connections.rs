use device_scheduler::handler::Handler;
use device_scheduler::original_task::{LocalDateTime, OriginalTask};
use device_scheduler::execute_time::TimeOfDay;
use device_scheduler::pipe_tasks::PipeTasks;
use device_scheduler::protocol::{ExecuteInfo, OpResult, Operation};
use device_scheduler::registry::TokenMap;
use device_scheduler::task_handler::TaskHandler;
use device_scheduler::web_handler::{answers, authorized, deal, decode_text, Step};

fn info(token: &str, command: &str) -> ExecuteInfo {
    ExecuteInfo { token: token.to_string(), command: command.to_string() }
}

fn one_task(token: &str) -> Vec<OriginalTask> {
    vec![OriginalTask {
        id: 1,
        name: "t".to_string(),
        succeed_count: 0,
        failed_count: 0,
        last_executed: LocalDateTime { secs: 0, nanos: 0 },
        owner: "o".to_string(),
        command: "on".to_string(),
        execute_time: TimeOfDay::from_num_seconds_from_midnight_opt(0, 0).unwrap(),
        device_token: token.to_string(),
        active: true,
    }]
}

#[test]
fn token_map_insert_replace_remove() {
    let mut m: TokenMap<u32> = TokenMap::new();
    assert!(!m.contains_key("a"));
    m.insert("a", 1);
    m.insert("b", 2);
    m.insert("a", 3);
    assert_eq!(m.get("a"), Some(&3));
    assert_eq!(m.get("b"), Some(&2));
    assert_eq!(m.remove("a"), Some(3));
    assert_eq!(m.remove("a"), None);
    assert!(!m.contains_key("a"));
    assert!(m.contains_key("b"));
}

#[test]
fn execute_routes_to_connected_device() {
    let mut h: TaskHandler<String, u8> = TaskHandler::new();
    h.insert("dev", "socket-1".to_string(), 7);
    assert!(h.contains("dev"));
    let (r, delivery) = h.execute(&info("dev", "light on"));
    assert!(r == OpResult::Success);
    assert_eq!(delivery, Some(("socket-1".to_string(), "light on".to_string())));
    assert!(h.contains("dev"));
    assert_eq!(h.get_socket("dev"), Some("socket-1".to_string()));
}

#[test]
fn execute_for_unknown_device_is_offline() {
    let mut h: TaskHandler<String, u8> = TaskHandler::new();
    let (r, delivery) = h.execute(&info("nobody", "x"));
    assert!(r == OpResult::DeviceOffline);
    assert!(delivery.is_none());
    assert!(h.get_socket("nobody").is_none());
}

#[test]
fn reload_takes_the_connection_out() {
    let mut h: TaskHandler<String, u8> = TaskHandler::new();
    h.insert("dev", "s".to_string(), 9);
    let (r, taken) = h.reload("dev");
    assert!(r == OpResult::Success);
    assert_eq!(taken, Some(("s".to_string(), 9)));
    assert!(!h.contains("dev"));
    let (r, taken) = h.reload("dev");
    assert!(r == OpResult::DeviceOffline);
    assert!(taken.is_none());
}

#[test]
fn tasks_run_records_only_with_tasks() {
    let mut h: TaskHandler<String, usize> = TaskHandler::new();
    let empty = PipeTasks::new("dev", &one_task("other"), &Vec::new());
    assert!(!h.tasks_run("dev", "s".to_string(), empty, |_t: PipeTasks| 1usize));
    assert!(!h.contains("dev"));
    let full = PipeTasks::new("dev", &one_task("dev"), &Vec::new());
    assert!(h.tasks_run("dev", "s".to_string(), full, |mut t: PipeTasks| t.get_all_future().len() + 40));
    assert!(h.contains("dev"));
    let (_, taken) = h.reload("dev");
    assert_eq!(taken, Some(("s".to_string(), 41)));
}

#[test]
fn token_is_trimmed_text() {
    assert_eq!(TaskHandler::<String, u8>::parse_token(b"  abc123\r\n"), Some("abc123".to_string()));
    assert_eq!(TaskHandler::<String, u8>::parse_token(b"plain"), Some("plain".to_string()));
    assert_eq!(TaskHandler::<String, u8>::parse_token(b" \t "), Some(String::new()));
    assert_eq!(TaskHandler::<String, u8>::parse_token(b""), None);
    assert_eq!(TaskHandler::<String, u8>::parse_token(&[0xff, 0x41]), None);
}

#[test]
fn key_check_compares_the_whole_text() {
    assert!(authorized(b"s3cret", "s3cret"));
    assert!(!authorized(b"s3cret\n", "s3cret"));
    assert!(!authorized(b"s3c", "s3cret"));
    assert!(!authorized(&[0xc3, 0x28], "s3cret"));
    assert_eq!(decode_text("h\u{e9}".as_bytes()), Some("h\u{e9}".to_string()));
    assert_eq!(decode_text(&[0xc3, 0x28]), None);
}

#[test]
fn deal_decides_execute_and_reload() {
    let mut h: TaskHandler<String, u8> = TaskHandler::new();
    h.insert("dev", "sock".to_string(), 3);
    match deal(&mut h, Operation::Execute(info("dev", "go"))) {
        (OpResult::Success, Step::Deliver { socket, payload }) => {
            assert_eq!(socket, "sock");
            assert_eq!(payload, "go");
        }
        _ => panic!("expected a delivery"),
    }
    assert!(matches!(deal(&mut h, Operation::Execute(info("x", "go"))), (OpResult::DeviceOffline, Step::Nothing)));
    match deal(&mut h, Operation::Reload("dev".to_string())) {
        (OpResult::Success, Step::Restart { token, socket, handle }) => {
            assert_eq!(token, "dev");
            assert_eq!(socket, "sock");
            assert_eq!(handle, 3);
        }
        _ => panic!("expected a restart"),
    }
    assert!(matches!(deal(&mut h, Operation::Reload("dev".to_string())), (OpResult::DeviceOffline, Step::Nothing)));
}

#[test]
fn every_answer_but_core_offline_is_sent() {
    assert!(answers(OpResult::Success));
    assert!(answers(OpResult::DeviceOffline));
    assert!(!answers(OpResult::CoreOffline));
}

#[test]
fn guard_handler_takes_connections_out() {
    let mut g: Handler<String, u8> = Handler::new();
    g.insert("dev", "s".to_string(), 1);
    assert!(g.contains("dev"));
    g.execute(&info("other", "x"));
    assert!(g.contains("dev"));
    assert_eq!(g.cancel_guard("dev"), Some(("s".to_string(), 1)));
    assert_eq!(g.cancel_guard("dev"), None);
    assert!(!g.contains("dev"));
}

#[test]
fn execute_info_getters() {
    let i = info("tok", "cmd");
    assert_eq!(i.get_token(), "tok");
    assert_eq!(i.get_command(), "cmd");
}
