//! Scheduling core for remote devices: which device a token belongs to, which of a
//! device's tasks are due and when, and which connection a command is routed to.

pub mod device;
pub mod execute_time;
pub mod handler;
pub mod original_task;
pub mod pipe_task;
pub mod pipe_tasks;
pub mod protocol;
pub mod registry;
pub mod request;
pub mod task_handler;
pub mod text;
pub mod web_handler;
