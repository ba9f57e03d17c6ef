use vstd::prelude::*;
use vstd::utf8::{decode_utf8, valid_utf8};
use crate::pipe_tasks::PipeTasks;
use crate::protocol::{ExecuteInfo, OpResult};
use crate::registry::TokenMap;
use crate::text::{str_from_utf8, str_trim, trimmed};

verus! {

/// The connected devices: for each token, the device's socket and the handle
/// of the job that runs its schedule.
pub struct TaskHandler<S, H> {
    inner: TokenMap<(S, H)>,
}

impl<S, H> TaskHandler<S, H> {
    /// The connections, by token.
    pub closed spec fn view(&self) -> Map<Seq<char>, (S, H)> {
        self.inner@
    }

    /// No device connected.
    pub fn new() -> (h: Self)
        ensures
            h@ == Map::<Seq<char>, (S, H)>::empty(),
    {
        TaskHandler { inner: TokenMap::new() }
    }

    /// Records `socket` and `handle_task` as the connection of `token`,
    /// replacing any earlier one.
    pub fn insert(&mut self, token: &str, socket: S, handle_task: H)
        ensures
            final(self)@ == old(self)@.insert(token@, (socket, handle_task)),
    {
        self.inner.insert(token, (socket, handle_task));
    }

    /// Whether a device with `token` is connected.
    pub fn contains(&self, token: &str) -> (b: bool)
        ensures
            b == self@.contains_key(token@),
    {
        self.inner.contains_key(token)
    }

    /// Starts the schedule of a newly connected device: when `tasks` holds
    /// no task nothing is recorded; otherwise `spawn` starts the job that runs
    /// them and the device is recorded with `socket` and that job's handle.
    pub fn tasks_run<F>(&mut self, token: &str, socket: S, tasks: PipeTasks, spawn: F) -> (ran: bool)
        where
            F: FnOnce(PipeTasks) -> H,
        requires
            spawn.requires((tasks,)),
        ensures
            ran == (tasks.queue().len() > 0),
            !ran ==> final(self)@ == old(self)@,
            ran ==> exists|h: H|
                spawn.ensures((tasks,), h) && #[trigger] final(self)@ == old(self)@.insert(
                    token@,
                    (socket, h),
                ),
    {
        if tasks.is_empty() {
            return false;
        }
        let ghost t = tasks;
        let handle = spawn(tasks);
        self.insert(token, socket, handle);
        assert(spawn.ensures((t,), handle));
        true
    }

    /// Takes the connection of `token` out, to restart its schedule:
    /// `DeviceOffline` when no such device is connected.
    pub fn reload(&mut self, token: &str) -> (r: (OpResult, Option<(S, H)>))
        ensures
            old(self)@.contains_key(token@) ==> r.0 == OpResult::Success && r.1 == Some(
                old(self)@[token@],
            ) && final(self)@ == old(self)@.remove(token@),
            !old(self)@.contains_key(token@) ==> r.0 == OpResult::DeviceOffline && r.1 is None
                && final(self)@ == old(self)@,
    {
        match self.inner.remove(token) {
            None => (OpResult::DeviceOffline, None),
            Some(entry) => (OpResult::Success, Some(entry)),
        }
    }

    /// The device token announced in the first message of a connection:
    /// `None` for an empty message or one that is not UTF-8, otherwise the
    /// text without surrounding white space.
    pub fn parse_token(received: &[u8]) -> (r: Option<String>)
        ensures
            r is Some <==> (received@.len() > 0 && valid_utf8(received@)),
            r matches Some(t) ==> t@ == trimmed(decode_utf8(received@)),
    {
        if received.len() == 0 {
            return None;
        }
        match str_from_utf8(received) {
            None => None,
            Some(text) => Some(str_trim(text).to_owned()),
        }
    }
}

impl<S: Clone, H> TaskHandler<S, H> {
    /// A clone of the socket of `token`, the connections left as they were.
    pub fn get_socket(&mut self, token: &str) -> (r: Option<S>)
        ensures
            final(self)@ == old(self)@,
            match r {
                Some(s) => old(self)@.contains_key(token@) && cloned(old(self)@[token@].0, s),
                None => !old(self)@.contains_key(token@),
            },
    {
        match self.inner.get(token) {
            None => None,
            Some(entry) => Some(entry.0.clone()),
        }
    }

    /// Routes a command to its device: `Ok`, with a clone of the device's
    /// socket and the command text to write to it, when the device is
    /// connected; `DeviceOffline` otherwise. The connections stay as they were.
    pub fn execute(&mut self, info: &ExecuteInfo) -> (r: (OpResult, Option<(S, String)>))
        ensures
            final(self)@ == old(self)@,
            old(self)@.contains_key(info.token@) ==> r.0 == OpResult::Success && (match r.1 {
                Some(d) => cloned(old(self)@[info.token@].0, d.0) && d.1@ == info.command@,
                None => false,
            }),
            !old(self)@.contains_key(info.token@) ==> r.0 == OpResult::DeviceOffline && r.1 is None,
    {
        let token = info.get_token();
        match self.get_socket(token.as_str()) {
            None => (OpResult::DeviceOffline, None),
            Some(s) => (OpResult::Success, Some((s, info.get_command()))),
        }
    }
}

} // verus!

verus! {

/// Recording a device connects it with the socket and handle given, and
/// leaves every other device's connection as it was.
pub proof fn law_recorded_device_is_connected<S, H>(
    table: Map<Seq<char>, (S, H)>,
    token: Seq<char>,
    socket: S,
    handle: H,
    other: Seq<char>,
)
    ensures
        table.insert(token, (socket, handle)).contains_key(token),
        table.insert(token, (socket, handle))[token] == (socket, handle),
        other != token ==> table.insert(token, (socket, handle)).contains_key(other)
            == table.contains_key(other),
        other != token && table.contains_key(other) ==> table.insert(token, (socket, handle))[other]
            == table[other],
{
}

/// A reload that found the device takes it offline: the table no longer
/// holds its token, so a command or a second reload for it answers
/// `DeviceOffline` until the device is recorded again; other devices keep
/// their connections.
pub proof fn law_reload_takes_device_offline<S, H>(
    table: Map<Seq<char>, (S, H)>,
    token: Seq<char>,
    other: Seq<char>,
)
    ensures
        !table.remove(token).contains_key(token),
        other != token ==> table.remove(token).contains_key(other) == table.contains_key(other),
        other != token && table.contains_key(other) ==> table.remove(token)[other] == table[other],
{
}

} // verus!
