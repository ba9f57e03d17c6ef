use vstd::prelude::*;
use vstd::utf8::{decode_utf8, valid_utf8};
use crate::protocol::{OpResult, Operation};
use crate::task_handler::TaskHandler;
use crate::text::str_from_utf8;

verus! {

/// What the web side has to do after an operation was decided on.
pub enum Step<S, H> {
    /// Write `payload` to `socket` (a clone of the device's socket).
    Deliver { socket: S, payload: String },
    /// Cancel `handle`, then start the schedule of `token` again on `socket`.
    Restart { token: String, socket: S, handle: H },
    /// Nothing to do before answering.
    Nothing,
}

/// Whether the first message of a web connection carries the shared key:
/// it must be UTF-8 text equal to `key`.
pub fn authorized(received: &[u8], key: &str) -> (b: bool)
    ensures
        b == (valid_utf8(received@) && decode_utf8(received@) == key@),
{
    match str_from_utf8(received) {
        None => false,
        Some(text) => {
            let got: String = text.to_owned();
            let want: String = key.to_owned();
            got == want
        },
    }
}

/// The text of a received message, `None` when it is not UTF-8.
pub fn decode_text(received: &[u8]) -> (r: Option<String>)
    ensures
        r is Some <==> valid_utf8(received@),
        r matches Some(t) ==> t@ == decode_utf8(received@),
{
    match str_from_utf8(received) {
        None => None,
        Some(text) => Some(text.to_owned()),
    }
}

/// Decides an operation against the connected devices. `Execute` answers
/// `Success` and hands out the device's socket and the command when the device is
/// connected, `DeviceOffline` otherwise, the connections unchanged. `Reload`
/// answers `Success` and takes the device's connection out for its schedule to be
/// restarted when it is connected, `DeviceOffline` otherwise.
pub fn deal<S: Clone, H>(handler: &mut TaskHandler<S, H>, op: Operation) -> (r: (OpResult, Step<S, H>))
    ensures
        match op {
            Operation::Execute(info) => {
                &&& final(handler)@ == old(handler)@
                &&& old(handler)@.contains_key(info.token@) ==> r.0 == OpResult::Success && (match r.1 {
                    Step::Deliver { socket, payload } => cloned(old(handler)@[info.token@].0, socket)
                        && payload@ == info.command@,
                    _ => false,
                })
                &&& !old(handler)@.contains_key(info.token@) ==> r.0 == OpResult::DeviceOffline
                    && r.1 is Nothing
            },
            Operation::Reload(token) => {
                &&& old(handler)@.contains_key(token@) ==> r.0 == OpResult::Success
                    && final(handler)@ == old(handler)@.remove(token@) && (match r.1 {
                    Step::Restart { token: t, socket, handle } => t@ == token@ && (socket, handle)
                        == old(handler)@[token@],
                    _ => false,
                })
                &&& !old(handler)@.contains_key(token@) ==> r.0 == OpResult::DeviceOffline
                    && r.1 is Nothing && final(handler)@ == old(handler)@
            },
        },
{
    match op {
        Operation::Execute(info) => {
            let (result, delivery) = handler.execute(&info);
            match delivery {
                Some((socket, payload)) => (result, Step::Deliver { socket, payload }),
                None => (result, Step::Nothing),
            }
        },
        Operation::Reload(token) => {
            let (result, taken) = handler.reload(token.as_str());
            match taken {
                Some((socket, handle)) => (result, Step::Restart { token, socket, handle }),
                None => (result, Step::Nothing),
            }
        },
    }
}

/// Whether an answer is written back to the web side: every answer but
/// `CoreOffline`.
pub fn answers(result: OpResult) -> (b: bool)
    ensures
        b == (result != OpResult::CoreOffline),
{
    match result {
        OpResult::CoreOffline => false,
        _ => true,
    }
}

} // verus!
