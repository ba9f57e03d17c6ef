use vstd::prelude::*;

verus! {

/// A command for the device with token `token`.
pub struct ExecuteInfo {
    pub token: String,
    pub command: String,
}

impl ExecuteInfo {
    /// The token of the device addressed.
    pub fn get_token(&self) -> (r: String)
        ensures
            r == self.token,
    {
        self.token.clone()
    }

    /// The command to send.
    pub fn get_command(&self) -> (r: String)
        ensures
            r == self.command,
    {
        self.command.clone()
    }
}

/// A request from the web side.
pub enum Operation {
    /// Send a command to a connected device now.
    Execute(ExecuteInfo),
    /// Stop a device's running schedule and start it again from fresh task data.
    Reload(String),
}

/// The answer to an `Operation`.
#[derive(Clone, Copy, PartialEq, Eq, Structural)]
pub enum OpResult {
    Success,
    DeviceOffline,
    CoreOffline,
}

} // verus!
