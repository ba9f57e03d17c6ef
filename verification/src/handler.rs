use vstd::prelude::*;
use crate::protocol::ExecuteInfo;
use crate::registry::TokenMap;

verus! {

/// The guarded connections: for each token, the device's socket and the
/// handle of the job that guards it.
pub struct Handler<S, H> {
    inner: TokenMap<(S, H)>,
}

impl<S, H> Handler<S, H> {
    /// The connections, by token.
    pub closed spec fn view(&self) -> Map<Seq<char>, (S, H)> {
        self.inner@
    }

    /// No connection.
    pub fn new() -> (h: Self)
        ensures
            h@ == Map::<Seq<char>, (S, H)>::empty(),
    {
        Handler { inner: TokenMap::new() }
    }

    /// Records `socket` and `handle` as the connection of `token`, replacing
    /// any earlier one.
    pub fn insert(&mut self, token: &str, socket: S, handle: H)
        ensures
            final(self)@ == old(self)@.insert(token@, (socket, handle)),
    {
        self.inner.insert(token, (socket, handle));
    }

    /// Takes the connection of `token` out so that its guard can be
    /// cancelled; `None`, and nothing changed, when there is none.
    pub fn cancel_guard(&mut self, token: &str) -> (r: Option<(S, H)>)
        ensures
            match r {
                Some(e) => old(self)@.contains_key(token@) && e == old(self)@[token@]
                    && final(self)@ == old(self)@.remove(token@),
                None => !old(self)@.contains_key(token@) && final(self)@ == old(self)@,
            },
    {
        self.inner.remove(token)
    }

    /// Sends a command to a guarded connection. Only a token without a
    /// connection is accepted: for a connected one the connection is taken
    /// out, written to, and put back into the slot just emptied with the
    /// previous occupant unwrapped, which is always absent, so that path
    /// always panics. With no connection nothing happens.
    pub fn execute(&mut self, info: &ExecuteInfo)
        requires
            !old(self)@.contains_key(info.token@),
        ensures
            final(self)@ == old(self)@,
    {
        let token = info.get_token();
        let taken = self.inner.remove(token.as_str());
        assert(taken is None);
    }

    /// Whether `token` has a connection.
    pub fn contains(&self, token: &str) -> (b: bool)
        ensures
            b == self@.contains_key(token@),
    {
        self.inner.contains_key(token)
    }
}

} // verus!
