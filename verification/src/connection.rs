use vstd::prelude::*;

verus! {

/// Numbers the connections to the game server, so that the events of a
/// connection that was replaced are told apart and ignored.
pub struct ConnectionCounter {
    connection_id: u32,
}

impl ConnectionCounter {
    pub closed spec fn current(&self) -> u32 {
        self.connection_id
    }

    /// No connection made yet.
    pub fn new() -> (c: Self)
        ensures
            c.current() == 0,
    {
        ConnectionCounter { connection_id: 0 }
    }

    /// Starts a new connection and returns its number; every earlier
    /// connection is stale from now on.
    pub fn next_connection(&mut self) -> (id: u32)
        requires
            old(self).current() < u32::MAX,
        ensures
            id == old(self).current() + 1,
            final(self).current() == id,
    {
        self.connection_id = self.connection_id + 1;
        self.connection_id
    }

    /// The number of the current connection (zero before the first).
    pub fn current_id(&self) -> (id: u32)
        ensures
            id == self.current(),
    {
        self.connection_id
    }

    /// Whether an event of connection `expected_id` belongs to the current one.
    pub fn check_id(&self, expected_id: u32) -> (current: bool)
        ensures
            current <==> expected_id == self.current(),
    {
        self.connection_id == expected_id
    }

    /// Whether another connection can still be numbered.
    pub fn can_reconnect(&self) -> (b: bool)
        ensures
            b <==> self.current() < u32::MAX,
    {
        self.connection_id < u32::MAX
    }
}

/// Once a new connection is started, no number handed out before it is
/// current any more.
pub proof fn law_replaced_connection_is_stale(before: u32, after: u32, earlier: u32)
    requires
        after == before + 1,
        earlier <= before,
    ensures
        earlier != after,
{
}

} // verus!
