//! Bookkeeping of the open guessing-game connections: one game per
//! transport-assigned session identifier, created when a connection opens
//! and discarded when it closes.

use vstd::prelude::*;
use std::collections::BTreeMap;
use crate::game::GuessingGame;

verus! {

/// The games of the open connections, keyed by session identifier.
pub struct SessionTable {
    games: BTreeMap<i32, GuessingGame>,
}

impl View for SessionTable {
    type V = Map<i32, GuessingGame>;

    closed spec fn view(&self) -> Map<i32, GuessingGame> {
        self.games@
    }
}

impl SessionTable {
    /// An empty table: no connection is open yet.
    pub fn new() -> (r: SessionTable)
        ensures
            r@ == Map::<i32, GuessingGame>::empty(),
    {
        SessionTable { games: BTreeMap::new() }
    }

    /// Stores the game of a session, replacing any previous one.
    pub fn put_game(&mut self, id: i32, game: GuessingGame)
        ensures
            final(self)@ == old(self)@.insert(id, game),
    {
        self.games.insert(id, game);
    }

    /// Takes a session's game out for a move; the caller puts it back.
    pub fn take_game(&mut self, id: i32) -> (r: Option<GuessingGame>)
        ensures
            final(self)@ == old(self)@.remove(id),
            r is Some <==> old(self)@.contains_key(id),
            r matches Some(g) ==> g == old(self)@[id],
    {
        self.games.remove(&id)
    }

    /// A connection closed: its game is discarded.
    pub fn close_session(&mut self, id: i32)
        ensures
            final(self)@ == old(self)@.remove(id),
    {
        self.games.remove(&id);
    }

    /// How many connections are open.
    pub fn len(&self) -> (r: usize)
        ensures
            r == self@.len(),
    {
        self.games.len()
    }
}

} // verus!
