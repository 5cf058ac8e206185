//! A queue of moves played one after another, as the animated view does.

use vstd::prelude::*;
use crate::cube::moves::Move;

verus! {

/// Moves waiting to be played, and the index of the one being played.
pub struct Playback {
    moves: Vec<Move>,
    current: usize,
}

impl Playback {
    /// All the moves, played or not.
    pub closed spec fn moves(&self) -> Seq<Move> {
        self.moves@
    }

    /// How many moves have been played.
    pub closed spec fn played(&self) -> nat {
        self.current as nat
    }

    /// Starts at the first move.
    pub fn new(moves: Vec<Move>) -> (p: Self)
        ensures
            p.moves() == moves@,
            p.played() == 0,
    {
        Playback { moves, current: 0 }
    }

    /// Whether some move is still to be played.
    pub fn is_running(&self) -> (b: bool)
        ensures
            b == (self.played() < self.moves().len()),
    {
        self.current < self.moves.len()
    }

    /// The move being played, if any.
    pub fn current_move(&self) -> (m: Option<Move>)
        ensures
            self.played() < self.moves().len() ==> m == Some(self.moves()[self.played() as int]),
            self.played() >= self.moves().len() ==> m is None,
    {
        if self.current < self.moves.len() {
            Some(self.moves[self.current])
        } else {
            None
        }
    }

    /// Moves on to the next move once the current one has been applied; once every move has
    /// been played, nothing changes.
    pub fn advance(&mut self)
        ensures
            final(self).moves() == old(self).moves(),
            old(self).played() < old(self).moves().len() ==> final(self).played() == old(self).played() + 1,
            old(self).played() >= old(self).moves().len() ==> final(self).played() == old(self).played(),
    {
        if self.current < self.moves.len() {
            self.current += 1;
        }
    }
}

} // verus!
