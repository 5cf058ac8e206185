//! The cube being shown, with an undo stack of earlier cubes and a redo stack.

use vstd::prelude::*;
use crate::cube::{Cube, solved_view, turn_view};
use crate::cube::moves::Move;

verus! {

/// The cube, the cubes recorded for undo (oldest first) and the cubes that redo brings back
/// (the next one last).
pub struct HistoryView {
    pub cube: Cube,
    pub past: Seq<Cube>,
    pub redo: Seq<Cube>,
}

/// Records the current cube for undo and forgets what redo would bring back.
pub open spec fn push_view(h: HistoryView) -> HistoryView {
    HistoryView { cube: h.cube, past: h.past.push(h.cube), redo: Seq::empty() }
}

/// Undo: the current cube goes on the redo stack and the newest recorded cube, the one
/// recorded before the last operation, is shown again. The oldest recorded cube stays, so with
/// one recorded cube nothing changes.
pub open spec fn undo_view(h: HistoryView) -> HistoryView {
    if h.past.len() > 1 {
        HistoryView { cube: h.past.last(), past: h.past.drop_last(), redo: h.redo.push(h.cube) }
    } else {
        h
    }
}

/// Redo: the current cube is recorded again and the cube on top of the redo stack is shown.
/// With an empty redo stack, nothing changes.
pub open spec fn redo_view(h: HistoryView) -> HistoryView {
    if h.redo.len() > 0 {
        HistoryView { cube: h.redo.last(), past: h.past.push(h.cube), redo: h.redo.drop_last() }
    } else {
        h
    }
}

/// The same history with another current cube.
pub open spec fn with_cube(h: HistoryView, c: Cube) -> HistoryView {
    HistoryView { cube: c, past: h.past, redo: h.redo }
}

/// The cube being shown together with its undo and redo stacks. At least one cube is always
/// recorded: the oldest one, which undo never drops.
pub struct History {
    cube: Cube,
    history: Vec<Cube>,
    redo_stack: Vec<Cube>,
}

impl View for History {
    type V = HistoryView;

    closed spec fn view(&self) -> HistoryView {
        HistoryView { cube: self.cube, past: self.history@, redo: self.redo_stack@ }
    }
}

impl History {
    #[verifier::type_invariant]
    closed spec fn inv(self) -> bool {
        self.history@.len() >= 1
    }

    /// Takes the parts out of `self`, leaving a fresh history in its place.
    fn take_parts(&mut self) -> (parts: (Cube, Vec<Cube>, Vec<Cube>))
        ensures
            parts.0 == old(self)@.cube,
            parts.1@ == old(self)@.past,
            parts.2@ == old(self)@.redo,
            parts.1@.len() >= 1,
    {
        proof { use_type_invariant(&*self); }
        let mut taken = History::new();
        std::mem::swap(&mut taken, self);
        proof { use_type_invariant(&taken); }
        let History { cube, history, redo_stack } = taken;
        (cube, history, redo_stack)
    }

    /// A solved cube, recorded once, with nothing to redo.
    pub fn new() -> (h: Self)
        ensures
            h@.cube@ == solved_view(),
            h@.past == seq![h@.cube],
            h@.redo == Seq::<Cube>::empty(),
    {
        let c = Cube::solved();
        let mut history = Vec::new();
        history.push(c);
        History { cube: c, history, redo_stack: Vec::new() }
    }

    /// The cube being shown.
    pub fn cube(&self) -> (c: &Cube)
        ensures
            *c == self@.cube,
    {
        &self.cube
    }

    /// How many cubes are recorded for undo; never none.
    pub fn history_len(&self) -> (n: usize)
        ensures
            n == self@.past.len(),
            n >= 1,
    {
        proof { use_type_invariant(self); }
        self.history.len()
    }

    /// How many cubes redo can bring back.
    pub fn redo_len(&self) -> (n: usize)
        ensures
            n == self@.redo.len(),
    {
        self.redo_stack.len()
    }

    /// Records the current cube for undo and clears the redo stack.
    pub fn push_history(&mut self)
        ensures
            final(self)@ == push_view(old(self)@),
    {
        let (cube, mut history, mut redo_stack) = self.take_parts();
        history.push(cube);
        redo_stack.clear();
        *self = History { cube, history, redo_stack };
    }

    /// Turns the current cube; the stacks stay as they are.
    pub fn apply_move(&mut self, mv: &Move)
        ensures
            final(self)@.past == old(self)@.past,
            final(self)@.redo == old(self)@.redo,
            final(self)@.cube@ == turn_view(old(self)@.cube@, *mv),
    {
        let (mut cube, history, redo_stack) = self.take_parts();
        cube.apply_move(mv);
        *self = History { cube, history, redo_stack };
    }

    /// Goes back to the cube recorded before the last operation; returns whether there was
    /// anything to undo.
    pub fn undo(&mut self) -> (done: bool)
        ensures
            final(self)@ == undo_view(old(self)@),
            done == (old(self)@.past.len() > 1),
    {
        let (cube, mut history, mut redo_stack) = self.take_parts();
        if history.len() > 1 {
            redo_stack.push(cube);
            let previous = history.pop().unwrap();
            proof {
                assert(history@ =~= old(self)@.past.drop_last());
            }
            *self = History { cube: previous, history, redo_stack };
            true
        } else {
            *self = History { cube, history, redo_stack };
            false
        }
    }

    /// Steps forward again; returns whether there was anything to redo.
    pub fn redo(&mut self) -> (done: bool)
        ensures
            final(self)@ == redo_view(old(self)@),
            done == (old(self)@.redo.len() > 0),
    {
        let (cube, mut history, mut redo_stack) = self.take_parts();
        if let Some(next) = redo_stack.pop() {
            history.push(cube);
            *self = History { cube: next, history, redo_stack };
            true
        } else {
            *self = History { cube, history, redo_stack };
            false
        }
    }

    /// Records the current cube and shows a solved one.
    pub fn reset(&mut self)
        ensures
            final(self)@.past == old(self)@.past.push(old(self)@.cube),
            final(self)@.redo == Seq::<Cube>::empty(),
            final(self)@.cube@ == solved_view(),
    {
        let (cube, mut history, mut redo_stack) = self.take_parts();
        history.push(cube);
        redo_stack.clear();
        *self = History { cube: Cube::solved(), history, redo_stack };
    }
}

/// Law: undo brings back the cube shown before the last operation: recording the cube,
/// changing it in any way and undoing shows the recorded cube again, with the stack as it was
/// and the changed cube ready for redo. Holds for every history, which always has a cube
/// recorded.
pub proof fn law_undo_after_change(h: HistoryView, changed: Cube)
    requires
        h.past.len() >= 1,
    ensures
        undo_view(with_cube(push_view(h), changed)) == (HistoryView { cube: h.cube, past: h.past, redo: seq![changed] }),
{
    assert(h.past.push(h.cube).drop_last() =~= h.past);
    assert(Seq::<Cube>::empty().push(changed) =~= seq![changed]);
}

/// Law: redo right after an undo that did something restores the history exactly.
pub proof fn law_redo_after_undo(h: HistoryView)
    requires
        h.past.len() > 1,
    ensures
        redo_view(undo_view(h)) == h,
{
    assert(h.redo.push(h.cube).drop_last() =~= h.redo);
    assert(h.past.drop_last().push(h.past.last()) =~= h.past);
}

/// Law: undo right after a redo that did something restores the history exactly.
pub proof fn law_undo_after_redo(h: HistoryView)
    requires
        h.past.len() >= 1,
        h.redo.len() > 0,
    ensures
        undo_view(redo_view(h)) == h,
{
    assert(h.past.push(h.cube).drop_last() =~= h.past);
    assert(h.redo.drop_last().push(h.redo.last()) =~= h.redo);
}

/// Law: undo and redo never drop the oldest recorded cube.
pub proof fn law_oldest_cube_kept(h: HistoryView)
    requires
        h.past.len() >= 1,
    ensures
        undo_view(h).past.len() >= 1,
        undo_view(h).past[0] == h.past[0],
        redo_view(h).past[0] == h.past[0],
        push_view(h).past[0] == h.past[0],
{
}

} // verus!
