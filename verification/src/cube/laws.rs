//! What every face turn keeps: how turns repeat, undo one another and
//! leave the centres in place.

use vstd::prelude::*;
use super::{
    Pos, CubeView, valid_pos, adj_cw_src, adj_ccw_src, well_shaped, sticker, quarter_pow, quarter_src, quarter_count,
    move_src, turn_view, moves_view, lemma_view_ext, lemma_quarter_src_valid,
    lemma_quarter_pow_valid, Color, solved_view,
};
use super::moves::{Face, Move, inverse_move, inverse_seq};
use vstd::relations::injective_on;
use vstd::set_lib::{set_int_range, lemma_int_range, lemma_map_size, lemma_set_subset_finite};

verus! {

proof fn pos_cases(p: Pos)
    requires
        valid_pos(p),
    ensures
        p.0 == 0 || p.0 == 1 || p.0 == 2 || p.0 == 3 || p.0 == 4 || p.0 == 5,
        p.1 == 0 || p.1 == 1 || p.1 == 2,
        p.2 == 0 || p.2 == 1 || p.2 == 2,
{
}

/// Four quarter turns of any face, in either direction, bring every sticker back.
pub proof fn lemma_quarter_order_four(t: Face, clockwise: bool, p: Pos)
    requires
        valid_pos(p),
    ensures
        quarter_pow(t, clockwise, 4, p) == p,
{
    reveal_with_fuel(quarter_pow, 5);
    pos_cases(p);
}

/// `a + b` quarter turns are `a` quarter turns followed by `b` more.
pub proof fn lemma_quarter_pow_add(t: Face, clockwise: bool, a: nat, b: nat, p: Pos)
    ensures
        quarter_pow(t, clockwise, a + b, p) == quarter_pow(t, clockwise, b, quarter_pow(t, clockwise, a, p)),
    decreases a,
{
    if a > 0 {
        lemma_quarter_pow_add(t, clockwise, (a - 1) as nat, b, quarter_src(t, clockwise, p));
        assert((a + b - 1) as nat == ((a - 1) as nat + b) as nat);
    }
}

/// A counter-clockwise quarter turn undoes a clockwise one of the same face, and the other
/// way round.
pub proof fn lemma_quarter_inverse(t: Face, p: Pos)
    requires
        valid_pos(p),
    ensures
        quarter_src(t, true, quarter_src(t, false, p)) == p,
        quarter_src(t, false, quarter_src(t, true, p)) == p,
{
    pos_cases(p);
}

/// A turned view has six faces of three by three stickers, each taken from where `move_src` says.
pub proof fn lemma_turn_view_sticker(v: CubeView, m: Move)
    ensures
        well_shaped(turn_view(v, m)),
        forall|p: Pos| valid_pos(p) ==> #[trigger] sticker(turn_view(v, m), p) == sticker(v, move_src(m, p)),
{
}

/// Moves applied one after the other take each sticker from the composition of their sources.
pub proof fn lemma_turn_twice(v: CubeView, m1: Move, m2: Move, p: Pos)
    requires
        valid_pos(p),
    ensures
        sticker(turn_view(turn_view(v, m1), m2), p) == sticker(v, move_src(m1, move_src(m2, p))),
{
    lemma_turn_view_sticker(v, m1);
    lemma_turn_view_sticker(turn_view(v, m1), m2);
    lemma_quarter_pow_valid(m2.face, m2.clockwise, quarter_count(m2), p);
}

/// Law: doing the moves of `a + b` is doing those of `a`, then those of `b`.
pub proof fn law_moves_append(v: CubeView, a: Seq<Move>, b: Seq<Move>)
    ensures
        moves_view(v, a + b) == moves_view(moves_view(v, a), b),
    decreases b.len(),
{
    if b.len() == 0 {
        assert(a + b =~= a);
    } else {
        assert((a + b).drop_last() =~= a + b.drop_last());
        law_moves_append(v, a, b.drop_last());
    }
}

/// Every turned view is well shaped, whatever it was turned from.
pub proof fn lemma_moves_view_shaped(v: CubeView, ms: Seq<Move>)
    requires
        well_shaped(v),
    ensures
        well_shaped(moves_view(v, ms)),
    decreases ms.len(),
{
    if ms.len() > 0 {
        lemma_moves_view_shaped(v, ms.drop_last());
    }
}

/// Law: a quarter turn of any face, in either direction, done four times restores the cube.
pub proof fn law_four_quarter_turns_restore(v: CubeView, m: Move)
    requires
        well_shaped(v),
        !m.double,
    ensures
        turn_view(turn_view(turn_view(turn_view(v, m), m), m), m) == v,
{
    let v2 = turn_view(turn_view(v, m), m);
    assert forall|p: Pos| valid_pos(p) implies #[trigger] sticker(turn_view(turn_view(v2, m), m), p) == sticker(v, p) by {
        reveal_with_fuel(quarter_pow, 2);
        lemma_turn_twice(v2, m, m, p);
        let q = move_src(m, move_src(m, p));
        lemma_quarter_src_valid(m.face, m.clockwise, p);
        lemma_quarter_src_valid(m.face, m.clockwise, move_src(m, p));
        lemma_turn_twice(v, m, m, q);
        reveal_with_fuel(quarter_pow, 5);
        lemma_quarter_order_four(m.face, m.clockwise, p);
    }
    lemma_turn_view_sticker(v2, m);
    lemma_turn_view_sticker(turn_view(v2, m), m);
    lemma_view_ext(turn_view(turn_view(v2, m), m), v);
}

/// Law: a half turn done twice restores the cube.
pub proof fn law_half_turn_twice_restores(v: CubeView, m: Move)
    requires
        well_shaped(v),
        m.double,
    ensures
        turn_view(turn_view(v, m), m) == v,
{
    assert forall|p: Pos| valid_pos(p) implies #[trigger] sticker(turn_view(turn_view(v, m), m), p) == sticker(v, p) by {
        lemma_turn_twice(v, m, m, p);
        lemma_quarter_pow_add(m.face, m.clockwise, 2, 2, p);
        lemma_quarter_order_four(m.face, m.clockwise, p);
    }
    lemma_turn_view_sticker(turn_view(v, m), m);
    lemma_view_ext(turn_view(turn_view(v, m), m), v);
}

/// Law: for every face, a counter-clockwise quarter turn undoes a clockwise one, and the
/// other way round.
pub proof fn law_opposite_quarter_turns_cancel(v: CubeView, t: Face)
    requires
        well_shaped(v),
    ensures
        turn_view(turn_view(v, Move { face: t, clockwise: true, double: false }),
            Move { face: t, clockwise: false, double: false }) == v,
        turn_view(turn_view(v, Move { face: t, clockwise: false, double: false }),
            Move { face: t, clockwise: true, double: false }) == v,
{
    let cw = Move { face: t, clockwise: true, double: false };
    let ccw = Move { face: t, clockwise: false, double: false };
    reveal_with_fuel(quarter_pow, 2);
    assert forall|p: Pos| valid_pos(p) implies #[trigger] sticker(turn_view(turn_view(v, cw), ccw), p) == sticker(v, p)
        && sticker(turn_view(turn_view(v, ccw), cw), p) == sticker(v, p) by {
        lemma_turn_twice(v, cw, ccw, p);
        lemma_turn_twice(v, ccw, cw, p);
        lemma_quarter_inverse(t, p);
    }
    lemma_turn_view_sticker(turn_view(v, cw), ccw);
    lemma_turn_view_sticker(turn_view(v, ccw), cw);
    lemma_view_ext(turn_view(turn_view(v, cw), ccw), v);
    lemma_view_ext(turn_view(turn_view(v, ccw), cw), v);
}

/// Law: the centre sticker of every face stays where it is, whatever the move.
pub proof fn law_centres_stay(v: CubeView, m: Move, f: int)
    requires
        0 <= f < 6,
    ensures
        turn_view(v, m)[f][1][1] == v[f][1][1],
{
    reveal_with_fuel(quarter_pow, 3);
    lemma_turn_view_sticker(v, m);
    assert(sticker(turn_view(v, m), (f, 1, 1)) == sticker(v, move_src(m, (f, 1, 1))));
}

/// The stickers after doing move `m` `n` times.
pub open spec fn repeat_view(v: CubeView, m: Move, n: nat) -> CubeView
    decreases n,
{
    if n == 0 { v } else { turn_view(repeat_view(v, m, (n - 1) as nat), m) }
}

proof fn lemma_repeat_view_sticker(v: CubeView, m: Move, n: nat, p: Pos)
    requires
        well_shaped(v),
        valid_pos(p),
    ensures
        well_shaped(repeat_view(v, m, n)),
        sticker(repeat_view(v, m, n), p) == sticker(v, quarter_pow(m.face, m.clockwise, n * quarter_count(m), p)),
    decreases n,
{
    if n > 0 {
        let k = quarter_count(m);
        lemma_turn_view_sticker(repeat_view(v, m, (n - 1) as nat), m);
        lemma_quarter_pow_valid(m.face, m.clockwise, k, p);
        lemma_repeat_view_sticker(v, m, (n - 1) as nat, move_src(m, p));
        lemma_quarter_pow_add(m.face, m.clockwise, k, ((n - 1) * k) as nat, p);
        assert(n * k == k + (n - 1) * k) by (nonlinear_arith);
    }
}

proof fn lemma_repeat_view_shift(v: CubeView, m: Move, n: nat)
    ensures
        repeat_view(turn_view(v, m), m, n) == repeat_view(v, m, n + 1),
    decreases n,
{
    reveal_with_fuel(repeat_view, 2);
    if n > 0 {
        lemma_repeat_view_shift(v, m, (n - 1) as nat);
        assert((n + 1 - 1) as nat == n);
    }
}

/// Eight quarter turns of any face bring every sticker back.
proof fn lemma_quarter_order_eight(t: Face, clockwise: bool, p: Pos)
    requires
        valid_pos(p),
    ensures
        quarter_pow(t, clockwise, 8, p) == p,
{
    lemma_quarter_pow_add(t, clockwise, 4, 4, p);
    lemma_quarter_order_four(t, clockwise, p);
    lemma_quarter_order_four(t, clockwise, p);
}

/// Law: any move done four times in a row restores the cube.
pub proof fn law_four_repeats_restore(v: CubeView, m: Move)
    requires
        well_shaped(v),
    ensures
        repeat_view(v, m, 4) == v,
{
    assert forall|p: Pos| valid_pos(p) implies #[trigger] sticker(repeat_view(v, m, 4), p) == sticker(v, p) by {
        lemma_repeat_view_sticker(v, m, 4, p);
        if m.double {
            lemma_quarter_order_eight(m.face, m.clockwise, p);
        } else {
            lemma_quarter_order_four(m.face, m.clockwise, p);
        }
    }
    lemma_repeat_view_sticker(v, m, 4, (0, 0, 0));
    lemma_view_ext(repeat_view(v, m, 4), v);
}

/// Law: a move is a one-to-one rearrangement of the stickers: two cubes that look the same
/// after the same move looked the same before it.
pub proof fn law_turn_is_injective(v: CubeView, w: CubeView, m: Move)
    requires
        well_shaped(v),
        well_shaped(w),
        turn_view(v, m) == turn_view(w, m),
    ensures
        v == w,
{
    lemma_repeat_view_shift(v, m, 3);
    lemma_repeat_view_shift(w, m, 3);
    law_four_repeats_restore(v, m);
    law_four_repeats_restore(w, m);
}

/// Law: the stickers of the turned face stay on that face.
pub proof fn law_turned_face_keeps_its_stickers(m: Move, p: Pos)
    requires
        valid_pos(p),
        p.0 == m.face.idx(),
    ensures
        move_src(m, p).0 == m.face.idx(),
        valid_pos(move_src(m, p)),
{
    reveal_with_fuel(quarter_pow, 3);
}

/// Law: turning a face of the solved cube leaves that face in its own colour.
pub proof fn law_turn_of_solved_keeps_face_colour(m: Move, r: int, c: int)
    requires
        0 <= r < 3,
        0 <= c < 3,
    ensures
        turn_view(solved_view(), m)[m.face.idx()][r][c] == Color::of_face(m.face),
{
    let p = (m.face.idx(), r, c);
    law_turned_face_keeps_its_stickers(m, p);
    lemma_turn_view_sticker(solved_view(), m);
    assert(sticker(turn_view(solved_view(), m), p) == sticker(solved_view(), move_src(m, p)));
}

/// Law: a move followed by its inverse restores the cube.
pub proof fn law_inverse_move_undoes(v: CubeView, m: Move)
    requires
        well_shaped(v),
    ensures
        turn_view(turn_view(v, m), inverse_move(m)) == v,
{
    if m.double {
        law_half_turn_twice_restores(v, m);
    } else {
        law_opposite_quarter_turns_cancel(v, m.face);
    }
}

/// Law: the inverse sequence undoes any sequence of moves.
pub proof fn law_inverse_moves_undo(v: CubeView, ms: Seq<Move>)
    requires
        well_shaped(v),
    ensures
        moves_view(moves_view(v, ms), inverse_seq(ms)) == v,
    decreases ms.len(),
{
    if ms.len() == 0 {
        assert(inverse_seq(ms) =~= Seq::<Move>::empty());
    } else {
        let pre = ms.drop_last();
        let x = ms.last();
        law_inverse_moves_undo(v, pre);
        assert(inverse_seq(ms) =~= seq![inverse_move(x)] + inverse_seq(pre));
        let u = moves_view(v, pre);
        lemma_moves_view_shaped(v, pre);
        law_moves_append(moves_view(v, ms), seq![inverse_move(x)], inverse_seq(pre));
        assert(seq![inverse_move(x)].drop_last() =~= Seq::<Move>::empty());
        assert(moves_view(v, ms) == turn_view(u, x));
        assert(moves_view(moves_view(v, ms), Seq::<Move>::empty()) == moves_view(v, ms));
        assert(moves_view(moves_view(v, ms), seq![inverse_move(x)]) == turn_view(turn_view(u, x), inverse_move(x)));
        law_inverse_move_undoes(u, x);
    }
}

/// Law: a half turn is the quarter turn in the same direction done twice.
pub proof fn law_half_turn_is_two_quarter_turns(v: CubeView, t: Face, clockwise: bool)
    requires
        well_shaped(v),
    ensures
        turn_view(v, Move { face: t, clockwise, double: true }) == turn_view(
            turn_view(v, Move { face: t, clockwise, double: false }),
            Move { face: t, clockwise, double: false },
        ),
{
    let h = Move { face: t, clockwise, double: true };
    let q = Move { face: t, clockwise, double: false };
    reveal_with_fuel(quarter_pow, 3);
    assert forall|p: Pos| valid_pos(p) implies #[trigger] sticker(turn_view(v, h), p) == sticker(turn_view(turn_view(v, q), q), p) by {
        lemma_turn_twice(v, q, q, p);
        lemma_turn_view_sticker(v, h);
    }
    lemma_turn_view_sticker(v, h);
    lemma_turn_view_sticker(turn_view(v, q), q);
    lemma_view_ext(turn_view(v, h), turn_view(turn_view(v, q), q));
}

/// Law: every move permutes the 54 sticker positions: each position takes its sticker from
/// a valid position, no two positions take theirs from the same one, and every position
/// gives its sticker to some position.
pub proof fn law_move_permutes_positions(m: Move, p: Pos, q: Pos)
    requires
        valid_pos(p),
        valid_pos(q),
    ensures
        valid_pos(move_src(m, p)),
        move_src(m, p) == move_src(m, q) ==> p == q,
        exists|r: Pos| valid_pos(r) && move_src(m, r) == p,
{
    let k = quarter_count(m);
    let rest: nat = (4 * k - k) as nat;
    lemma_quarter_pow_valid(m.face, m.clockwise, k, p);
    // Going round the rest of the cycle undoes the move.
    lemma_quarter_pow_add(m.face, m.clockwise, k, rest, p);
    lemma_quarter_pow_add(m.face, m.clockwise, k, rest, q);
    lemma_quarter_pow_add(m.face, m.clockwise, rest, k, p);
    lemma_quarter_pow_valid(m.face, m.clockwise, rest, p);
    if m.double {
        assert(k + rest == 8);
        lemma_quarter_order_eight(m.face, m.clockwise, p);
        lemma_quarter_order_eight(m.face, m.clockwise, q);
    } else {
        assert(k + rest == 4);
        lemma_quarter_order_four(m.face, m.clockwise, p);
        lemma_quarter_order_four(m.face, m.clockwise, q);
    }
    let r = quarter_pow(m.face, m.clockwise, rest, p);
    assert(move_src(m, r) == p);
}

/// Law: a half turn has the same effect whichever direction it is marked with, as its
/// notation (`X2`) says.
pub proof fn law_half_turn_direction_irrelevant(v: CubeView, t: Face)
    requires
        well_shaped(v),
    ensures
        turn_view(v, Move { face: t, clockwise: true, double: true })
            == turn_view(v, Move { face: t, clockwise: false, double: true }),
{
    let a = Move { face: t, clockwise: true, double: true };
    let b = Move { face: t, clockwise: false, double: true };
    reveal_with_fuel(quarter_pow, 3);
    assert forall|p: Pos| valid_pos(p) implies #[trigger] sticker(turn_view(v, a), p) == sticker(turn_view(v, b), p) by {
        lemma_turn_view_sticker(v, a);
        lemma_turn_view_sticker(v, b);
        pos_cases(p);
    }
    lemma_turn_view_sticker(v, a);
    lemma_turn_view_sticker(v, b);
    lemma_view_ext(turn_view(v, a), turn_view(v, b));
}

/// The positions at which view `v` shows colour `col`.
pub open spec fn colour_positions(v: CubeView, col: Color) -> Set<Pos> {
    Set::new(|p: Pos| valid_pos(p) && sticker(v, p) == col)
}

/// All 54 positions.
pub open spec fn all_positions() -> Set<Pos> {
    Set::new(|p: Pos| valid_pos(p))
}

/// The position with number `i`, counting face by face, row by row.
pub open spec fn pos_of_number(i: int) -> Pos {
    (i / 9, (i % 9) / 3, i % 3)
}

proof fn lemma_all_positions_finite()
    ensures
        all_positions().finite(),
{
    let f = |i: int| pos_of_number(i);
    lemma_int_range(0, 54);
    set_int_range(0, 54).lemma_map_finite(f);
    assert forall|p: Pos| all_positions().contains(p) implies #[trigger] set_int_range(0, 54).map(f).contains(p) by {
        let i = p.0 * 9 + p.1 * 3 + p.2;
        assert(pos_of_number(i) == p);
        assert(set_int_range(0, 54).contains(i));
    }
    lemma_set_subset_finite(set_int_range(0, 54).map(f), all_positions());
}

/// Law: a move keeps the number of stickers of each colour.
pub proof fn law_turn_keeps_colour_counts(v: CubeView, m: Move, col: Color)
    requires
        well_shaped(v),
    ensures
        colour_positions(turn_view(v, m), col).finite(),
        colour_positions(turn_view(v, m), col).len() == colour_positions(v, col).len(),
{
    let a = colour_positions(turn_view(v, m), col);
    let b = colour_positions(v, col);
    let f = |p: Pos| move_src(m, p);
    lemma_all_positions_finite();
    lemma_set_subset_finite(all_positions(), a);
    lemma_turn_view_sticker(v, m);
    assert forall|p: Pos, q: Pos| a.contains(p) && a.contains(q) && #[trigger] f(p) == #[trigger] f(q) implies p == q by {
        law_move_permutes_positions(m, p, q);
    }
    assert(injective_on(f, a));
    assert forall|q: Pos| b.contains(q) <==> #[trigger] a.map(f).contains(q) by {
        if b.contains(q) {
            law_move_permutes_positions(m, q, q);
            let r = choose|r: Pos| valid_pos(r) && move_src(m, r) == q;
            assert(a.contains(r));
            assert(f(r) == q);
        }
        if a.map(f).contains(q) {
            let r = choose|r: Pos| a.contains(r) && f(r) == q;
            law_move_permutes_positions(m, r, r);
        }
    }
    assert(a.map(f) =~= b);
    lemma_map_size(a, b, f);
}

/// The solved cube shows nine stickers of each colour.
proof fn lemma_solved_nine_of_each(col: Color)
    ensures
        colour_positions(solved_view(), col).finite(),
        colour_positions(solved_view(), col).len() == 9,
{
    let k: int = match col {
        Color::White => 0,
        Color::Yellow => 1,
        Color::Red => 2,
        Color::Orange => 3,
        Color::Blue => 4,
        Color::Green => 5,
    };
    let f = |i: int| (k, i / 3, i % 3);
    let s = colour_positions(solved_view(), col);
    lemma_int_range(0, 9);
    assert forall|p: Pos| s.contains(p) <==> #[trigger] set_int_range(0, 9).map(f).contains(p) by {
        if s.contains(p) {
            let i = p.1 * 3 + p.2;
            assert(f(i) == p);
            assert(set_int_range(0, 9).contains(i));
        }
    }
    assert(set_int_range(0, 9).map(f) =~= s);
    assert forall|i: int, j: int| set_int_range(0, 9).contains(i) && set_int_range(0, 9).contains(j)
        && #[trigger] f(i) == #[trigger] f(j) implies i == j by {
        assert(i == (i / 3) * 3 + i % 3);
        assert(j == (j / 3) * 3 + j % 3);
    }
    lemma_map_size(set_int_range(0, 9), s, f);
}

/// Law: whatever moves are made from the solved cube, it shows nine stickers of each colour.
pub proof fn law_moves_keep_nine_of_each_colour(ms: Seq<Move>, col: Color)
    ensures
        colour_positions(moves_view(solved_view(), ms), col).finite(),
        colour_positions(moves_view(solved_view(), ms), col).len() == 9,
    decreases ms.len(),
{
    if ms.len() == 0 {
        lemma_solved_nine_of_each(col);
    } else {
        law_moves_keep_nine_of_each_colour(ms.drop_last(), col);
        assert(well_shaped(solved_view()));
        lemma_moves_view_shaped(solved_view(), ms.drop_last());
        law_turn_keeps_colour_counts(moves_view(solved_view(), ms.drop_last()), ms.last(), col);
    }
}

/// Where the sticker that `n` cycles of the edge strips around `t` bring to `p` comes from.
pub open spec fn edge_cycle_pow(t: Face, clockwise: bool, n: nat, p: Pos) -> Pos
    decreases n,
{
    if n == 0 {
        p
    } else {
        let q = if clockwise { adj_cw_src(t, p) } else { adj_ccw_src(t, p) };
        edge_cycle_pow(t, clockwise, (n - 1) as nat, q)
    }
}

/// Law: the cycle of the four edge strips around a face, in either direction, done four
/// times brings every sticker back.
pub proof fn law_edge_cycle_order_four(t: Face, clockwise: bool, p: Pos)
    requires
        valid_pos(p),
    ensures
        edge_cycle_pow(t, clockwise, 4, p) == p,
{
    reveal_with_fuel(edge_cycle_pow, 5);
    pos_cases(p);
}

/// Law: the counter-clockwise cycle of the edge strips around a face undoes the clockwise
/// one, and the other way round.
pub proof fn law_edge_cycles_undo_each_other(t: Face, p: Pos)
    requires
        valid_pos(p),
    ensures
        adj_cw_src(t, adj_ccw_src(t, p)) == p,
        adj_ccw_src(t, adj_cw_src(t, p)) == p,
{
    pos_cases(p);
}

} // verus!
