//! The 27 small cubes (cubies) of the 3D view, on an integer grid: `ix` runs from the L side (0)
//! to the R side (2), `iy` from the U side (0) to the D side (2), `iz` from the B side (0) to
//! the F side (2).

use vstd::prelude::*;
use crate::cube::{Color, Cube, Pos, valid_pos, move_src, quarter_pow, quarter_src, lemma_quarter_src_valid};
use crate::cube::moves::{Face, Move};

verus! {

/// The cubie lies in the layer that turning `face` moves; this is also the side on which the
/// cubie shows a sticker of `face`.
pub open spec fn in_layer(face: Face, ix: int, iy: int, iz: int) -> bool {
    match face {
        Face::U => iy == 0,
        Face::D => iy == 2,
        Face::F => iz == 2,
        Face::B => iz == 0,
        Face::R => ix == 2,
        Face::L => ix == 0,
    }
}

/// The sticker that cubie (ix, iy, iz) shows on its `face` side.
pub open spec fn cubie_pos(face: Face, ix: int, iy: int, iz: int) -> Pos {
    match face {
        Face::R => (4, iy, 2 - iz),
        Face::L => (5, iy, iz),
        Face::U => (0, iz, ix),
        Face::D => (1, 2 - iz, ix),
        Face::F => (2, iy, ix),
        Face::B => (3, iy, 2 - ix),
    }
}

/// The side and cubie that show sticker `p`.
pub open spec fn pos_cubie(p: Pos) -> (Face, int, int, int) {
    let (f, r, c) = p;
    if f == 0 { (Face::U, c, 0, r) }
    else if f == 1 { (Face::D, c, 2, 2 - r) }
    else if f == 2 { (Face::F, c, r, 2) }
    else if f == 3 { (Face::B, 2 - c, r, 0) }
    else if f == 4 { (Face::R, 2, r, 2 - c) }
    else { (Face::L, 0, r, c) }
}

pub open spec fn in_grid(ix: int, iy: int, iz: int) -> bool {
    0 <= ix < 3 && 0 <= iy < 3 && 0 <= iz < 3
}

/// Whether cubie (ix, iy, iz) lies in the layer that `face` turns.
pub fn is_in_rotation_layer(face: Face, ix: usize, iy: usize, iz: usize) -> (b: bool)
    ensures
        b == in_layer(face, ix as int, iy as int, iz as int),
{
    match face {
        Face::U => iy == 0,
        Face::D => iy == 2,
        Face::F => iz == 2,
        Face::B => iz == 0,
        Face::R => ix == 2,
        Face::L => ix == 0,
    }
}

/// The colour that cubie (ix, iy, iz) shows on its `face` side.
pub fn cubie_sticker(cube: &Cube, face: Face, ix: usize, iy: usize, iz: usize) -> (c: Color)
    requires
        in_grid(ix as int, iy as int, iz as int),
    ensures
        c == cube.at(cubie_pos(face, ix as int, iy as int, iz as int)),
{
    match face {
        Face::R => cube.faces[face.index()][iy][2 - iz],
        Face::L => cube.faces[face.index()][iy][iz],
        Face::U => cube.faces[face.index()][iz][ix],
        Face::D => cube.faces[face.index()][2 - iz][ix],
        Face::F => cube.faces[face.index()][iy][ix],
        Face::B => cube.faces[face.index()][iy][2 - ix],
    }
}

/// Law: each of the 54 stickers is shown by exactly one side of one cubie, on the side of that
/// sticker's face: `cubie_pos` and `pos_cubie` undo each other.
pub proof fn law_each_sticker_on_one_cubie_side(p: Pos, face: Face, ix: int, iy: int, iz: int)
    ensures
        valid_pos(p) ==> {
            let (g, jx, jy, jz) = pos_cubie(p);
            &&& in_grid(jx, jy, jz)
            &&& in_layer(g, jx, jy, jz)
            &&& g.idx() == p.0
            &&& cubie_pos(g, jx, jy, jz) == p
        },
        in_grid(ix, iy, iz) && in_layer(face, ix, iy, iz) ==> {
            &&& valid_pos(cubie_pos(face, ix, iy, iz))
            &&& pos_cubie(cubie_pos(face, ix, iy, iz)) == (face, ix, iy, iz)
        },
{
}

/// Law: a move only moves stickers shown on cubies of the turned layer, and brings to them
/// only stickers from that layer; every other sticker stays where it is.
pub proof fn law_turn_moves_only_its_layer(m: Move, p: Pos)
    requires
        valid_pos(p),
    ensures
        ({
            let (g, jx, jy, jz) = pos_cubie(p);
            !in_layer(m.face, jx, jy, jz) ==> move_src(m, p) == p
        }),
        ({
            let (g, jx, jy, jz) = pos_cubie(p);
            let (h, kx, ky, kz) = pos_cubie(move_src(m, p));
            in_layer(m.face, jx, jy, jz) ==> in_layer(m.face, kx, ky, kz)
        }),
{
    let q = quarter_src(m.face, m.clockwise, p);
    lemma_quarter_keeps_layer(m.face, m.clockwise, p);
    lemma_quarter_src_valid(m.face, m.clockwise, p);
    lemma_quarter_keeps_layer(m.face, m.clockwise, q);
    reveal_with_fuel(quarter_pow, 3);
}

proof fn lemma_quarter_keeps_layer(t: Face, clockwise: bool, p: Pos)
    requires
        valid_pos(p),
    ensures
        ({
            let (g, jx, jy, jz) = pos_cubie(p);
            let (h, kx, ky, kz) = pos_cubie(quarter_src(t, clockwise, p));
            &&& !in_layer(t, jx, jy, jz) ==> quarter_src(t, clockwise, p) == p
            &&& in_layer(t, jx, jy, jz) ==> in_layer(t, kx, ky, kz)
        }),
{
    assert(p.0 == 0 || p.0 == 1 || p.0 == 2 || p.0 == 3 || p.0 == 4 || p.0 == 5);
    assert(p.1 == 0 || p.1 == 1 || p.1 == 2);
    assert(p.2 == 0 || p.2 == 1 || p.2 == 2);
}

/// The outward direction of a face: x towards R, y towards U, z towards F.
pub open spec fn axis(face: Face) -> (int, int, int) {
    match face {
        Face::R => (1, 0, 0),
        Face::L => (-1, 0, 0),
        Face::U => (0, 1, 0),
        Face::D => (0, -1, 0),
        Face::F => (0, 0, 1),
        Face::B => (0, 0, -1),
    }
}

/// The face whose outward direction is `v`.
pub open spec fn face_of_axis(v: (int, int, int)) -> Face {
    if v == (1int, 0int, 0int) { Face::R } else if v == (-1int, 0int, 0int) { Face::L }
    else if v == (0int, 1int, 0int) { Face::U } else if v == (0int, -1int, 0int) { Face::D }
    else if v == (0int, 0int, 1int) { Face::F } else { Face::B }
}

/// A quarter turn of vector `v` about the axis of face `t`, clockwise or counter-clockwise as
/// seen from outside that face. A turn is by +90 degrees about a positive axis (right-hand
/// rule) when it is counter-clockwise seen from the positive side.
pub open spec fn rotate_vec(t: Face, clockwise: bool, v: (int, int, int)) -> (int, int, int) {
    let positive = if t == Face::R || t == Face::U || t == Face::F { !clockwise } else { clockwise };
    let (x, y, z) = v;
    match t {
        Face::R | Face::L => if positive { (x, -z, y) } else { (x, z, -y) },
        Face::U | Face::D => if positive { (z, y, -x) } else { (-z, y, x) },
        Face::F | Face::B => if positive { (-y, x, z) } else { (y, -x, z) },
    }
}

/// Where a quarter turn of `t` carries cubie (ix, iy, iz), as grid indices.
pub open spec fn rotate_cubie(t: Face, clockwise: bool, ix: int, iy: int, iz: int) -> (int, int, int) {
    let w = rotate_vec(t, clockwise, (ix - 1, 1 - iy, iz - 1));
    (w.0 + 1, 1 - w.1, w.2 + 1)
}

/// Which side a quarter turn of `t` carries side `g` of a cubie to.
pub open spec fn rotate_side(t: Face, clockwise: bool, g: Face) -> Face {
    face_of_axis(rotate_vec(t, clockwise, axis(g)))
}

/// Law: a quarter turn of `t` is the rigid quarter rotation of its layer about the face's axis:
/// the sticker on side `g` of a cubie of the layer moves, with the cubie, to the rotated side
/// of the rotated cubie, which is still in the layer.
pub proof fn law_quarter_turn_rotates_layer(t: Face, clockwise: bool, g: Face, ix: int, iy: int, iz: int)
    requires
        in_grid(ix, iy, iz),
        in_layer(g, ix, iy, iz),
        in_layer(t, ix, iy, iz),
    ensures
        ({
            let (jx, jy, jz) = rotate_cubie(t, clockwise, ix, iy, iz);
            let h = rotate_side(t, clockwise, g);
            &&& in_grid(jx, jy, jz)
            &&& in_layer(h, jx, jy, jz)
            &&& in_layer(t, jx, jy, jz)
            &&& quarter_src(t, clockwise, cubie_pos(h, jx, jy, jz)) == cubie_pos(g, ix, iy, iz)
        }),
{
    assert(ix == 0 || ix == 1 || ix == 2);
    assert(iy == 0 || iy == 1 || iy == 2);
    assert(iz == 0 || iz == 1 || iz == 2);
    match g {
        Face::U => lemma_rotates_layer_side(t, clockwise, Face::U, ix, iy, iz),
        Face::D => lemma_rotates_layer_side(t, clockwise, Face::D, ix, iy, iz),
        Face::F => lemma_rotates_layer_side(t, clockwise, Face::F, ix, iy, iz),
        Face::B => lemma_rotates_layer_side(t, clockwise, Face::B, ix, iy, iz),
        Face::R => lemma_rotates_layer_side(t, clockwise, Face::R, ix, iy, iz),
        Face::L => lemma_rotates_layer_side(t, clockwise, Face::L, ix, iy, iz),
    }
}

proof fn lemma_rotates_layer_side(t: Face, clockwise: bool, g: Face, ix: int, iy: int, iz: int)
    requires
        in_grid(ix, iy, iz),
        in_layer(g, ix, iy, iz),
        in_layer(t, ix, iy, iz),
    ensures
        ({
            let (jx, jy, jz) = rotate_cubie(t, clockwise, ix, iy, iz);
            let h = rotate_side(t, clockwise, g);
            &&& in_grid(jx, jy, jz)
            &&& in_layer(h, jx, jy, jz)
            &&& in_layer(t, jx, jy, jz)
            &&& quarter_src(t, clockwise, cubie_pos(h, jx, jy, jz)) == cubie_pos(g, ix, iy, iz)
        }),
{
    assert(ix == 0 || ix == 1 || ix == 2);
    assert(iy == 0 || iy == 1 || iy == 2);
    assert(iz == 0 || iz == 1 || iz == 2);
}

} // verus!
