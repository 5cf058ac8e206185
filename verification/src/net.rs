//! The cross-shaped 2D net of the cube: where each face is drawn, and which edge rows and
//! columns slide while a face turns.

use vstd::prelude::*;
use crate::cube::moves::Face;

verus! {

/// A face that was clicked in the net.
#[derive(Clone, Copy, Debug)]
pub struct NetClick {
    pub face: Face,
}

/// The (column, row) cell of the net, counted in face widths from the top left, where a face is drawn.
pub open spec fn cell_of(face: Face) -> (u8, u8) {
    match face {
        Face::U => (1, 0),
        Face::L => (0, 1),
        Face::F => (1, 1),
        Face::R => (2, 1),
        Face::B => (3, 1),
        Face::D => (1, 2),
    }
}

/// Law: no two faces are drawn in the same cell of the net.
pub proof fn law_net_cells_distinct(f: Face, g: Face)
    requires
        f != g,
    ensures
        cell_of(f) != cell_of(g),
{
}

/// Law: every strip that slides while a face turns belongs to another face, is an edge row or
/// column, and slides one unit along a net axis towards the cell of the turning face.
pub proof fn law_slides_move_towards_turning_face(rotating: Face, i: int)
    requires
        0 <= i < slides_of(rotating).len(),
    ensures
        ({
            let (f, is_row, idx, (dx, dy)) = slides_of(rotating)[i];
            let (rx, ry) = cell_of(rotating);
            let (fx, fy) = cell_of(f);
            &&& f != rotating
            &&& idx == 0 || idx == 2
            &&& (dx == 0 && (dy == 1 || dy == -1)) || (dy == 0 && (dx == 1 || dx == -1))
            &&& dx * (rx - fx) + dy * (ry - fy) > 0
        }),
{
}

/// The (column, row) cell of the net where `face` is drawn: U above F; L, F, R, B in the middle
/// row; D below F.
pub fn net_cell(face: Face) -> (cell: (u8, u8))
    ensures
        cell == cell_of(face),
{
    match face {
        Face::U => (1, 0),
        Face::L => (0, 1),
        Face::F => (1, 1),
        Face::R => (2, 1),
        Face::B => (3, 1),
        Face::D => (1, 2),
    }
}

/// An edge line of a neighbouring face that slides while a face turns: the face, whether the
/// line is a row (else a column), its index, and the (dx, dy) direction in net units.
pub type EdgeSlide = (Face, bool, usize, (i8, i8));

/// The lines that slide towards the turning face in the net. U and D turns move no edge line
/// this way, and B only drags the R column next to it.
pub open spec fn slides_of(rotating: Face) -> Seq<EdgeSlide> {
    match rotating {
        Face::F => seq![(Face::U, true, 2usize, (0i8, 1i8)), (Face::R, false, 0usize, (-1i8, 0i8)),
            (Face::D, true, 0usize, (0i8, -1i8)), (Face::L, false, 2usize, (1i8, 0i8))],
        Face::B => seq![(Face::R, false, 2usize, (1i8, 0i8))],
        Face::L => seq![(Face::F, false, 0usize, (-1i8, 0i8)), (Face::U, true, 2usize, (-1i8, 0i8)),
            (Face::D, true, 0usize, (-1i8, 0i8))],
        Face::R => seq![(Face::F, false, 2usize, (1i8, 0i8)), (Face::B, false, 0usize, (-1i8, 0i8))],
        Face::U | Face::D => Seq::empty(),
    }
}

/// The edge lines that slide while `rotating` turns in the net.
pub fn edge_slides(rotating: Face) -> (slides: Vec<EdgeSlide>)
    ensures
        slides@ == slides_of(rotating),
{
    match rotating {
        Face::F => vec![(Face::U, true, 2, (0, 1)), (Face::R, false, 0, (-1, 0)),
            (Face::D, true, 0, (0, -1)), (Face::L, false, 2, (1, 0))],
        Face::B => vec![(Face::R, false, 2, (1, 0))],
        Face::L => vec![(Face::F, false, 0, (-1, 0)), (Face::U, true, 2, (-1, 0)),
            (Face::D, true, 0, (-1, 0))],
        Face::R => vec![(Face::F, false, 2, (1, 0)), (Face::B, false, 0, (-1, 0))],
        Face::U | Face::D => vec![],
    }
}

} // verus!
