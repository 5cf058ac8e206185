pub mod moves;
pub mod laws;

use vstd::prelude::*;
use self::moves::{Face, Move};

verus! {

/// Sticker colours; each one is the colour of one face of a solved cube.
#[derive(Clone, Copy, PartialEq, Eq, Debug, Hash, Structural)]
pub enum Color {
    White,
    Yellow,
    Red,
    Orange,
    Blue,
    Green,
}

/// One face's 3x3 stickers, indexed `[row][col]`, seen from straight in front of that face.
pub type FaceColors = [[Color; 3]; 3];

/// A sticker position: (face index, row, column).
pub type Pos = (int, int, int);

/// The stickers of a cube as nested sequences: `v[f][r][c]`.
pub type CubeView = Seq<Seq<Seq<Color>>>;

/// The whole cube: `faces[f]` is the face whose index is `f` (U, D, F, B, R, L).
#[derive(Clone, Copy, PartialEq, Eq, Debug)]
pub struct Cube {
    pub faces: [FaceColors; 6],
}

/// A position on the cube: face index below 6, row and column below 3.
pub open spec fn valid_pos(p: Pos) -> bool {
    0 <= p.0 < 6 && 0 <= p.1 < 3 && 0 <= p.2 < 3
}

/// A view has six faces of three rows of three stickers.
pub open spec fn well_shaped(v: CubeView) -> bool {
    &&& v.len() == 6
    &&& forall|f: int| 0 <= f < 6 ==> #[trigger] v[f].len() == 3
    &&& forall|f: int, r: int| 0 <= f < 6 && 0 <= r < 3 ==> #[trigger] v[f][r].len() == 3
}

/// The sticker of view `v` at position `p`.
pub open spec fn sticker(v: CubeView, p: Pos) -> Color {
    v[p.0][p.1][p.2]
}

/// Where the sticker that a clockwise quarter turn of `t` brings to `p` (outside face `t`) comes from.
pub open spec fn adj_cw_src(t: Face, p: Pos) -> Pos {
    let (f, r, c) = p;
    match t {
        Face::U => if r == 0 && f == 2 { (4, 0, c) } else if r == 0 && f == 4 { (3, 0, c) }
            else if r == 0 && f == 3 { (5, 0, c) } else if r == 0 && f == 5 { (2, 0, c) } else { p },
        Face::D => if r == 2 && f == 2 { (5, 2, c) } else if r == 2 && f == 5 { (3, 2, c) }
            else if r == 2 && f == 3 { (4, 2, c) } else if r == 2 && f == 4 { (2, 2, c) } else { p },
        Face::F => if f == 0 && r == 2 { (5, 2 - c, 2) } else if f == 5 && c == 2 { (1, 0, r) }
            else if f == 1 && r == 0 { (4, 2 - c, 0) } else if f == 4 && c == 0 { (0, 2, r) } else { p },
        Face::B => if f == 0 && r == 0 { (4, c, 2) } else if f == 4 && c == 2 { (1, 2, 2 - r) }
            else if f == 1 && r == 2 { (5, c, 0) } else if f == 5 && c == 0 { (0, 0, 2 - r) } else { p },
        Face::R => if f == 0 && c == 2 { (2, r, 2) } else if f == 2 && c == 2 { (1, r, 2) }
            else if f == 1 && c == 2 { (3, 2 - r, 0) } else if f == 3 && c == 0 { (0, 2 - r, 2) } else { p },
        Face::L => if f == 0 && c == 0 { (3, 2 - r, 2) } else if f == 3 && c == 2 { (1, 2 - r, 0) }
            else if f == 1 && c == 0 { (2, r, 0) } else if f == 2 && c == 0 { (0, r, 0) } else { p },
    }
}

/// Where the sticker that a counter-clockwise quarter turn of `t` brings to `p` (outside face `t`) comes from.
pub open spec fn adj_ccw_src(t: Face, p: Pos) -> Pos {
    let (f, r, c) = p;
    match t {
        Face::U => if r == 0 && f == 2 { (5, 0, c) } else if r == 0 && f == 5 { (3, 0, c) }
            else if r == 0 && f == 3 { (4, 0, c) } else if r == 0 && f == 4 { (2, 0, c) } else { p },
        Face::D => if r == 2 && f == 2 { (4, 2, c) } else if r == 2 && f == 4 { (3, 2, c) }
            else if r == 2 && f == 3 { (5, 2, c) } else if r == 2 && f == 5 { (2, 2, c) } else { p },
        Face::F => if f == 0 && r == 2 { (4, c, 0) } else if f == 4 && c == 0 { (1, 0, 2 - r) }
            else if f == 1 && r == 0 { (5, c, 2) } else if f == 5 && c == 2 { (0, 2, 2 - r) } else { p },
        Face::B => if f == 0 && r == 0 { (5, 2 - c, 0) } else if f == 5 && c == 0 { (1, 2, r) }
            else if f == 1 && r == 2 { (4, 2 - c, 2) } else if f == 4 && c == 2 { (0, 0, r) } else { p },
        Face::R => if f == 0 && c == 2 { (3, 2 - r, 0) } else if f == 3 && c == 0 { (1, 2 - r, 2) }
            else if f == 1 && c == 2 { (2, r, 2) } else if f == 2 && c == 2 { (0, r, 2) } else { p },
        Face::L => if f == 0 && c == 0 { (2, r, 0) } else if f == 2 && c == 0 { (1, r, 0) }
            else if f == 1 && c == 0 { (3, 2 - r, 2) } else if f == 3 && c == 2 { (0, 2 - r, 0) } else { p },
    }
}

/// Where the sticker that one quarter turn of `t` brings to `p` comes from.
pub open spec fn quarter_src(t: Face, clockwise: bool, p: Pos) -> Pos {
    if p.0 == t.idx() {
        if clockwise { (p.0, 2 - p.2, p.1) } else { (p.0, p.2, 2 - p.1) }
    } else if clockwise {
        adj_cw_src(t, p)
    } else {
        adj_ccw_src(t, p)
    }
}

/// Where the sticker that `n` quarter turns of `t` bring to `p` comes from.
pub open spec fn quarter_pow(t: Face, clockwise: bool, n: nat, p: Pos) -> Pos
    decreases n,
{
    if n == 0 { p } else { quarter_pow(t, clockwise, (n - 1) as nat, quarter_src(t, clockwise, p)) }
}

/// How many quarter turns a move makes.
pub open spec fn quarter_count(m: Move) -> nat {
    if m.double { 2 } else { 1 }
}

/// Where the sticker that move `m` brings to `p` comes from.
pub open spec fn move_src(m: Move, p: Pos) -> Pos {
    quarter_pow(m.face, m.clockwise, quarter_count(m), p)
}

/// The stickers after `n` quarter turns of `t`.
pub open spec fn quarter_turns_view(v: CubeView, t: Face, clockwise: bool, n: nat) -> CubeView {
    Seq::new(6, |f: int| Seq::new(3, |r: int| Seq::new(3, |c: int|
        sticker(v, quarter_pow(t, clockwise, n, (f, r, c))))))
}

/// The stickers after move `m`.
pub open spec fn turn_view(v: CubeView, m: Move) -> CubeView {
    quarter_turns_view(v, m.face, m.clockwise, quarter_count(m))
}

/// The stickers after the moves of `ms`, in order.
pub open spec fn moves_view(v: CubeView, ms: Seq<Move>) -> CubeView
    decreases ms.len(),
{
    if ms.len() == 0 { v } else { turn_view(moves_view(v, ms.drop_last()), ms.last()) }
}

impl View for Cube {
    type V = CubeView;

    open spec fn view(&self) -> CubeView {
        Seq::new(6, |f: int| Seq::new(3, |r: int| Seq::new(3, |c: int| self.faces[f][r][c])))
    }
}

/// Two well-shaped views with the same stickers are equal.
pub proof fn lemma_view_ext(a: CubeView, b: CubeView)
    requires
        well_shaped(a),
        well_shaped(b),
        forall|p: Pos| valid_pos(p) ==> #[trigger] sticker(a, p) == sticker(b, p),
    ensures
        a == b,
{
    assert forall|f: int| 0 <= f < 6 implies #[trigger] a[f] == b[f] by {
        assert forall|r: int| 0 <= r < 3 implies #[trigger] a[f][r] == b[f][r] by {
            assert forall|c: int| 0 <= c < 3 implies #[trigger] a[f][r][c] == b[f][r][c] by {
                assert(sticker(a, (f, r, c)) == sticker(b, (f, r, c)));
            }
            assert(a[f][r] =~= b[f][r]);
        }
        assert(a[f] =~= b[f]);
    }
    assert(a =~= b);
}

/// A quarter turn takes stickers from valid positions only.
pub proof fn lemma_quarter_src_valid(t: Face, clockwise: bool, p: Pos)
    requires
        valid_pos(p),
    ensures
        valid_pos(quarter_src(t, clockwise, p)),
{
}

/// Any number of quarter turns takes stickers from valid positions only.
pub proof fn lemma_quarter_pow_valid(t: Face, clockwise: bool, n: nat, p: Pos)
    requires
        valid_pos(p),
    ensures
        valid_pos(quarter_pow(t, clockwise, n, p)),
    decreases n,
{
    if n > 0 {
        lemma_quarter_src_valid(t, clockwise, p);
        lemma_quarter_pow_valid(t, clockwise, (n - 1) as nat, quarter_src(t, clockwise, p));
    }
}

impl Color {
    /// The colour of a solved cube's face.
    pub open spec fn of_face(face: Face) -> Color {
        match face {
            Face::U => Color::White,
            Face::D => Color::Yellow,
            Face::F => Color::Red,
            Face::B => Color::Orange,
            Face::R => Color::Blue,
            Face::L => Color::Green,
        }
    }

    /// The colour as an (r, g, b) triple.
    pub open spec fn rgb(self) -> (u8, u8, u8) {
        match self {
            Color::White => (255, 255, 255),
            Color::Yellow => (255, 255, 0),
            Color::Red => (255, 0, 0),
            Color::Orange => (255, 165, 0),
            Color::Blue => (0, 0, 255),
            Color::Green => (0, 255, 0),
        }
    }

    pub fn as_rgb(&self) -> (res: (u8, u8, u8))
        ensures
            res == self.rgb(),
    {
        match self {
            Color::White => (255, 255, 255),
            Color::Yellow => (255, 255, 0),
            Color::Red => (255, 0, 0),
            Color::Orange => (255, 165, 0),
            Color::Blue => (0, 0, 255),
            Color::Green => (0, 255, 0),
        }
    }

    pub fn from_face(face: Face) -> (res: Self)
        ensures
            res == Color::of_face(face),
    {
        match face {
            Face::U => Color::White,
            Face::D => Color::Yellow,
            Face::F => Color::Red,
            Face::B => Color::Orange,
            Face::R => Color::Blue,
            Face::L => Color::Green,
        }
    }
}

/// The stickers of a solved cube: every face shows its own colour.
pub open spec fn solved_view() -> CubeView {
    Seq::new(6, |f: int| Seq::new(3, |r: int| Seq::new(3, |c: int| Color::of_face(Face::from_idx(f)))))
}

impl Default for Cube {
    fn default() -> (c: Self)
        ensures
            c@ == solved_view(),
    {
        Self::solved()
    }
}

impl Cube {
    pub fn solved() -> (c: Self)
        ensures
            c@ == solved_view(),
    {
        let c = Cube {
            faces: [
                [[Color::White; 3]; 3],
                [[Color::Yellow; 3]; 3],
                [[Color::Red; 3]; 3],
                [[Color::Orange; 3]; 3],
                [[Color::Blue; 3]; 3],
                [[Color::Green; 3]; 3],
            ],
        };
        proof {
            c.lemma_view_shape();
            assert forall|p: Pos| valid_pos(p) implies #[trigger] sticker(solved_view(), p) == sticker(c@, p) by {
            }
            lemma_view_ext(solved_view(), c@);
        }
        c
    }

    /// The stickers of `face`.
    pub fn get_face(&self, face: Face) -> (res: &FaceColors)
        ensures
            *res == self.faces[face.idx()],
    {
        &self.faces[face.index()]
    }

    /// Mutable access to the stickers of `face`; the other faces stay as they are.
    pub fn get_face_mut(&mut self, face: Face) -> (res: &mut FaceColors)
        ensures
            *res == old(self).faces[face.idx()],
            final(self).faces@ == old(self).faces@.update(face.idx(), *final(res)),
    {
        &mut self.faces[face.index()]
    }

    /// The sticker at position `p`: face index, row, column.
    pub open spec fn at(self, p: Pos) -> Color {
        self.faces[p.0][p.1][p.2]
    }

    /// The view of a cube is well shaped and shows the cube's stickers.
    pub proof fn lemma_view_shape(self)
        ensures
            well_shaped(self@),
            forall|p: Pos| valid_pos(p) ==> #[trigger] sticker(self@, p) == self.at(p),
    {
    }

    /// Clockwise turn of the stickers of `face` itself.
    pub fn rotate_face_clockwise(&mut self, face: Face)
        ensures
            forall|p: Pos| valid_pos(p) ==> #[trigger] final(self).at(p) == if p.0 == face.idx() {
                old(self).at((p.0, 2 - p.2, p.1))
            } else {
                old(self).at(p)
            },
    {
        let f: usize = face.index();
        let old = self.faces[f];
        let ghost orig = *self;
        for r in 0..3
            invariant
                f == face.idx(),
                f < 6,
                old == orig.faces[f as int],
                forall|g: int| 0 <= g < 6 && g != f ==> #[trigger] self.faces[g] == orig.faces[g],
                forall|i: int, j: int| 0 <= i < 3 && 0 <= j < 3 && j > 2 - r ==>
                    #[trigger] self.faces[f as int][i][j] == old[2 - j][i],
        {
            for c in 0..3
                invariant
                    f == face.idx(),
                    f < 6,
                    0 <= r < 3,
                    old == orig.faces[f as int],
                    forall|g: int| 0 <= g < 6 && g != f ==> #[trigger] self.faces[g] == orig.faces[g],
                    forall|i: int, j: int| 0 <= i < 3 && 0 <= j < 3 && (j > 2 - r || (j == 2 - r && i < c)) ==>
                        #[trigger] self.faces[f as int][i][j] == old[2 - j][i],
            {
                self.faces[f][c][2 - r] = old[r][c];
            }
        }
    }

    /// Counter-clockwise turn of the stickers of `face` itself.
    pub fn rotate_face_counter_clockwise(&mut self, face: Face)
        ensures
            forall|p: Pos| valid_pos(p) ==> #[trigger] final(self).at(p) == if p.0 == face.idx() {
                old(self).at((p.0, p.2, 2 - p.1))
            } else {
                old(self).at(p)
            },
    {
        let f: usize = face.index();
        let old = self.faces[f];
        let ghost orig = *self;
        for r in 0..3
            invariant
                f == face.idx(),
                f < 6,
                old == orig.faces[f as int],
                forall|g: int| 0 <= g < 6 && g != f ==> #[trigger] self.faces[g] == orig.faces[g],
                forall|i: int, j: int| 0 <= i < 3 && 0 <= j < 3 && j < r ==>
                    #[trigger] self.faces[f as int][i][j] == old[j][2 - i],
        {
            for c in 0..3
                invariant
                    f == face.idx(),
                    f < 6,
                    0 <= r < 3,
                    old == orig.faces[f as int],
                    forall|g: int| 0 <= g < 6 && g != f ==> #[trigger] self.faces[g] == orig.faces[g],
                    forall|i: int, j: int| 0 <= i < 3 && 0 <= j < 3 && (j < r || (j == r && i > 2 - c)) ==>
                        #[trigger] self.faces[f as int][i][j] == old[j][2 - i],
            {
                self.faces[f][2 - c][r] = old[r][c];
            }
        }
    }

    /// Row `r` of `face`, left to right.
    fn row(&self, face: Face, r: usize) -> (res: [Color; 3])
        requires
            r < 3,
        ensures
            forall|i: int| 0 <= i < 3 ==> #[trigger] res[i] == self.at((face.idx(), r as int, i)),
    {
        let f = &self.faces[face.index()];
        [f[r][0], f[r][1], f[r][2]]
    }

    /// Row `r` of `face`, right to left.
    fn row_rev(&self, face: Face, r: usize) -> (res: [Color; 3])
        requires
            r < 3,
        ensures
            forall|i: int| 0 <= i < 3 ==> #[trigger] res[i] == self.at((face.idx(), r as int, 2 - i)),
    {
        let f = &self.faces[face.index()];
        [f[r][2], f[r][1], f[r][0]]
    }

    /// Column `c` of `face`, top to bottom.
    fn col(&self, face: Face, c: usize) -> (res: [Color; 3])
        requires
            c < 3,
        ensures
            forall|i: int| 0 <= i < 3 ==> #[trigger] res[i] == self.at((face.idx(), i, c as int)),
    {
        let f = &self.faces[face.index()];
        [f[0][c], f[1][c], f[2][c]]
    }

    /// Column `c` of `face`, bottom to top.
    fn col_rev(&self, face: Face, c: usize) -> (res: [Color; 3])
        requires
            c < 3,
        ensures
            forall|i: int| 0 <= i < 3 ==> #[trigger] res[i] == self.at((face.idx(), 2 - i, c as int)),
    {
        let f = &self.faces[face.index()];
        [f[2][c], f[1][c], f[0][c]]
    }

    /// Overwrites row `r` of `face` with `vals`, left to right.
    fn set_row(&mut self, face: Face, r: usize, vals: [Color; 3])
        requires
            r < 3,
        ensures
            forall|p: Pos| valid_pos(p) ==> #[trigger] final(self).at(p) == if p.0 == face.idx() && p.1 == r {
                vals[p.2]
            } else {
                old(self).at(p)
            },
    {
        let f: usize = face.index();
        self.faces[f][r][0] = vals[0];
        self.faces[f][r][1] = vals[1];
        self.faces[f][r][2] = vals[2];
    }

    /// Overwrites column `c` of `face` with `vals`, top to bottom.
    fn set_col(&mut self, face: Face, c: usize, vals: [Color; 3])
        requires
            c < 3,
        ensures
            forall|p: Pos| valid_pos(p) ==> #[trigger] final(self).at(p) == if p.0 == face.idx() && p.2 == c {
                vals[p.1]
            } else {
                old(self).at(p)
            },
    {
        let f: usize = face.index();
        self.faces[f][0][c] = vals[0];
        self.faces[f][1][c] = vals[1];
        self.faces[f][2][c] = vals[2];
    }

    /// Cycles the edge stickers of the four faces around `face` for a clockwise turn.
    fn rotate_adjacent_clockwise(&mut self, face: Face)
        ensures
            forall|p: Pos| valid_pos(p) ==> #[trigger] final(self).at(p) == old(self).at(adj_cw_src(face, p)),
    {
        match face {
            Face::U => {
                let tmp = self.row(Face::F, 0);
                self.set_row(Face::F, 0, self.row(Face::R, 0));
                self.set_row(Face::R, 0, self.row(Face::B, 0));
                self.set_row(Face::B, 0, self.row(Face::L, 0));
                self.set_row(Face::L, 0, tmp);
            },
            Face::D => {
                let tmp = self.row(Face::F, 2);
                self.set_row(Face::F, 2, self.row(Face::L, 2));
                self.set_row(Face::L, 2, self.row(Face::B, 2));
                self.set_row(Face::B, 2, self.row(Face::R, 2));
                self.set_row(Face::R, 2, tmp);
            },
            Face::F => {
                let tmp = self.row(Face::U, 2);
                self.set_row(Face::U, 2, self.col_rev(Face::L, 2));
                self.set_col(Face::L, 2, self.row(Face::D, 0));
                self.set_row(Face::D, 0, self.col_rev(Face::R, 0));
                self.set_col(Face::R, 0, tmp);
            },
            Face::B => {
                let tmp = self.row_rev(Face::U, 0);
                self.set_row(Face::U, 0, self.col(Face::R, 2));
                self.set_col(Face::R, 2, self.row_rev(Face::D, 2));
                self.set_row(Face::D, 2, self.col(Face::L, 0));
                self.set_col(Face::L, 0, tmp);
            },
            Face::R => {
                let tmp = self.col_rev(Face::U, 2);
                self.set_col(Face::U, 2, self.col(Face::F, 2));
                self.set_col(Face::F, 2, self.col(Face::D, 2));
                self.set_col(Face::D, 2, self.col_rev(Face::B, 0));
                self.set_col(Face::B, 0, tmp);
            },
            Face::L => {
                let tmp = self.col(Face::U, 0);
                self.set_col(Face::U, 0, self.col_rev(Face::B, 2));
                self.set_col(Face::B, 2, self.col_rev(Face::D, 0));
                self.set_col(Face::D, 0, self.col(Face::F, 0));
                self.set_col(Face::F, 0, tmp);
            },
        }
    }

    /// Cycles the edge stickers of the four faces around `face` for a counter-clockwise turn.
    fn rotate_adjacent_counter_clockwise(&mut self, face: Face)
        ensures
            forall|p: Pos| valid_pos(p) ==> #[trigger] final(self).at(p) == old(self).at(adj_ccw_src(face, p)),
    {
        match face {
            Face::U => {
                let tmp = self.row(Face::F, 0);
                self.set_row(Face::F, 0, self.row(Face::L, 0));
                self.set_row(Face::L, 0, self.row(Face::B, 0));
                self.set_row(Face::B, 0, self.row(Face::R, 0));
                self.set_row(Face::R, 0, tmp);
            },
            Face::D => {
                let tmp = self.row(Face::F, 2);
                self.set_row(Face::F, 2, self.row(Face::R, 2));
                self.set_row(Face::R, 2, self.row(Face::B, 2));
                self.set_row(Face::B, 2, self.row(Face::L, 2));
                self.set_row(Face::L, 2, tmp);
            },
            Face::F => {
                let tmp = self.row_rev(Face::U, 2);
                self.set_row(Face::U, 2, self.col(Face::R, 0));
                self.set_col(Face::R, 0, self.row_rev(Face::D, 0));
                self.set_row(Face::D, 0, self.col(Face::L, 2));
                self.set_col(Face::L, 2, tmp);
            },
            Face::B => {
                let tmp = self.row(Face::U, 0);
                self.set_row(Face::U, 0, self.col_rev(Face::L, 0));
                self.set_col(Face::L, 0, self.row(Face::D, 2));
                self.set_row(Face::D, 2, self.col_rev(Face::R, 2));
                self.set_col(Face::R, 2, tmp);
            },
            Face::R => {
                let tmp = self.col(Face::U, 2);
                self.set_col(Face::U, 2, self.col_rev(Face::B, 0));
                self.set_col(Face::B, 0, self.col_rev(Face::D, 2));
                self.set_col(Face::D, 2, self.col(Face::F, 2));
                self.set_col(Face::F, 2, tmp);
            },
            Face::L => {
                let tmp = self.col_rev(Face::U, 0);
                self.set_col(Face::U, 0, self.col(Face::F, 0));
                self.set_col(Face::F, 0, self.col(Face::D, 0));
                self.set_col(Face::D, 0, self.col_rev(Face::B, 2));
                self.set_col(Face::B, 2, tmp);
            },
        }
    }

    /// Applies one move: a quarter turn, or a half turn when `mv.double`.
    pub fn apply_move(&mut self, mv: &Move)
        ensures
            final(self)@ == turn_view(old(self)@, *mv),
    {
        let face = mv.face;
        let cw = mv.clockwise;
        let double = mv.double;
        let ghost orig = *self;

        let times: usize = if double { 2 } else { 1 };
        for i in 0..times
            invariant
                face == mv.face,
                cw == mv.clockwise,
                forall|p: Pos| valid_pos(p) ==> #[trigger] self.at(p) == orig.at(quarter_pow(face, cw, i as nat, p)),
        {
            let ghost before = *self;
            if cw {
                self.rotate_face_clockwise(face);
                self.rotate_adjacent_clockwise(face);
            } else {
                self.rotate_face_counter_clockwise(face);
                self.rotate_adjacent_counter_clockwise(face);
            }
            assert forall|p: Pos| valid_pos(p) implies #[trigger] self.at(p) == orig.at(quarter_pow(face, cw, (i + 1) as nat, p)) by {
                lemma_quarter_src_valid(face, cw, p);
                assert(self.at(p) == before.at(quarter_src(face, cw, p)));
            }
        }
        proof {
            self.lemma_view_shape();
            orig.lemma_view_shape();
            let tv = turn_view(orig@, *mv);
            assert forall|p: Pos| valid_pos(p) implies #[trigger] sticker(tv, p) == sticker(self@, p) by {
                lemma_quarter_pow_valid(face, cw, quarter_count(*mv), p);
            }
            lemma_view_ext(tv, self@);
        }
    }

    /// Applies the moves in order.
    pub fn apply_moves(&mut self, moves: &[Move])
        ensures
            final(self)@ == moves_view(old(self)@, moves@),
    {
        let ghost orig = *self;
        for i in 0..moves.len()
            invariant
                self@ == moves_view(orig@, moves@.take(i as int)),
        {
            proof {
                assert(moves@.take(i + 1).drop_last() =~= moves@.take(i as int));
            }
            self.apply_move(&moves[i]);
        }
        proof {
            assert(moves@.take(moves@.len() as int) =~= moves@);
        }
    }
}

} // verus!
