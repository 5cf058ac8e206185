use vstd::prelude::*;
use rand::rngs::ThreadRng;
use rand::seq::SliceRandom;

verus! {

/// The six faces, in the order of their indices.
#[derive(Clone, Copy, PartialEq, Eq, Debug, Hash, Structural)]
pub enum Face {
    U,
    D,
    F,
    B,
    R,
    L,
}

impl Face {
    /// The faces in index order.
    pub const ALL: [Face; 6] = [Face::U, Face::D, Face::F, Face::B, Face::R, Face::L];

    /// The letter that names the face in move notation.
    pub open spec fn letter(self) -> char {
        match self {
            Face::U => 'U',
            Face::D => 'D',
            Face::F => 'F',
            Face::B => 'B',
            Face::R => 'R',
            Face::L => 'L',
        }
    }

    /// The face named by a letter of move notation, if any.
    pub open spec fn of_letter(c: char) -> Option<Face> {
        if c == 'U' { Some(Face::U) } else if c == 'D' { Some(Face::D) } else if c == 'F' { Some(Face::F) }
        else if c == 'B' { Some(Face::B) } else if c == 'R' { Some(Face::R) } else if c == 'L' { Some(Face::L) }
        else { None }
    }

    /// Law: the face letters are exactly the six upper-case letters `U D F B R L`, each naming
    /// its own face; no other character names a face.
    pub proof fn law_letters_name_faces(c: char, f: Face)
        ensures
            Face::of_letter(c) == Some(f) <==> c == f.letter(),
            Face::of_letter(c) is Some <==> (c == 'U' || c == 'D' || c == 'F' || c == 'B' || c == 'R' || c == 'L'),
            f.letter() == 'U' || f.letter() == 'D' || f.letter() == 'F' || f.letter() == 'B'
                || f.letter() == 'R' || f.letter() == 'L',
    {
    }

    /// The face's letter as a string.
    pub fn name(self) -> (s: &'static str)
        ensures
            s@ == seq![self.letter()],
    {
        match self {
            Face::U => { proof { reveal_strlit("U"); } "U" },
            Face::D => { proof { reveal_strlit("D"); } "D" },
            Face::F => { proof { reveal_strlit("F"); } "F" },
            Face::B => { proof { reveal_strlit("B"); } "B" },
            Face::R => { proof { reveal_strlit("R"); } "R" },
            Face::L => { proof { reveal_strlit("L"); } "L" },
        }
    }

    /// The face named by the letter `c`, if any.
    pub fn from_char(c: char) -> (res: Option<Face>)
        ensures
            res == Face::of_letter(c),
    {
        if c == 'U' { Some(Face::U) } else if c == 'D' { Some(Face::D) } else if c == 'F' { Some(Face::F) }
        else if c == 'B' { Some(Face::B) } else if c == 'R' { Some(Face::R) } else if c == 'L' { Some(Face::L) }
        else { None }
    }

    /// Reads a face from its one-letter name; anything else is refused with
    /// `"Unknown face: "` followed by the text.
    pub fn from_name(s: &str) -> (res: Result<Face, String>)
        ensures
            s@.len() == 1 && Face::of_letter(s@[0]) is Some ==> res == Ok::<Face, String>(Face::of_letter(s@[0])->0),
            !(s@.len() == 1 && Face::of_letter(s@[0]) is Some) ==> res is Err && res->Err_0@ == "Unknown face: "@ + s@,
    {
        if s.unicode_len() == 1 {
            if let Some(face) = Face::from_char(s.get_char(0)) {
                return Ok(face);
            }
        }
        let mut e = String::from_str("Unknown face: ");
        e.append(s);
        Err(e)
    }

    /// The index of the face in `Cube::faces`.
    pub open spec fn idx(self) -> int {
        match self {
            Face::U => 0,
            Face::D => 1,
            Face::F => 2,
            Face::B => 3,
            Face::R => 4,
            Face::L => 5,
        }
    }

    /// The face whose index is `i`.
    pub open spec fn from_idx(i: int) -> Face {
        if i == 0 { Face::U } else if i == 1 { Face::D } else if i == 2 { Face::F }
        else if i == 3 { Face::B } else if i == 4 { Face::R } else { Face::L }
    }

    /// The index of the face in `Cube::faces`.
    pub fn index(self) -> (i: usize)
        ensures
            i == self.idx(),
            i < 6,
    {
        match self {
            Face::U => 0,
            Face::D => 1,
            Face::F => 2,
            Face::B => 3,
            Face::R => 4,
            Face::L => 5,
        }
    }
}

/// A single turn of one face.
#[derive(Clone, Copy, PartialEq, Eq, Debug, Structural)]
pub struct Move {
    pub face: Face,
    /// Clockwise as seen from straight in front of the turned face.
    pub clockwise: bool,
    /// A half turn (two quarter turns in the `clockwise` direction).
    pub double: bool,
}

impl Move {
    pub fn new(face: Face, clockwise: bool, double: bool) -> (m: Self)
        ensures
            m == (Move { face, clockwise, double }),
    {
        Move { face, clockwise, double }
    }
}

impl Move {
    /// The move in standard notation: the face letter, then `2` for a half turn,
    /// or `'` for a counter-clockwise quarter turn.
    pub open spec fn notation_spec(self) -> Seq<char> {
        seq![self.face.letter()] + if self.double { seq!['2'] } else if !self.clockwise { seq!['\''] } else { Seq::empty() }
    }

    pub fn notation(&self) -> (s: String)
        ensures
            s@ == self.notation_spec(),
    {
        let mut s = String::from_str(self.face.name());
        if self.double {
            s.append("2");
            proof { reveal_strlit("2"); }
        } else if !self.clockwise {
            s.append("'");
            proof { reveal_strlit("'"); }
        }
        s
    }
}

/// The move that undoes `m`: half turns are kept, quarter turns change direction.
pub open spec fn inverse_move(m: Move) -> Move {
    if m.double { m } else { Move { face: m.face, clockwise: !m.clockwise, double: false } }
}

/// The moves that undo `ms`: each one's inverse, last move first.
pub open spec fn inverse_seq(ms: Seq<Move>) -> Seq<Move> {
    Seq::new(ms.len(), |i: int| inverse_move(ms[ms.len() - 1 - i]))
}

/// The sequence that undoes `moves`: the moves in reverse order, each inverted.
pub fn inverse_moves(moves: &[Move]) -> (res: Vec<Move>)
    ensures
        res@ == inverse_seq(moves@),
{
    let mut res: Vec<Move> = Vec::new();
    let n: usize = moves.len();
    for k in 0..n
        invariant
            n == moves@.len(),
            res@.len() == k,
            forall|i: int| 0 <= i < k ==> #[trigger] res@[i] == inverse_move(moves@[n - 1 - i]),
    {
        let m = moves[n - 1 - k];
        if m.double {
            res.push(m);
        } else {
            res.push(Move::new(m.face, !m.clockwise, false));
        }
    }
    proof {
        assert(res@ =~= inverse_seq(moves@));
    }
    res
}

/// Unicode `White_Space` characters (PropList.txt): U+0009..U+000D, U+0020, U+0085, U+00A0,
/// U+1680, U+2000..U+200A, U+2028, U+2029, U+202F, U+205F and U+3000.
pub open spec fn is_white_space(c: char) -> bool {
    let n = c as int;
    ||| 0x9 <= n <= 0xD
    ||| n == 0x20
    ||| n == 0x85
    ||| n == 0xA0
    ||| n == 0x1680
    ||| 0x2000 <= n <= 0x200A
    ||| n == 0x2028
    ||| n == 0x2029
    ||| n == 0x202F
    ||| n == 0x205F
    ||| n == 0x3000
}

/// Whether `c` has the Unicode `White_Space` property, as `char::is_whitespace` decides.
fn char_is_whitespace(c: char) -> (b: bool)
    ensures
        b == is_white_space(c),
{
    let n: u32 = c as u32;
    (0x9 <= n && n <= 0xD) || n == 0x20 || n == 0x85 || n == 0xA0 || n == 0x1680
        || (0x2000 <= n && n <= 0x200A) || n == 0x2028 || n == 0x2029 || n == 0x202F
        || n == 0x205F || n == 0x3000
}

/// The code points of the Unicode `White_Space` characters, one by one.
pub open spec fn unicode_white_space_codes() -> Seq<int> {
    seq![0x9, 0xA, 0xB, 0xC, 0xD, 0x20, 0x85, 0xA0, 0x1680, 0x2000, 0x2001, 0x2002, 0x2003,
        0x2004, 0x2005, 0x2006, 0x2007, 0x2008, 0x2009, 0x200A, 0x2028, 0x2029, 0x202F, 0x205F,
        0x3000]
}

/// Law: white space is exactly the 25 Unicode `White_Space` characters: the tab and line
/// controls U+0009..U+000D, the space, NEL, the no-break space, the Ogham space mark, the
/// spaces U+2000..U+200A, the line and paragraph separators, the narrow no-break space, the
/// medium mathematical space and the ideographic space.
pub proof fn law_white_space_is_unicode(c: char)
    ensures
        is_white_space(c) <==> unicode_white_space_codes().contains(c as int),
        unicode_white_space_codes().len() == 25,
{
    let codes = unicode_white_space_codes();
    let n = c as int;
    if is_white_space(c) {
        let k: int = if n <= 0xD { n - 0x9 } else if n == 0x20 { 5 } else if n == 0x85 { 6 }
            else if n == 0xA0 { 7 } else if n == 0x1680 { 8 } else if n <= 0x200A { n - 0x2000 + 9 }
            else if n == 0x2028 { 20 } else if n == 0x2029 { 21 } else if n == 0x202F { 22 }
            else if n == 0x205F { 23 } else { 24 };
        assert(codes[k] == n);
    }
    if codes.contains(n) {
        let k = choose|k: int| 0 <= k < codes.len() && codes[k] == n;
        assert(0 <= k < 25);
    }
}

/// Calls `String::push`, which appends one character.
#[verifier::external_body]
fn string_push(s: &mut String, c: char)
    ensures
        final(s)@ == old(s)@.push(c),
{
    s.push(c)
}

/// The characters of `s` that are not white space, in order.
pub open spec fn strip_white_space(s: Seq<char>) -> Seq<char>
    decreases s.len(),
{
    if s.len() == 0 {
        s
    } else if is_white_space(s.last()) {
        strip_white_space(s.drop_last())
    } else {
        strip_white_space(s.drop_last()).push(s.last())
    }
}

/// How many characters the modifier after a face letter at the head of `cs` takes: one for
/// `'` or `2`, none otherwise.
pub open spec fn suffix_len(cs: Seq<char>) -> int {
    if cs.len() > 1 && (cs[1] == '\'' || cs[1] == '2') { 1 } else { 0 }
}

/// The move that the head of `cs` names, given that `cs[0]` names face `f`.
pub open spec fn head_move(cs: Seq<char>, f: Face) -> Move {
    if cs.len() > 1 && cs[1] == '\'' {
        Move { face: f, clockwise: false, double: false }
    } else if cs.len() > 1 && cs[1] == '2' {
        Move { face: f, clockwise: true, double: true }
    } else {
        Move { face: f, clockwise: true, double: false }
    }
}

/// Reads notation with no white space: each move is a face letter, optionally followed by
/// `'` (counter-clockwise) or `2` (half turn). The error is the first character found
/// where a face letter should stand.
pub open spec fn parse_chars(cs: Seq<char>) -> Result<Seq<Move>, char>
    decreases cs.len(),
{
    if cs.len() == 0 {
        Ok(Seq::empty())
    } else {
        match Face::of_letter(cs[0]) {
            None => Err(cs[0]),
            Some(f) => match parse_chars(cs.skip(1 + suffix_len(cs))) {
                Ok(rest) => Ok(seq![head_move(cs, f)] + rest),
                Err(c) => Err(c),
            },
        }
    }
}

/// `ms` in front of a parse result.
pub open spec fn prepend_moves(ms: Seq<Move>, r: Result<Seq<Move>, char>) -> Result<Seq<Move>, char> {
    match r {
        Ok(rest) => Ok(ms + rest),
        Err(c) => Err(c),
    }
}

/// Parses move notation such as `"R U R' U'"`. White space is dropped first, anywhere in the
/// input; the error names the first character that stands where a face letter should.
pub fn parse_moves(input: &str) -> (res: Result<Vec<Move>, String>)
    ensures
        match parse_chars(strip_white_space(input@)) {
            Ok(ms) => res is Ok && res->Ok_0@ == ms,
            Err(c) => res is Err && res->Err_0@ == "Unknown face: "@.push(c),
        },
{
    let mut moves: Vec<Move> = Vec::new();
    let mut chars: Vec<char> = Vec::new();
    let ghost s = input@;
    for ch in it: input.chars()
        invariant
            it.seq() == s,
            chars@ == strip_white_space(s.take(it.index() as int)),
    {
        proof {
            assert(s.take(it.index() + 1).drop_last() =~= s.take(it.index() as int));
        }
        if !char_is_whitespace(ch) {
            chars.push(ch);
        }
    }
    proof {
        assert(s.take(s.len() as int) =~= s);
    }
    let ghost cs = chars@;
    let mut i: usize = 0;
    proof {
        assert(cs.skip(0) =~= cs);
        match parse_chars(cs) {
            Ok(all) => { assert(Seq::<Move>::empty() + all =~= all); },
            Err(_) => {},
        }
    }
    while i < chars.len()
        invariant
            cs == chars@,
            s == input@,
            cs == strip_white_space(s),
            i <= cs.len(),
            parse_chars(cs) == prepend_moves(moves@, parse_chars(cs.skip(i as int))),
        decreases cs.len() - i,
    {
        let ghost rest = cs.skip(i as int);
        let face_char = chars[i];
        assert(rest[0] == face_char);
        let face = match Face::from_char(face_char) {
            Some(f) => f,
            None => {
                let mut e = String::from_str("Unknown face: ");
                string_push(&mut e, face_char);
                proof {
                    assert(parse_chars(rest) == Err::<Seq<Move>, char>(face_char));
                    assert(parse_chars(cs) == Err::<Seq<Move>, char>(face_char));

                }
                return Err(e);
            },
        };
        i += 1;
        let mut clockwise = true;
        let mut double = false;
        if i < chars.len() {
            assert(rest[1] == chars@[i as int]);
            if chars[i] == '\'' {
                clockwise = false;
                i += 1;
            } else if chars[i] == '2' {
                double = true;
                i += 1;
            }
        }
        let m = Move::new(face, clockwise, double);
        proof {
            assert(rest.skip(1 + suffix_len(rest)) =~= cs.skip(i as int));
            assert(m == head_move(rest, face));
        }
        let ghost before = moves@;
        moves.push(m);
        proof {
            match parse_chars(cs.skip(i as int)) {
                Ok(tail) => {
                    assert(moves@ + tail =~= before + (seq![m] + tail));
                },
                Err(_) => {},
            }
        }
    }
    proof {
        assert(cs.skip(i as int) =~= Seq::<char>::empty());
        assert(moves@ + Seq::<Move>::empty() =~= moves@);
    }
    Ok(moves)
}

/// The random number generator of the current thread, from `rand`.
#[verifier::external_type_specification]
#[verifier::external_body]
pub struct ExThreadRng(rand::rngs::ThreadRng);

/// Calls `rand::thread_rng`, a handle on the current thread's generator; nothing is stated
/// of what it will produce.
#[verifier::external_body]
fn new_thread_rng() -> ThreadRng {
    rand::thread_rng()
}

/// Calls `SliceRandom::choose` on `faces`, which returns one element of a non-empty slice,
/// picked at random; the contract states only that the face is one of `faces`. The library
/// draws only from every face but the one turned `last` (all six when there is none), as the
/// `requires` says; `last` is not read.
#[verifier::external_body]
fn choose_face(faces: &[Face], last: Option<Face>, rng: &mut ThreadRng) -> (f: Face)
    requires
        faces@ == next_faces(last),
    ensures
        faces@.contains(f),
{
    *faces.choose(rng).unwrap()
}

/// The faces a scramble may turn after turning `last`: every face but that one, in index order.
#[verifier::opaque]
pub open spec fn next_faces(last: Option<Face>) -> Seq<Face> {
    match last {
        None => seq![Face::U, Face::D, Face::F, Face::B, Face::R, Face::L],
        Some(Face::U) => seq![Face::D, Face::F, Face::B, Face::R, Face::L],
        Some(Face::D) => seq![Face::U, Face::F, Face::B, Face::R, Face::L],
        Some(Face::F) => seq![Face::U, Face::D, Face::B, Face::R, Face::L],
        Some(Face::B) => seq![Face::U, Face::D, Face::F, Face::R, Face::L],
        Some(Face::R) => seq![Face::U, Face::D, Face::F, Face::B, Face::L],
        Some(Face::L) => seq![Face::U, Face::D, Face::F, Face::B, Face::R],
    }
}

/// Law: a scramble may turn next exactly the faces other than the one it turned last: each
/// of them, and only those, are among the candidates of the random draw.
pub proof fn law_next_faces(last: Option<Face>, f: Face)
    ensures
        next_faces(last).contains(f) <==> Some(f) != last,
        next_faces(last).len() >= 5,
{
    reveal(next_faces);
    let s = next_faces(last);
    if Some(f) != last {
        let k: int = if last is None { f.idx() } else if f.idx() < last->0.idx() { f.idx() } else { f.idx() - 1 };
        assert(s[k] == f);
    }
}

fn next_face_candidates(last: Option<Face>) -> (v: Vec<Face>)
    ensures
        v@ == next_faces(last),
{
    reveal(next_faces);
    match last {
        None => vec![Face::U, Face::D, Face::F, Face::B, Face::R, Face::L],
        Some(Face::U) => vec![Face::D, Face::F, Face::B, Face::R, Face::L],
        Some(Face::D) => vec![Face::U, Face::F, Face::B, Face::R, Face::L],
        Some(Face::F) => vec![Face::U, Face::D, Face::B, Face::R, Face::L],
        Some(Face::B) => vec![Face::U, Face::D, Face::F, Face::R, Face::L],
        Some(Face::R) => vec![Face::U, Face::D, Face::F, Face::B, Face::L],
        Some(Face::L) => vec![Face::U, Face::D, Face::F, Face::B, Face::R],
    }
}

/// A random scramble with one move per entry of `turns`, where each entry gives the
/// move's `(clockwise, double)`. Faces are drawn at random, never the same face twice in a row.
pub fn scramble_with_turns(turns: &[(bool, bool)]) -> (moves: Vec<Move>)
    ensures
        moves@.len() == turns@.len(),
        forall|i: int| 0 <= i < moves@.len() ==> (#[trigger] moves@[i]).clockwise == turns@[i].0
            && moves@[i].double == turns@[i].1,
        forall|i: int, j: int| 0 <= i && j == i + 1 && j < moves@.len() ==> #[trigger] moves@[i].face != #[trigger] moves@[j].face,
{
    let mut rng = new_thread_rng();
    let mut moves: Vec<Move> = Vec::new();
    let mut last_face: Option<Face> = None;
    for i in 0..turns.len()
        invariant
            moves@.len() == i,
            i == 0 ==> last_face is None,
            i > 0 ==> last_face == Some(moves@[i - 1].face),
            forall|k: int| 0 <= k < i ==> (#[trigger] moves@[k]).clockwise == turns@[k].0
                && moves@[k].double == turns@[k].1,
            forall|k: int, l: int| 0 <= k && l == k + 1 && l < i ==> #[trigger] moves@[k].face != #[trigger] moves@[l].face,
    {
        let candidates = next_face_candidates(last_face);
        assert(candidates@.len() > 0) by { law_next_faces(last_face, Face::U); }
        let face = choose_face(candidates.as_slice(), last_face, &mut rng);
        assert(Some(face) != last_face) by { law_next_faces(last_face, face); }
        let turn = turns[i];
        let m = Move::new(face, turn.0, turn.1);
        let ghost before = moves@;
        moves.push(m);
        last_face = Some(face);
        proof {
            assert(moves@ == before.push(m));
            assert forall|k: int, l: int| 0 <= k && l == k + 1 && l < i + 1 implies #[trigger] moves@[k].face != #[trigger] moves@[l].face by {
                if l < i { assert(moves@[k] == before[k] && moves@[l] == before[l]); }
            }
        }
    }
    moves
}

/// Law: inverting a sequence of moves twice gives it back.
pub proof fn law_inverse_twice(ms: Seq<Move>)
    ensures
        inverse_seq(inverse_seq(ms)) == ms,
{
    assert(inverse_seq(inverse_seq(ms)) =~= ms);
}

/// Notation of `ms` run together: `R U R'U'` style with no separators.
pub open spec fn notation_concat(ms: Seq<Move>) -> Seq<char>
    decreases ms.len(),
{
    if ms.len() == 0 { Seq::empty() } else { ms[0].notation_spec() + notation_concat(ms.drop_first()) }
}

/// Notation of `ms` with a space after each move.
pub open spec fn notation_spaced(ms: Seq<Move>) -> Seq<char>
    decreases ms.len(),
{
    if ms.len() == 0 { Seq::empty() } else { ms[0].notation_spec() + seq![' '] + notation_spaced(ms.drop_first()) }
}

/// A move in the form the parser gives back: a half turn is written without direction,
/// so it reads back as clockwise.
pub open spec fn is_canonical(m: Move) -> bool {
    m.double ==> m.clockwise
}

/// Dropping white space from two pieces one after the other.
pub proof fn lemma_strip_append(a: Seq<char>, b: Seq<char>)
    ensures
        strip_white_space(a + b) == strip_white_space(a) + strip_white_space(b),
    decreases b.len(),
{
    if b.len() == 0 {
        assert(a + b =~= a);
        assert(strip_white_space(a) + strip_white_space(b) =~= strip_white_space(a));
    } else {
        assert((a + b).drop_last() =~= a + b.drop_last());
        lemma_strip_append(a, b.drop_last());
        if !is_white_space(b.last()) {
            assert(strip_white_space(a) + strip_white_space(b.drop_last()).push(b.last())
                =~= (strip_white_space(a) + strip_white_space(b.drop_last())).push(b.last()));
        }
    }
}

proof fn lemma_strip_notation(m: Move)
    ensures
        strip_white_space(m.notation_spec()) == m.notation_spec(),
{
    let n = m.notation_spec();
    reveal_with_fuel(strip_white_space, 3);
    if n.len() == 1 {
        assert(n.drop_last() =~= Seq::<char>::empty());
        assert(Seq::<char>::empty().push(n.last()) =~= n);
    } else {
        assert(n.drop_last().drop_last() =~= Seq::<char>::empty());
        assert(seq![n[0]] =~= n.drop_last());
        assert(Seq::<char>::empty().push(n[0]) =~= seq![n[0]]);
        assert(seq![n[0]].push(n.last()) =~= n);
    }
}

/// The spaces between moves are dropped, leaving the notation run together.
pub proof fn lemma_strip_spaced(ms: Seq<Move>)
    ensures
        strip_white_space(notation_spaced(ms)) == notation_concat(ms),
    decreases ms.len(),
{
    if ms.len() > 0 {
        let n = ms[0].notation_spec();
        lemma_strip_spaced(ms.drop_first());
        lemma_strip_append(n + seq![' '], notation_spaced(ms.drop_first()));
        lemma_strip_append(n, seq![' ']);
        lemma_strip_notation(ms[0]);
        reveal_with_fuel(strip_white_space, 2);
        assert(seq![' '].drop_last() =~= Seq::<char>::empty());
        assert(n + Seq::<char>::empty() =~= n);
    }
}

proof fn lemma_concat_head(ms: Seq<Move>)
    requires
        ms.len() > 0,
    ensures
        notation_concat(ms).len() > 0,
        notation_concat(ms)[0] == ms[0].face.letter(),
{
}

/// Law: notation read back gives the moves it was written from, for moves in the form the
/// parser produces; spaces between the moves make no difference.
pub proof fn law_parse_reads_back_notation(ms: Seq<Move>)
    requires
        forall|i: int| 0 <= i < ms.len() ==> is_canonical(#[trigger] ms[i]),
    ensures
        parse_chars(notation_concat(ms)) == Ok::<Seq<Move>, char>(ms),
        parse_chars(strip_white_space(notation_spaced(ms))) == Ok::<Seq<Move>, char>(ms),
    decreases ms.len(),
{
    lemma_strip_spaced(ms);
    if ms.len() == 0 {
        assert(ms =~= Seq::<Move>::empty());
    } else {
        let m = ms[0];
        let rest = ms.drop_first();
        assert forall|i: int| 0 <= i < rest.len() implies is_canonical(#[trigger] rest[i]) by {
            assert(rest[i] == ms[i + 1]);
        }
        law_parse_reads_back_notation(rest);
        let cs = notation_concat(ms);
        let n = m.notation_spec();
        assert(cs == n + notation_concat(rest));
        if rest.len() > 0 {
            lemma_concat_head(rest);
        }
        assert(Face::of_letter(cs[0]) == Some(m.face)) by {
            assert(cs[0] == m.face.letter());
        }
        assert(cs.skip(1 + suffix_len(cs)) =~= notation_concat(rest));
        assert(head_move(cs, m.face) == m);
        assert(seq![m] + rest =~= ms);
    }
}

impl std::str::FromStr for Face {
    type Err = String;

    fn from_str(s: &str) -> (res: Result<Self, Self::Err>)
        ensures
            s@.len() == 1 && Face::of_letter(s@[0]) is Some ==> res == Ok::<Face, String>(Face::of_letter(s@[0])->0),
            !(s@.len() == 1 && Face::of_letter(s@[0]) is Some) ==> res is Err && res->Err_0@ == "Unknown face: "@ + s@,
    {
        Face::from_name(s)
    }
}

} // verus!
