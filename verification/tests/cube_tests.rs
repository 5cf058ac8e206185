use rubiks_cube::cube::moves::{Face, Move};
use rubiks_cube::cube::{Color, Cube};

#[test]
fn test_solved() {
    let c = Cube::solved();
    assert_eq!(c.faces[0][0][0], Color::White);
    assert_eq!(c.faces[1][0][0], Color::Yellow);
}

#[test]
fn test_rotate_u() {
    let mut c = Cube::solved();
    c.apply_move(&Move::new(Face::U, true, false));
    for r in 0..3 {
        for col in 0..3 {
            assert_eq!(c.faces[Face::U as usize][r][col], Color::White);
        }
    }
}

#[test]
fn test_4_times_back() {
    let mut c = Cube::solved();
    for _ in 0..4 {
        c.apply_move(&Move::new(Face::F, true, false));
    }
    assert_eq!(c, Cube::solved());
}

/// A scrambled cube, on which whole faces and strips can be seen to move.
fn scrambled() -> Cube {
    let mut c = Cube::solved();
    let ms = rubiks_cube::cube::moves::parse_moves("R U2 F' L D B2 R' U F2 L'").unwrap();
    c.apply_moves(&ms);
    c
}

#[test]
fn default_is_solved() {
    assert_eq!(Cube::default(), Cube::solved());
}

#[test]
fn u_turn_cycles_top_rows() {
    let mut c = Cube::solved();
    c.apply_move(&Move::new(Face::U, true, false));
    // F's top row now shows R's colour, R shows B's, B shows L's, L shows F's.
    assert_eq!(c.faces[Face::F as usize][0], [Color::Blue; 3]);
    assert_eq!(c.faces[Face::R as usize][0], [Color::Orange; 3]);
    assert_eq!(c.faces[Face::B as usize][0], [Color::Green; 3]);
    assert_eq!(c.faces[Face::L as usize][0], [Color::Red; 3]);
    assert_eq!(c.faces[Face::F as usize][1], [Color::Red; 3]);
    assert_eq!(c.faces[Face::D as usize], [[Color::Yellow; 3]; 3]);
}

#[test]
fn f_turn_moves_u_row_to_r_column() {
    let mut c = Cube::solved();
    c.apply_move(&Move::new(Face::F, true, false));
    for i in 0..3 {
        assert_eq!(c.faces[Face::U as usize][2][i], Color::Green);
        assert_eq!(c.faces[Face::R as usize][i][0], Color::White);
        assert_eq!(c.faces[Face::D as usize][0][i], Color::Blue);
        assert_eq!(c.faces[Face::L as usize][i][2], Color::Yellow);
    }
}

#[test]
fn face_rotation_clockwise_and_back() {
    let mut c = Cube::solved();
    c.faces[Face::F as usize] = [
        [Color::White, Color::Yellow, Color::Red],
        [Color::Orange, Color::Blue, Color::Green],
        [Color::Red, Color::Red, Color::Blue],
    ];
    let before = c;
    c.rotate_face_clockwise(Face::F);
    // The left column, read bottom to top, becomes the top row.
    assert_eq!(c.faces[Face::F as usize][0], [Color::Red, Color::Orange, Color::White]);
    assert_eq!(c.faces[Face::F as usize][1][1], Color::Blue);
    c.rotate_face_counter_clockwise(Face::F);
    assert_eq!(c, before);
}

#[test]
fn four_quarter_turns_restore_every_face() {
    for face in Face::ALL {
        for cw in [true, false] {
            let start = scrambled();
            let mut c = start;
            for _ in 0..4 {
                c.apply_move(&Move::new(face, cw, false));
            }
            assert_eq!(c, start);
        }
    }
}

#[test]
fn four_repeats_restore_every_move() {
    for face in Face::ALL {
        for (cw, dbl) in [(true, false), (false, false), (true, true), (false, true)] {
            let start = scrambled();
            let mut c = start;
            for _ in 0..4 {
                c.apply_move(&Move::new(face, cw, dbl));
            }
            assert_eq!(c, start);
        }
    }
}

#[test]
fn r_turn_carries_u_column_into_b_reversed() {
    let mut c = Cube::solved();
    c.faces[Face::U as usize][0][2] = Color::Green;
    c.apply_move(&Move::new(Face::R, true, false));
    let b = Face::B as usize;
    assert_eq!(c.faces[b][0][0], Color::White);
    assert_eq!(c.faces[b][1][0], Color::White);
    assert_eq!(c.faces[b][2][0], Color::Green);
    for i in 0..3 {
        assert_eq!(c.faces[Face::U as usize][i][2], Color::Red);
        assert_eq!(c.faces[Face::F as usize][i][2], Color::Yellow);
        assert_eq!(c.faces[Face::D as usize][i][2], Color::Orange);
    }
}

#[test]
fn f_prime_carries_u_row_into_l_reversed() {
    let mut c = Cube::solved();
    c.faces[Face::U as usize][2][0] = Color::Orange;
    c.apply_move(&Move::new(Face::F, false, false));
    let l = Face::L as usize;
    assert_eq!(c.faces[l][0][2], Color::White);
    assert_eq!(c.faces[l][1][2], Color::White);
    assert_eq!(c.faces[l][2][2], Color::Orange);
    for j in 0..3 {
        assert_eq!(c.faces[Face::U as usize][2][j], Color::Blue);
        assert_eq!(c.faces[Face::R as usize][j][0], Color::Yellow);
        assert_eq!(c.faces[Face::D as usize][0][j], Color::Green);
    }
}

#[test]
fn opposite_turns_cancel_for_every_face() {
    for face in Face::ALL {
        let start = scrambled();
        let mut c = start;
        c.apply_move(&Move::new(face, true, false));
        c.apply_move(&Move::new(face, false, false));
        assert_eq!(c, start);
        c.apply_move(&Move::new(face, false, false));
        c.apply_move(&Move::new(face, true, false));
        assert_eq!(c, start);
    }
}

#[test]
fn half_turn_direction_makes_no_difference() {
    for face in Face::ALL {
        let start = scrambled();
        let mut a = start;
        a.apply_move(&Move::new(face, true, true));
        let mut b = start;
        b.apply_move(&Move::new(face, false, true));
        assert_eq!(a, b);
    }
}

#[test]
fn f_r_r_prime_f_prime_is_solved() {
    let mut c = Cube::solved();
    c.apply_moves(&rubiks_cube::cube::moves::parse_moves("F R R' F'").unwrap());
    assert_eq!(c, Cube::solved());
}

#[test]
fn sexy_move_six_times_is_solved() {
    let mut c = Cube::solved();
    let ms = rubiks_cube::cube::moves::parse_moves("R U R' U'").unwrap();
    for _ in 0..6 {
        c.apply_moves(&ms);
    }
    assert_eq!(c, Cube::solved());
}

#[test]
fn half_turn_is_two_quarter_turns() {
    let start = scrambled();
    let mut a = start;
    a.apply_move(&Move::new(Face::R, true, true));
    let mut b = start;
    b.apply_move(&Move::new(Face::R, true, false));
    b.apply_move(&Move::new(Face::R, true, false));
    assert_eq!(a, b);
}

#[test]
fn centres_stay() {
    let start = scrambled();
    for face in Face::ALL {
        let mut c = start;
        c.apply_move(&Move::new(face, true, false));
        for f in 0..6 {
            assert_eq!(c.faces[f][1][1], start.faces[f][1][1]);
        }
    }
}

#[test]
fn apply_moves_in_order() {
    let ms = [Move::new(Face::R, true, false), Move::new(Face::U, false, false)];
    let mut a = Cube::solved();
    a.apply_moves(&ms);
    let mut b = Cube::solved();
    b.apply_move(&ms[0]);
    b.apply_move(&ms[1]);
    assert_eq!(a, b);
    let mut e = Cube::solved();
    e.apply_moves(&[]);
    assert_eq!(e, Cube::solved());
}

#[test]
fn get_face_and_get_face_mut() {
    let mut c = Cube::solved();
    assert_eq!(*c.get_face(Face::B), [[Color::Orange; 3]; 3]);
    c.get_face_mut(Face::B)[0][0] = Color::White;
    assert_eq!(c.faces[Face::B as usize][0][0], Color::White);
    assert_eq!(c.faces[Face::U as usize], [[Color::White; 3]; 3]);
}

#[test]
fn colours() {
    assert_eq!(Color::Orange.as_rgb(), (255, 165, 0));
    assert_eq!(Color::White.as_rgb(), (255, 255, 255));
    assert_eq!(Color::Yellow.as_rgb(), (255, 255, 0));
    assert_eq!(Color::Red.as_rgb(), (255, 0, 0));
    assert_eq!(Color::Blue.as_rgb(), (0, 0, 255));
    assert_eq!(Color::Green.as_rgb(), (0, 255, 0));
    assert_eq!(Color::from_face(Face::U), Color::White);
    assert_eq!(Color::from_face(Face::D), Color::Yellow);
    assert_eq!(Color::from_face(Face::F), Color::Red);
    assert_eq!(Color::from_face(Face::B), Color::Orange);
    assert_eq!(Color::from_face(Face::R), Color::Blue);
    assert_eq!(Color::from_face(Face::L), Color::Green);
}

#[test]
fn moves_keep_nine_stickers_of_each_colour() {
    let c = scrambled();
    assert_ne!(c, Cube::solved());
    for colour in [Color::White, Color::Yellow, Color::Red, Color::Orange, Color::Blue, Color::Green] {
        let n = c.faces.iter().flatten().flatten().filter(|s| **s == colour).count();
        assert_eq!(n, 9);
    }
}
