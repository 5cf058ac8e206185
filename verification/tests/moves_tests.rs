use rubiks_cube::cube::moves::{inverse_moves, parse_moves, scramble_with_turns, Face, Move};
use rubiks_cube::cube::Cube;

#[test]
fn face_names_and_indices() {
    let names: Vec<&str> = Face::ALL.iter().map(|f| f.name()).collect();
    assert_eq!(names, vec!["U", "D", "F", "B", "R", "L"]);
    for (i, f) in Face::ALL.iter().enumerate() {
        assert_eq!(f.index(), i);
        assert_eq!(*f as usize, i);
    }
}

#[test]
fn face_from_str() {
    assert_eq!("R".parse::<Face>(), Ok(Face::R));
    assert_eq!("L".parse::<Face>(), Ok(Face::L));
    assert_eq!("x".parse::<Face>(), Err("Unknown face: x".to_string()));
    assert_eq!("RU".parse::<Face>(), Err("Unknown face: RU".to_string()));
    assert_eq!("".parse::<Face>(), Err("Unknown face: ".to_string()));
    assert_eq!(Face::from_char('D'), Some(Face::D));
    assert_eq!(Face::from_char('d'), None);
}

#[test]
fn notation_of_moves() {
    assert_eq!(Move::new(Face::R, true, false).notation(), "R");
    assert_eq!(Move::new(Face::U, false, false).notation(), "U'");
    assert_eq!(Move::new(Face::F, true, true).notation(), "F2");
    assert_eq!(Move::new(Face::B, false, true).notation(), "B2");
}

#[test]
fn parse_standard_formula() {
    let ms = parse_moves("R U R' U'").unwrap();
    assert_eq!(
        ms,
        vec![
            Move::new(Face::R, true, false),
            Move::new(Face::U, true, false),
            Move::new(Face::R, false, false),
            Move::new(Face::U, false, false),
        ]
    );
}

#[test]
fn parse_half_turns_and_no_spaces() {
    let ms = parse_moves("F2B'\tL\n").unwrap();
    assert_eq!(
        ms,
        vec![Move::new(Face::F, true, true), Move::new(Face::B, false, false), Move::new(Face::L, true, false)]
    );
}

#[test]
fn parse_drops_all_white_space_first() {
    // The modifier may stand apart from its face letter.
    assert_eq!(parse_moves("R 2").unwrap(), vec![Move::new(Face::R, true, true)]);
    assert_eq!(parse_moves("U\u{3000}'").unwrap(), vec![Move::new(Face::U, false, false)]);
}

#[test]
fn parse_empty() {
    assert_eq!(parse_moves("").unwrap(), vec![]);
    assert_eq!(parse_moves("   ").unwrap(), vec![]);
}

#[test]
fn parse_errors_name_the_character() {
    assert_eq!(parse_moves("R X"), Err("Unknown face: X".to_string()));
    assert_eq!(parse_moves("r"), Err("Unknown face: r".to_string()));
    assert_eq!(parse_moves("R''"), Err("Unknown face: '".to_string()));
    assert_eq!(parse_moves("2R"), Err("Unknown face: 2".to_string()));
    assert_eq!(parse_moves("R U Ž"), Err("Unknown face: Ž".to_string()));
}

#[test]
fn notation_reads_back() {
    let ms = vec![
        Move::new(Face::R, true, false),
        Move::new(Face::U, true, true),
        Move::new(Face::L, false, false),
        Move::new(Face::D, true, false),
    ];
    let text: Vec<String> = ms.iter().map(|m| m.notation()).collect();
    assert_eq!(parse_moves(&text.join(" ")).unwrap(), ms);
    assert_eq!(parse_moves(&text.concat()).unwrap(), ms);
}

#[test]
fn inverse_reverses_and_flips() {
    let ms = vec![
        Move::new(Face::R, true, false),
        Move::new(Face::U, false, true),
        Move::new(Face::F, false, false),
    ];
    let inv = inverse_moves(&ms);
    assert_eq!(
        inv,
        vec![
            Move::new(Face::F, true, false),
            Move::new(Face::U, false, true),
            Move::new(Face::R, false, false),
        ]
    );
    assert_eq!(inverse_moves(&inv), ms);
    assert_eq!(inverse_moves(&[]), vec![]);
}

#[test]
fn inverse_undoes_any_sequence() {
    let ms = parse_moves("U L' D2 F2 L U' B2 D R F' B R2 L2 D'").unwrap();
    let mut start = Cube::solved();
    start.apply_moves(&parse_moves("R U2 F' L").unwrap());
    let mut c = start;
    c.apply_moves(&ms);
    assert_ne!(c, start);
    c.apply_moves(&inverse_moves(&ms));
    assert_eq!(c, start);
}

#[test]
fn scramble_then_inverse_is_solved() {
    let turns: Vec<(bool, bool)> = (0..30).map(|i| [(true, false), (false, false), (true, true)][i % 3]).collect();
    let ms = scramble_with_turns(&turns);
    let mut c = Cube::solved();
    c.apply_moves(&ms);
    c.apply_moves(&inverse_moves(&ms));
    assert_eq!(c, Cube::solved());
}

#[test]
fn scramble_follows_turns_and_never_repeats_a_face() {
    let kinds = [(true, false), (false, false), (true, true)];
    let turns: Vec<(bool, bool)> = (0..40).map(|i| kinds[i % 3]).collect();
    for _ in 0..20 {
        let ms = scramble_with_turns(&turns);
        assert_eq!(ms.len(), turns.len());
        for (m, t) in ms.iter().zip(turns.iter()) {
            assert_eq!((m.clockwise, m.double), *t);
        }
        for w in ms.windows(2) {
            assert_ne!(w[0].face, w[1].face);
        }
    }
    assert!(scramble_with_turns(&[]).is_empty());
}

#[test]
fn scramble_uses_several_faces() {
    let turns = vec![(true, false); 60];
    let ms = scramble_with_turns(&turns);
    let mut seen = [false; 6];
    for m in &ms {
        seen[m.face.index()] = true;
    }
    assert!(seen.iter().filter(|s| **s).count() >= 3);
}
