use rubiks_cube::cube::moves::{Face, Move};
use rubiks_cube::cube::Cube;
use rubiks_cube::history::History;
use rubiks_cube::playback::Playback;

#[test]
fn starts_solved_with_nothing_to_undo() {
    let mut h = History::new();
    assert_eq!(*h.cube(), Cube::solved());
    assert_eq!(h.history_len(), 1);
    assert!(!h.undo());
    assert!(!h.redo());
    assert_eq!(*h.cube(), Cube::solved());
}

#[test]
fn undo_and_redo_one_move() {
    let mut h = History::new();
    let mv = Move::new(Face::R, true, false);
    h.push_history();
    h.apply_move(&mv);
    let mut turned = Cube::solved();
    turned.apply_move(&mv);
    assert_eq!(*h.cube(), turned);
    assert!(h.undo());
    assert_eq!(*h.cube(), Cube::solved());
    assert_eq!(h.redo_len(), 1);
    assert!(h.redo());
    assert_eq!(*h.cube(), turned);
    assert_eq!(h.redo_len(), 0);
}

#[test]
fn undo_steps_back_one_operation_at_a_time() {
    let mut h = History::new();
    let f = Move::new(Face::F, true, false);
    let r = Move::new(Face::R, true, false);
    h.push_history();
    h.apply_move(&f);
    let mut after_f = Cube::solved();
    after_f.apply_move(&f);
    h.push_history();
    h.apply_move(&r);
    let mut after_fr = after_f;
    after_fr.apply_move(&r);
    assert_eq!(h.history_len(), 3);
    assert!(h.undo());
    assert_eq!(*h.cube(), after_f);
    assert_eq!(h.history_len(), 2);
    assert!(h.undo());
    assert_eq!(*h.cube(), Cube::solved());
    assert!(!h.undo());
    assert_eq!(*h.cube(), Cube::solved());
    assert!(h.redo());
    assert_eq!(*h.cube(), after_f);
    assert!(h.redo());
    assert_eq!(*h.cube(), after_fr);
    assert!(!h.redo());
}

#[test]
fn new_operation_clears_redo() {
    let mut h = History::new();
    h.push_history();
    h.apply_move(&Move::new(Face::L, true, false));
    assert!(h.undo());
    h.push_history();
    assert_eq!(h.redo_len(), 0);
    assert!(!h.redo());
}

#[test]
fn reset_records_and_solves() {
    let mut h = History::new();
    h.push_history();
    h.apply_move(&Move::new(Face::F, true, true));
    let mut turned = Cube::solved();
    turned.apply_move(&Move::new(Face::F, true, true));
    h.reset();
    assert_eq!(*h.cube(), Cube::solved());
    assert_eq!(h.history_len(), 3);
    assert!(h.undo());
    assert_eq!(*h.cube(), turned);
}

#[test]
fn playback_walks_through_moves() {
    let ms = vec![Move::new(Face::R, true, false), Move::new(Face::U, false, false)];
    let mut p = Playback::new(ms.clone());
    let mut c = Cube::solved();
    assert!(p.is_running());
    assert_eq!(p.current_move(), Some(ms[0]));
    c.apply_move(&p.current_move().unwrap());
    p.advance();
    assert_eq!(p.current_move(), Some(ms[1]));
    c.apply_move(&p.current_move().unwrap());
    p.advance();
    assert!(!p.is_running());
    assert_eq!(p.current_move(), None);
    p.advance();
    assert!(!p.is_running());
    assert_eq!(p.current_move(), None);
    let mut d = Cube::solved();
    d.apply_moves(&ms);
    assert_eq!(c, d);
}
