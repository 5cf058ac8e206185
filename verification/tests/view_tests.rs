use rubiks_cube::cube::moves::{Face, Move};
use rubiks_cube::cube::{Color, Cube};
use rubiks_cube::cubie::{cubie_sticker, is_in_rotation_layer};
use rubiks_cube::net::{edge_slides, net_cell, NetClick};

#[test]
fn net_layout_is_a_cross() {
    assert_eq!(net_cell(Face::U), (1, 0));
    assert_eq!(net_cell(Face::L), (0, 1));
    assert_eq!(net_cell(Face::F), (1, 1));
    assert_eq!(net_cell(Face::R), (2, 1));
    assert_eq!(net_cell(Face::B), (3, 1));
    assert_eq!(net_cell(Face::D), (1, 2));
}

#[test]
fn slides_towards_the_turning_face() {
    assert_eq!(
        edge_slides(Face::F),
        vec![(Face::U, true, 2, (0, 1)), (Face::R, false, 0, (-1, 0)), (Face::D, true, 0, (0, -1)), (Face::L, false, 2, (1, 0))]
    );
    assert_eq!(edge_slides(Face::B), vec![(Face::R, false, 2, (1, 0))]);
    assert_eq!(edge_slides(Face::L).len(), 3);
    assert_eq!(edge_slides(Face::R), vec![(Face::F, false, 2, (1, 0)), (Face::B, false, 0, (-1, 0))]);
    assert!(edge_slides(Face::U).is_empty());
    assert!(edge_slides(Face::D).is_empty());
    let click = NetClick { face: Face::D };
    assert_eq!(click.face, Face::D);
}

#[test]
fn layers_of_the_grid() {
    assert!(is_in_rotation_layer(Face::U, 1, 0, 1));
    assert!(!is_in_rotation_layer(Face::U, 1, 1, 1));
    assert!(is_in_rotation_layer(Face::F, 0, 0, 2));
    assert!(is_in_rotation_layer(Face::R, 2, 2, 0));
    assert!(is_in_rotation_layer(Face::L, 0, 1, 1));
    assert!(is_in_rotation_layer(Face::B, 1, 1, 0));
    assert!(is_in_rotation_layer(Face::D, 0, 2, 0));
    let mut n = 0;
    for ix in 0..3 {
        for iy in 0..3 {
            for iz in 0..3 {
                if is_in_rotation_layer(Face::D, ix, iy, iz) {
                    n += 1;
                }
            }
        }
    }
    assert_eq!(n, 9);
}

#[test]
fn cubie_stickers_match_faces() {
    let mut c = Cube::solved();
    c.apply_move(&Move::new(Face::U, true, false));
    // The top-front-right cubie shows on its F side what the F face shows at row 0, column 2.
    assert_eq!(cubie_sticker(&c, Face::F, 2, 0, 2), c.faces[Face::F as usize][0][2]);
    assert_eq!(cubie_sticker(&c, Face::F, 2, 0, 2), Color::Blue);
    assert_eq!(cubie_sticker(&c, Face::R, 2, 0, 2), c.faces[Face::R as usize][0][0]);
    assert_eq!(cubie_sticker(&c, Face::U, 2, 0, 2), c.faces[Face::U as usize][2][2]);
    assert_eq!(cubie_sticker(&c, Face::B, 0, 1, 0), c.faces[Face::B as usize][1][2]);
    assert_eq!(cubie_sticker(&c, Face::D, 1, 2, 0), c.faces[Face::D as usize][2][1]);
    assert_eq!(cubie_sticker(&c, Face::L, 0, 2, 1), c.faces[Face::L as usize][2][1]);
}

#[test]
fn every_sticker_shown_once() {
    let c = Cube::solved();
    let mut count = [0usize; 6];
    for face in Face::ALL {
        for ix in 0..3 {
            for iy in 0..3 {
                for iz in 0..3 {
                    if is_in_rotation_layer(face, ix, iy, iz) {
                        assert_eq!(cubie_sticker(&c, face, ix, iy, iz), Color::from_face(face));
                        count[face.index()] += 1;
                    }
                }
            }
        }
    }
    assert_eq!(count, [9; 6]);
}
