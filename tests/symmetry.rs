use matryoshka_tic_tac_toe::game::{Game, PlayerKind};
use matryoshka_tic_tac_toe::symmetry::{
    coordinates_to_index, fliptate_coordinates, index_to_coordinates, rotate_coordinates_by_90,
    rotate_ij_by_90, Symmetry,
};

#[test]
fn rotations() {
    // o x o    0 0 3
    // x _ o    1 _ 1
    // x o x    3 2 2
    let mut game = Game::new_with_size(10);
    game = game.make_move(0, 1, 0).unwrap(); // x
    game = game.make_move(0, 0, 0).unwrap(); // o
    game = game.make_move(1, 0, 1).unwrap(); // x
    game = game.make_move(1, 2, 1).unwrap(); // o
    game = game.make_move(2, 2, 2).unwrap(); // x
    game = game.make_move(2, 1, 2).unwrap(); // o
    game = game.make_move(2, 0, 3).unwrap(); // o
    game = game.make_move(0, 2, 3).unwrap(); // o
    assert_eq!(game.winner(), None);
    assert_eq!(game.has_mirror_symmetry(Symmetry::FlipH), false);
    assert_eq!(game.has_mirror_symmetry(Symmetry::FlipV), false);
    assert_eq!(game.has_rotational_symmetry(), false);

    // x x o    3 1 0
    // o _ x    2 _ 0
    // x o o    2 1 3
    let mut game_rot90 = Game::new_with_size(10);
    game_rot90 = game_rot90.make_move(1, 2, 0).unwrap(); // x
    game_rot90 = game_rot90.make_move(0, 2, 0).unwrap(); // o
    game_rot90 = game_rot90.make_move(0, 1, 1).unwrap(); // x
    game_rot90 = game_rot90.make_move(2, 1, 1).unwrap(); // o
    game_rot90 = game_rot90.make_move(2, 0, 2).unwrap(); // x
    game_rot90 = game_rot90.make_move(1, 0, 2).unwrap(); // o
    game_rot90 = game_rot90.make_move(0, 0, 3).unwrap(); // x
    game_rot90 = game_rot90.make_move(2, 2, 3).unwrap(); // o

    assert_eq!(game.fliptate(&Symmetry::Rotate90), game_rot90);

    // x o x    2 2 3
    // o _ x    1 _ 1
    // o x o    3 0 0
    let mut game_rot180 = Game::new_with_size(10);
    game_rot180 = game_rot180.make_move(2, 1, 0).unwrap(); // x
    game_rot180 = game_rot180.make_move(2, 2, 0).unwrap(); // o
    game_rot180 = game_rot180.make_move(1, 2, 1).unwrap(); // x
    game_rot180 = game_rot180.make_move(1, 0, 1).unwrap(); // o
    game_rot180 = game_rot180.make_move(0, 0, 2).unwrap(); // x
    game_rot180 = game_rot180.make_move(0, 1, 2).unwrap(); // o
    game_rot180 = game_rot180.make_move(0, 2, 3).unwrap(); // x
    game_rot180 = game_rot180.make_move(2, 0, 3).unwrap(); // o

    assert_eq!(game.fliptate(&Symmetry::Rotate180), game_rot180);

    // x x o    3 1 2
    // o _ x    0 _ 2
    // x o o    0 1 3
    let mut game_rot270 = Game::new_with_size(10);
    game_rot270 = game_rot270.make_move(2, 1, 1).unwrap(); // x
    game_rot270 = game_rot270.make_move(0, 1, 1).unwrap(); // o
    game_rot270 = game_rot270.make_move(1, 0, 0).unwrap(); // x
    game_rot270 = game_rot270.make_move(2, 0, 0).unwrap(); // o
    game_rot270 = game_rot270.make_move(0, 2, 2).unwrap(); // x
    game_rot270 = game_rot270.make_move(1, 2, 2).unwrap(); // o
    game_rot270 = game_rot270.make_move(2, 2, 3).unwrap(); // x
    game_rot270 = game_rot270.make_move(0, 0, 3).unwrap(); // o

    assert_eq!(game.fliptate(&Symmetry::Rotate270), game_rot270);

    // x o x    3 2 2
    // x _ o    1 _ 1
    // o x o    0 0 3
    let mut game_fliph = Game::new_with_size(10);
    game_fliph = game_fliph.make_move(2, 1, 0).unwrap(); // x
    game_fliph = game_fliph.make_move(2, 0, 0).unwrap(); // o
    game_fliph = game_fliph.make_move(1, 0, 1).unwrap(); // x
    game_fliph = game_fliph.make_move(1, 2, 1).unwrap(); // o
    game_fliph = game_fliph.make_move(0, 2, 2).unwrap(); // x
    game_fliph = game_fliph.make_move(0, 1, 2).unwrap(); // o
    game_fliph = game_fliph.make_move(0, 0, 3).unwrap(); // o
    game_fliph = game_fliph.make_move(2, 2, 3).unwrap(); // o

    assert_eq!(game.fliptate(&Symmetry::FlipH), game_fliph);

    // o x o    3 0 0
    // o _ x    1 _ 1
    // x o x    2 2 3
    let mut game_flipv = Game::new_with_size(10);
    game_flipv = game_flipv.make_move(0, 1, 0).unwrap(); // x
    game_flipv = game_flipv.make_move(0, 2, 0).unwrap(); // o
    game_flipv = game_flipv.make_move(1, 2, 1).unwrap(); // x
    game_flipv = game_flipv.make_move(1, 0, 1).unwrap(); // o
    game_flipv = game_flipv.make_move(2, 0, 2).unwrap(); // x
    game_flipv = game_flipv.make_move(2, 1, 2).unwrap(); // o
    game_flipv = game_flipv.make_move(2, 2, 3).unwrap(); // x
    game_flipv = game_flipv.make_move(0, 0, 3).unwrap(); // o

    assert_eq!(game.fliptate(&Symmetry::FlipV), game_flipv);

    let mut game = Game::new();
    game = game.make_move(0, 0, 2).unwrap();
    let new_game = game.clone().fliptate(&Symmetry::Rotate90);
    assert_eq!(game, new_game.fliptate(&Symmetry::Rotate270));

    let mut game = Game::new();
    game = game.make_move(0, 0, 2).unwrap();
    let new_game = game.clone().fliptate(&Symmetry::Rotate180);
    assert_eq!(game, new_game.fliptate(&Symmetry::Rotate180));

    let mut game = Game::new();
    game = game.make_move(0, 0, 2).unwrap();
    let new_game = game.clone().fliptate(&Symmetry::FlipH);
    assert_eq!(game, new_game.fliptate(&Symmetry::FlipH));

    let mut game = Game::new();
    game = game.make_move(0, 0, 2).unwrap();
    let new_game = game.clone().fliptate(&Symmetry::FlipV);
    assert_eq!(game, new_game.fliptate(&Symmetry::FlipV));
}

fn sample_game() -> Game {
    let mut game = Game::new_with_size(6);
    game = game.make_move(0, 1, 0).unwrap();
    game = game.make_move(0, 0, 0).unwrap();
    game = game.make_move(1, 0, 1).unwrap();
    game = game.make_move(2, 2, 3).unwrap();
    game
}

#[test]
fn double_transformations_give_the_game_back() {
    let game = sample_game();
    let pairs = [
        (Symmetry::Rotate90, Symmetry::Rotate270),
        (Symmetry::Rotate270, Symmetry::Rotate90),
        (Symmetry::Rotate180, Symmetry::Rotate180),
        (Symmetry::FlipH, Symmetry::FlipH),
        (Symmetry::FlipV, Symmetry::FlipV),
        (Symmetry::NoSymmetry, Symmetry::NoSymmetry),
    ];
    for (a, b) in pairs {
        assert_eq!(game.fliptate(&a).fliptate(&b), game);
    }
    let once = game.fliptate(&Symmetry::Rotate90);
    assert_ne!(once, game);
    assert_eq!(once.players, game.players);
    assert_eq!(once.current_player_kind(), game.current_player_kind());
}

#[test]
fn reverse_undoes_rotations() {
    assert_eq!(Symmetry::Rotate90.reverse(), Symmetry::Rotate270);
    assert_eq!(Symmetry::Rotate270.reverse(), Symmetry::Rotate90);
    assert_eq!(Symmetry::Rotate180.reverse(), Symmetry::Rotate180);
    assert_eq!(Symmetry::FlipH.reverse(), Symmetry::FlipH);
    assert_eq!(Symmetry::NoSymmetry.reverse(), Symmetry::NoSymmetry);
}

#[test]
fn symmetric_boards_explore_two_indices() {
    let empty = Game::new();
    assert!(empty.has_rotational_symmetry());
    assert_eq!(empty.symmetry_range(Symmetry::FlipH), vec![0, 1]);
    assert_eq!(empty.symmetry_range(Symmetry::FlipV), vec![0, 1]);

    // x in the middle of the top row: mirror along the vertical axis only.
    let top = Game::new().make_move(0, 1, 2).unwrap();
    assert!(!top.has_rotational_symmetry());
    assert!(top.has_mirror_symmetry(Symmetry::FlipV));
    assert!(!top.has_mirror_symmetry(Symmetry::FlipH));
    assert!(!top.has_mirror_symmetry(Symmetry::Rotate90));
    assert_eq!(top.symmetry_range(Symmetry::FlipH), vec![0, 1, 2]);
    assert_eq!(top.symmetry_range(Symmetry::FlipV), vec![0, 1]);

    let corner = Game::new().make_move(0, 0, 2).unwrap();
    assert_eq!(corner.symmetry_range(Symmetry::FlipH), vec![0, 1, 2]);
    assert_eq!(corner.symmetry_range(Symmetry::FlipV), vec![0, 1, 2]);

    let centre = Game::new().make_move(1, 1, 2).unwrap();
    assert!(centre.has_rotational_symmetry());
    assert_eq!(centre.symmetry_range(Symmetry::FlipH), vec![0, 1]);
}

#[test]
fn coordinate_maps() {
    assert_eq!(rotate_coordinates_by_90(0), 6);
    assert_eq!(rotate_coordinates_by_90(4), 4);
    assert_eq!(rotate_coordinates_by_90(8), 2);
    assert_eq!(rotate_coordinates_by_90(12), 12);
    assert_eq!(fliptate_coordinates(1, &Symmetry::FlipH), 7);
    assert_eq!(fliptate_coordinates(3, &Symmetry::FlipV), 5);
    assert_eq!(fliptate_coordinates(2, &Symmetry::Rotate180), 6);
    assert_eq!(fliptate_coordinates(3, &Symmetry::Rotate270), 1);
    assert_eq!(fliptate_coordinates(5, &Symmetry::NoSymmetry), 5);
    assert_eq!(coordinates_to_index((2, 1)), 7);
    assert_eq!(coordinates_to_index((3, 0)), 0);
    assert_eq!(index_to_coordinates(5), (1, 2));
    assert_eq!(index_to_coordinates(9), (1, 1));
    assert_eq!(rotate_ij_by_90((0, 0)), (2, 0));
    assert_eq!(rotate_ij_by_90((1, 2)), (0, 1));
    assert_eq!(rotate_ij_by_90((1, 1)), (1, 1));
    assert_eq!(rotate_ij_by_90((4, 4)), (4, 4));
}

#[test]
fn fliptate_moves_the_pieces() {
    let game = Game::new().make_move(0, 0, 2).unwrap();
    let turned = game.fliptate(&Symmetry::Rotate90);
    // square 2 (top right) takes what square 0 held
    assert_eq!(turned.tiles().data()[2], Some((PlayerKind::X, 2)));
    assert_eq!(turned.tiles().data()[0], None);
}
