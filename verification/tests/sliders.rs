use chess::moves::{bish_move, rook_move};
use chess::types::{BoardState, Color, MoveList, Piece, PieceKind};

fn empty_board() -> BoardState {
    [[Piece::Empty; 8]; 8]
}

fn put(board: &mut BoardState, file: usize, rank: usize, kind: PieceKind, color: Color) {
    board[file][rank] = Piece::Occupied(kind, color);
}

#[test]
fn rook_in_corner_captures_and_stops() {
    let mut board = empty_board();
    put(&mut board, 0, 3, PieceKind::Pawn, Color::Black);
    let moves = rook_move((0, 0), &Color::White, &board);
    let expected: MoveList = vec![
        ((1, 0), false),
        ((2, 0), false),
        ((3, 0), false),
        ((4, 0), false),
        ((5, 0), false),
        ((6, 0), false),
        ((7, 0), false),
        ((0, 1), false),
        ((0, 2), false),
        ((0, 3), true),
    ];
    assert_eq!(moves, expected);
    for rank in 4..8usize {
        assert!(!moves.iter().any(|m| m.0 == (0, rank)));
    }
}

#[test]
fn rook_in_corner_on_empty_board() {
    let board = empty_board();
    let moves = rook_move((0, 0), &Color::White, &board);
    let expected: MoveList = vec![
        ((1, 0), false),
        ((2, 0), false),
        ((3, 0), false),
        ((4, 0), false),
        ((5, 0), false),
        ((6, 0), false),
        ((7, 0), false),
        ((0, 1), false),
        ((0, 2), false),
        ((0, 3), false),
        ((0, 4), false),
        ((0, 5), false),
        ((0, 6), false),
        ((0, 7), false),
    ];
    assert_eq!(moves, expected);
}

#[test]
fn rook_in_the_middle_scans_east_west_north_south() {
    let board = empty_board();
    let moves = rook_move((3, 4), &Color::Black, &board);
    let expected: MoveList = vec![
        ((4, 4), false),
        ((5, 4), false),
        ((6, 4), false),
        ((7, 4), false),
        ((2, 4), false),
        ((1, 4), false),
        ((0, 4), false),
        ((3, 5), false),
        ((3, 6), false),
        ((3, 7), false),
        ((3, 3), false),
        ((3, 2), false),
        ((3, 1), false),
        ((3, 0), false),
    ];
    assert_eq!(moves, expected);
}

#[test]
fn rook_stops_before_a_friend() {
    let mut board = empty_board();
    put(&mut board, 0, 3, PieceKind::Pawn, Color::White);
    put(&mut board, 1, 0, PieceKind::Knight, Color::White);
    let moves = rook_move((0, 0), &Color::White, &board);
    let expected: MoveList = vec![((0, 1), false), ((0, 2), false)];
    assert_eq!(moves, expected);
}

#[test]
fn rook_hemmed_in_by_friends_has_no_moves() {
    let mut board = empty_board();
    put(&mut board, 4, 3, PieceKind::Pawn, Color::Black);
    put(&mut board, 2, 3, PieceKind::Pawn, Color::Black);
    put(&mut board, 3, 4, PieceKind::Pawn, Color::Black);
    put(&mut board, 3, 2, PieceKind::Pawn, Color::Black);
    let moves = rook_move((3, 3), &Color::Black, &board);
    assert_eq!(moves, MoveList::new());
}

#[test]
fn rook_surrounded_by_enemies_captures_each() {
    let mut board = empty_board();
    put(&mut board, 4, 3, PieceKind::Pawn, Color::Black);
    put(&mut board, 2, 3, PieceKind::Pawn, Color::Black);
    put(&mut board, 3, 4, PieceKind::Pawn, Color::Black);
    put(&mut board, 3, 2, PieceKind::Pawn, Color::Black);
    put(&mut board, 5, 3, PieceKind::Pawn, Color::Black);
    let moves = rook_move((3, 3), &Color::White, &board);
    let expected: MoveList =
        vec![((4, 3), true), ((2, 3), true), ((3, 4), true), ((3, 2), true)];
    assert_eq!(moves, expected);
}

#[test]
fn rook_does_not_look_past_an_enemy() {
    let mut board = empty_board();
    put(&mut board, 5, 7, PieceKind::Bishop, Color::White);
    put(&mut board, 3, 7, PieceKind::Bishop, Color::White);
    let moves = rook_move((7, 7), &Color::Black, &board);
    let expected: MoveList = vec![
        ((6, 7), false),
        ((5, 7), true),
        ((7, 6), false),
        ((7, 5), false),
        ((7, 4), false),
        ((7, 3), false),
        ((7, 2), false),
        ((7, 1), false),
        ((7, 0), false),
    ];
    assert_eq!(moves, expected);
}

#[test]
fn bishop_in_the_middle_scans_its_four_diagonals() {
    let board = empty_board();
    let moves = bish_move((3, 3), &Color::White, &board);
    let expected: MoveList = vec![
        ((4, 4), false),
        ((5, 5), false),
        ((6, 6), false),
        ((7, 7), false),
        ((2, 2), false),
        ((1, 1), false),
        ((0, 0), false),
        ((2, 4), false),
        ((1, 5), false),
        ((0, 6), false),
        ((4, 2), false),
        ((5, 1), false),
        ((6, 0), false),
    ];
    assert_eq!(moves, expected);
}

#[test]
fn bishop_in_corner_has_one_diagonal() {
    let board = empty_board();
    let moves = bish_move((0, 0), &Color::Black, &board);
    let expected: MoveList = vec![
        ((1, 1), false),
        ((2, 2), false),
        ((3, 3), false),
        ((4, 4), false),
        ((5, 5), false),
        ((6, 6), false),
        ((7, 7), false),
    ];
    assert_eq!(moves, expected);

    let moves = bish_move((7, 0), &Color::Black, &board);
    let expected: MoveList = vec![
        ((6, 1), false),
        ((5, 2), false),
        ((4, 3), false),
        ((3, 4), false),
        ((2, 5), false),
        ((1, 6), false),
        ((0, 7), false),
    ];
    assert_eq!(moves, expected);
}

#[test]
fn bishop_captures_enemies_and_stops_before_friends() {
    let mut board = empty_board();
    put(&mut board, 5, 5, PieceKind::Pawn, Color::Black);
    put(&mut board, 6, 6, PieceKind::Pawn, Color::Black);
    put(&mut board, 1, 1, PieceKind::Pawn, Color::White);
    put(&mut board, 2, 4, PieceKind::Rook, Color::Black);
    put(&mut board, 4, 2, PieceKind::King, Color::White);
    let moves = bish_move((3, 3), &Color::White, &board);
    let expected: MoveList =
        vec![((4, 4), false), ((5, 5), true), ((2, 2), false), ((2, 4), true)];
    assert_eq!(moves, expected);
}

#[test]
fn sliders_see_the_same_cells_whatever_their_colour_on_an_empty_board() {
    let board = empty_board();
    for file in 0..8usize {
        for rank in 0..8usize {
            assert_eq!(
                rook_move((file, rank), &Color::White, &board),
                rook_move((file, rank), &Color::Black, &board)
            );
            assert_eq!(rook_move((file, rank), &Color::White, &board).len(), 14);
            assert_eq!(
                bish_move((file, rank), &Color::White, &board),
                bish_move((file, rank), &Color::Black, &board)
            );
        }
    }
}
