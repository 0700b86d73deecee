use chess::moves::{king_move, knight_move, KING_VECTORS, KNIGHT_VECTORS};
use chess::types::{BoardState, Color, MoveList, Piece, PieceKind};

fn empty_board() -> BoardState {
    [[Piece::Empty; 8]; 8]
}

fn put(board: &mut BoardState, file: usize, rank: usize, kind: PieceKind, color: Color) {
    board[file][rank] = Piece::Occupied(kind, color);
}

#[test]
fn knight_in_corner_has_two_moves() {
    let board = empty_board();
    let moves = knight_move((0, 0), &Color::White, &board);
    let expected: MoveList = vec![((2, 1), false), ((1, 2), false)];
    assert_eq!(moves, expected);
}

#[test]
fn knight_in_the_middle_has_eight_moves_in_table_order() {
    let board = empty_board();
    let moves = knight_move((4, 4), &Color::Black, &board);
    let expected: MoveList = vec![
        ((6, 5), false),
        ((6, 3), false),
        ((5, 6), false),
        ((5, 2), false),
        ((2, 5), false),
        ((2, 3), false),
        ((3, 6), false),
        ((3, 2), false),
    ];
    assert_eq!(moves, expected);
}

#[test]
fn knight_jumps_over_pieces_captures_enemies_and_skips_friends() {
    let mut board = empty_board();
    put(&mut board, 4, 5, PieceKind::Pawn, Color::White);
    put(&mut board, 5, 4, PieceKind::Pawn, Color::Black);
    put(&mut board, 5, 5, PieceKind::Pawn, Color::Black);
    put(&mut board, 6, 5, PieceKind::Rook, Color::Black);
    put(&mut board, 5, 6, PieceKind::Rook, Color::White);
    put(&mut board, 3, 2, PieceKind::Queen, Color::Black);
    let moves = knight_move((4, 4), &Color::White, &board);
    let expected: MoveList = vec![
        ((6, 5), true),
        ((6, 3), false),
        ((5, 2), false),
        ((2, 5), false),
        ((2, 3), false),
        ((3, 6), false),
        ((3, 2), true),
    ];
    assert_eq!(moves, expected);
}

#[test]
fn knight_in_far_corner_has_two_moves() {
    let board = empty_board();
    let moves = knight_move((7, 7), &Color::White, &board);
    let expected: MoveList = vec![((5, 6), false), ((6, 5), false)];
    assert_eq!(moves, expected);
}

#[test]
fn king_in_the_middle_has_eight_moves() {
    let board = empty_board();
    let moves = king_move((4, 4), &Color::White, &board, true);
    let expected: MoveList = vec![
        ((5, 5), false),
        ((5, 3), false),
        ((3, 5), false),
        ((3, 3), false),
        ((4, 5), false),
        ((5, 4), false),
        ((3, 4), false),
        ((4, 3), false),
    ];
    assert_eq!(moves, expected);
    assert_eq!(moves.len(), 8);
    for (index, vector) in KING_VECTORS.iter().enumerate() {
        let file = (4 + vector.0) as usize;
        let rank = (4 + vector.1) as usize;
        assert_eq!(moves[index], ((file, rank), false));
    }
}

#[test]
fn king_in_corner_has_three_moves() {
    let board = empty_board();
    let moves = king_move((0, 0), &Color::Black, &board, false);
    let expected: MoveList = vec![((1, 1), false), ((0, 1), false), ((1, 0), false)];
    assert_eq!(moves, expected);

    let moves = king_move((7, 7), &Color::Black, &board, false);
    let expected: MoveList = vec![((6, 6), false), ((6, 7), false), ((7, 6), false)];
    assert_eq!(moves, expected);
}

#[test]
fn king_captures_enemies_and_skips_friends() {
    let mut board = empty_board();
    put(&mut board, 5, 5, PieceKind::Pawn, Color::Black);
    put(&mut board, 5, 3, PieceKind::Pawn, Color::White);
    put(&mut board, 4, 3, PieceKind::Queen, Color::Black);
    put(&mut board, 3, 4, PieceKind::Rook, Color::White);
    let moves = king_move((4, 4), &Color::White, &board, false);
    let expected: MoveList = vec![
        ((5, 5), true),
        ((3, 5), false),
        ((3, 3), false),
        ((4, 5), false),
        ((5, 4), false),
        ((4, 3), true),
    ];
    assert_eq!(moves, expected);
}

#[test]
fn king_ignores_the_reserved_flag() {
    let mut board = empty_board();
    put(&mut board, 5, 0, PieceKind::Rook, Color::Black);
    put(&mut board, 3, 1, PieceKind::Pawn, Color::White);
    for file in 0..8usize {
        for rank in 0..8usize {
            assert_eq!(
                king_move((file, rank), &Color::White, &board, true),
                king_move((file, rank), &Color::White, &board, false)
            );
        }
    }
}

#[test]
fn vector_tables_hold_the_eight_jumps_and_the_eight_steps() {
    let knight: [(i8, i8); 8] =
        [(2, 1), (2, -1), (1, 2), (1, -2), (-2, 1), (-2, -1), (-1, 2), (-1, -2)];
    let king: [(i8, i8); 8] =
        [(1, 1), (1, -1), (-1, 1), (-1, -1), (0, 1), (1, 0), (-1, 0), (0, -1)];
    assert_eq!(KNIGHT_VECTORS, knight);
    assert_eq!(KING_VECTORS, king);
}
