use store::board::{is_full, winning_symbol};
use store::{Symbol, Tile};

fn b(cells: &[(usize, Symbol)]) -> [Tile; 9] {
    let mut board = [Tile::Empty; 9];
    for &(i, s) in cells {
        board[i] = Tile::Occupied(s);
    }
    board
}

#[test]
fn row_win() {
    assert_eq!(
        winning_symbol(&b(&[(0, Symbol::X), (1, Symbol::X), (2, Symbol::X)])),
        Some(Symbol::X)
    );
}

#[test]
fn col_win() {
    assert_eq!(
        winning_symbol(&b(&[(0, Symbol::O), (3, Symbol::O), (6, Symbol::O)])),
        Some(Symbol::O)
    );
}

#[test]
fn diag_win() {
    assert_eq!(
        winning_symbol(&b(&[(0, Symbol::X), (4, Symbol::X), (8, Symbol::X)])),
        Some(Symbol::X)
    );
}

#[test]
fn no_win() {
    assert_eq!(winning_symbol(&b(&[(0, Symbol::X), (1, Symbol::O)])), None);
}

#[test]
fn full() {
    assert!(is_full(&[Tile::Occupied(Symbol::X); 9]));
}

#[test]
fn not_full() {
    assert!(!is_full(&b(&[(0, Symbol::X)])));
}

#[test]
fn anti_diagonal_and_last_column_win() {
    assert_eq!(
        winning_symbol(&b(&[(2, Symbol::O), (4, Symbol::O), (6, Symbol::O)])),
        Some(Symbol::O)
    );
    assert_eq!(
        winning_symbol(&b(&[(2, Symbol::X), (5, Symbol::X), (8, Symbol::X)])),
        Some(Symbol::X)
    );
}

#[test]
fn first_line_in_order_decides_when_both_symbols_fill_a_line() {
    // Row 0 is X, row 2 is O: the rows come first, and row 0 before row 2.
    let board = b(&[
        (0, Symbol::X),
        (1, Symbol::X),
        (2, Symbol::X),
        (6, Symbol::O),
        (7, Symbol::O),
        (8, Symbol::O),
    ]);
    assert_eq!(winning_symbol(&board), Some(Symbol::X));
}

#[test]
fn mixed_line_is_no_win() {
    assert_eq!(
        winning_symbol(&b(&[(0, Symbol::X), (1, Symbol::O), (2, Symbol::X)])),
        None
    );
}

#[test]
fn empty_board_is_neither_full_nor_won() {
    let board = [Tile::Empty; 9];
    assert_eq!(winning_symbol(&board), None);
    assert!(!is_full(&board));
}
