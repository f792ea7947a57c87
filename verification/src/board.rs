//! Board rules of tic-tac-toe: three in a row, and a full board.

use vstd::prelude::*;
use crate::state::{Symbol, Tile};

verus! {

/// The number of three-in-a-row lines on the board.
pub const LINE_COUNT: usize = 8;

/// The `k`-th winning line of the 3x3 board, as three row-major indices:
/// the three rows, then the three columns, then the two diagonals.
pub open spec fn win_line(k: int) -> (int, int, int) {
    if k == 0 {
        (0, 1, 2)
    } else if k == 1 {
        (3, 4, 5)
    } else if k == 2 {
        (6, 7, 8)
    } else if k == 3 {
        (0, 3, 6)
    } else if k == 4 {
        (1, 4, 7)
    } else if k == 5 {
        (2, 5, 8)
    } else if k == 6 {
        (0, 4, 8)
    } else {
        (2, 4, 6)
    }
}

/// `Some(s)` when the three cells `a`, `b`, `c` all hold symbol `s`.
pub open spec fn line_owner(board: Seq<Tile>, a: int, b: int, c: int) -> Option<Symbol> {
    match board[a] {
        Tile::Occupied(s) => if board[b] == Tile::Occupied(s) && board[c] == Tile::Occupied(s) {
            Some(s)
        } else {
            None
        },
        Tile::Empty => None,
    }
}

/// The owner of the `k`-th line, if one symbol fills it.
pub open spec fn line_k_owner(board: Seq<Tile>, k: int) -> Option<Symbol> {
    let (a, b, c) = win_line(k);
    line_owner(board, a, b, c)
}

/// The owner of the first filled line among lines `k..8`, in line order.
pub open spec fn first_owner_from(board: Seq<Tile>, k: int) -> Option<Symbol>
    decreases 8 - k,
{
    if k < 0 || k >= 8 {
        None
    } else {
        match line_k_owner(board, k) {
            Some(s) => Some(s),
            None => first_owner_from(board, k + 1),
        }
    }
}

/// The winner of a board: the symbol filling the first completed line, in
/// the order rows, columns, diagonals.
pub open spec fn board_winner(board: Seq<Tile>) -> Option<Symbol> {
    first_owner_from(board, 0)
}

/// Symbol `s` fills some line of the board.
pub open spec fn has_line(board: Seq<Tile>, s: Symbol) -> bool {
    exists|k: int| 0 <= k < 8 && #[trigger] line_k_owner(board, k) == Some(s)
}

/// Cells `i`, `j` and `k` all hold symbol `s`.
pub open spec fn filled(b: Seq<Tile>, s: Symbol, i: int, j: int, k: int) -> bool {
    b[i] == Tile::Occupied(s) && b[j] == Tile::Occupied(s) && b[k] == Tile::Occupied(s)
}

/// Symbol `s` holds three in a row: a whole row, a whole column or a whole
/// diagonal of the 3x3 board.
pub open spec fn three_in_a_row(b: Seq<Tile>, s: Symbol) -> bool {
    ||| filled(b, s, 0, 1, 2)
    ||| filled(b, s, 3, 4, 5)
    ||| filled(b, s, 6, 7, 8)
    ||| filled(b, s, 0, 3, 6)
    ||| filled(b, s, 1, 4, 7)
    ||| filled(b, s, 2, 5, 8)
    ||| filled(b, s, 0, 4, 8)
    ||| filled(b, s, 2, 4, 6)
}

/// Every cell of the board is occupied.
pub open spec fn board_full(board: Seq<Tile>) -> bool {
    forall|i: int| 0 <= i < board.len() ==> board[i] != Tile::Empty
}

fn win_line_exec(k: usize) -> (r: (usize, usize, usize))
    requires
        k < 8,
    ensures
        r.0 as int == win_line(k as int).0,
        r.1 as int == win_line(k as int).1,
        r.2 as int == win_line(k as int).2,
        r.0 < 9 && r.1 < 9 && r.2 < 9,
{
    if k == 0 {
        (0, 1, 2)
    } else if k == 1 {
        (3, 4, 5)
    } else if k == 2 {
        (6, 7, 8)
    } else if k == 3 {
        (0, 3, 6)
    } else if k == 4 {
        (1, 4, 7)
    } else if k == 5 {
        (2, 5, 8)
    } else if k == 6 {
        (0, 4, 8)
    } else {
        (2, 4, 6)
    }
}

/// Checks the board for a winning pattern.
///
/// Returns `Some(Symbol)` of the winner if a win is found, or `None` otherwise.
pub fn winning_symbol(board: &[Tile; 9]) -> (r: Option<Symbol>)
    ensures
        r == board_winner(board@),
        r is None <==> (!three_in_a_row(board@, Symbol::X) && !three_in_a_row(board@, Symbol::O)),
        r matches Some(s) ==> three_in_a_row(board@, s),
{
    proof {
        lemma_winner_is_three_in_a_row(board@);
    }
    let mut k: usize = 0;
    while k < LINE_COUNT
        invariant
            k <= 8,
            board_winner(board@) == first_owner_from(board@, k as int),
        decreases 8 - k,
    {
        let (a, b, c) = win_line_exec(k);
        if let Tile::Occupied(symbol) = board[a] {
            if board[b] == Tile::Occupied(symbol) && board[c] == Tile::Occupied(symbol) {
                return Some(symbol);
            }
        }
        k = k + 1;
    }
    None
}

/// Checks if the board is completely filled with tiles.
pub fn is_full(board: &[Tile; 9]) -> (r: bool)
    ensures
        r == board_full(board@),
        r <==> (forall|i: int| 0 <= i < 9 ==> board@[i] != Tile::Empty),
{
    let mut i: usize = 0;
    while i < 9
        invariant
            i <= 9,
            forall|j: int| 0 <= j < i ==> board@[j] != Tile::Empty,
        decreases 9 - i,
    {
        if board[i] == Tile::Empty {
            return false;
        }
        i = i + 1;
    }
    true
}

/// The winner of a board is `None` exactly when no line is filled by one
/// symbol, and `Some(s)` only when `s` fills some line.
pub proof fn lemma_winner_iff_line(board: Seq<Tile>)
    ensures
        board_winner(board) is None <==> (!has_line(board, Symbol::X) && !has_line(board, Symbol::O)),
        forall|s: Symbol| board_winner(board) == Some(s) ==> has_line(board, s),
{
    lemma_first_owner_from(board, 0);
    if board_winner(board) is None {
        assert forall|s: Symbol| !has_line(board, s) by {
            if has_line(board, s) {
                let k = choose|k: int| 0 <= k < 8 && #[trigger] line_k_owner(board, k) == Some(s);
                assert(line_k_owner(board, k) is None);
            }
        }
    } else {
        let s = board_winner(board).unwrap();
        assert(has_line(board, s));
    }
}

/// Lines `k..8`: none filled when the first owner from `k` is `None`, and
/// the first owner fills one of them otherwise.
pub proof fn lemma_first_owner_from(board: Seq<Tile>, k: int)
    requires
        0 <= k <= 8,
    ensures
        first_owner_from(board, k) is None ==> forall|j: int| k <= j < 8 ==> #[trigger] line_k_owner(board, j) is None,
        first_owner_from(board, k) matches Some(s) ==> exists|j: int| k <= j < 8 && #[trigger] line_k_owner(board, j) == Some(s),
    decreases 8 - k,
{
    if k < 8 {
        lemma_first_owner_from(board, k + 1);
        if line_k_owner(board, k) is None {
            assert forall|j: int| k <= j < 8 && first_owner_from(board, k) is None implies #[trigger] line_k_owner(board, j) is None by {
                if j > k {
                    assert(first_owner_from(board, k + 1) is None);
                }
            }
        }
    }
}

/// The lines that `win_line` lists are exactly the rows, the columns and
/// the diagonals: a symbol fills one of them just when it has three in a row.
pub proof fn lemma_lines_are_rows_columns_diagonals(b: Seq<Tile>, s: Symbol)
    requires
        b.len() == 9,
    ensures
        has_line(b, s) <==> three_in_a_row(b, s),
{
    if three_in_a_row(b, s) {
        if filled(b, s, 0, 1, 2) {
            assert(line_k_owner(b, 0) == Some(s));
        } else if filled(b, s, 3, 4, 5) {
            assert(line_k_owner(b, 1) == Some(s));
        } else if filled(b, s, 6, 7, 8) {
            assert(line_k_owner(b, 2) == Some(s));
        } else if filled(b, s, 0, 3, 6) {
            assert(line_k_owner(b, 3) == Some(s));
        } else if filled(b, s, 1, 4, 7) {
            assert(line_k_owner(b, 4) == Some(s));
        } else if filled(b, s, 2, 5, 8) {
            assert(line_k_owner(b, 5) == Some(s));
        } else if filled(b, s, 0, 4, 8) {
            assert(line_k_owner(b, 6) == Some(s));
        } else {
            assert(line_k_owner(b, 7) == Some(s));
        }
    }
    if has_line(b, s) {
        let k = choose|k: int| 0 <= k < 8 && #[trigger] line_k_owner(b, k) == Some(s);
        assert(k == 0 || k == 1 || k == 2 || k == 3 || k == 4 || k == 5 || k == 6 || k == 7);
    }
}

/// A board has no winner exactly when neither symbol has three in a row
/// (a row, a column or a diagonal), and a winner always has three in a row.
pub proof fn lemma_winner_is_three_in_a_row(b: Seq<Tile>)
    requires
        b.len() == 9,
    ensures
        board_winner(b) is None <==> (!three_in_a_row(b, Symbol::X) && !three_in_a_row(b, Symbol::O)),
        board_winner(b) matches Some(s) ==> three_in_a_row(b, s),
{
    lemma_winner_iff_line(b);
    lemma_lines_are_rows_columns_diagonals(b, Symbol::X);
    lemma_lines_are_rows_columns_diagonals(b, Symbol::O);
    if let Some(s) = board_winner(b) {
        lemma_lines_are_rows_columns_diagonals(b, s);
    }
}

} // verus!
