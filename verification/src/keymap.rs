//! The fixed subgrid key layout.
//!
//! While a main cell is zoomed, one further keystroke addresses a
//! subgrid cell. The 24 mapped keys form three keyboard rows of eight
//! (`QWERUIOP`, `ASDFJKL;`, `ZXCVNM,.`), matching a standard keyboard's
//! top, home and bottom letter rows; letters are accepted in either
//! case. The map is a bijection between the 24 canonical keys and the
//! 24 subgrid cells.

use vstd::prelude::*;

verus! {

/// Subgrid cell addressed by a key, or `None` for an unmapped key.
pub open spec fn spec_subgrid_key(c: char) -> Option<(u8, u8)> {
    match c {
        'q' | 'Q' => Some((0u8, 0u8)),
        'w' | 'W' => Some((0u8, 1u8)),
        'e' | 'E' => Some((0u8, 2u8)),
        'r' | 'R' => Some((0u8, 3u8)),
        'u' | 'U' => Some((0u8, 4u8)),
        'i' | 'I' => Some((0u8, 5u8)),
        'o' | 'O' => Some((0u8, 6u8)),
        'p' | 'P' => Some((0u8, 7u8)),
        'a' | 'A' => Some((1u8, 0u8)),
        's' | 'S' => Some((1u8, 1u8)),
        'd' | 'D' => Some((1u8, 2u8)),
        'f' | 'F' => Some((1u8, 3u8)),
        'j' | 'J' => Some((1u8, 4u8)),
        'k' | 'K' => Some((1u8, 5u8)),
        'l' | 'L' => Some((1u8, 6u8)),
        ';' => Some((1u8, 7u8)),
        'z' | 'Z' => Some((2u8, 0u8)),
        'x' | 'X' => Some((2u8, 1u8)),
        'c' | 'C' => Some((2u8, 2u8)),
        'v' | 'V' => Some((2u8, 3u8)),
        'n' | 'N' => Some((2u8, 4u8)),
        'm' | 'M' => Some((2u8, 5u8)),
        ',' => Some((2u8, 6u8)),
        '.' => Some((2u8, 7u8)),
        _ => None,
    }
}

/// Canonical (uppercase) key label of a subgrid cell; the inverse of
/// [`spec_subgrid_key`] on the 24 cells.
pub open spec fn spec_subcell_key(sub_row: int, sub_col: int) -> char {
    if sub_row == 0 {
        if sub_col == 0 {
            'Q'
        } else if sub_col == 1 {
            'W'
        } else if sub_col == 2 {
            'E'
        } else if sub_col == 3 {
            'R'
        } else if sub_col == 4 {
            'U'
        } else if sub_col == 5 {
            'I'
        } else if sub_col == 6 {
            'O'
        } else {
            'P'
        }
    } else if sub_row == 1 {
        if sub_col == 0 {
            'A'
        } else if sub_col == 1 {
            'S'
        } else if sub_col == 2 {
            'D'
        } else if sub_col == 3 {
            'F'
        } else if sub_col == 4 {
            'J'
        } else if sub_col == 5 {
            'K'
        } else if sub_col == 6 {
            'L'
        } else {
            ';'
        }
    } else {
        if sub_col == 0 {
            'Z'
        } else if sub_col == 1 {
            'X'
        } else if sub_col == 2 {
            'C'
        } else if sub_col == 3 {
            'V'
        } else if sub_col == 4 {
            'N'
        } else if sub_col == 5 {
            'M'
        } else if sub_col == 6 {
            ','
        } else {
            '.'
        }
    }
}

/// Looks a pressed key up in the subgrid layout.
pub fn subgrid_key(c: char) -> (r: Option<(u8, u8)>)
    ensures
        r == spec_subgrid_key(c),
{
    match c {
        'q' | 'Q' => Some((0u8, 0u8)),
        'w' | 'W' => Some((0u8, 1u8)),
        'e' | 'E' => Some((0u8, 2u8)),
        'r' | 'R' => Some((0u8, 3u8)),
        'u' | 'U' => Some((0u8, 4u8)),
        'i' | 'I' => Some((0u8, 5u8)),
        'o' | 'O' => Some((0u8, 6u8)),
        'p' | 'P' => Some((0u8, 7u8)),
        'a' | 'A' => Some((1u8, 0u8)),
        's' | 'S' => Some((1u8, 1u8)),
        'd' | 'D' => Some((1u8, 2u8)),
        'f' | 'F' => Some((1u8, 3u8)),
        'j' | 'J' => Some((1u8, 4u8)),
        'k' | 'K' => Some((1u8, 5u8)),
        'l' | 'L' => Some((1u8, 6u8)),
        ';' => Some((1u8, 7u8)),
        'z' | 'Z' => Some((2u8, 0u8)),
        'x' | 'X' => Some((2u8, 1u8)),
        'c' | 'C' => Some((2u8, 2u8)),
        'v' | 'V' => Some((2u8, 3u8)),
        'n' | 'N' => Some((2u8, 4u8)),
        'm' | 'M' => Some((2u8, 5u8)),
        ',' => Some((2u8, 6u8)),
        '.' => Some((2u8, 7u8)),
        _ => None,
    }
}

/// Canonical key label of subgrid cell `(sub_row, sub_col)`, for
/// rendering the zoomed overlay.
pub fn subcell_key(sub_row: u8, sub_col: u8) -> (c: char)
    requires
        sub_row < 3,
        sub_col < 8,
    ensures
        c == spec_subcell_key(sub_row as int, sub_col as int),
{
    let labels: [char; 24] = [
        'Q', 'W', 'E', 'R', 'U', 'I', 'O', 'P',
        'A', 'S', 'D', 'F', 'J', 'K', 'L', ';',
        'Z', 'X', 'C', 'V', 'N', 'M', ',', '.',
    ];
    labels[(sub_row as usize) * 8 + (sub_col as usize)]
}

/// Every mapped key addresses a cell of the 3 by 8 subgrid.
pub proof fn lemma_subgrid_key_in_range(c: char)
    ensures
        spec_subgrid_key(c) matches Some(p) ==> p.0 < 3 && p.1 < 8,
{
}

/// Each subgrid cell is reached by exactly its canonical key: the
/// layout is onto the 24 cells, and the canonical labels are pairwise
/// distinct.
pub proof fn lemma_subgrid_layout_bijective(sub_row: int, sub_col: int)
    requires
        0 <= sub_row < 3,
        0 <= sub_col < 8,
    ensures
        spec_subgrid_key(spec_subcell_key(sub_row, sub_col)) == Some(
            (sub_row as u8, sub_col as u8),
        ),
        forall|r2: int, c2: int|
            0 <= r2 < 3 && 0 <= c2 < 8 && #[trigger] spec_subcell_key(r2, c2)
                == spec_subcell_key(sub_row, sub_col) ==> r2 == sub_row && c2 == sub_col,
{
}

} // verus!
