//! The targeting state machine.
//!
//! One overlay activation is a targeting session. From a fresh
//! selection, two letters address a main cell (first letter the row,
//! second the column), one further subgrid key resolves a precision
//! target, Space confirms early at the center of the current selection,
//! and Escape cancels. Every resolution or cancellation returns the
//! session to `Idle`.

use vstd::prelude::*;

verus! {

use crate::geometry::ClickTarget;
use crate::geometry::GridGeometry;
use crate::geometry::cell_center_x;
use crate::geometry::cell_center_y;
use crate::geometry::lemma_precision_num_bounds;
use crate::geometry::lemma_round_le;
use crate::geometry::precision_x;
use crate::geometry::precision_y;
use crate::geometry::screen_center_x;
use crate::geometry::screen_center_y;
use crate::keymap::lemma_subgrid_key_in_range;
use crate::keymap::lemma_subgrid_layout_bijective;
use crate::keymap::spec_subcell_key;
use crate::keymap::spec_subgrid_key;
use crate::keymap::subgrid_key;

/// Progress of one targeting session. The pending letter and the
/// selected main cell live inside the variant that owns them, so a
/// session can never hold a second pending letter, nor a selected cell
/// outside the zoomed phase.
#[derive(Clone, Copy, PartialEq, Eq, Structural, Debug)]
pub enum Phase {
    /// No session is active; every key is ignored.
    Idle,
    /// The main grid is shown; at most one letter of the two-letter
    /// cell address has been received.
    SelectingMainCell { first: Option<u8> },
    /// Main cell `(row, col)` is selected and its subgrid is shown.
    ZoomedOnCell { row: u8, col: u8 },
}

impl Phase {
    /// Letter indices held by a phase stay below the grid dimension.
    pub open spec fn wf(self) -> bool {
        match self {
            Phase::Idle => true,
            Phase::SelectingMainCell { first } => first matches Some(l) ==> l < 26,
            Phase::ZoomedOnCell { row, col } => row < 26 && col < 26,
        }
    }
}

/// A logical key press, with named keys distinguished from printable
/// characters; modifiers are never consulted.
#[derive(Clone, Copy, PartialEq, Eq, Structural, Debug)]
pub enum KeyInput {
    /// The cancel key.
    Escape,
    /// The early-confirm key.
    Space,
    /// A printable character.
    Character { c: char },
    /// Any other named key; always ignored.
    OtherNamed,
}

/// What the surrounding event loop must do after a key was consumed.
#[derive(Clone, Copy, PartialEq, Eq, Structural, Debug)]
pub enum Decision {
    /// Nothing changed that the outside can observe.
    NoEffect,
    /// The displayed grid changed (a cell was zoomed); redraw.
    Redraw,
    /// The session was cancelled: hide the overlay, emit no click.
    Hide,
    /// The session completed: hide the overlay, then click `target`.
    HideAndClick { target: ClickTarget },
}

/// Letter index (0 for `A` through 25 for `Z`) of an ASCII letter in
/// either case, `None` for every other character.
pub open spec fn spec_letter_index(c: char) -> Option<u8> {
    if 65 <= c as int <= 90 {
        Some((c as int - 65) as u8)
    } else if 97 <= c as int <= 122 {
        Some((c as int - 97) as u8)
    } else {
        None
    }
}

/// The phase reached when `key` arrives in phase `p`.
pub open spec fn next_phase(p: Phase, key: KeyInput) -> Phase {
    if p is Idle {
        p
    } else {
        match key {
            KeyInput::Escape => Phase::Idle,
            KeyInput::Space => Phase::Idle,
            KeyInput::OtherNamed => p,
            KeyInput::Character { c } => match p {
                Phase::SelectingMainCell { first: None } => match spec_letter_index(c) {
                    Some(l) => Phase::SelectingMainCell { first: Some(l) },
                    None => p,
                },
                Phase::SelectingMainCell { first: Some(l0) } => match spec_letter_index(c) {
                    Some(l1) => Phase::ZoomedOnCell { row: l0, col: l1 },
                    None => p,
                },
                Phase::ZoomedOnCell { row, col } => if spec_subgrid_key(c) is Some {
                    Phase::Idle
                } else {
                    p
                },
                Phase::Idle => p,
            },
        }
    }
}

/// The decision announced when `key` arrives in phase `p` under
/// geometry `g`.
pub open spec fn spec_decision(g: GridGeometry, p: Phase, key: KeyInput) -> Decision {
    if p is Idle {
        Decision::NoEffect
    } else {
        match key {
            KeyInput::Escape => Decision::Hide,
            KeyInput::Space => match p {
                Phase::ZoomedOnCell { row, col } => Decision::HideAndClick {
                    target: ClickTarget {
                        x: cell_center_x(g, col as int) as u32,
                        y: cell_center_y(g, row as int) as u32,
                    },
                },
                _ => Decision::HideAndClick {
                    target: ClickTarget {
                        x: screen_center_x(g) as u32,
                        y: screen_center_y(g) as u32,
                    },
                },
            },
            KeyInput::OtherNamed => Decision::NoEffect,
            KeyInput::Character { c } => match p {
                Phase::SelectingMainCell { first: Some(l0) } => if spec_letter_index(c) is Some {
                    Decision::Redraw
                } else {
                    Decision::NoEffect
                },
                Phase::ZoomedOnCell { row, col } => match spec_subgrid_key(c) {
                    Some(sub) => Decision::HideAndClick {
                        target: ClickTarget {
                            x: precision_x(g, col as int, sub.1 as int) as u32,
                            y: precision_y(g, row as int, sub.0 as int) as u32,
                        },
                    },
                    None => Decision::NoEffect,
                },
                _ => Decision::NoEffect,
            },
        }
    }
}

/// Letter index of a printable key.
pub fn letter_index(c: char) -> (r: Option<u8>)
    ensures
        r == spec_letter_index(c),
{
    let v = c as u32;
    if 65 <= v && v <= 90 {
        Some((v - 65) as u8)
    } else if 97 <= v && v <= 122 {
        Some((v - 97) as u8)
    } else {
        None
    }
}

/// The mutable state of one overlay activation.
#[derive(Clone, Copy, PartialEq, Eq, Structural, Debug)]
pub struct Session {
    pub phase: Phase,
}

impl Session {
    /// A session holds only in-range letter indices.
    pub open spec fn wf(self) -> bool {
        self.phase.wf()
    }

    /// A fresh, idle session.
    pub fn new() -> (s: Session)
        ensures
            s.phase == Phase::Idle,
            s.wf(),
    {
        Session { phase: Phase::Idle }
    }

    /// Starts a fresh session on the activation signal: selection
    /// progress and any zoom are discarded.
    pub fn activate(&mut self)
        ensures
            final(self).phase == (Phase::SelectingMainCell { first: None }),
            final(self).wf(),
    {
        self.phase = Phase::SelectingMainCell { first: None };
    }

    /// Consumes one key press: advances the phase along [`next_phase`]
    /// and announces [`spec_decision`].
    pub fn handle_key(&mut self, g: &GridGeometry, key: KeyInput) -> (d: Decision)
        requires
            old(self).wf(),
            g.wf(),
        ensures
            final(self).wf(),
            final(self).phase == next_phase(old(self).phase, key),
            d == spec_decision(*g, old(self).phase, key),
    {
        let p = self.phase;
        match key {
            KeyInput::Escape => match p {
                Phase::Idle => Decision::NoEffect,
                _ => {
                    self.phase = Phase::Idle;
                    Decision::Hide
                },
            },
            KeyInput::Space => match p {
                Phase::Idle => Decision::NoEffect,
                Phase::ZoomedOnCell { row, col } => {
                    self.phase = Phase::Idle;
                    let target = g.cell_center(row, col);
                    Decision::HideAndClick { target }
                },
                Phase::SelectingMainCell { .. } => {
                    self.phase = Phase::Idle;
                    let target = g.screen_center();
                    Decision::HideAndClick { target }
                },
            },
            KeyInput::OtherNamed => Decision::NoEffect,
            KeyInput::Character { c } => match p {
                Phase::Idle => Decision::NoEffect,
                Phase::SelectingMainCell { first: None } => match letter_index(c) {
                    Some(l) => {
                        self.phase = Phase::SelectingMainCell { first: Some(l) };
                        Decision::NoEffect
                    },
                    None => Decision::NoEffect,
                },
                Phase::SelectingMainCell { first: Some(l0) } => match letter_index(c) {
                    Some(l1) => {
                        self.phase = Phase::ZoomedOnCell { row: l0, col: l1 };
                        Decision::Redraw
                    },
                    None => Decision::NoEffect,
                },
                Phase::ZoomedOnCell { row, col } => {
                    proof {
                        lemma_subgrid_key_in_range(c);
                    }
                    match subgrid_key(c) {
                        Some((sub_row, sub_col)) => {
                            self.phase = Phase::Idle;
                            let target = g.precision_target(row, col, sub_row, sub_col);
                            Decision::HideAndClick { target }
                        },
                        None => Decision::NoEffect,
                    }
                },
            },
        }
    }
}

/// From a fresh selection, the two letters addressing `(row, col)`
/// first buffer the row letter and then zoom onto exactly that main
/// cell; neither keystroke emits a click.
pub proof fn lemma_two_letters_zoom(g: GridGeometry, c0: char, c1: char, row: u8, col: u8)
    requires
        g.wf(),
        spec_letter_index(c0) == Some(row),
        spec_letter_index(c1) == Some(col),
    ensures
        ({
            let start = Phase::SelectingMainCell { first: None };
            let mid = next_phase(start, KeyInput::Character { c: c0 });
            &&& mid == Phase::SelectingMainCell { first: Some(row) }
            &&& next_phase(mid, KeyInput::Character { c: c1 }) == Phase::ZoomedOnCell { row, col }
            &&& !(spec_decision(g, start, KeyInput::Character { c: c0 }) is HideAndClick)
            &&& !(spec_decision(g, mid, KeyInput::Character { c: c1 }) is HideAndClick)
        }),
{
}

/// The uppercase letter with code `65 + l` addresses letter index `l`:
/// feeding `chr(65 + row)` then `chr(65 + col)` is covered by
/// [`lemma_two_letters_zoom`].
pub proof fn lemma_letter_of_code(l: u8)
    requires
        l < 26,
    ensures
        spec_letter_index(((65 + l) as u8) as char) == Some(l),
{
}

/// Escape cancels any active phase: the session returns to `Idle` and
/// no click is emitted, whatever input history produced the phase.
pub proof fn lemma_escape_cancels(g: GridGeometry, p: Phase)
    requires
        g.wf(),
        !(p is Idle),
    ensures
        next_phase(p, KeyInput::Escape) is Idle,
        spec_decision(g, p, KeyInput::Escape) == Decision::Hide,
        !(spec_decision(g, p, KeyInput::Escape) is HideAndClick),
{
}

/// Escape is idempotent: after one Escape the session is settled, and
/// a second Escape changes nothing and has no effect.
pub proof fn lemma_escape_idempotent(g: GridGeometry, p: Phase)
    requires
        g.wf(),
    ensures
        ({
            let settled = next_phase(p, KeyInput::Escape);
            &&& next_phase(settled, KeyInput::Escape) == settled
            &&& spec_decision(g, settled, KeyInput::Escape) == Decision::NoEffect
        }),
{
}

/// Space with no cell selected completes at the screen center; for
/// even screen extents that is exactly `(screen_w / 2, screen_h / 2)`.
pub proof fn lemma_space_without_cell(g: GridGeometry, p: Phase)
    requires
        g.wf(),
        (p matches Phase::SelectingMainCell { .. }),
    ensures
        next_phase(p, KeyInput::Space) is Idle,
        spec_decision(g, p, KeyInput::Space) == (Decision::HideAndClick {
            target: ClickTarget {
                x: screen_center_x(g) as u32,
                y: screen_center_y(g) as u32,
            },
        }),
        g.screen_w % 2 == 0 ==> screen_center_x(g) == g.screen_w / 2,
        g.screen_h % 2 == 0 ==> screen_center_y(g) == g.screen_h / 2,
{
}

/// Space with a cell selected completes at that cell's center. The
/// statement never consults the subgrid key layout: the target is
/// independent of it.
pub proof fn lemma_space_with_cell(g: GridGeometry, row: u8, col: u8)
    requires
        g.wf(),
        row < 26,
        col < 26,
    ensures
        next_phase(Phase::ZoomedOnCell { row, col }, KeyInput::Space) is Idle,
        spec_decision(g, Phase::ZoomedOnCell { row, col }, KeyInput::Space)
            == (Decision::HideAndClick {
            target: ClickTarget {
                x: cell_center_x(g, col as int) as u32,
                y: cell_center_y(g, row as int) as u32,
            },
        }),
{
}

/// From a zoomed cell, the key mapped to `(sub_row, sub_col)` resolves
/// exactly the resolver's precision target for
/// `(row, col, sub_row, sub_col)` — an on-screen point, so no
/// coordinate is truncated — and returns the session to `Idle`.
pub proof fn lemma_subgrid_key_completes(
    g: GridGeometry,
    row: u8,
    col: u8,
    sub_row: u8,
    sub_col: u8,
)
    requires
        g.wf(),
        row < 26,
        col < 26,
        sub_row < 3,
        sub_col < 8,
    ensures
        ({
            let key = KeyInput::Character { c: spec_subcell_key(sub_row as int, sub_col as int) };
            let zoomed = Phase::ZoomedOnCell { row, col };
            &&& next_phase(zoomed, key) is Idle
            &&& spec_decision(g, zoomed, key) == Decision::HideAndClick {
                target: ClickTarget {
                    x: precision_x(g, col as int, sub_col as int) as u32,
                    y: precision_y(g, row as int, sub_row as int) as u32,
                },
            }
        }),
        0 <= precision_x(g, col as int, sub_col as int) <= g.screen_w,
        0 <= precision_y(g, row as int, sub_row as int) <= g.screen_h,
{
    lemma_subgrid_layout_bijective(sub_row as int, sub_col as int);
    lemma_precision_num_bounds(g, row as int, col as int, sub_row as int, sub_col as int);
    lemma_round_le(
        crate::geometry::precision_x_num(g, col as int, sub_col as int),
        416,
        g.screen_w as int,
    );
    lemma_round_le(
        crate::geometry::precision_y_num(g, row as int, sub_row as int),
        156,
        g.screen_h as int,
    );
}

} // verus!
