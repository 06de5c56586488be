//! Targeting state machine behavior: letter addressing, cancel and
//! confirm keys, ignored input.

use rowlink::geometry::{ClickTarget, GridGeometry};
use rowlink::session::{Decision, KeyInput, Phase, Session};

fn hd() -> GridGeometry {
    GridGeometry { screen_w: 1920, screen_h: 1080, padding: 4 }
}

fn chr(c: char) -> KeyInput {
    KeyInput::Character { c }
}

fn active(g: &GridGeometry, keys: &[KeyInput]) -> Session {
    let mut s = Session::new();
    s.activate();
    for &k in keys {
        s.handle_key(g, k);
    }
    s
}

#[test]
fn two_letters_zoom_on_cell() {
    let g = hd();
    let mut s = Session::new();
    s.activate();
    assert_eq!(s.phase, Phase::SelectingMainCell { first: None });
    let d1 = s.handle_key(&g, chr('A'));
    assert_eq!(d1, Decision::NoEffect);
    assert_eq!(s.phase, Phase::SelectingMainCell { first: Some(0) });
    let d2 = s.handle_key(&g, chr('B'));
    assert_eq!(d2, Decision::Redraw);
    assert_eq!(s.phase, Phase::ZoomedOnCell { row: 0, col: 1 });
}

#[test]
fn lowercase_letters_address_the_same_cell() {
    let g = hd();
    let s = active(&g, &[chr('z'), chr('z')]);
    assert_eq!(s.phase, Phase::ZoomedOnCell { row: 25, col: 25 });
}

#[test]
fn non_letters_are_ignored_while_selecting() {
    let g = hd();
    let mut s = active(&g, &[chr('7'), chr('!'), KeyInput::OtherNamed]);
    assert_eq!(s.phase, Phase::SelectingMainCell { first: None });
    s.handle_key(&g, chr('M'));
    let d = s.handle_key(&g, chr(' '));
    assert_eq!(d, Decision::NoEffect);
    assert_eq!(s.phase, Phase::SelectingMainCell { first: Some(12) });
}

#[test]
fn unmapped_keys_are_ignored_while_zoomed() {
    let g = hd();
    let mut s = active(&g, &[chr('C'), chr('D')]);
    for k in [chr('t'), chr('g'), chr('7'), KeyInput::OtherNamed] {
        let d = s.handle_key(&g, k);
        assert_eq!(d, Decision::NoEffect);
        assert_eq!(s.phase, Phase::ZoomedOnCell { row: 2, col: 3 });
    }
}

#[test]
fn subgrid_key_resolves_precision_target() {
    let g = hd();
    let mut s = active(&g, &[chr('A'), chr('B')]);
    let d = s.handle_key(&g, chr('D'));
    assert_eq!(
        d,
        Decision::HideAndClick { target: ClickTarget { x: 98, y: 21 } }
    );
    assert_eq!(s.phase, Phase::Idle);
}

#[test]
fn every_subgrid_key_resolves_and_idles() {
    let g = hd();
    let rows = ["QWERUIOP", "ASDFJKL;", "ZXCVNM,."];
    for (sr, row_keys) in rows.iter().enumerate() {
        for (sc, key) in row_keys.chars().enumerate() {
            let mut s = active(&g, &[chr('H'), chr('K')]);
            let d = s.handle_key(&g, chr(key));
            let expect = g.precision_target(7, 10, sr as u8, sc as u8);
            assert_eq!(d, Decision::HideAndClick { target: expect });
            assert_eq!(s.phase, Phase::Idle);
        }
    }
}

#[test]
fn escape_cancels_from_any_active_phase() {
    let g = hd();
    let histories: [&[KeyInput]; 3] = [&[], &[chr('Q')], &[chr('Q'), chr('X')]];
    for h in histories {
        let mut s = active(&g, h);
        let d = s.handle_key(&g, KeyInput::Escape);
        assert_eq!(d, Decision::Hide);
        assert_eq!(s.phase, Phase::Idle);
    }
}

#[test]
fn escape_twice_second_is_a_no_op() {
    let g = hd();
    let mut s = active(&g, &[chr('A')]);
    let d1 = s.handle_key(&g, KeyInput::Escape);
    assert_eq!(d1, Decision::Hide);
    let after_one = s.phase;
    let d2 = s.handle_key(&g, KeyInput::Escape);
    assert_eq!(d2, Decision::NoEffect);
    assert_eq!(s.phase, after_one);
    assert_eq!(s.phase, Phase::Idle);
}

#[test]
fn space_with_nothing_selected_hits_screen_center() {
    let g = hd();
    for h in [&[][..], &[chr('A')][..]] {
        let mut s = active(&g, h);
        let d = s.handle_key(&g, KeyInput::Space);
        assert_eq!(
            d,
            Decision::HideAndClick { target: ClickTarget { x: 960, y: 540 } }
        );
        assert_eq!(s.phase, Phase::Idle);
    }
}

#[test]
fn space_with_cell_selected_hits_cell_center() {
    let g = hd();
    let mut s = active(&g, &[chr('A'), chr('B')]);
    let d = s.handle_key(&g, KeyInput::Space);
    assert_eq!(
        d,
        Decision::HideAndClick { target: ClickTarget { x: 111, y: 21 } }
    );
    assert_eq!(s.phase, Phase::Idle);
}

#[test]
fn idle_session_ignores_all_keys() {
    let g = hd();
    let mut s = Session::new();
    for k in [KeyInput::Escape, KeyInput::Space, chr('A'), chr('Q'), KeyInput::OtherNamed] {
        let d = s.handle_key(&g, k);
        assert_eq!(d, Decision::NoEffect);
        assert_eq!(s.phase, Phase::Idle);
    }
}

#[test]
fn letter_index_covers_both_cases() {
    for (i, c) in ('A'..='Z').enumerate() {
        assert_eq!(rowlink::session::letter_index(c), Some(i as u8));
    }
    for (i, c) in ('a'..='z').enumerate() {
        assert_eq!(rowlink::session::letter_index(c), Some(i as u8));
    }
    for c in ['@', '[', '`', '{', '0', ' ', ';'] {
        assert_eq!(rowlink::session::letter_index(c), None);
    }
}

#[test]
fn activation_discards_prior_progress() {
    let g = hd();
    let mut s = active(&g, &[chr('A'), chr('B')]);
    s.activate();
    assert_eq!(s.phase, Phase::SelectingMainCell { first: None });
}
