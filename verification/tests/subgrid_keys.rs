//! The subgrid key layout: every mapped key, both cases, and the
//! canonical labels.

use rowlink::keymap::{subcell_key, subgrid_key};

#[test]
fn layout_matches_the_three_keyboard_rows() {
    let rows = ["QWERUIOP", "ASDFJKL;", "ZXCVNM,."];
    for (sr, row_keys) in rows.iter().enumerate() {
        for (sc, key) in row_keys.chars().enumerate() {
            assert_eq!(subgrid_key(key), Some((sr as u8, sc as u8)));
        }
    }
}

#[test]
fn lowercase_letters_map_like_uppercase() {
    let rows = ["qweruiop", "asdfjkl;", "zxcvnm,."];
    for (sr, row_keys) in rows.iter().enumerate() {
        for (sc, key) in row_keys.chars().enumerate() {
            assert_eq!(subgrid_key(key), Some((sr as u8, sc as u8)));
        }
    }
}

#[test]
fn unmapped_characters_yield_none() {
    for c in ['t', 'y', 'g', 'h', 'b', 'B', '1', '0', ' ', '-', '\'', '[', 'é'] {
        assert_eq!(subgrid_key(c), None);
    }
}

#[test]
fn canonical_labels_invert_the_lookup() {
    for sr in 0..3u8 {
        for sc in 0..8u8 {
            let label = subcell_key(sr, sc);
            assert_eq!(subgrid_key(label), Some((sr, sc)));
        }
    }
}

#[test]
fn home_row_labels() {
    let labels: Vec<char> = (0..8).map(|sc| subcell_key(1, sc)).collect();
    assert_eq!(labels, vec!['A', 'S', 'D', 'F', 'J', 'K', 'L', ';']);
}
