//! Keyboard-driven two-stage screen-grid pointer targeting.
//!
//! The library narrows a full-screen grid down to a pixel target from
//! letter keys alone, then plans a synthetic left click at that target
//! using only relative pointer motion.

pub mod engine;
pub mod geometry;
pub mod keymap;
pub mod lifecycle;
pub mod protocol;
pub mod session;

use vstd::prelude::*;

verus! {

/// Identifier under which the overlay application registers itself.
pub fn namespace() -> (r: String)
    ensures
        r@ == "rowlink"@,
{
    String::from_str("rowlink")
}

} // verus!
