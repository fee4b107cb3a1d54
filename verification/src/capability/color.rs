//! The color capability: setting a static RGB color.

use vstd::prelude::*;

verus! {

/// Color options: a full-brightness RGB triple.
#[derive(Clone, Copy, PartialEq, Eq, Structural, Debug)]
pub enum ColorOption {
    RGB(u8, u8, u8),
}

} // verus!
