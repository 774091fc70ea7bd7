//! A plain pixel size, standing in for the surface library's
//! two-dimensional integer size throughout the library's contracts.

use vstd::prelude::*;

verus! {

/// A size in whole pixels: what a provider reports for a locked image, and
/// what the surface manager resizes a swap chain to.
#[derive(Clone, Copy, PartialEq, Eq, Structural, Debug)]
pub struct PixelSize {
    pub width: i32,
    pub height: i32,
}

} // verus!
