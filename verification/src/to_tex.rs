//! Conversion of catalog items and syntax trees into markup text.

use vstd::prelude::*;

verus! {

/// The structure can be converted to LaTeX-style markup.
///
/// Implementations add an `ensures` clause pinning the produced text to a
/// specification function, so statically resolved calls get the exact result.
pub trait ToTex: Sized {
    /// Convert the object into markup text, consuming it.
    fn to_tex(self) -> String;
}

} // verus!
