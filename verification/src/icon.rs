//! The image that a package gets where it brings no icon of its own.

use vstd::prelude::*;
use vstd::slice::slice_to_vec;

verus! {

/// A transparent PNG image of 128 by 128 pixels.
pub const PLACEHOLDER_ICON: [u8; 143] = [
    137, 80, 78, 71, 13, 10, 26, 10, 0, 0, 0, 13, 73, 72, 68, 82, 0, 0, 0, 128, 0, 0, 0,
    128, 8, 6, 0, 0, 0, 195, 62, 97, 203, 0, 0, 0, 86, 73, 68, 65, 84, 120, 218, 237, 193,
    49, 1, 0, 0, 0, 194, 160, 245, 79, 109, 12, 31, 160, 0, 0, 0, 0, 0, 0, 0, 0, 0, 0, 0, 0,
    0, 0, 0, 0, 0, 0, 0, 0, 0, 0, 0, 0, 0, 0, 0, 0, 0, 0, 0, 0, 0, 0, 0, 0, 0, 0, 0, 0, 0,
    0, 0, 0, 0, 0, 0, 0, 0, 0, 0, 0, 0, 0, 0, 0, 0, 0, 0, 0, 0, 0, 0, 224, 111, 0, 143, 0,
    1, 138, 249, 130, 62, 0, 0, 0, 0, 73, 69, 78, 68, 174, 66, 96, 130,
];

/// The bytes of the package's icon: `icon` where one is given, else the
/// placeholder.
pub open spec fn icon_bytes(icon: Option<Seq<u8>>) -> Seq<u8> {
    match icon {
        Some(b) => b,
        None => PLACEHOLDER_ICON@,
    }
}

/// The placeholder image, as a vector.
pub fn placeholder_icon() -> (r: Vec<u8>)
    ensures
        r@ == PLACEHOLDER_ICON@,
{
    let a = PLACEHOLDER_ICON;
    slice_to_vec(a.as_slice())
}

} // verus!
