//! Media (MIME) types.

use vstd::prelude::*;

verus! {

pub const JPEG_IMAGES: &'static str = "image/jpeg";

} // verus!
