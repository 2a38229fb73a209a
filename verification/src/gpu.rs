//! Reading a hardware listing for a supported GPU.

use vstd::prelude::*;
use crate::text::{contains, decode_lossy, occurs_in, utf8_lossy};

verus! {

/// The vendor name whose presence in a hardware listing stands for a
/// supported GPU.
pub const VENDOR_MARKER: &'static str = "NVIDIA";

/// `listing` names a supported GPU: the vendor marker stands somewhere in
/// it, letter for letter. Another spelling of the vendor's name, such as
/// one in lower case, does not count.
pub open spec fn names_gpu(listing: Seq<char>) -> bool {
    occurs_in(listing, VENDOR_MARKER@)
}

/// Whether the hardware listing `listing` names a supported GPU.
pub fn listing_names_gpu(listing: &str) -> (found: bool)
    ensures
        found == names_gpu(listing@),
{
    contains(listing, VENDOR_MARKER)
}

/// Whether the captured output of the hardware listing command names a
/// supported GPU. The bytes are read as text, lossily, and the text is
/// searched for the vendor marker.
pub fn check_for_gpu(output: &[u8]) -> (found: bool)
    ensures
        found == names_gpu(utf8_lossy(output@)),
{
    let listing = decode_lossy(output);
    listing_names_gpu(listing.as_str())
}

} // verus!
