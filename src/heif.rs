//! The codec interface as a whole.
use vstd::prelude::*;

verus! {

/// Version of the codec interface that this library's records follow, encoded as
/// `0xHHMMLL00` for version HH.MM.LL.
pub const INTERFACE_VERSION_NUMBER: u32 = 0x0110_0000;

/// The parts `[major, minor, maintenance]` of a version number `0xHHMMLL00`.
pub open spec fn version_parts(n: u32) -> Seq<u8> {
    seq![(n / 0x100_0000) as u8, ((n / 0x1_0000) % 0x100) as u8, ((n / 0x100) % 0x100) as u8]
}

/// Splits a version number `0xHHMMLL00` into `[HH, MM, LL]`.
pub fn split_version(n: u32) -> (r: [u8; 3])
    ensures
        r@ == version_parts(n),
{
    let r = [(n / 0x100_0000) as u8, ((n / 0x1_0000) % 0x100) as u8, ((n / 0x100) % 0x100) as u8];
    assert(r@ =~= version_parts(n));
    r
}

/// Handle on the codec interface.
pub struct LibHeif {}

impl LibHeif {
    pub fn new() -> (r: Self) {
        LibHeif {}
    }

    /// Version of the codec interface as `[major, minor, maintenance]`.
    pub fn version(&self) -> (r: [u8; 3])
        ensures
            r@ == version_parts(INTERFACE_VERSION_NUMBER),
    {
        split_version(INTERFACE_VERSION_NUMBER)
    }
}

} // verus!
