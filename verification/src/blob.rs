//! The firmware-configuration blobs that describe the graphics controller of
//! the host.

use vstd::prelude::*;

verus! {

/// Length in bytes of the blob that holds the stolen-memory size.
pub const BDSM_SIZE_LEN: usize = 8;

/// Name of the blob that holds the OpRegion.
pub open spec fn opregion_key_spec() -> Seq<char> {
    "etc/igd-opregion"@
}

/// Name of the blob that holds the size of the stolen memory.
pub open spec fn bdsm_size_key_spec() -> Seq<char> {
    "etc/igd-bdsm-size"@
}

/// The unsigned integer that eight bytes store least significant byte first.
pub open spec fn le_u64(bytes: Seq<u8>) -> int {
    bytes[0] + bytes[1] * 0x100 + bytes[2] * 0x1_0000 + bytes[3] * 0x100_0000 + bytes[4]
        * 0x1_0000_0000 + bytes[5] * 0x100_0000_0000 + bytes[6] * 0x1_0000_0000_0000 + bytes[7]
        * 0x100_0000_0000_0000
}

/// The four bytes that store `value` least significant byte first.
pub open spec fn le_bytes_u32(value: u32) -> Seq<u8> {
    seq![
        (value % 0x100) as u8,
        (value / 0x100 % 0x100) as u8,
        (value / 0x1_0000 % 0x100) as u8,
        (value / 0x100_0000) as u8,
    ]
}

/// Name of the blob that holds the OpRegion.
pub fn opregion_key() -> (key: &'static str)
    ensures
        key@ == opregion_key_spec(),
{
    "etc/igd-opregion"
}

/// Name of the blob that holds the size of the stolen memory.
pub fn bdsm_size_key() -> (key: &'static str)
    ensures
        key@ == bdsm_size_key_spec(),
{
    "etc/igd-bdsm-size"
}

/// Decodes the stolen-memory size from its blob, which must be exactly
/// eight bytes long.
pub fn decode_size(blob: &[u8]) -> (size: Option<u64>)
    ensures
        blob@.len() == BDSM_SIZE_LEN ==> size == Some(le_u64(blob@) as u64) && le_u64(blob@)
            <= u64::MAX,
        blob@.len() != BDSM_SIZE_LEN ==> size.is_none(),
{
    if blob.len() != BDSM_SIZE_LEN {
        return None;
    }
    let low: u64 = blob[0] as u64 + blob[1] as u64 * 0x100 + blob[2] as u64 * 0x1_0000 + blob[3] as u64
        * 0x100_0000;
    let high: u64 = blob[4] as u64 + blob[5] as u64 * 0x100 + blob[6] as u64 * 0x1_0000 + blob[7] as u64
        * 0x100_0000;
    Some(low + high * 0x1_0000_0000)
}

/// Encodes a register value as the bytes that are written to configuration
/// space.
pub fn register_bytes(value: u32) -> (bytes: [u8; 4])
    ensures
        bytes@ == le_bytes_u32(value),
{
    [
        (value % 0x100) as u8,
        (value / 0x100 % 0x100) as u8,
        (value / 0x1_0000 % 0x100) as u8,
        (value / 0x100_0000) as u8,
    ]
}

} // verus!
