//! Raw account identifiers of the legacy system.
//!
//! A `RawAccountId` is a fixed-size, 32-byte, opaque identifier compared by
//! exact byte equality.  It is stored as four 64-bit little-endian words so
//! that equality is plain structural equality on integers.

use vstd::prelude::*;

verus! {

/// An opaque 32-byte account identifier from the legacy system, packed as
/// four little-endian 64-bit words (`w0` holds bytes 0..8, `w3` bytes 24..32).
#[derive(Clone, Copy, Debug, PartialEq, Eq, Structural)]
pub struct RawAccountId {
    pub w0: u64,
    pub w1: u64,
    pub w2: u64,
    pub w3: u64,
}

/// The 64-bit word packed from the eight bytes `s[8k] .. s[8k + 8]`,
/// little-endian.
pub open spec fn spec_word(s: Seq<u8>, k: int) -> u64 {
    (s[8 * k] as u64) | ((s[8 * k + 1] as u64) << 8) | ((s[8 * k + 2] as u64) << 16)
        | ((s[8 * k + 3] as u64) << 24) | ((s[8 * k + 4] as u64) << 32)
        | ((s[8 * k + 5] as u64) << 40) | ((s[8 * k + 6] as u64) << 48)
        | ((s[8 * k + 7] as u64) << 56)
}

/// The account identifier denoted by a 32-byte sequence.
pub open spec fn spec_account_of(s: Seq<u8>) -> RawAccountId {
    RawAccountId {
        w0: spec_word(s, 0),
        w1: spec_word(s, 1),
        w2: spec_word(s, 2),
        w3: spec_word(s, 3),
    }
}

impl RawAccountId {
    /// Packs a 32-byte identifier into its four-word representation.
    pub fn from_bytes(b: &Vec<u8>) -> (r: RawAccountId)
        requires
            b@.len() == 32,
        ensures
            r == spec_account_of(b@),
    {
        let w0: u64 = (b[0] as u64) | ((b[1] as u64) << 8) | ((b[2] as u64) << 16)
            | ((b[3] as u64) << 24) | ((b[4] as u64) << 32) | ((b[5] as u64) << 40)
            | ((b[6] as u64) << 48) | ((b[7] as u64) << 56);
        let w1: u64 = (b[8] as u64) | ((b[9] as u64) << 8) | ((b[10] as u64) << 16)
            | ((b[11] as u64) << 24) | ((b[12] as u64) << 32) | ((b[13] as u64) << 40)
            | ((b[14] as u64) << 48) | ((b[15] as u64) << 56);
        let w2: u64 = (b[16] as u64) | ((b[17] as u64) << 8) | ((b[18] as u64) << 16)
            | ((b[19] as u64) << 24) | ((b[20] as u64) << 32) | ((b[21] as u64) << 40)
            | ((b[22] as u64) << 48) | ((b[23] as u64) << 56);
        let w3: u64 = (b[24] as u64) | ((b[25] as u64) << 8) | ((b[26] as u64) << 16)
            | ((b[27] as u64) << 24) | ((b[28] as u64) << 32) | ((b[29] as u64) << 40)
            | ((b[30] as u64) << 48) | ((b[31] as u64) << 56);
        RawAccountId { w0, w1, w2, w3 }
    }
}

} // verus!
