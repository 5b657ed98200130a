//! 128-bit UUIDs of the Thingy profile, derived from one base UUID.
use crate::wire::{le_bytes, lemma_le_bytes_len, push_le};
use vstd::prelude::*;

verus! {

/// `EF680000-9B35-4933-9B10-52FFA9740042`: the Thingy base UUID, as a number.
pub const THINGY_BASE: u128 = 0xEF68_0000_9B35_4933_9B10_52FF_A974_0042;

/// `2^96`: the weight of the 16-bit field that a Thingy UUID substitutes.
pub const THINGY_ID_WEIGHT: u128 = 0x1_0000_0000_0000_0000_0000_0000;

/// The UUID `EF68xxxx-9B35-4933-9B10-52FFA9740042` with `xxxx` = `id`, as a number
/// (the UUID's text read as one hexadecimal numeral).
pub open spec fn thingy_uuid(id: u16) -> nat {
    THINGY_BASE as nat + id as nat * THINGY_ID_WEIGHT as nat
}

/// A 16-bit identifier within the Thingy UUID space.
#[derive(Clone, Copy, Debug, PartialEq, Eq, Structural)]
pub struct ThingyUuid(pub u16);

impl ThingyUuid {
    /// The full 128-bit UUID.
    pub fn into_u128(self) -> (r: u128)
        ensures
            r as nat == thingy_uuid(self.0),
    {
        THINGY_BASE + (self.0 as u128) * THINGY_ID_WEIGHT
    }

    /// The UUID as it goes on the air: sixteen bytes, least significant first.
    pub fn to_le_bytes(self) -> (r: Vec<u8>)
        ensures
            r@ == le_bytes(thingy_uuid(self.0), 16),
            r@.len() == 16,
    {
        let mut r: Vec<u8> = Vec::new();
        push_le(&mut r, self.into_u128(), 16);
        proof {
            assert(r@ =~= le_bytes(thingy_uuid(self.0), 16));
            lemma_le_bytes_len(thingy_uuid(self.0), 16);
        }
        r
    }
}

} // verus!
