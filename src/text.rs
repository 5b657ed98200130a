//! UTF-8 text values of characteristics, checked by trouble-host.
use crate::wire::FromGattError;
use trouble_host::types::gatt_traits::FromGatt;
use vstd::prelude::*;

verus! {

/// Whether the bytes are valid UTF-8 text.
pub uninterp spec fn utf8_valid(s: Seq<u8>) -> bool;

/// The longest text value of the profile, in bytes.
pub const TEXT_MAX: usize = 22;

/// Relies on trouble-host's `FromGatt for heapless::String<N>`: it builds the string
/// through `heapless::String::from_utf8`, which fails with `InvalidCharacter` exactly when
/// the bytes are not UTF-8, and it panics on more than `N` bytes.
#[verifier::external_body]
pub(crate) fn text_from_gatt(data: &[u8]) -> (r: Result<(), FromGattError>)
    requires
        data@.len() <= TEXT_MAX,
    ensures
        r is Ok <==> utf8_valid(data@),
        r matches Err(e) ==> e == FromGattError::InvalidCharacter,
{
    match <heapless::String<22> as FromGatt>::from_gatt(data) {
        Ok(_) => Ok(()),
        Err(trouble_host::types::gatt_traits::FromGattError::InvalidLength) => Err(
            FromGattError::InvalidLength,
        ),
        Err(trouble_host::types::gatt_traits::FromGattError::InvalidCharacter) => Err(
            FromGattError::InvalidCharacter,
        ),
    }
}

} // verus!
