//! The Thingy sound service: identifiers and its raw audio values.
use crate::wire::{copy_into, push_all, FromGattError};
use vstd::prelude::*;

verus! {

/// Thingy UUID identifiers of the service and of its characteristics.
pub const TSS: u16 = 0x0500;

pub const TSS_CONFIG: u16 = 0x0501;

pub const TSS_SPEAKER: u16 = 0x0502;

pub const TSS_SPEAKER_STATUS: u16 = 0x0503;

pub const TSS_MICROPHONE: u16 = 0x0504;

/// One frame of PCM audio for the speaker.
#[derive(Clone, Copy, Debug)]
pub struct TssSpeaker {
    pub pcm: [u8; 273],
}

impl TssSpeaker {
    pub const SIZE: usize = 273;

    pub open spec fn wire(self) -> Seq<u8> {
        self.pcm@
    }

    /// Values with one encoding are equal: decoding what `as_gatt` gives returns the value.
    pub proof fn lemma_wire_injective(a: Self, b: Self)
        requires
            a.wire() == b.wire(),
        ensures
            a == b,
    {
        assert(a.pcm == b.pcm);
    }

    pub fn as_gatt(&self) -> (r: Vec<u8>)
        ensures
            r@ == self.wire(),
    {
        let mut r: Vec<u8> = Vec::new();
        push_all(&mut r, self.pcm.as_slice());
        r
    }

    pub fn from_gatt(data: &[u8]) -> (r: Result<Self, FromGattError>)
        ensures
            data@.len() == Self::SIZE <==> r is Ok,
            r is Err ==> r == Err::<Self, FromGattError>(FromGattError::InvalidLength),
            r matches Ok(v) ==> v.wire() == data@,
    {
        if data.len() != Self::SIZE {
            return Err(FromGattError::InvalidLength);
        }
        let mut pcm = [0u8; 273];
        copy_into(&mut pcm, data, 0);
        assert(data@ =~= data@.subrange(0, 273));
        Ok(TssSpeaker { pcm })
    }
}

impl Default for TssSpeaker {
    fn default() -> (r: Self)
        ensures
            r.pcm@ == Seq::new(273, |i: int| 0u8),
    {
        let r = TssSpeaker { pcm: [0u8; 273] };
        assert(r.pcm@ =~= Seq::new(273, |i: int| 0u8));
        r
    }
}

/// One frame of raw microphone samples.
#[derive(Clone, Copy, Debug)]
pub struct TssMicrophone {
    pub raw: [u8; 131],
}

impl TssMicrophone {
    pub const SIZE: usize = 131;

    pub open spec fn wire(self) -> Seq<u8> {
        self.raw@
    }

    /// Values with one encoding are equal: decoding what `as_gatt` gives returns the value.
    pub proof fn lemma_wire_injective(a: Self, b: Self)
        requires
            a.wire() == b.wire(),
        ensures
            a == b,
    {
        assert(a.raw == b.raw);
    }

    pub fn as_gatt(&self) -> (r: Vec<u8>)
        ensures
            r@ == self.wire(),
    {
        let mut r: Vec<u8> = Vec::new();
        push_all(&mut r, self.raw.as_slice());
        r
    }

    pub fn from_gatt(data: &[u8]) -> (r: Result<Self, FromGattError>)
        ensures
            data@.len() == Self::SIZE <==> r is Ok,
            r is Err ==> r == Err::<Self, FromGattError>(FromGattError::InvalidLength),
            r matches Ok(v) ==> v.wire() == data@,
    {
        if data.len() != Self::SIZE {
            return Err(FromGattError::InvalidLength);
        }
        let mut raw = [0u8; 131];
        copy_into(&mut raw, data, 0);
        assert(data@ =~= data@.subrange(0, 131));
        Ok(TssMicrophone { raw })
    }
}

impl Default for TssMicrophone {
    fn default() -> (r: Self)
        ensures
            r.raw@ == Seq::new(131, |i: int| 0u8),
    {
        let r = TssMicrophone { raw: [0u8; 131] };
        assert(r.raw@ =~= Seq::new(131, |i: int| 0u8));
        r
    }
}

} // verus!
