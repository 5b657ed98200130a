//! Advertising and scan-response payloads.
use crate::configuration::{MSP_NORDIC_COMPANY_ID, TCS};
use crate::uuid::{thingy_uuid, ThingyUuid};
use crate::wire::{le_bytes, lemma_le_bytes_len};
use trouble_host::advertise::AdStructure;
use vstd::prelude::*;

verus! {

/// Legacy advertising and scan-response payloads hold at most 31 bytes.
pub const GAP_ADV_LIMIT: usize = 31;

/// Flags: LE general discoverable mode.
pub const LE_GENERAL_DISCOVERABLE: u8 = 0b0000_0010;

/// Flags: BR/EDR not supported.
pub const BR_EDR_NOT_SUPPORTED: u8 = 0b0000_0100;

/// AD type codes.
pub const AD_FLAGS: u8 = 0x01;

pub const AD_COMPLETE_UUIDS_128: u8 = 0x07;

pub const AD_COMPLETE_LOCAL_NAME: u8 = 0x09;

pub const AD_MANUFACTURER_DATA: u8 = 0xff;

/// One advertising data structure.
pub enum AdField {
    Flags(u8),
    CompleteServiceUuid128([u8; 16]),
    CompleteLocalName(Vec<u8>),
    ManufacturerSpecificData { company_identifier: u16, payload: Vec<u8> },
}

/// A structure with its AD type and data: a length byte (type and data), the
/// type, the data.
pub open spec fn ad_structure(ty: u8, data: Seq<u8>) -> Seq<u8> {
    seq![(data.len() + 1) as u8, ty] + data
}

impl AdField {
    /// The bytes of the structure on the air.
    pub open spec fn encoded(&self) -> Seq<u8> {
        match self {
            AdField::Flags(f) => ad_structure(AD_FLAGS, seq![*f]),
            AdField::CompleteServiceUuid128(u) => ad_structure(AD_COMPLETE_UUIDS_128, u@),
            AdField::CompleteLocalName(n) => ad_structure(AD_COMPLETE_LOCAL_NAME, n@),
            AdField::ManufacturerSpecificData { company_identifier, payload } => ad_structure(
                AD_MANUFACTURER_DATA,
                le_bytes(*company_identifier as nat, 2) + payload@,
            ),
        }
    }
}

/// Why a payload cannot be built.
#[derive(Clone, Copy, Debug, PartialEq, Eq, Structural)]
pub enum AdvError {
    /// The structures do not fit in the payload.
    InsufficientSpace,
}

/// Relies on trouble-host's `AdStructure::encode_slice`: it writes each structure as
/// its length byte, its AD type and its data (a company identifier little-endian
/// first), and fails when the buffer (here the 31 bytes of a legacy payload) is too short.
#[verifier::external_body]
fn encode_field(f: &AdField) -> (r: Result<Vec<u8>, AdvError>)
    ensures
        r is Ok <==> f.encoded().len() <= GAP_ADV_LIMIT,
        r matches Ok(v) ==> v@ == f.encoded(),
{
    let item = match f {
        AdField::Flags(b) => AdStructure::Flags(*b),
        AdField::CompleteServiceUuid128(u) => {
            AdStructure::CompleteServiceUuids128(core::slice::from_ref(u))
        },
        AdField::CompleteLocalName(n) => AdStructure::CompleteLocalName(n.as_slice()),
        AdField::ManufacturerSpecificData { company_identifier: c, payload: p } => {
            AdStructure::ManufacturerSpecificData { company_identifier: *c, payload: p.as_slice() }
        },
    };
    let mut buf = [0u8; GAP_ADV_LIMIT];
    match AdStructure::encode_slice(&[item], &mut buf[..]) {
        Ok(n) => Ok(buf[..n].to_vec()),
        Err(_) => Err(AdvError::InsufficientSpace),
    }
}

/// The encodings of `fields`, one after another.
pub open spec fn encode_all(fields: Seq<AdField>) -> Seq<u8>
    decreases fields.len(),
{
    if fields.len() == 0 {
        Seq::empty()
    } else {
        encode_all(fields.drop_last()) + fields.last().encoded()
    }
}

/// Encodes the structures one after another into one legacy payload.
pub fn encode_slice(fields: &Vec<AdField>) -> (r: Result<Vec<u8>, AdvError>)
    ensures
        r is Ok <==> encode_all(fields@).len() <= GAP_ADV_LIMIT,
        r matches Ok(v) ==> v@ == encode_all(fields@),
{
    let mut out: Vec<u8> = Vec::new();
    let mut i: usize = 0;
    while i < fields.len()
        invariant
            i <= fields@.len(),
            out@ == encode_all(fields@.subrange(0, i as int)),
            out@.len() <= GAP_ADV_LIMIT,
        decreases fields@.len() - i,
    {
        let ghost prefix = fields@.subrange(0, i + 1);
        assert(prefix.drop_last() =~= fields@.subrange(0, i as int));
        proof {
            lemma_encode_all_grows(fields@, fields@.len());
            assert(fields@.subrange(0, fields@.len() as int) =~= fields@);
            assert(encode_all(prefix).len() <= encode_all(fields@).len());
        }
        match encode_field(&fields[i]) {
            Ok(bytes) => {
                if out.len() + bytes.len() > GAP_ADV_LIMIT {
                    return Err(AdvError::InsufficientSpace);
                }
                let mut k: usize = 0;
                let ghost start = out@;
                while k < bytes.len()
                    invariant
                        k <= bytes@.len(),
                        out@ == start + bytes@.subrange(0, k as int),
                        start.len() + bytes@.len() <= GAP_ADV_LIMIT,
                    decreases bytes@.len() - k,
                {
                    out.push(bytes[k]);
                    assert(bytes@.subrange(0, k + 1) =~= bytes@.subrange(0, k as int).push(
                        bytes@[k as int],
                    ));
                    k = k + 1;
                }
                assert(bytes@.subrange(0, bytes@.len() as int) =~= bytes@);
            },
            Err(e) => {
                return Err(e);
            },
        }
        i = i + 1;
    }
    assert(fields@.subrange(0, fields@.len() as int) =~= fields@);
    Ok(out)
}

/// A longer list of structures encodes to no fewer bytes.
proof fn lemma_encode_all_grows(fields: Seq<AdField>, n: nat)
    requires
        n <= fields.len(),
    ensures
        forall|m: nat|
            m <= n ==> (#[trigger] encode_all(fields.subrange(0, m as int))).len() <= encode_all(
                fields.subrange(0, n as int),
            ).len(),
    decreases n,
{
    if n > 0 {
        lemma_encode_all_grows(fields, (n - 1) as nat);
        assert(fields.subrange(0, n as int).drop_last() =~= fields.subrange(0, n - 1));
    }
}

/// The advertising data: flags, the configuration service UUID and the name.
pub open spec fn spec_advertising_data() -> Seq<u8> {
    ad_structure(AD_FLAGS, seq![LE_GENERAL_DISCOVERABLE | BR_EDR_NOT_SUPPORTED]) + ad_structure(
        AD_COMPLETE_UUIDS_128,
        le_bytes(thingy_uuid(TCS), 16),
    ) + ad_structure(AD_COMPLETE_LOCAL_NAME, crate::profile::default_device_name())
}

/// The scan response: Nordic's manufacturer-specific data `01 02 03 04`.
pub open spec fn spec_scan_response_data() -> Seq<u8> {
    ad_structure(
        AD_MANUFACTURER_DATA,
        le_bytes(MSP_NORDIC_COMPANY_ID as nat, 2) + seq![0x01u8, 0x02, 0x03, 0x04],
    )
}

fn uuid_array(v: &Vec<u8>) -> (r: [u8; 16])
    requires
        v@.len() == 16,
    ensures
        r@ == v@,
{
    let mut r = [0u8; 16];
    crate::wire::copy_into(&mut r, v.as_slice(), 0);
    assert(v@.subrange(0, 16) =~= v@);
    r
}

/// Builds the advertising data payload.
pub fn advertising_data() -> (r: Result<Vec<u8>, AdvError>)
    ensures
        r matches Ok(v) && v@ == spec_advertising_data(),
{
    let uuid = ThingyUuid(TCS).to_le_bytes();
    let name = vec![0x6du8, 0x69, 0x63, 0x72, 0x6f, 0x62, 0x69, 0x74];
    let mut fields: Vec<AdField> = Vec::new();
    fields.push(AdField::Flags(LE_GENERAL_DISCOVERABLE | BR_EDR_NOT_SUPPORTED));
    fields.push(AdField::CompleteServiceUuid128(uuid_array(&uuid)));
    fields.push(AdField::CompleteLocalName(name));
    proof {
        lemma_le_bytes_len(thingy_uuid(TCS), 16);
        let f = fields@;
        assert(f.drop_last().drop_last().drop_last() =~= Seq::<AdField>::empty());
        assert(name@ =~= crate::profile::default_device_name());
        assert(encode_all(f.drop_last().drop_last()) =~= f[0].encoded()) by {
            assert(f.drop_last().drop_last().last() == f[0]);
            assert(encode_all(f.drop_last().drop_last().drop_last()) == Seq::<u8>::empty());
        }
        assert(encode_all(f.drop_last()) == f[0].encoded() + f[1].encoded());
        assert(encode_all(f) == f[0].encoded() + f[1].encoded() + f[2].encoded());
        assert(encode_all(f) =~= spec_advertising_data());
    }
    encode_slice(&fields)
}

/// Builds the scan response payload.
pub fn scan_response_data() -> (r: Result<Vec<u8>, AdvError>)
    ensures
        r matches Ok(v) && v@ == spec_scan_response_data(),
{
    let payload = vec![0x01u8, 0x02, 0x03, 0x04];
    let mut fields: Vec<AdField> = Vec::new();
    fields.push(
        AdField::ManufacturerSpecificData { company_identifier: MSP_NORDIC_COMPANY_ID, payload },
    );
    proof {
        lemma_le_bytes_len(MSP_NORDIC_COMPANY_ID as nat, 2);
        let f = fields@;
        assert(f.drop_last() =~= Seq::<AdField>::empty());
        assert(payload@ =~= seq![0x01u8, 0x02, 0x03, 0x04]);
        assert(encode_all(f.drop_last()) == Seq::<u8>::empty());
        assert(encode_all(f) =~= f[0].encoded());
        assert(encode_all(f) =~= spec_scan_response_data());
    }
    encode_slice(&fields)
}

} // verus!
