//! The attribute server: the characteristic values of the profile, the
//! reads, writes and subscriptions a central makes, and notifications.
use crate::profile::{
    default_beacon_data, default_device_name, default_nfc, default_values, profile, zeros,
    AttUuid, Characteristic, Properties, ValueSize, BATTERY_LEVEL, BATTERY_SERVICE,
    CHARACTERISTIC_COUNT, TUS, TUS_BUTTON, TUS_LED, TUS_PIN,
};
use crate::configuration::{
    TcsAdvertisingParameters, TcsConnectionParameters, TCS, TCS_ADV_PARAMS, TCS_BEACON_DATA, TCS_CLOUD_DATA, TCS_CONN_PARAMS, TCS_DEVICE_NAME,
    TCS_FW_VERSION, TCS_MTU, TCS_NFC,
};
use crate::environment::{
    TesConfiguration, TES, TES_COLOR, TES_CONFIG, TES_GAS, TES_HUMIDITY, TES_PRESSURE, TES_TEMPERATURE,
};
use crate::motion::{
    TmsConfiguration, TMS, TMS_CONFIG, TMS_EULER, TMS_GRAVITY, TMS_HEADING, TMS_ORIENTATION, TMS_PEDOMETER,
    TMS_QUATERNION, TMS_RAW, TMS_ROTATION_MATRIX, TMS_TAP,
};
use crate::sound::{TSS, TSS_CONFIG, TSS_MICROPHONE, TSS_SPEAKER, TSS_SPEAKER_STATUS};
use crate::text::{text_from_gatt, utf8_valid, TEXT_MAX};
use crate::wire::push_all;
use vstd::prelude::*;

verus! {

fn rw() -> (r: Properties)
    ensures
        r == crate::profile::rw(),
{
    Properties { read: true, write: true, write_without_response: false, notify: false }
}

fn notify_only() -> (r: Properties)
    ensures
        r == crate::profile::notify_only(),
{
    Properties { read: false, write: false, write_without_response: false, notify: true }
}

fn thingy(service: u16, id: u16, props: Properties, size: ValueSize) -> (r: Characteristic)
    ensures
        r == crate::profile::ch(service, id, props, size),
{
    Characteristic { service: AttUuid::Thingy(service), uuid: AttUuid::Thingy(id), props, size }
}

/// The characteristic table of the profile.
pub fn thingy_profile() -> (r: Vec<Characteristic>)
    ensures
        r@ == profile(),
{
    let mut t: Vec<Characteristic> = Vec::new();
    t.push(thingy(TCS, TCS_DEVICE_NAME, rw(), ValueSize::Text(10)));
    t.push(thingy(TCS, TCS_ADV_PARAMS, rw(), ValueSize::Fixed(3)));
    t.push(thingy(TCS, TCS_CONN_PARAMS, rw(), ValueSize::Fixed(8)));
    t.push(thingy(TCS, TCS_BEACON_DATA, rw(), ValueSize::Text(14)));
    t.push(thingy(TCS, TCS_CLOUD_DATA, rw(), ValueSize::Text(20)));
    t.push(
        thingy(
            TCS,
            TCS_FW_VERSION,
            Properties { read: true, write: false, write_without_response: false, notify: false },
            ValueSize::Fixed(3),
        ),
    );
    t.push(thingy(TCS, TCS_MTU, rw(), ValueSize::Fixed(3)));
    t.push(thingy(TCS, TCS_NFC, rw(), ValueSize::Text(22)));
    t.push(thingy(TES, TES_TEMPERATURE, notify_only(), ValueSize::Fixed(2)));
    t.push(thingy(TES, TES_PRESSURE, notify_only(), ValueSize::Fixed(5)));
    t.push(thingy(TES, TES_HUMIDITY, notify_only(), ValueSize::Fixed(1)));
    t.push(thingy(TES, TES_GAS, notify_only(), ValueSize::Fixed(4)));
    t.push(thingy(TES, TES_COLOR, notify_only(), ValueSize::Fixed(8)));
    t.push(thingy(TES, TES_CONFIG, rw(), ValueSize::Fixed(12)));
    t.push(thingy(TUS, TUS_BUTTON, notify_only(), ValueSize::Fixed(1)));
    t.push(thingy(TUS, TUS_LED, rw(), ValueSize::Fixed(8)));
    t.push(thingy(TUS, TUS_PIN, rw(), ValueSize::Fixed(4)));
    t.push(thingy(TSS, TSS_CONFIG, rw(), ValueSize::Fixed(8)));
    t.push(
        thingy(
            TSS,
            TSS_SPEAKER,
            Properties { read: false, write: false, write_without_response: true, notify: false },
            ValueSize::Fixed(273),
        ),
    );
    t.push(thingy(TSS, TSS_SPEAKER_STATUS, notify_only(), ValueSize::Fixed(1)));
    t.push(thingy(TSS, TSS_MICROPHONE, notify_only(), ValueSize::Fixed(131)));
    t.push(thingy(TMS, TMS_CONFIG, rw(), ValueSize::Fixed(9)));
    t.push(thingy(TMS, TMS_TAP, notify_only(), ValueSize::Fixed(2)));
    t.push(thingy(TMS, TMS_ORIENTATION, notify_only(), ValueSize::Fixed(1)));
    t.push(thingy(TMS, TMS_QUATERNION, notify_only(), ValueSize::Fixed(16)));
    t.push(thingy(TMS, TMS_PEDOMETER, notify_only(), ValueSize::Fixed(8)));
    t.push(thingy(TMS, TMS_RAW, notify_only(), ValueSize::Fixed(18)));
    t.push(thingy(TMS, TMS_EULER, notify_only(), ValueSize::Fixed(12)));
    t.push(thingy(TMS, TMS_ROTATION_MATRIX, notify_only(), ValueSize::Fixed(18)));
    t.push(thingy(TMS, TMS_HEADING, notify_only(), ValueSize::Fixed(4)));
    t.push(thingy(TMS, TMS_GRAVITY, notify_only(), ValueSize::Fixed(12)));
    t.push(
        Characteristic {
            service: AttUuid::Sig(BATTERY_SERVICE),
            uuid: AttUuid::Sig(BATTERY_LEVEL),
            props: Properties { read: true, write: false, write_without_response: false, notify: true },
            size: ValueSize::Fixed(1),
        },
    );
    assert(t@ =~= profile());
    t
}

fn zero_bytes(n: usize) -> (r: Vec<u8>)
    ensures
        r@ == zeros(n as nat),
{
    let mut r: Vec<u8> = Vec::new();
    let mut i: usize = 0;
    while i < n
        invariant
            i <= n,
            r@ == zeros(i as nat),
        decreases n - i,
    {
        r.push(0u8);
        i = i + 1;
        assert(r@ =~= zeros(i as nat));
    }
    r
}

/// The value of each characteristic at boot, in handle order.
pub fn thingy_defaults() -> (r: Vec<Vec<u8>>)
    ensures
        r@.len() == default_values().len(),
        forall|h: int| 0 <= h < r@.len() ==> (#[trigger] r@[h])@ == default_values()[h],
{
    let mut v: Vec<Vec<u8>> = Vec::new();
    let name = vec![0x6du8, 0x69, 0x63, 0x72, 0x6f, 0x62, 0x69, 0x74];
    assert(name@ =~= default_device_name());
    v.push(name);
    v.push(TcsAdvertisingParameters::default().as_gatt());
    v.push(TcsConnectionParameters::default().as_gatt());
    let beacon = vec![0x03u8, 0x67, 0x6f, 0x6f, 0x2e, 0x67, 0x6c, 0x2f, 0x70, 0x49, 0x57, 0x64, 0x69, 0x72];
    assert(beacon@ =~= default_beacon_data());
    v.push(beacon);
    let cloud: Vec<u8> = Vec::new();
    assert(cloud@ =~= Seq::<u8>::empty());
    v.push(cloud);
    let fw = vec![0x02u8, 0x02, 0x00];
    assert(fw@ =~= seq![0x02u8, 0x02, 0x00]);
    v.push(fw);
    let mtu = vec![0x00u8, 0x17, 0x00];
    assert(mtu@ =~= seq![0x00u8, 0x17, 0x00]);
    v.push(mtu);
    let nfc = vec![
        0x6eu8, 0x6f, 0x72, 0x64, 0x69, 0x63, 0x73, 0x65, 0x6d, 0x69, 0x2e, 0x63, 0x6f, 0x6d,
        0x2f, 0x74, 0x68, 0x69, 0x6e, 0x67, 0x79, 0x00,
    ];
    assert(nfc@ =~= default_nfc());
    v.push(nfc);
    v.push(zero_bytes(2));
    v.push(zero_bytes(5));
    v.push(zero_bytes(1));
    v.push(zero_bytes(4));
    v.push(zero_bytes(8));
    let env = TesConfiguration::default();
    assert(env.color_config@ =~= [107u8, 78, 29]@);
    v.push(env.as_gatt());
    v.push(zero_bytes(1));
    v.push(zero_bytes(8));
    v.push(zero_bytes(4));
    v.push(zero_bytes(8));
    v.push(zero_bytes(273));
    v.push(zero_bytes(1));
    v.push(zero_bytes(131));
    v.push(TmsConfiguration::default().as_gatt());
    v.push(zero_bytes(2));
    v.push(zero_bytes(1));
    v.push(zero_bytes(16));
    v.push(zero_bytes(8));
    v.push(zero_bytes(18));
    v.push(zero_bytes(12));
    v.push(zero_bytes(18));
    v.push(zero_bytes(4));
    v.push(zero_bytes(12));
    let battery = vec![100u8];
    assert(battery@ =~= seq![100u8]);
    v.push(battery);
    v
}

/// Errors that an ATT request or a notification meets.
#[derive(Clone, Copy, Debug, PartialEq, Eq, Structural)]
pub enum AttError {
    /// No characteristic has the handle.
    InvalidHandle,
    /// The characteristic cannot be read.
    ReadNotPermitted,
    /// The characteristic cannot be written (for a subscription: it has no notifications).
    WriteNotPermitted,
    /// The value does not have the characteristic's size.
    InvalidLength,
    /// A text value is not UTF-8.
    ValueNotAllowed,
}

/// What the attribute server holds: the table, each characteristic's value and
/// whether the connected central has subscribed to it.
pub struct ServerView {
    pub table: Seq<Characteristic>,
    pub values: Seq<Seq<u8>>,
    pub subscribed: Seq<bool>,
}

/// Whether `d` is a value of the given size.
pub open spec fn fits(size: ValueSize, d: Seq<u8>) -> bool {
    match size {
        ValueSize::Fixed(n) => d.len() == n,
        ValueSize::Text(n) => d.len() <= n,
    }
}

/// Whether `d` may be written as a value of the given size.
pub open spec fn acceptable(size: ValueSize, d: Seq<u8>) -> bool {
    fits(size, d) && (size is Text ==> utf8_valid(d))
}

impl ServerView {
    pub open spec fn wf(self) -> bool {
        &&& self.values.len() == self.table.len()
        &&& self.subscribed.len() == self.table.len()
        &&& forall|h: int|
            0 <= h < self.table.len() ==> fits(#[trigger] self.table[h].size, self.values[h])
        &&& forall|h: int|
            0 <= h < self.table.len() ==> (#[trigger] self.table[h].size matches ValueSize::Text(
                n,
            ) ==> n <= TEXT_MAX)
    }

    pub open spec fn has(self, h: int) -> bool {
        0 <= h < self.table.len()
    }

    /// What a read of handle `h` answers.
    pub open spec fn read_result(self, h: int) -> Result<Seq<u8>, AttError> {
        if !self.has(h) {
            Err(AttError::InvalidHandle)
        } else if !self.table[h].props.read {
            Err(AttError::ReadNotPermitted)
        } else {
            Ok(self.values[h])
        }
    }

    /// What a write of `d` to handle `h` answers.
    pub open spec fn write_result(self, h: int, d: Seq<u8>) -> Result<(), AttError> {
        if !self.has(h) {
            Err(AttError::InvalidHandle)
        } else if !(self.table[h].props.write || self.table[h].props.write_without_response) {
            Err(AttError::WriteNotPermitted)
        } else if !fits(self.table[h].size, d) {
            Err(AttError::InvalidLength)
        } else if !acceptable(self.table[h].size, d) {
            Err(AttError::ValueNotAllowed)
        } else {
            Ok(())
        }
    }

    /// The state after a write of `d` to handle `h`.
    pub open spec fn after_write(self, h: int, d: Seq<u8>) -> ServerView {
        if self.write_result(h, d) is Ok {
            ServerView { values: self.values.update(h, d), ..self }
        } else {
            self
        }
    }

    /// What a subscription change on handle `h` answers.
    pub open spec fn subscribe_result(self, h: int) -> Result<(), AttError> {
        if !self.has(h) {
            Err(AttError::InvalidHandle)
        } else if !self.table[h].props.notify {
            Err(AttError::WriteNotPermitted)
        } else {
            Ok(())
        }
    }

    /// What asking to notify `d` on handle `h` answers: the value that goes to
    /// the central, or nothing when it has not subscribed.
    pub open spec fn notify_result(self, h: int, d: Seq<u8>) -> Result<Option<Seq<u8>>, AttError> {
        if !self.has(h) {
            Err(AttError::InvalidHandle)
        } else if !self.table[h].props.notify {
            Err(AttError::WriteNotPermitted)
        } else if !fits(self.table[h].size, d) {
            Err(AttError::InvalidLength)
        } else if self.subscribed[h] {
            Ok(Some(d))
        } else {
            Ok(None)
        }
    }

    /// The state at boot, and after every disconnection: default values, no subscriptions.
    pub open spec fn initial() -> ServerView {
        ServerView {
            table: profile(),
            values: default_values(),
            subscribed: Seq::new(profile().len(), |i: int| false),
        }
    }
}

/// The attribute table of the Thingy profile, with its values and the
/// subscriptions of the connected central.
pub struct AttributeServer {
    table: Vec<Characteristic>,
    values: Vec<Vec<u8>>,
    subscribed: Vec<bool>,
}

impl View for AttributeServer {
    type V = ServerView;

    closed spec fn view(&self) -> ServerView {
        ServerView {
            table: self.table@,
            values: self.values@.map_values(|v: Vec<u8>| v@),
            subscribed: self.subscribed@,
        }
    }
}

fn unsubscribed(n: usize) -> (r: Vec<bool>)
    ensures
        r@ == Seq::new(n as nat, |i: int| false),
{
    let mut r: Vec<bool> = Vec::new();
    let mut i: usize = 0;
    while i < n
        invariant
            i <= n,
            r@ == Seq::new(i as nat, |k: int| false),
        decreases n - i,
    {
        r.push(false);
        i = i + 1;
        assert(r@ =~= Seq::new(i as nat, |k: int| false));
    }
    r
}

fn copy_bytes(src: &Vec<u8>) -> (r: Vec<u8>)
    ensures
        r@ == src@,
{
    let mut r: Vec<u8> = Vec::new();
    push_all(&mut r, src.as_slice());
    r
}

impl AttributeServer {
    /// A server with the profile's characteristics, each holding its default value.
    pub fn new() -> (r: Self)
        ensures
            r@ == ServerView::initial(),
            r@.wf(),
    {
        let table = thingy_profile();
        let values = thingy_defaults();
        let subscribed = unsubscribed(CHARACTERISTIC_COUNT);
        let r = AttributeServer { table, values, subscribed };
        assert(r@.values =~= default_values());
        assert(r@.subscribed =~= Seq::new(profile().len(), |i: int| false));
        proof {
            reveal_with_fuel(crate::wire::le_bytes, 3);
        }
        assert(r@.wf());
        r
    }

    pub fn len(&self) -> (r: usize)
        ensures
            r == self@.table.len(),
    {
        self.table.len()
    }

    /// The characteristic at handle `h`.
    pub fn characteristic(&self, h: usize) -> (r: Option<Characteristic>)
        ensures
            self@.has(h as int) ==> r == Some(self@.table[h as int]),
            !self@.has(h as int) ==> r is None,
    {
        if h < self.table.len() {
            Some(self.table[h])
        } else {
            None
        }
    }

    /// Answers a read request.
    pub fn read(&self, h: usize) -> (r: Result<Vec<u8>, AttError>)
        requires
            self@.wf(),
        ensures
            r.is_ok() == self@.read_result(h as int).is_ok(),
            r matches Ok(v) ==> self@.read_result(h as int) == Ok::<Seq<u8>, AttError>(v@),
            r matches Err(e) ==> self@.read_result(h as int) == Err::<Seq<u8>, AttError>(e),
    {
        if h >= self.table.len() {
            return Err(AttError::InvalidHandle);
        }
        if !self.table[h].props.read {
            return Err(AttError::ReadNotPermitted);
        }
        let v = copy_bytes(&self.values[h]);
        Ok(v)
    }

    /// Answers a write request: a value is stored only when it has the
    /// characteristic's size (and, for text, is UTF-8).
    pub fn write(&mut self, h: usize, data: &[u8]) -> (r: Result<(), AttError>)
        requires
            old(self)@.wf(),
        ensures
            r == old(self)@.write_result(h as int, data@),
            final(self)@ == old(self)@.after_write(h as int, data@),
            final(self)@.wf(),
    {
        if h >= self.table.len() {
            return Err(AttError::InvalidHandle);
        }
        let c = self.table[h];
        if !(c.props.write || c.props.write_without_response) {
            return Err(AttError::WriteNotPermitted);
        }
        match c.size {
            ValueSize::Fixed(n) => {
                if data.len() != n {
                    return Err(AttError::InvalidLength);
                }
            },
            ValueSize::Text(n) => {
                if data.len() > n {
                    return Err(AttError::InvalidLength);
                }
                if text_from_gatt(data).is_err() {
                    return Err(AttError::ValueNotAllowed);
                }
            },
        }
        let mut v: Vec<u8> = Vec::new();
        push_all(&mut v, data);
        let ghost before = self@;
        self.values.set(h, v);
        assert(self@.values =~= before.values.update(h as int, data@));
        assert(self@.table == before.table);
        assert(self@.subscribed == before.subscribed);
        Ok(())
    }

    /// Records the central's subscription (its CCCD write) for handle `h`.
    pub fn set_subscribed(&mut self, h: usize, on: bool) -> (r: Result<(), AttError>)
        requires
            old(self)@.wf(),
        ensures
            r == old(self)@.subscribe_result(h as int),
            r is Ok ==> final(self)@ == (ServerView {
                subscribed: old(self)@.subscribed.update(h as int, on),
                ..old(self)@
            }),
            r is Err ==> final(self)@ == old(self)@,
            final(self)@.wf(),
    {
        if h >= self.table.len() {
            return Err(AttError::InvalidHandle);
        }
        if !self.table[h].props.notify {
            return Err(AttError::WriteNotPermitted);
        }
        let ghost before = self@;
        self.subscribed.set(h, on);
        assert(self@.values =~= before.values);
        Ok(())
    }

    /// Whether the central has subscribed to handle `h`.
    pub fn is_subscribed(&self, h: usize) -> (r: bool)
        requires
            self@.wf(),
        ensures
            r == (self@.has(h as int) && self@.subscribed[h as int]),
    {
        h < self.subscribed.len() && self.subscribed[h]
    }

    /// Stores `value` as the value of handle `h` and gives the notification
    /// that goes to the central, if it has subscribed.
    pub fn notify(&mut self, h: usize, value: &[u8]) -> (r: Result<Option<Vec<u8>>, AttError>)
        requires
            old(self)@.wf(),
        ensures
            r is Ok <==> old(self)@.notify_result(h as int, value@) is Ok,
            r matches Err(e) ==> old(self)@.notify_result(h as int, value@) == Err::<
                Option<Seq<u8>>,
                AttError,
            >(e),
            r matches Ok(Some(v)) ==> old(self)@.notify_result(h as int, value@) == Ok::<
                Option<Seq<u8>>,
                AttError,
            >(Some(v@)),
            r matches Ok(None) ==> old(self)@.notify_result(h as int, value@) == Ok::<
                Option<Seq<u8>>,
                AttError,
            >(None),
            r is Ok ==> final(self)@ == (ServerView {
                values: old(self)@.values.update(h as int, value@),
                ..old(self)@
            }),
            r is Err ==> final(self)@ == old(self)@,
            final(self)@.wf(),
    {
        if h >= self.table.len() {
            return Err(AttError::InvalidHandle);
        }
        let c = self.table[h];
        if !c.props.notify {
            return Err(AttError::WriteNotPermitted);
        }
        let fits = match c.size {
            ValueSize::Fixed(n) => value.len() == n,
            ValueSize::Text(n) => value.len() <= n,
        };
        if !fits {
            return Err(AttError::InvalidLength);
        }
        let mut v: Vec<u8> = Vec::new();
        push_all(&mut v, value);
        let ghost before = self@;
        self.values.set(h, v);
        assert(self@.values =~= before.values.update(h as int, value@));
        if self.subscribed[h] {
            let mut pdu: Vec<u8> = Vec::new();
            push_all(&mut pdu, value);
            Ok(Some(pdu))
        } else {
            Ok(None)
        }
    }

    /// Forgets every subscription: the central has gone.
    pub fn clear_subscriptions(&mut self)
        requires
            old(self)@.wf(),
        ensures
            final(self)@ == (ServerView {
                subscribed: Seq::new(old(self)@.table.len(), |i: int| false),
                ..old(self)@
            }),
            final(self)@.wf(),
    {
        let ghost before = self@;
        self.subscribed = unsubscribed(self.table.len());
        assert(self@.values =~= before.values);
    }
}

/// Sizes on the air: a write is taken only with the characteristic's size (for
/// a packed value, exactly its size), a read gives a value of that size, and a
/// notification carries a value of that size.
pub proof fn lemma_value_sizes(s: ServerView, h: int, d: Seq<u8>)
    requires
        s.wf(),
    ensures
        s.write_result(h, d) is Ok ==> fits(s.table[h].size, d),
        s.write_result(h, d) is Ok ==> (s.table[h].size matches ValueSize::Fixed(n) ==> d.len()
            == n),
        s.read_result(h) matches Ok(v) ==> fits(s.table[h].size, v),
        s.notify_result(h, d) matches Ok(Some(v)) ==> fits(s.table[h].size, v),
        s.after_write(h, d).wf(),
{
}

/// A read after a successful write gives the written bytes back, on every
/// characteristic that can be read.
pub proof fn lemma_read_after_write(s: ServerView, h: int, d: Seq<u8>)
    requires
        s.wf(),
        s.write_result(h, d) is Ok,
        s.table[h].props.read,
    ensures
        s.after_write(h, d).read_result(h) == Ok::<Seq<u8>, AttError>(d),
{
}

/// A write that is refused leaves every value as it was.
pub proof fn lemma_refused_write_keeps_values(s: ServerView, h: int, d: Seq<u8>)
    requires
        s.write_result(h, d) is Err,
    ensures
        s.after_write(h, d) == s,
{
}

} // verus!
