//! A BLE environmental-sensor peripheral that mirrors the Nordic Thingy GATT
//! profile: packed little-endian characteristic values, the attribute table,
//! advertising payloads, the connection state machine and the CO2 level bar.
pub mod advertising;
pub mod configuration;
pub mod display;
pub mod environment;
pub mod motion;
pub mod notifier;
pub mod peripheral;
pub mod profile;
pub mod sensor;
pub mod server;
pub mod sound;
pub mod text;
pub mod uuid;
pub mod wire;
