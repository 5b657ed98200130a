use microbit_thingy::peripheral::{LinkAction, LinkEvent, LinkState, Peripheral};
use microbit_thingy::profile::{ADV_PARAMS_HANDLE, GAS_HANDLE};

#[test]
fn reconnect_clears_subscriptions() {
    let mut p = Peripheral::new();
    assert_eq!(p.link_state(), LinkState::Advertising);
    assert_eq!(p.on_event(LinkEvent::Accepted), LinkAction::Serve);
    assert_eq!(p.link_state(), LinkState::Connected);
    assert_eq!(p.set_subscribed(GAS_HANDLE, true), Ok(()));
    assert!(p.is_subscribed(GAS_HANDLE));
    assert_eq!(p.on_event(LinkEvent::Disconnected), LinkAction::Advertise);
    assert_eq!(p.link_state(), LinkState::Advertising);
    assert!(!p.is_subscribed(GAS_HANDLE));
    assert_eq!(p.on_event(LinkEvent::Accepted), LinkAction::Serve);
    assert!(!p.is_subscribed(GAS_HANDLE));
    assert_eq!(p.notify(GAS_HANDLE, &[1, 0, 0, 0]), Ok(None));
}

#[test]
fn advertising_failure_retries() {
    let mut p = Peripheral::new();
    assert_eq!(p.on_event(LinkEvent::AdvertiseFailed), LinkAction::Advertise);
    assert_eq!(p.link_state(), LinkState::Advertising);
}

#[test]
fn written_values_survive_reconnect() {
    let mut p = Peripheral::new();
    p.on_event(LinkEvent::Accepted);
    assert_eq!(p.write(ADV_PARAMS_HANDLE, &[1, 2, 3]), Ok(()));
    p.on_event(LinkEvent::Disconnected);
    assert_eq!(p.read(ADV_PARAMS_HANDLE), Ok(vec![1, 2, 3]));
}
