use ore_app::keys::Pubkey;
use ore_app::wallet::wallet_button_tone;
use ore_app::wallet::Appearance;
use ore_app::wallet::BridgeMount;
use ore_app::wallet::ButtonTone;
use ore_app::wallet::WalletAdapter;

#[test]
fn disconnected_wallet_button_is_highlighted() {
    let adapter = WalletAdapter::Disconnected;
    assert_eq!(wallet_button_tone(&adapter, Appearance::Light), ButtonTone::Highlighted);
    assert_eq!(wallet_button_tone(&adapter, Appearance::Dark), ButtonTone::Highlighted);
}

#[test]
fn connected_wallet_button_follows_the_appearance() {
    let adapter = WalletAdapter::Connected(Pubkey { bytes: [1; 32] });
    assert_eq!(wallet_button_tone(&adapter, Appearance::Light), ButtonTone::PlainOnLight);
    assert_eq!(wallet_button_tone(&adapter, Appearance::Dark), ButtonTone::PlainOnDark);
}

#[test]
fn bridge_is_mounted_by_the_first_request_only() {
    let mut bridge = BridgeMount::Unmounted;
    assert!(!bridge.is_available());
    assert!(bridge.request_mount());
    assert_eq!(bridge, BridgeMount::Mounting);
    assert!(!bridge.request_mount());
    assert!(bridge.finish_mount(true));
    assert_eq!(bridge, BridgeMount::Mounted);
    assert!(bridge.is_available());
    assert!(!bridge.request_mount());
    assert!(!bridge.finish_mount(false));
    assert_eq!(bridge, BridgeMount::Mounted);
}

#[test]
fn failed_mount_is_not_tried_again() {
    let mut bridge = BridgeMount::Unmounted;
    assert!(bridge.request_mount());
    assert!(bridge.finish_mount(false));
    assert_eq!(bridge, BridgeMount::Failed);
    assert!(!bridge.is_available());
    assert!(!bridge.request_mount());
    assert_eq!(bridge, BridgeMount::Failed);
}

#[test]
fn end_of_a_mount_that_was_not_asked_for_is_dropped() {
    let mut bridge = BridgeMount::Unmounted;
    assert!(!bridge.finish_mount(true));
    assert_eq!(bridge, BridgeMount::Unmounted);
}
