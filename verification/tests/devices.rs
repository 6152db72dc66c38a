use external_monitor_brightness::devices::{
    get_device_spec, supported_product_ids, DeviceSpec, Protocol, APPLE_VENDOR_ID, LG_VENDOR_ID,
};
use external_monitor_brightness::icon::{brightness_icon, ICON_HIGH, ICON_LOW, ICON_MEDIUM, ICON_OFF};
use external_monitor_brightness::mapping::apply_min_brightness;

#[test]
fn every_supported_product_has_a_spec() {
    let ids = supported_product_ids();
    assert_eq!(ids, vec![0x1114, 0x9243, 0x9a63, 0x9a40]);
    for id in ids {
        let spec = get_device_spec(id).unwrap();
        assert_eq!(spec.product_id, id);
        assert_eq!(spec.protocol, Protocol::AppleHid);
        assert_eq!(spec.min_brightness_value, 400);
        assert_eq!(spec.max_brightness_value, 60000);
        assert_eq!(spec.brightness_range(), 59600);
    }
}

#[test]
fn unknown_products_have_no_spec() {
    assert!(get_device_spec(0).is_none());
    assert!(get_device_spec(0x1115).is_none());
    assert!(get_device_spec(u16::MAX).is_none());
}

#[test]
fn specs_carry_vendor_name_and_peak() {
    let studio = get_device_spec(0x1114).unwrap();
    assert_eq!(studio.vendor_id, APPLE_VENDOR_ID);
    assert_eq!(studio.name, "Apple Studio Display");
    assert_eq!(studio.actual_brightness_nits, 600);
    let xdr = get_device_spec(0x9243).unwrap();
    assert_eq!(xdr.vendor_id, 0x05ac);
    assert_eq!(xdr.name, "Apple Pro Display XDR");
    assert_eq!(xdr.actual_brightness_nits, 1600);
    let lg4k = get_device_spec(0x9a63).unwrap();
    assert_eq!(lg4k.vendor_id, LG_VENDOR_ID);
    assert_eq!(lg4k.name, "LG UltraFine 4K");
    assert_eq!(lg4k.actual_brightness_nits, 500);
    let lg5k = get_device_spec(0x9a40).unwrap();
    assert_eq!(lg5k.vendor_id, 0x043e);
    assert_eq!(lg5k.name, "LG UltraFine 5K");
}

#[test]
fn brightness_range_is_max_minus_min() {
    let spec = DeviceSpec {
        product_id: 1,
        vendor_id: 2,
        protocol: Protocol::DdcCi,
        name: "bench",
        min_brightness_value: 10,
        max_brightness_value: 110,
        actual_brightness_nits: 300,
    };
    assert_eq!(spec.brightness_range(), 100);
    let flat = DeviceSpec { min_brightness_value: 7, max_brightness_value: 7, ..spec };
    assert_eq!(flat.brightness_range(), 0);
}

#[test]
fn icons_follow_the_thresholds() {
    assert_eq!(brightness_icon(0), ICON_OFF);
    assert_eq!(brightness_icon(1), ICON_LOW);
    assert_eq!(brightness_icon(33), ICON_LOW);
    assert_eq!(brightness_icon(34), ICON_MEDIUM);
    assert_eq!(brightness_icon(66), ICON_MEDIUM);
    assert_eq!(brightness_icon(67), ICON_HIGH);
    assert_eq!(brightness_icon(100), ICON_HIGH);
    assert_eq!(ICON_OFF, "cosmic-applet-battery-display-brightness-off-symbolic");
}

#[test]
fn floor_squeezes_the_range() {
    assert_eq!(apply_min_brightness(0, 20), 20);
    assert_eq!(apply_min_brightness(100, 20), 100);
    assert_eq!(apply_min_brightness(50, 20), 60);
    assert_eq!(apply_min_brightness(33, 10), 39);
    assert_eq!(apply_min_brightness(42, 0), 42);
    assert_eq!(apply_min_brightness(42, 100), 100);
    assert_eq!(apply_min_brightness(500, 30), 100);
    assert_eq!(apply_min_brightness(0, 500), 100);
}

#[test]
fn floor_is_monotonic_in_the_percentage() {
    for floor in 0..=100u16 {
        let mut last = apply_min_brightness(0, floor);
        assert_eq!(last, floor);
        for pct in 1..=100u16 {
            let now = apply_min_brightness(pct, floor);
            assert!(now >= last && now <= 100);
            last = now;
        }
        assert_eq!(last, 100);
    }
}
