use evscript::device::{name_of, DeviceInfo};

#[test]
fn name_lookup_returns_the_display_name() {
    let dev = DeviceInfo { name: String::from("AT Translated Set 2 keyboard") };
    assert_eq!(name_of(&dev), "AT Translated Set 2 keyboard");
}

#[test]
fn name_lookup_is_idempotent() {
    let dev = DeviceInfo { name: String::from("USB Optical Mouse") };
    let first = name_of(&dev);
    let second = name_of(&dev);
    assert_eq!(first, second);
}
