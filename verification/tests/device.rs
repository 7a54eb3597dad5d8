use kt_ui::device::DeviceClass;

#[test]
fn only_phones_get_the_phone_shell() {
    assert!(DeviceClass::Phone.is_phone());
    assert!(!DeviceClass::Desktop.is_phone());
}
