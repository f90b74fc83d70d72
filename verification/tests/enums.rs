use hid_interface::descriptor::{
    DescriptorType, HidProtocol, InterfaceProtocol, InterfaceSubClass, COUNTRY_CODE_NOT_SUPPORTED,
    SPEC_VERSION_1_11, USB_CLASS_HID,
};

const ALL_PROTOCOLS: [InterfaceProtocol; 7] = [
    InterfaceProtocol::Unspecified,
    InterfaceProtocol::Keyboard,
    InterfaceProtocol::Mouse,
    InterfaceProtocol::Joystick,
    InterfaceProtocol::Gamepad,
    InterfaceProtocol::Generic,
    InterfaceProtocol::Vendor,
];

#[test]
fn subclass_derivation_is_exhaustive() {
    for protocol in ALL_PROTOCOLS {
        let subclass = InterfaceSubClass::from(protocol);
        if protocol == InterfaceProtocol::Unspecified {
            assert_eq!(subclass, InterfaceSubClass::NoSubClass);
        } else {
            assert_eq!(subclass, InterfaceSubClass::Boot);
        }
    }
}

#[test]
fn protocol_codes_match_class_specification() {
    assert_eq!(InterfaceProtocol::Unspecified.code(), 0x00);
    assert_eq!(InterfaceProtocol::Keyboard.code(), 0x01);
    assert_eq!(InterfaceProtocol::Mouse.code(), 0x02);
    assert_eq!(InterfaceProtocol::Joystick.code(), 0x04);
    assert_eq!(InterfaceProtocol::Gamepad.code(), 0x05);
    assert_eq!(InterfaceProtocol::Generic.code(), 0x06);
    assert_eq!(InterfaceProtocol::Vendor.code(), 0xFF);
}

#[test]
fn protocol_decode_round_trips_every_code() {
    for protocol in ALL_PROTOCOLS {
        assert_eq!(InterfaceProtocol::from_code(protocol.code()), Some(protocol));
    }
}

#[test]
fn protocol_decode_rejects_undefined_codes() {
    assert_eq!(InterfaceProtocol::from_code(0x03), None);
    assert_eq!(InterfaceProtocol::from_code(0x07), None);
    assert_eq!(InterfaceProtocol::from_code(0xFE), None);
}

#[test]
fn subclass_codes_match_class_specification() {
    assert_eq!(InterfaceSubClass::NoSubClass.code(), 0x00);
    assert_eq!(InterfaceSubClass::Boot.code(), 0x01);
}

#[test]
fn descriptor_type_codes_match_class_specification() {
    assert_eq!(DescriptorType::Hid.code(), 0x21);
    assert_eq!(DescriptorType::Report.code(), 0x22);
    assert_eq!(DescriptorType::from_code(0x21), Some(DescriptorType::Hid));
    assert_eq!(DescriptorType::from_code(0x22), Some(DescriptorType::Report));
    assert_eq!(DescriptorType::from_code(0x23), None);
}

#[test]
fn hid_protocol_codes_match_class_specification() {
    assert_eq!(HidProtocol::Boot.code(), 0x00);
    assert_eq!(HidProtocol::Report.code(), 0x01);
    assert_eq!(HidProtocol::from_code(0x00), Some(HidProtocol::Boot));
    assert_eq!(HidProtocol::from_code(0x01), Some(HidProtocol::Report));
    assert_eq!(HidProtocol::from_code(0x02), None);
}

#[test]
fn class_constants_match_class_specification() {
    assert_eq!(USB_CLASS_HID, 0x03);
    assert_eq!(SPEC_VERSION_1_11, 0x0111);
    assert_eq!(COUNTRY_CODE_NOT_SUPPORTED, 0x00);
}

#[test]
fn protocols_order_by_code_groups() {
    assert!(InterfaceProtocol::Unspecified < InterfaceProtocol::Keyboard);
    assert!(InterfaceProtocol::Keyboard < InterfaceProtocol::Mouse);
    assert!(InterfaceProtocol::Gamepad < InterfaceProtocol::Vendor);
}
