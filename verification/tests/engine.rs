use hid_interface::descriptor::{HidProtocol, InterfaceProtocol};
use hid_interface::gamepad::{switch_gamepad_report_descriptor, SwitchGamepadInterface};
use hid_interface::interface::{
    endpoint_descriptor, EndpointConfig, RawInterface, RawInterfaceBuilder, UsbPacketSize,
};
use hid_interface::report::SwitchGamepadReport;
use hid_interface::UsbHidError;

fn gamepad() -> SwitchGamepadInterface {
    SwitchGamepadInterface::new(RawInterface::new(SwitchGamepadInterface::default_config(), 1))
}

#[test]
fn new_interface_starts_at_specification_defaults() {
    let gp = gamepad();
    assert_eq!(gp.get_protocol(), HidProtocol::Report);
    assert_eq!(gp.get_idle(0), 2);
    assert_eq!(gp.id(), 1);
    assert_eq!(gp.report_descriptor(), &switch_gamepad_report_descriptor());
    assert_eq!(gp.description().as_deref(), Some("Switch Gamepad"));
}

#[test]
fn set_idle_then_get_idle_returns_value() {
    let mut gp = gamepad();
    for id in [0u8, 1, 7, 255] {
        for value in [0u8, 1, 2, 100, 255] {
            gp.set_idle(id, value);
            assert_eq!(gp.get_idle(id), value);
        }
    }
}

#[test]
fn unknown_report_id_shares_the_single_idle_slot() {
    let mut gp = gamepad();
    gp.set_idle(0, 9);
    assert_eq!(gp.get_idle(42), 9);
}

#[test]
fn set_protocol_then_get_protocol_returns_mode() {
    let mut gp = gamepad();
    gp.set_protocol(HidProtocol::Boot);
    assert_eq!(gp.get_protocol(), HidProtocol::Boot);
    gp.set_protocol(HidProtocol::Report);
    assert_eq!(gp.get_protocol(), HidProtocol::Report);
    gp.set_protocol(HidProtocol::Boot);
    assert_eq!(gp.get_protocol(), HidProtocol::Boot);
}

#[test]
fn reset_restores_defaults_after_mutations() {
    let mut gp = gamepad();
    gp.set_idle(0, 77);
    gp.set_idle(3, 200);
    gp.set_protocol(HidProtocol::Boot);
    gp.reset();
    assert_eq!(gp.get_idle(0), 2);
    assert_eq!(gp.get_idle(3), 2);
    assert_eq!(gp.get_idle(255), 2);
    assert_eq!(gp.get_protocol(), HidProtocol::Report);
}

#[test]
fn write_report_packs_into_interrupt_frame() {
    let gp = gamepad();
    let rep = SwitchGamepadReport {
        buttons: 0x0041,
        hat: 0x03,
        padding: 0,
        lx: 0x80,
        ly: 0x80,
        rx: 0x7F,
        ry: 0x00,
    };
    let frame = gp.write_report(&rep).unwrap();
    assert_eq!(frame, vec![0x41, 0x00, 0x03, 0x80, 0x80, 0x7F, 0x00]);
}

#[test]
fn write_report_surfaces_codec_error() {
    let gp = gamepad();
    let rep = SwitchGamepadReport {
        hat: 0x20,
        ..SwitchGamepadReport::default()
    };
    assert_eq!(gp.write_report(&rep), Err(UsbHidError::SerializationError));
}

#[test]
fn raw_write_report_rejects_frame_wider_than_packet() {
    let gp = gamepad();
    assert_eq!(
        gp.inner.write_report(vec![0; 9]),
        Err(UsbHidError::ProtocolViolation)
    );
    assert_eq!(gp.inner.write_report(vec![0; 8]), Ok(vec![0; 8]));
}

#[test]
fn set_report_then_get_report_returns_payload() {
    let mut gp = gamepad();
    gp.set_report(&[1, 2, 3, 4]).unwrap();
    let mut buf = Vec::new();
    assert_eq!(gp.get_report(&mut buf), Ok(4));
    assert_eq!(buf, vec![1, 2, 3, 4]);
}

#[test]
fn get_report_with_nothing_held_is_an_error() {
    let gp = gamepad();
    let mut buf = Vec::new();
    assert_eq!(gp.get_report(&mut buf), Err(UsbHidError::ProtocolViolation));
    assert!(buf.is_empty());
}

#[test]
fn set_report_rejects_payload_wider_than_packet() {
    let mut gp = gamepad();
    assert_eq!(
        gp.set_report(&[0; 9]),
        Err(UsbHidError::ProtocolViolation)
    );
    let mut buf = Vec::new();
    assert_eq!(gp.get_report(&mut buf), Err(UsbHidError::ProtocolViolation));
}

#[test]
fn interface_descriptor_advertises_boot_subclass_for_gamepad() {
    let gp = gamepad();
    let bytes = gp.inner.interface_descriptor(4);
    assert_eq!(bytes, vec![0x09, 0x04, 0x01, 0x00, 0x01, 0x03, 0x01, 0x05, 0x04]);
}

#[test]
fn interface_descriptor_advertises_no_subclass_without_protocol() {
    let iface = RawInterface::new(
        RawInterfaceBuilder::new(vec![0x00])
            .boot_device(InterfaceProtocol::Unspecified)
            .build(),
        0,
    );
    let bytes = iface.interface_descriptor(0);
    assert_eq!(bytes[6], 0x00);
    assert_eq!(bytes[7], 0x00);
}

#[test]
fn hid_descriptor_points_at_report_descriptor() {
    let gp = gamepad();
    let len = switch_gamepad_report_descriptor().len();
    assert_eq!(len, 85);
    assert_eq!(
        gp.inner.hid_descriptor(),
        vec![0x09, 0x21, 0x11, 0x01, 0x00, 0x01, 0x22, len as u8, 0x00]
    );
}

#[test]
fn endpoint_descriptor_encodes_interrupt_endpoint() {
    let ep = EndpointConfig {
        max_packet_size: UsbPacketSize::Bytes8,
        poll_interval_ms: 1,
    };
    assert_eq!(
        endpoint_descriptor(0x81, ep),
        vec![0x07, 0x05, 0x81, 0x03, 0x08, 0x00, 0x01]
    );
}

#[test]
fn write_descriptors_emits_configuration_order() {
    let gp = gamepad();
    let bytes = gp.write_descriptors(4, 0x81, 0x01);
    let mut expected = gp.inner.interface_descriptor(4);
    expected.extend(gp.inner.hid_descriptor());
    expected.extend(endpoint_descriptor(
        0x81,
        EndpointConfig {
            max_packet_size: UsbPacketSize::Bytes8,
            poll_interval_ms: 1,
        },
    ));
    assert_eq!(bytes, expected);
    // The subclass byte the gamepad advertises is Boot (0x01).
    assert_eq!(bytes[6], 0x01);
}

#[test]
fn write_descriptors_appends_out_endpoint_when_configured() {
    let config = RawInterfaceBuilder::new(vec![0x00, 0x01])
        .boot_device(InterfaceProtocol::Keyboard)
        .with_out_endpoint(UsbPacketSize::Bytes16, 10)
        .unwrap()
        .build();
    let iface = RawInterface::new(config, 2);
    let bytes = iface.write_descriptors(0, 0x82, 0x02);
    // Interface descriptor advertises two endpoints.
    assert_eq!(bytes[4], 2);
    // The fragment ends with the interrupt-OUT endpoint descriptor.
    assert_eq!(
        &bytes[bytes.len() - 7..],
        &[0x07, 0x05, 0x02, 0x03, 0x10, 0x00, 0x0A]
    );
}

#[test]
fn builder_rejects_idle_default_wider_than_a_byte() {
    let builder = RawInterfaceBuilder::new(vec![0x00]);
    assert!(builder.idle_default(2000).is_err());
}

#[test]
fn builder_rejects_poll_interval_wider_than_a_byte() {
    let builder = RawInterfaceBuilder::new(vec![0x00]);
    assert!(builder.in_endpoint(UsbPacketSize::Bytes8, 300).is_err());
}

#[test]
fn builder_idle_default_stores_four_millisecond_units() {
    let config = RawInterfaceBuilder::new(vec![0x00])
        .idle_default(500)
        .unwrap()
        .build();
    assert_eq!(config.idle_default, 125);
}
