use hid_interface::descriptor::HidProtocol;
use hid_interface::gamepad::SwitchGamepadInterface;
use hid_interface::interface::{ClassRequest, RawInterface};
use hid_interface::UsbHidError;

fn engine() -> RawInterface {
    RawInterface::new(SwitchGamepadInterface::default_config(), 0)
}

#[test]
fn request_codes_match_class_specification() {
    assert_eq!(ClassRequest::GetReport.code(), 0x01);
    assert_eq!(ClassRequest::GetIdle.code(), 0x02);
    assert_eq!(ClassRequest::GetProtocol.code(), 0x03);
    assert_eq!(ClassRequest::SetReport.code(), 0x09);
    assert_eq!(ClassRequest::SetIdle.code(), 0x0A);
    assert_eq!(ClassRequest::SetProtocol.code(), 0x0B);
    assert_eq!(ClassRequest::from_code(0x0A), Some(ClassRequest::SetIdle));
    assert_eq!(ClassRequest::from_code(0x04), None);
    assert_eq!(ClassRequest::from_code(0x00), None);
}

#[test]
fn set_idle_request_takes_duration_from_high_byte() {
    let mut engine = engine();
    let mut response = Vec::new();
    // wValue: duration 0x30 in the high byte, report id 0 in the low byte.
    engine
        .handle_control_request(0x0A, 0x3000, &[], &mut response)
        .unwrap();
    assert_eq!(engine.get_idle(0), 0x30);
    assert!(response.is_empty());
}

#[test]
fn get_idle_request_answers_one_byte() {
    let mut engine = engine();
    engine.set_idle(0, 9);
    let mut response = Vec::new();
    engine
        .handle_control_request(0x02, 0x0000, &[], &mut response)
        .unwrap();
    assert_eq!(response, vec![9]);
}

#[test]
fn set_protocol_request_decodes_both_modes() {
    let mut engine = engine();
    let mut response = Vec::new();
    engine
        .handle_control_request(0x0B, 0x0000, &[], &mut response)
        .unwrap();
    assert_eq!(engine.get_protocol(), HidProtocol::Boot);
    engine
        .handle_control_request(0x0B, 0x0001, &[], &mut response)
        .unwrap();
    assert_eq!(engine.get_protocol(), HidProtocol::Report);
}

#[test]
fn set_protocol_request_rejects_undefined_mode() {
    let mut engine = engine();
    let mut response = Vec::new();
    assert_eq!(
        engine.handle_control_request(0x0B, 0x0007, &[], &mut response),
        Err(UsbHidError::ProtocolViolation)
    );
    assert_eq!(engine.get_protocol(), HidProtocol::Report);
}

#[test]
fn get_protocol_request_answers_mode_code() {
    let mut engine = engine();
    let mut response = Vec::new();
    engine
        .handle_control_request(0x03, 0x0000, &[], &mut response)
        .unwrap();
    assert_eq!(response, vec![0x01]);
    engine.set_protocol(HidProtocol::Boot);
    engine
        .handle_control_request(0x03, 0x0000, &[], &mut response)
        .unwrap();
    assert_eq!(response, vec![0x00]);
}

#[test]
fn set_report_then_get_report_round_trips_payload() {
    let mut engine = engine();
    let mut response = Vec::new();
    engine
        .handle_control_request(0x09, 0x0000, &[5, 6, 7], &mut response)
        .unwrap();
    engine
        .handle_control_request(0x01, 0x0000, &[], &mut response)
        .unwrap();
    assert_eq!(response, vec![5, 6, 7]);
}

#[test]
fn get_report_request_with_nothing_held_is_an_error() {
    let mut engine = engine();
    let mut response = Vec::new();
    assert_eq!(
        engine.handle_control_request(0x01, 0x0000, &[], &mut response),
        Err(UsbHidError::ProtocolViolation)
    );
}

#[test]
fn undefined_request_code_is_an_error() {
    let mut engine = engine();
    let mut response = Vec::new();
    assert_eq!(
        engine.handle_control_request(0x05, 0x0000, &[], &mut response),
        Err(UsbHidError::ProtocolViolation)
    );
    assert_eq!(engine.get_protocol(), HidProtocol::Report);
    assert_eq!(engine.get_idle(0), 2);
}
