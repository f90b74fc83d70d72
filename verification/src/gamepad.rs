//! Gamepad device wrapper: one interface engine, one report descriptor,
//! one packed report type. The wrapper adds exactly one device-specific
//! operation — packing a typed report for the interrupt-IN path — and
//! forwards every other HID operation to the engine unchanged, one
//! explicit method per forwarded operation.
use vstd::prelude::*;

use crate::descriptor::{HidProtocol, InterfaceProtocol};
use crate::interface::{RawInterface, RawInterfaceBuilder, RawInterfaceConfig, UsbPacketSize};
use crate::report::{SwitchGamepadReport, SWITCH_GAMEPAD_REPORT_BYTES};
use crate::UsbHidError;

verus! {

/// The gamepad's report descriptor, as a fight-stick controller reports
/// it: sixteen one-bit buttons, a hat nibble with a spare padding nibble,
/// four eight-bit axes, one vendor byte, and an eight-byte output report.
pub open spec fn spec_switch_gamepad_report_descriptor() -> Seq<u8> {
    seq![
        0x08u8, 0x01,  // usage page: generic desktop
        0x08, 0x05,  // usage: joystick
        0x08, 0x01,  // collection: application
        0x08, 0x00,  // logical minimum
        0x08, 0x01,  // logical maximum
        0x08, 0x00,  // physical minimum
        0x08, 0x01,  // physical maximum
        0x08, 0x01,  // report size: 1
        0x08, 0x10,  // report count: 16
        0x08, 0x09,  // usage page: button
        0x08, 0x01,  // usage minimum
        0x08, 0x10,  // usage maximum
        0x08, 0x02,  // input
        0x08, 0x01,  // usage page
        0x08, 0x07,  // logical maximum
        0x10, 0x01, 0x3B,  // physical maximum
        0x08, 0x04,  // report size
        0x08, 0x01,  // report count
        0x08, 0x14,  // unit
        0x08, 0x39,  // usage: hat switch
        0x08, 0x42,  // input
        0x08, 0x00,  // unit (spare nibble)
        0x08, 0x01,  // report count
        0x08, 0x01,  // input
        0x10, 0xFF, 0xFF,  // logical maximum
        0x10, 0xFF,  // physical maximum
        0x08, 0x08,  // usage
        0x08, 0x31,  // usage
        0x08, 0x32,  // usage
        0x08, 0x35,  // usage
        0x08, 0x08,  // report size
        0x08, 0x04,  // report count
        0x08, 0x02,  // input
        0x10, 0xFF, 0x00,  // usage page: vendor
        0x08, 0x20,  // usage
        0x08, 0x01,  // report count
        0x08, 0x02,  // input
        0x10, 0x26, 0x21,  // usage
        0x08, 0x08,  // report count
        0x08, 0x02,  // output
        0x00,  // end collection
    ]
}

/// Builds the gamepad's report descriptor bytes.
pub fn switch_gamepad_report_descriptor() -> (r: Vec<u8>)
    ensures
        r@ == spec_switch_gamepad_report_descriptor(),
{
    let bytes: Vec<u8> = vec![
        0x08u8, 0x01, 0x08, 0x05, 0x08, 0x01, 0x08, 0x00, 0x08, 0x01, 0x08, 0x00, 0x08, 0x01,
        0x08, 0x01, 0x08, 0x10, 0x08, 0x09, 0x08, 0x01, 0x08, 0x10, 0x08, 0x02, 0x08, 0x01,
        0x08, 0x07, 0x10, 0x01, 0x3B, 0x08, 0x04, 0x08, 0x01, 0x08, 0x14, 0x08, 0x39, 0x08,
        0x42, 0x08, 0x00, 0x08, 0x01, 0x08, 0x01, 0x10, 0xFF, 0xFF, 0x10, 0xFF, 0x08, 0x08,
        0x08, 0x31, 0x08, 0x32, 0x08, 0x35, 0x08, 0x08, 0x08, 0x04, 0x08, 0x02, 0x10, 0xFF,
        0x00, 0x08, 0x20, 0x08, 0x01, 0x08, 0x02, 0x10, 0x26, 0x21, 0x08, 0x08, 0x08, 0x02,
        0x00,
    ];
    proof {
        assert(bytes@ =~= spec_switch_gamepad_report_descriptor());
    }
    bytes
}

/// A gamepad interface: the generic engine plus the gamepad's descriptor
/// and packed report type.
pub struct SwitchGamepadInterface {
    pub inner: RawInterface,
}

impl SwitchGamepadInterface {
    pub fn new(interface: RawInterface) -> (r: Self)
        ensures
            r.inner == interface,
    {
        SwitchGamepadInterface { inner: interface }
    }

    /// The gamepad's stock configuration: its own report descriptor, boot
    /// protocol `Gamepad`, a 10 ms idle default (2 in 4 ms units), and an
    /// 8-byte interrupt-IN endpoint polled every millisecond.
    pub fn default_config() -> (r: RawInterfaceConfig)
        ensures
            r.report_descriptor@ == spec_switch_gamepad_report_descriptor(),
            r.protocol == InterfaceProtocol::Gamepad,
            (r.description matches Some(d) && d@ == "Switch Gamepad"@),
            r.idle_default == 2,
            r.in_endpoint.max_packet_size == UsbPacketSize::Bytes8,
            r.in_endpoint.poll_interval_ms == 1,
            r.out_endpoint is None,
            r.spec_wf(),
    {
        let builder = RawInterfaceBuilder::new(switch_gamepad_report_descriptor());
        let builder = builder.boot_device(InterfaceProtocol::Gamepad);
        let builder = builder.description("Switch Gamepad");
        let builder = match builder.idle_default(10) {
            Ok(b) => b,
            Err(_) => {
                proof {
                    assert(false);
                }
                vstd::pervasive::unreached()
            },
        };
        let builder = match builder.in_endpoint(UsbPacketSize::Bytes8, 1) {
            Ok(b) => b,
            Err(_) => {
                proof {
                    assert(false);
                }
                vstd::pervasive::unreached()
            },
        };
        let builder = builder.without_out_endpoint();
        builder.build()
    }

    /// Packs a typed report and validates it against the configured
    /// packet size, handing back the interrupt-IN frame for the transport
    /// to submit. Fields outside their declared bit widths surface as a
    /// serialization error; a frame the endpoint cannot carry as a
    /// protocol violation.
    pub fn write_report(&self, report: &SwitchGamepadReport) -> (r: Result<Vec<u8>, UsbHidError>)
        ensures
            (report.spec_valid() && SWITCH_GAMEPAD_REPORT_BYTES
                <= self.inner.config.in_endpoint.max_packet_size.spec_size()) <==> r is Ok,
            r matches Ok(frame) ==> frame@ == report.spec_pack(),
            !report.spec_valid() ==> r == Err::<Vec<u8>, UsbHidError>(
                UsbHidError::SerializationError,
            ),
    {
        let data = match report.pack() {
            Ok(d) => d,
            Err(e) => {
                return Err(e);
            },
        };
        self.inner.write_report(data)
    }

    // The remaining HID operations forward to the engine unchanged, so
    // this wrapper cannot diverge from the generic behaviour.

    pub fn report_descriptor(&self) -> (r: &Vec<u8>)
        ensures
            r@ == self.inner.config.report_descriptor@,
    {
        self.inner.report_descriptor()
    }

    pub fn id(&self) -> (r: u8)
        ensures
            r == self.inner.number,
    {
        self.inner.id()
    }

    pub fn description(&self) -> (r: &Option<String>)
        ensures
            r == &self.inner.config.description,
    {
        self.inner.description()
    }

    pub fn write_descriptors(&self, string_index: u8, in_address: u8, out_address: u8) -> (r: Vec<
        u8,
    >)
        requires
            self.inner.config.spec_wf(),
        ensures
            r@ == self.inner.spec_descriptors(string_index, in_address, out_address),
    {
        self.inner.write_descriptors(string_index, in_address, out_address)
    }

    pub fn reset(&mut self)
        ensures
            *final(self) == (SwitchGamepadInterface { inner: old(self).inner.spec_reset() }),
    {
        self.inner.reset();
    }

    pub fn set_report(&mut self, data: &[u8]) -> (r: Result<(), UsbHidError>)
        ensures
            data@.len() <= old(self).inner.config.in_endpoint.max_packet_size.spec_size() <==> r
                is Ok,
            r is Ok ==> (final(self).inner.held_report matches Some(h) && h@ == data@),
            final(self).inner.config == old(self).inner.config,
            final(self).inner.number == old(self).inner.number,
            final(self).inner.protocol == old(self).inner.protocol,
            final(self).inner.global_idle == old(self).inner.global_idle,
            r is Err ==> (*final(self) == *old(self) && r == Err::<(), UsbHidError>(
                UsbHidError::ProtocolViolation,
            )),
    {
        self.inner.set_report(data)
    }

    pub fn get_report(&self, data: &mut Vec<u8>) -> (r: Result<usize, UsbHidError>)
        ensures
            self.inner.held_report is Some <==> r is Ok,
            r matches Ok(n) ==> (self.inner.held_report matches Some(h) && final(data)@ == h@ && n
                == h@.len()),
            r is Err ==> (*final(data) == *old(data) && r == Err::<usize, UsbHidError>(
                UsbHidError::ProtocolViolation,
            )),
    {
        self.inner.get_report(data)
    }

    pub fn set_idle(&mut self, report_id: u8, value: u8)
        ensures
            *final(self) == (SwitchGamepadInterface {
                inner: old(self).inner.spec_set_idle(report_id, value),
            }),
    {
        self.inner.set_idle(report_id, value);
    }

    pub fn get_idle(&self, report_id: u8) -> (r: u8)
        ensures
            r == self.inner.spec_get_idle(report_id),
    {
        self.inner.get_idle(report_id)
    }

    pub fn set_protocol(&mut self, protocol: HidProtocol)
        ensures
            *final(self) == (SwitchGamepadInterface {
                inner: old(self).inner.spec_set_protocol(protocol),
            }),
    {
        self.inner.set_protocol(protocol);
    }

    pub fn get_protocol(&self) -> (r: HidProtocol)
        ensures
            r == self.inner.protocol,
    {
        self.inner.get_protocol()
    }
}

} // verus!
