//! The HID interface engine: owns the interface identity, the report
//! descriptor, the idle rate and the protocol mode, encodes the interface's
//! configuration descriptors, and carries out the class control requests
//! (get/set report, idle and protocol) so that device wrappers never
//! re-implement control-request handling.
use vstd::prelude::*;

use crate::descriptor::{
    spec_subclass_of, DescriptorType, HidProtocol, InterfaceProtocol, InterfaceSubClass,
    COUNTRY_CODE_NOT_SUPPORTED, SPEC_VERSION_1_11, USB_CLASS_HID,
};
use crate::UsbHidError;

verus! {

/// Standard USB descriptor-type byte for an interface descriptor.
pub const DESCRIPTOR_TYPE_INTERFACE: u8 = 0x04;
/// Standard USB descriptor-type byte for an endpoint descriptor.
pub const DESCRIPTOR_TYPE_ENDPOINT: u8 = 0x05;
/// Endpoint attribute byte selecting interrupt transfers.
pub const ENDPOINT_ATTRIBUTES_INTERRUPT: u8 = 0x03;
/// Byte length of a standard interface descriptor.
pub const INTERFACE_DESCRIPTOR_BYTES: usize = 9;
/// Byte length of the HID class descriptor this engine synthesizes.
pub const HID_DESCRIPTOR_BYTES: usize = 9;
/// Byte length of a standard endpoint descriptor.
pub const ENDPOINT_DESCRIPTOR_BYTES: usize = 7;

/// The packet sizes USB allows for a full-speed interrupt endpoint.
#[derive(Clone, Copy, Debug, PartialEq, Eq, Structural)]
pub enum UsbPacketSize {
    Bytes8,
    Bytes16,
    Bytes32,
    Bytes64,
}

impl UsbPacketSize {
    pub open spec fn spec_size(self) -> u16 {
        match self {
            UsbPacketSize::Bytes8 => 8,
            UsbPacketSize::Bytes16 => 16,
            UsbPacketSize::Bytes32 => 32,
            UsbPacketSize::Bytes64 => 64,
        }
    }

    pub fn size(self) -> (r: u16)
        ensures
            r == self.spec_size(),
    {
        match self {
            UsbPacketSize::Bytes8 => 8,
            UsbPacketSize::Bytes16 => 16,
            UsbPacketSize::Bytes32 => 32,
            UsbPacketSize::Bytes64 => 64,
        }
    }
}

/// Configuration of one interrupt endpoint: its packet size and the host
/// polling interval in milliseconds.
#[derive(Clone, Copy, Debug, PartialEq, Eq, Structural)]
pub struct EndpointConfig {
    pub max_packet_size: UsbPacketSize,
    pub poll_interval_ms: u8,
}

/// Everything an interface is configured with at construction: the report
/// descriptor it serves, the protocol it advertises, the idle default (in
/// 4 ms units), one interrupt-IN endpoint and an optional interrupt-OUT
/// endpoint, and an optional human-readable description.
pub struct RawInterfaceConfig {
    pub report_descriptor: Vec<u8>,
    pub description: Option<String>,
    pub protocol: InterfaceProtocol,
    pub idle_default: u8,
    pub in_endpoint: EndpointConfig,
    pub out_endpoint: Option<EndpointConfig>,
}

impl RawInterfaceConfig {
    /// The report descriptor's length must fit the two-byte length field
    /// of the HID class descriptor.
    pub open spec fn spec_wf(self) -> bool {
        self.report_descriptor@.len() <= 0xFFFF
    }
}

/// Builds a `RawInterfaceConfig` step by step, mirroring the order the
/// fields are chosen in: descriptor, protocol, description, idle default,
/// endpoints.
pub struct RawInterfaceBuilder {
    pub config: RawInterfaceConfig,
}

impl RawInterfaceBuilder {
    /// Starts from a caller-supplied, already-encoded report descriptor,
    /// exposed verbatim. Defaults: no advertised boot protocol, no
    /// description, idle default 0 (report only on change), an 8-byte
    /// interrupt-IN endpoint polled every millisecond, no OUT endpoint.
    pub fn new(report_descriptor: Vec<u8>) -> (r: Self)
        requires
            report_descriptor@.len() <= 0xFFFF,
        ensures
            r.config.report_descriptor@ == report_descriptor@,
            r.config.description is None,
            r.config.protocol == InterfaceProtocol::Unspecified,
            r.config.idle_default == 0,
            r.config.in_endpoint == (EndpointConfig {
                max_packet_size: UsbPacketSize::Bytes8,
                poll_interval_ms: 1,
            }),
            r.config.out_endpoint is None,
            r.config.spec_wf(),
    {
        RawInterfaceBuilder {
            config: RawInterfaceConfig {
                report_descriptor,
                description: None,
                protocol: InterfaceProtocol::Unspecified,
                idle_default: 0,
                in_endpoint: EndpointConfig {
                    max_packet_size: UsbPacketSize::Bytes8,
                    poll_interval_ms: 1,
                },
                out_endpoint: None,
            },
        }
    }

    /// Advertises the interface as a boot device of the given protocol;
    /// the subclass follows from the protocol and is never set on its own.
    pub fn boot_device(self, protocol: InterfaceProtocol) -> (r: Self)
        ensures
            r.config.protocol == protocol,
            r.config.report_descriptor@ == self.config.report_descriptor@,
            r.config.description == self.config.description,
            r.config.idle_default == self.config.idle_default,
            r.config.in_endpoint == self.config.in_endpoint,
            r.config.out_endpoint == self.config.out_endpoint,
    {
        RawInterfaceBuilder { config: RawInterfaceConfig { protocol, ..self.config } }
    }

    /// Names the interface for the host's string descriptors.
    pub fn description(self, text: &str) -> (r: Self)
        ensures
            r.config.description matches Some(d) && d@ == text@,
            r.config.report_descriptor@ == self.config.report_descriptor@,
            r.config.protocol == self.config.protocol,
            r.config.idle_default == self.config.idle_default,
            r.config.in_endpoint == self.config.in_endpoint,
            r.config.out_endpoint == self.config.out_endpoint,
    {
        RawInterfaceBuilder {
            config: RawInterfaceConfig { description: Some(text.to_owned()), ..self.config },
        }
    }

    /// Sets the idle default from a duration in milliseconds, stored in
    /// the 4 ms units of the HID idle rate (truncating division). A
    /// duration too long for the one-byte idle field is an error.
    pub fn idle_default(self, duration_ms: u32) -> (r: Result<Self, UsbHidError>)
        ensures
            duration_ms / 4 <= 0xFF <==> r is Ok,
            r matches Ok(b) ==> {
                &&& b.config.idle_default == duration_ms / 4
                &&& b.config.report_descriptor@ == self.config.report_descriptor@
                &&& b.config.description == self.config.description
                &&& b.config.protocol == self.config.protocol
                &&& b.config.in_endpoint == self.config.in_endpoint
                &&& b.config.out_endpoint == self.config.out_endpoint
            },
            r is Err ==> r == Err::<Self, UsbHidError>(UsbHidError::ProtocolViolation),
    {
        let units: u32 = duration_ms / 4;
        if units > 0xFF {
            return Err(UsbHidError::ProtocolViolation);
        }
        Ok(
            RawInterfaceBuilder {
                config: RawInterfaceConfig { idle_default: units as u8, ..self.config },
            },
        )
    }

    /// Configures the interrupt-IN endpoint reports are sent through. A
    /// polling interval too long for the descriptor's one-byte interval
    /// field is an error.
    pub fn in_endpoint(self, max_packet_size: UsbPacketSize, poll_interval_ms: u32) -> (r: Result<
        Self,
        UsbHidError,
    >)
        ensures
            poll_interval_ms <= 0xFF <==> r is Ok,
            r matches Ok(b) ==> {
                &&& b.config.in_endpoint == (EndpointConfig {
                    max_packet_size,
                    poll_interval_ms: poll_interval_ms as u8,
                })
                &&& b.config.report_descriptor@ == self.config.report_descriptor@
                &&& b.config.description == self.config.description
                &&& b.config.protocol == self.config.protocol
                &&& b.config.idle_default == self.config.idle_default
                &&& b.config.out_endpoint == self.config.out_endpoint
            },
            r is Err ==> r == Err::<Self, UsbHidError>(UsbHidError::ProtocolViolation),
    {
        if poll_interval_ms > 0xFF {
            return Err(UsbHidError::ProtocolViolation);
        }
        Ok(
            RawInterfaceBuilder {
                config: RawInterfaceConfig {
                    in_endpoint: EndpointConfig {
                        max_packet_size,
                        poll_interval_ms: poll_interval_ms as u8,
                    },
                    ..self.config
                },
            },
        )
    }

    /// Configures an interrupt-OUT endpoint for host-to-device reports.
    pub fn with_out_endpoint(self, max_packet_size: UsbPacketSize, poll_interval_ms: u32) -> (r:
        Result<Self, UsbHidError>)
        ensures
            poll_interval_ms <= 0xFF <==> r is Ok,
            r matches Ok(b) ==> {
                &&& b.config.out_endpoint matches Some(ep) && ep == (EndpointConfig {
                    max_packet_size,
                    poll_interval_ms: poll_interval_ms as u8,
                })
                &&& b.config.report_descriptor@ == self.config.report_descriptor@
                &&& b.config.description == self.config.description
                &&& b.config.protocol == self.config.protocol
                &&& b.config.idle_default == self.config.idle_default
                &&& b.config.in_endpoint == self.config.in_endpoint
            },
            r is Err ==> r == Err::<Self, UsbHidError>(UsbHidError::ProtocolViolation),
    {
        if poll_interval_ms > 0xFF {
            return Err(UsbHidError::ProtocolViolation);
        }
        Ok(
            RawInterfaceBuilder {
                config: RawInterfaceConfig {
                    out_endpoint: Some(
                        EndpointConfig {
                            max_packet_size,
                            poll_interval_ms: poll_interval_ms as u8,
                        },
                    ),
                    ..self.config
                },
            },
        )
    }

    /// Leaves the interface with the interrupt-IN endpoint only.
    pub fn without_out_endpoint(self) -> (r: Self)
        ensures
            r.config.out_endpoint is None,
            r.config.report_descriptor@ == self.config.report_descriptor@,
            r.config.description == self.config.description,
            r.config.protocol == self.config.protocol,
            r.config.idle_default == self.config.idle_default,
            r.config.in_endpoint == self.config.in_endpoint,
    {
        RawInterfaceBuilder { config: RawInterfaceConfig { out_endpoint: None, ..self.config } }
    }

    pub fn build(self) -> (r: RawInterfaceConfig)
        ensures
            r == self.config,
    {
        self.config
    }
}

/// The standard interface descriptor: length, type, interface number,
/// alternate setting 0, endpoint count, the HID class code, the subclass
/// derived from the protocol, the protocol code, and the string index.
pub open spec fn spec_interface_descriptor(
    number: u8,
    num_endpoints: u8,
    protocol: InterfaceProtocol,
    string_index: u8,
) -> Seq<u8> {
    seq![
        INTERFACE_DESCRIPTOR_BYTES as u8,
        DESCRIPTOR_TYPE_INTERFACE,
        number,
        0u8,
        num_endpoints,
        USB_CLASS_HID,
        spec_subclass_of(protocol).spec_code(),
        protocol.spec_code(),
        string_index,
    ]
}

/// The HID class descriptor: length, type, the specification release in
/// binary-coded decimal (least-significant byte first), the country code,
/// a count of one class descriptor, and the type/length pair pointing at
/// the report descriptor.
pub open spec fn spec_hid_descriptor(report_descriptor_len: u16) -> Seq<u8> {
    seq![
        HID_DESCRIPTOR_BYTES as u8,
        DescriptorType::Hid.spec_code(),
        (SPEC_VERSION_1_11 & 0xFF) as u8,
        (SPEC_VERSION_1_11 >> 8) as u8,
        COUNTRY_CODE_NOT_SUPPORTED,
        1u8,
        DescriptorType::Report.spec_code(),
        (report_descriptor_len & 0xFF) as u8,
        (report_descriptor_len >> 8) as u8,
    ]
}

/// The standard endpoint descriptor for one interrupt endpoint: length,
/// type, the transport-assigned address, the interrupt attribute, the
/// packet size (least-significant byte first) and the polling interval.
pub open spec fn spec_endpoint_descriptor(address: u8, endpoint: EndpointConfig) -> Seq<u8> {
    seq![
        ENDPOINT_DESCRIPTOR_BYTES as u8,
        DESCRIPTOR_TYPE_ENDPOINT,
        address,
        ENDPOINT_ATTRIBUTES_INTERRUPT,
        (endpoint.max_packet_size.spec_size() & 0xFF) as u8,
        (endpoint.max_packet_size.spec_size() >> 8) as u8,
        endpoint.poll_interval_ms,
    ]
}

/// Encodes one interrupt endpoint's descriptor.
pub fn endpoint_descriptor(address: u8, endpoint: EndpointConfig) -> (r: Vec<u8>)
    ensures
        r@ == spec_endpoint_descriptor(address, endpoint),
{
    let size: u16 = endpoint.max_packet_size.size();
    let mut bytes: Vec<u8> = Vec::new();
    bytes.push(ENDPOINT_DESCRIPTOR_BYTES as u8);
    bytes.push(DESCRIPTOR_TYPE_ENDPOINT);
    bytes.push(address);
    bytes.push(ENDPOINT_ATTRIBUTES_INTERRUPT);
    bytes.push((size & 0xFF) as u8);
    bytes.push((size >> 8) as u8);
    bytes.push(endpoint.poll_interval_ms);
    proof {
        assert(bytes@ =~= spec_endpoint_descriptor(address, endpoint));
    }
    bytes
}

/// One HID interface at runtime: its fixed configuration and identity,
/// and the small mutable state the class requests act on — the protocol
/// mode, the idle rate, and one held report slot for control-pipe report
/// traffic. This is a single-report interface: every report id shares the
/// one idle slot and the one report slot.
pub struct RawInterface {
    pub config: RawInterfaceConfig,
    pub number: u8,
    pub protocol: HidProtocol,
    pub global_idle: u8,
    pub held_report: Option<Vec<u8>>,
}

impl RawInterface {
    /// The idle rate answered for any report id: one slot, shared by
    /// every id, per the single-report model.
    pub open spec fn spec_get_idle(self, report_id: u8) -> u8 {
        self.global_idle
    }

    pub open spec fn spec_set_idle(self, report_id: u8, value: u8) -> Self {
        RawInterface { global_idle: value, ..self }
    }

    pub open spec fn spec_set_protocol(self, protocol: HidProtocol) -> Self {
        RawInterface { protocol, ..self }
    }

    /// What `reset` restores: the idle rate to its configured default and
    /// the protocol mode to `Report`; configuration and identity stay.
    pub open spec fn spec_reset(self) -> Self {
        RawInterface {
            protocol: HidProtocol::Report,
            global_idle: self.config.idle_default,
            ..self
        }
    }

    pub open spec fn spec_num_endpoints(self) -> u8 {
        if self.config.out_endpoint is Some {
            2
        } else {
            1
        }
    }

    /// Takes ownership of a configuration and the interface number the
    /// transport slot assigned. The protocol mode starts at `Report`, the
    /// specification default, and the idle rate at the configured default.
    pub fn new(config: RawInterfaceConfig, number: u8) -> (r: Self)
        requires
            config.spec_wf(),
        ensures
            r.config == config,
            r.number == number,
            r.protocol == HidProtocol::Report,
            r.global_idle == config.idle_default,
            r.held_report is None,
    {
        let idle: u8 = config.idle_default;
        RawInterface {
            config,
            number,
            protocol: HidProtocol::Report,
            global_idle: idle,
            held_report: None,
        }
    }

    pub fn id(&self) -> (r: u8)
        ensures
            r == self.number,
    {
        self.number
    }

    /// The immutable report descriptor, exposed verbatim.
    pub fn report_descriptor(&self) -> (r: &Vec<u8>)
        ensures
            r@ == self.config.report_descriptor@,
    {
        &self.config.report_descriptor
    }

    /// The configured description, for the transport's string descriptors.
    pub fn description(&self) -> (r: &Option<String>)
        ensures
            r == &self.config.description,
    {
        &self.config.description
    }

    pub fn get_idle(&self, report_id: u8) -> (r: u8)
        ensures
            r == self.spec_get_idle(report_id),
    {
        self.global_idle
    }

    /// Stores the idle rate from a Set Idle request. An id naming no
    /// distinct report falls back to the shared slot rather than being
    /// rejected: a deliberate leniency for single-report devices.
    pub fn set_idle(&mut self, report_id: u8, value: u8)
        ensures
            *final(self) == old(self).spec_set_idle(report_id, value),
    {
        self.global_idle = value;
    }

    pub fn get_protocol(&self) -> (r: HidProtocol)
        ensures
            r == self.protocol,
    {
        self.protocol
    }

    /// Stores the protocol mode from a Set Protocol request; both enum
    /// values are valid, so this never fails.
    pub fn set_protocol(&mut self, protocol: HidProtocol)
        ensures
            *final(self) == old(self).spec_set_protocol(protocol),
    {
        self.protocol = protocol;
    }

    /// Restores the idle rate to its configured default and the protocol
    /// mode to `Report`, whatever was mutated before.
    pub fn reset(&mut self)
        ensures
            *final(self) == old(self).spec_reset(),
    {
        self.global_idle = self.config.idle_default;
        self.protocol = HidProtocol::Report;
    }

    /// Validates an outbound report against the configured packet size and
    /// hands back the interrupt-IN frame for the transport to submit. A
    /// payload the endpoint cannot carry is a protocol violation.
    pub fn write_report(&self, data: Vec<u8>) -> (r: Result<Vec<u8>, UsbHidError>)
        ensures
            data@.len() <= self.config.in_endpoint.max_packet_size.spec_size() <==> r is Ok,
            r matches Ok(frame) ==> frame@ == data@,
            r is Err ==> r == Err::<Vec<u8>, UsbHidError>(UsbHidError::ProtocolViolation),
    {
        if data.len() > self.config.in_endpoint.max_packet_size.size() as usize {
            return Err(UsbHidError::ProtocolViolation);
        }
        Ok(data)
    }

    /// Stores a host-originated report payload in the held slot. A payload
    /// larger than the configured packet size is a protocol violation and
    /// leaves the state unchanged.
    pub fn set_report(&mut self, data: &[u8]) -> (r: Result<(), UsbHidError>)
        ensures
            data@.len() <= old(self).config.in_endpoint.max_packet_size.spec_size() <==> r is Ok,
            r is Ok ==> (final(self).held_report matches Some(h) && h@ == data@),
            final(self).config == old(self).config,
            final(self).number == old(self).number,
            final(self).protocol == old(self).protocol,
            final(self).global_idle == old(self).global_idle,
            r is Err ==> (*final(self) == *old(self) && r == Err::<(), UsbHidError>(
                UsbHidError::ProtocolViolation,
            )),
    {
        if data.len() > self.config.in_endpoint.max_packet_size.size() as usize {
            return Err(UsbHidError::ProtocolViolation);
        }
        self.held_report = Some(vstd::slice::slice_to_vec(data));
        Ok(())
    }

    /// Copies the held report out for a host read. With nothing held the
    /// request is unsupported: an error, never a silently invented report.
    pub fn get_report(&self, data: &mut Vec<u8>) -> (r: Result<usize, UsbHidError>)
        ensures
            self.held_report is Some <==> r is Ok,
            r matches Ok(n) ==> (self.held_report matches Some(h) && final(data)@ == h@ && n
                == h@.len()),
            r is Err ==> (*final(data) == *old(data) && r == Err::<usize, UsbHidError>(
                UsbHidError::ProtocolViolation,
            )),
    {
        match &self.held_report {
            Some(h) => {
                data.clear();
                let n = h.len();
                let mut i: usize = 0;
                while i < n
                    invariant
                        i <= n,
                        n == h@.len(),
                        data@ == h@.subrange(0, i as int),
                    decreases n - i,
                {
                    data.push(h[i]);
                    proof {
                        assert(h@.subrange(0, (i + 1) as int) =~= h@.subrange(0, i as int).push(
                            h@[i as int],
                        ));
                    }
                    i += 1;
                }
                proof {
                    assert(data@ =~= h@);
                }
                Ok(n)
            },
            None => Err(UsbHidError::ProtocolViolation),
        }
    }

    /// Encodes this interface's standard interface descriptor, with the
    /// subclass derived from the configured protocol.
    pub fn interface_descriptor(&self, string_index: u8) -> (r: Vec<u8>)
        ensures
            r@ == spec_interface_descriptor(
                self.number,
                self.spec_num_endpoints(),
                self.config.protocol,
                string_index,
            ),
    {
        let mut bytes: Vec<u8> = Vec::new();
        bytes.push(INTERFACE_DESCRIPTOR_BYTES as u8);
        bytes.push(DESCRIPTOR_TYPE_INTERFACE);
        bytes.push(self.number);
        bytes.push(0u8);
        bytes.push(if self.config.out_endpoint.is_some() { 2 } else { 1 });
        bytes.push(USB_CLASS_HID);
        bytes.push(InterfaceSubClass::from(self.config.protocol).code());
        bytes.push(self.config.protocol.code());
        bytes.push(string_index);
        proof {
            assert(bytes@ =~= spec_interface_descriptor(
                self.number,
                self.spec_num_endpoints(),
                self.config.protocol,
                string_index,
            ));
        }
        bytes
    }

    /// Synthesizes the nine-byte HID class descriptor pointing at the
    /// report descriptor.
    pub fn hid_descriptor(&self) -> (r: Vec<u8>)
        requires
            self.config.spec_wf(),
        ensures
            r@ == spec_hid_descriptor(self.config.report_descriptor@.len() as u16),
    {
        let len: u16 = self.config.report_descriptor.len() as u16;
        let mut bytes: Vec<u8> = Vec::new();
        bytes.push(HID_DESCRIPTOR_BYTES as u8);
        bytes.push(DescriptorType::Hid.code());
        bytes.push((SPEC_VERSION_1_11 & 0xFF) as u8);
        bytes.push((SPEC_VERSION_1_11 >> 8) as u8);
        bytes.push(COUNTRY_CODE_NOT_SUPPORTED);
        bytes.push(1u8);
        bytes.push(DescriptorType::Report.code());
        bytes.push((len & 0xFF) as u8);
        bytes.push((len >> 8) as u8);
        proof {
            assert(bytes@ =~= spec_hid_descriptor(self.config.report_descriptor@.len() as u16));
        }
        bytes
    }

    /// The configuration-descriptor fragment for this interface, in the
    /// order USB requires: interface descriptor, HID descriptor, then the
    /// endpoint descriptor(s). The string index and endpoint addresses are
    /// the identities the transport assigned.
    pub open spec fn spec_descriptors(
        self,
        string_index: u8,
        in_address: u8,
        out_address: u8,
    ) -> Seq<u8> {
        spec_interface_descriptor(
            self.number,
            self.spec_num_endpoints(),
            self.config.protocol,
            string_index,
        ) + spec_hid_descriptor(self.config.report_descriptor@.len() as u16)
            + spec_endpoint_descriptor(in_address, self.config.in_endpoint) + (
        match self.config.out_endpoint {
            Some(ep) => spec_endpoint_descriptor(out_address, ep),
            None => Seq::<u8>::empty(),
        })
    }

    /// Emits the interface's descriptors in configuration-descriptor
    /// order.
    pub fn write_descriptors(&self, string_index: u8, in_address: u8, out_address: u8) -> (r: Vec<
        u8,
    >)
        requires
            self.config.spec_wf(),
        ensures
            r@ == self.spec_descriptors(string_index, in_address, out_address),
    {
        let mut bytes = self.interface_descriptor(string_index);
        let mut hid = self.hid_descriptor();
        bytes.append(&mut hid);
        let mut ep_in = endpoint_descriptor(in_address, self.config.in_endpoint);
        bytes.append(&mut ep_in);
        match self.config.out_endpoint {
            Some(ep) => {
                let mut ep_out = endpoint_descriptor(out_address, ep);
                bytes.append(&mut ep_out);
            },
            None => {},
        }
        proof {
            assert(bytes@ =~= self.spec_descriptors(string_index, in_address, out_address));
        }
        bytes
    }
}

/// The class-specific request codes a HID interface answers on the
/// control pipe, fixed by the HID class specification.
#[derive(Clone, Copy, Debug, PartialEq, Eq, Structural)]
pub enum ClassRequest {
    GetReport,
    GetIdle,
    GetProtocol,
    SetReport,
    SetIdle,
    SetProtocol,
}

impl ClassRequest {
    /// The bRequest byte of each class request.
    pub open spec fn spec_code(self) -> u8 {
        match self {
            ClassRequest::GetReport => 0x01,
            ClassRequest::GetIdle => 0x02,
            ClassRequest::GetProtocol => 0x03,
            ClassRequest::SetReport => 0x09,
            ClassRequest::SetIdle => 0x0A,
            ClassRequest::SetProtocol => 0x0B,
        }
    }

    pub fn code(self) -> (r: u8)
        ensures
            r == self.spec_code(),
    {
        match self {
            ClassRequest::GetReport => 0x01,
            ClassRequest::GetIdle => 0x02,
            ClassRequest::GetProtocol => 0x03,
            ClassRequest::SetReport => 0x09,
            ClassRequest::SetIdle => 0x0A,
            ClassRequest::SetProtocol => 0x0B,
        }
    }

    /// The request a bRequest byte decodes to; any byte outside the
    /// defined set is unsupported.
    pub open spec fn spec_from_code(code: u8) -> Option<ClassRequest> {
        if code == 0x01 {
            Some(ClassRequest::GetReport)
        } else if code == 0x02 {
            Some(ClassRequest::GetIdle)
        } else if code == 0x03 {
            Some(ClassRequest::GetProtocol)
        } else if code == 0x09 {
            Some(ClassRequest::SetReport)
        } else if code == 0x0A {
            Some(ClassRequest::SetIdle)
        } else if code == 0x0B {
            Some(ClassRequest::SetProtocol)
        } else {
            None
        }
    }

    pub fn from_code(code: u8) -> (r: Option<ClassRequest>)
        ensures
            r == ClassRequest::spec_from_code(code),
    {
        match code {
            0x01 => Some(ClassRequest::GetReport),
            0x02 => Some(ClassRequest::GetIdle),
            0x03 => Some(ClassRequest::GetProtocol),
            0x09 => Some(ClassRequest::SetReport),
            0x0A => Some(ClassRequest::SetIdle),
            0x0B => Some(ClassRequest::SetProtocol),
            _ => None,
        }
    }
}

impl RawInterface {
    /// Answers one class control request, decoded bit-exactly per the HID
    /// class specification: `wValue`'s high byte carries the idle duration
    /// for Set Idle, its low byte the report id, or the protocol code for
    /// Set Protocol. `data` is the host's payload (Set Report), and the
    /// device's answer to a Get request is left in `response`. An
    /// undefined request code, an undefined protocol code, an oversized
    /// payload, or a Get Report with nothing held is a protocol
    /// violation that leaves the state unchanged.
    pub fn handle_control_request(
        &mut self,
        request: u8,
        value: u16,
        data: &[u8],
        response: &mut Vec<u8>,
    ) -> (r: Result<(), UsbHidError>)
        ensures
            r is Err ==> ({
                &&& r == Err::<(), UsbHidError>(UsbHidError::ProtocolViolation)
                &&& *final(self) == *old(self)
                &&& *final(response) == *old(response)
            }),
            (match ClassRequest::spec_from_code(request) {
                None => r is Err,
                Some(ClassRequest::GetIdle) => {
                    &&& r is Ok
                    &&& *final(self) == *old(self)
                    &&& final(response)@ == seq![old(self).global_idle]
                },
                Some(ClassRequest::GetProtocol) => {
                    &&& r is Ok
                    &&& *final(self) == *old(self)
                    &&& final(response)@ == seq![old(self).protocol.spec_code()]
                },
                Some(ClassRequest::GetReport) => {
                    &&& old(self).held_report is Some <==> r is Ok
                    &&& *final(self) == *old(self)
                    &&& r is Ok ==> (old(self).held_report matches Some(h) && final(response)@
                        == h@)
                },
                Some(ClassRequest::SetIdle) => {
                    &&& r is Ok
                    &&& *final(self) == old(self).spec_set_idle((value & 0xFF) as u8, (value >> 8) as u8)
                    &&& *final(response) == *old(response)
                },
                Some(ClassRequest::SetProtocol) => {
                    &&& (exists|p: HidProtocol| p.spec_code() == value as u8) <==> r is Ok
                    &&& r is Ok ==> ({
                        &&& *final(self) == old(self).spec_set_protocol(
                            choose|p: HidProtocol| p.spec_code() == value as u8,
                        )
                        &&& *final(response) == *old(response)
                    })
                },
                Some(ClassRequest::SetReport) => {
                    &&& data@.len() <= old(self).config.in_endpoint.max_packet_size.spec_size()
                        <==> r is Ok
                    &&& r is Ok ==> ({
                        &&& final(self).held_report matches Some(h) && h@ == data@
                        &&& final(self).config == old(self).config
                        &&& final(self).number == old(self).number
                        &&& final(self).protocol == old(self).protocol
                        &&& final(self).global_idle == old(self).global_idle
                        &&& *final(response) == *old(response)
                    })
                },
            }),
    {
        let decoded = ClassRequest::from_code(request);
        match decoded {
            Some(ClassRequest::GetIdle) => {
                let idle = self.get_idle((value & 0xFF) as u8);
                response.clear();
                response.push(idle);
                Ok(())
            },
            Some(ClassRequest::GetProtocol) => {
                let code = self.get_protocol().code();
                response.clear();
                response.push(code);
                Ok(())
            },
            Some(ClassRequest::GetReport) => {
                match self.get_report(response) {
                    Ok(_) => Ok(()),
                    Err(e) => Err(e),
                }
            },
            Some(ClassRequest::SetIdle) => {
                self.set_idle((value & 0xFF) as u8, (value >> 8) as u8);
                Ok(())
            },
            Some(ClassRequest::SetProtocol) => {
                match HidProtocol::from_code(value as u8) {
                    Some(protocol) => {
                        self.set_protocol(protocol);
                        proof {
                            assert(protocol.spec_code() == value as u8);
                        }
                        Ok(())
                    },
                    None => Err(UsbHidError::ProtocolViolation),
                }
            },
            Some(ClassRequest::SetReport) => self.set_report(data),
            None => Err(UsbHidError::ProtocolViolation),
        }
    }
}

/// Reset law: after `reset`, the idle rate answered for any report id is
/// the configured default and the protocol mode is `Report`, whatever
/// mutations came before.
pub proof fn lemma_reset_restores_defaults(engine: RawInterface, report_id: u8)
    ensures
        engine.spec_reset().spec_get_idle(report_id) == engine.config.idle_default,
        engine.spec_reset().protocol == HidProtocol::Report,
{
}

/// Idle law: `set_idle` followed by `get_idle` on the same report id
/// answers the value just set, for every value, every id, every state.
pub proof fn lemma_set_idle_get_idle(engine: RawInterface, report_id: u8, value: u8)
    ensures
        engine.spec_set_idle(report_id, value).spec_get_idle(report_id) == value,
{
}

/// Protocol law: `set_protocol` followed by `get_protocol` answers the
/// mode just set, for both modes, whatever the prior state.
pub proof fn lemma_set_protocol_get_protocol(engine: RawInterface, mode: HidProtocol)
    ensures
        engine.spec_set_protocol(mode).protocol == mode,
{
}

/// Derivation law on the wire: the subclass byte every emitted descriptor
/// fragment advertises is the one derived from the configured protocol —
/// `Boot` unless the protocol is unspecified — for every interface and
/// every assigned identity.
pub proof fn lemma_descriptors_advertise_derived_subclass(
    engine: RawInterface,
    string_index: u8,
    in_address: u8,
    out_address: u8,
)
    ensures
        engine.spec_descriptors(string_index, in_address, out_address)[6] == spec_subclass_of(
            engine.config.protocol,
        ).spec_code(),
        engine.config.protocol != InterfaceProtocol::Unspecified ==> engine.spec_descriptors(
            string_index,
            in_address,
            out_address,
        )[6] == InterfaceSubClass::Boot.spec_code(),
{
    let iface = spec_interface_descriptor(
        engine.number,
        engine.spec_num_endpoints(),
        engine.config.protocol,
        string_index,
    );
    assert(engine.spec_descriptors(string_index, in_address, out_address)[6] == iface[6]);
}

} // verus!
