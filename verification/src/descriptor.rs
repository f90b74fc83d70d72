//! USB HID classification model: the enumerated class constants that tag an
//! interface (protocol, subclass, class-descriptor type, device protocol
//! mode), the wire codes the HID class specification assigns to each, and the
//! derivation of an interface's subclass from its protocol.
use vstd::prelude::*;

verus! {

/// USB class code for HID interfaces.
pub const USB_CLASS_HID: u8 = 0x03;
/// HID specification release 1.11 in binary-coded decimal.
pub const SPEC_VERSION_1_11: u16 = 0x0111;
/// Country code meaning the hardware is not localized.
pub const COUNTRY_CODE_NOT_SUPPORTED: u8 = 0x00;

/// The device kind an interface advertises in its interface descriptor.
/// Chosen once when the interface is configured, never mutated.
#[derive(Clone, Copy, Debug, PartialEq, Eq, PartialOrd, Ord, Structural)]
pub enum InterfaceProtocol {
    Unspecified,
    Keyboard,
    Mouse,
    Joystick,
    Gamepad,
    Generic,
    Vendor,
}

impl InterfaceProtocol {
    /// The one-byte code the USB HID class specification assigns to this
    /// protocol.
    pub open spec fn spec_code(self) -> u8 {
        match self {
            InterfaceProtocol::Unspecified => 0x00,
            InterfaceProtocol::Keyboard => 0x01,
            InterfaceProtocol::Mouse => 0x02,
            InterfaceProtocol::Joystick => 0x04,
            InterfaceProtocol::Gamepad => 0x05,
            InterfaceProtocol::Generic => 0x06,
            InterfaceProtocol::Vendor => 0xFF,
        }
    }

    pub fn code(self) -> (r: u8)
        ensures
            r == self.spec_code(),
    {
        match self {
            InterfaceProtocol::Unspecified => 0x00,
            InterfaceProtocol::Keyboard => 0x01,
            InterfaceProtocol::Mouse => 0x02,
            InterfaceProtocol::Joystick => 0x04,
            InterfaceProtocol::Gamepad => 0x05,
            InterfaceProtocol::Generic => 0x06,
            InterfaceProtocol::Vendor => 0xFF,
        }
    }

    /// Decodes a descriptor byte. Every byte outside the defined code set is
    /// a decode error, never silently accepted as a default.
    pub fn from_code(code: u8) -> (r: Option<InterfaceProtocol>)
        ensures
            match r {
                Some(p) => p.spec_code() == code,
                None => forall|p: InterfaceProtocol| p.spec_code() != code,
            },
    {
        match code {
            0x00 => Some(InterfaceProtocol::Unspecified),
            0x01 => Some(InterfaceProtocol::Keyboard),
            0x02 => Some(InterfaceProtocol::Mouse),
            0x04 => Some(InterfaceProtocol::Joystick),
            0x05 => Some(InterfaceProtocol::Gamepad),
            0x06 => Some(InterfaceProtocol::Generic),
            0xFF => Some(InterfaceProtocol::Vendor),
            _ => None,
        }
    }
}

/// Tags which HID class descriptor is being read or written.
#[derive(Clone, Copy, Debug, PartialEq, Eq, Structural)]
pub enum DescriptorType {
    Hid,
    Report,
}

impl DescriptorType {
    /// The descriptor-type byte the HID class specification assigns.
    pub open spec fn spec_code(self) -> u8 {
        match self {
            DescriptorType::Hid => 0x21,
            DescriptorType::Report => 0x22,
        }
    }

    pub fn code(self) -> (r: u8)
        ensures
            r == self.spec_code(),
    {
        match self {
            DescriptorType::Hid => 0x21,
            DescriptorType::Report => 0x22,
        }
    }

    /// Decodes a descriptor-type byte; bytes outside the defined set are a
    /// decode error.
    pub fn from_code(code: u8) -> (r: Option<DescriptorType>)
        ensures
            match r {
                Some(d) => d.spec_code() == code,
                None => forall|d: DescriptorType| d.spec_code() != code,
            },
    {
        match code {
            0x21 => Some(DescriptorType::Hid),
            0x22 => Some(DescriptorType::Report),
            _ => None,
        }
    }
}

/// The interface subclass advertised beside the protocol. Never set
/// independently: always derived from the protocol by `spec_subclass_of`.
#[derive(Clone, Copy, Debug, PartialEq, Eq, Structural)]
pub enum InterfaceSubClass {
    NoSubClass,
    Boot,
}

/// The derivation the HID class specification fixes: only an unspecified
/// protocol yields `NoSubClass`; every other protocol supports the boot
/// protocol and yields `Boot`.
pub open spec fn spec_subclass_of(protocol: InterfaceProtocol) -> InterfaceSubClass {
    if protocol == InterfaceProtocol::Unspecified {
        InterfaceSubClass::NoSubClass
    } else {
        InterfaceSubClass::Boot
    }
}

impl InterfaceSubClass {
    /// The one-byte subclass code of the USB HID class specification.
    pub open spec fn spec_code(self) -> u8 {
        match self {
            InterfaceSubClass::NoSubClass => 0x00,
            InterfaceSubClass::Boot => 0x01,
        }
    }

    pub fn code(self) -> (r: u8)
        ensures
            r == self.spec_code(),
    {
        match self {
            InterfaceSubClass::NoSubClass => 0x00,
            InterfaceSubClass::Boot => 0x01,
        }
    }
}

impl From<InterfaceProtocol> for InterfaceSubClass {
    fn from(protocol: InterfaceProtocol) -> (r: Self) {
        if protocol == InterfaceProtocol::Unspecified {
            InterfaceSubClass::NoSubClass
        } else {
            InterfaceSubClass::Boot
        }
    }
}

impl vstd::std_specs::convert::FromSpecImpl<InterfaceProtocol> for InterfaceSubClass {
    open spec fn obeys_from_spec() -> bool {
        true
    }

    open spec fn from_spec(protocol: InterfaceProtocol) -> Self {
        spec_subclass_of(protocol)
    }
}

/// The subclass is `NoSubClass` exactly when the protocol is
/// `Unspecified`, and `Boot` for every other protocol, exhaustively over
/// the enum.
pub proof fn lemma_subclass_derivation(protocol: InterfaceProtocol)
    ensures
        spec_subclass_of(protocol) == InterfaceSubClass::NoSubClass <==> protocol
            == InterfaceProtocol::Unspecified,
        protocol != InterfaceProtocol::Unspecified ==> spec_subclass_of(protocol)
            == InterfaceSubClass::Boot,
{
}

/// The device protocol mode, distinct from `InterfaceProtocol`: `Report` is
/// the descriptor-defined mode and the specification default; `Boot` is the
/// simplified fixed-format mode. Mutated only by a Set Protocol request.
#[derive(Clone, Copy, Debug, PartialEq, Eq, Structural)]
pub enum HidProtocol {
    Boot,
    Report,
}

impl HidProtocol {
    /// The one-byte protocol code of Get/Set Protocol requests.
    pub open spec fn spec_code(self) -> u8 {
        match self {
            HidProtocol::Boot => 0x00,
            HidProtocol::Report => 0x01,
        }
    }

    pub fn code(self) -> (r: u8)
        ensures
            r == self.spec_code(),
    {
        match self {
            HidProtocol::Boot => 0x00,
            HidProtocol::Report => 0x01,
        }
    }

    /// Decodes a Set Protocol payload byte; bytes outside the defined set
    /// are a protocol violation, never mapped to a default.
    pub fn from_code(code: u8) -> (r: Option<HidProtocol>)
        ensures
            match r {
                Some(p) => p.spec_code() == code,
                None => forall|p: HidProtocol| p.spec_code() != code,
            },
    {
        match code {
            0x00 => Some(HidProtocol::Boot),
            0x01 => Some(HidProtocol::Report),
            _ => None,
        }
    }
}

} // verus!
