//! Packed report codec: fixed-size binary encode/decode for the gamepad
//! input report. Fields map onto the report descriptor's input items in
//! declared order, least-significant byte first; the hat and the padding
//! nibble share one byte. The byte layout must stay consistent with the
//! report descriptor's item order, a pairing kept by hand.
use vstd::prelude::*;

use crate::UsbHidError;

verus! {

/// Fixed wire size of a packed `SwitchGamepadReport`, in bytes.
pub const SWITCH_GAMEPAD_REPORT_BYTES: usize = 7;

/// One sample of gamepad input state: sixteen buttons, a hat switch
/// (one nibble, with a spare padding nibble), and four axes. Built fresh
/// each time input is sampled, packed once, never retained.
#[derive(Clone, Copy, Debug, PartialEq, Eq, Structural)]
pub struct SwitchGamepadReport {
    pub buttons: u16,
    pub hat: u8,
    pub padding: u8,
    pub lx: u8,
    pub ly: u8,
    pub rx: u8,
    pub ry: u8,
}

impl SwitchGamepadReport {
    /// The hat and the padding each occupy a four-bit field: values above
    /// a nibble cannot be packed without truncation and are rejected.
    pub open spec fn spec_valid(self) -> bool {
        self.hat <= 0xF && self.padding <= 0xF
    }

    /// The packed wire image: buttons least-significant byte first, then
    /// the hat in the low nibble and the padding in the high nibble of one
    /// byte, then the four axes in declared field order.
    pub open spec fn spec_pack(self) -> Seq<u8> {
        seq![
            (self.buttons & 0xFF) as u8,
            (self.buttons >> 8) as u8,
            self.hat | (self.padding << 4),
            self.lx,
            self.ly,
            self.rx,
            self.ry,
        ]
    }

    pub open spec fn spec_default() -> Self {
        SwitchGamepadReport { buttons: 0, hat: 0, padding: 0, lx: 0, ly: 0, rx: 0, ry: 0 }
    }

    /// Encodes the report into its fixed seven-byte wire image. Fields
    /// wider than their declared bit width are a typed error, never
    /// truncated or wrapped silently.
    pub fn pack(&self) -> (r: Result<Vec<u8>, UsbHidError>)
        ensures
            self.spec_valid() <==> r is Ok,
            r matches Ok(bytes) ==> bytes@ == self.spec_pack(),
            r matches Ok(bytes) ==> bytes@.len() == SWITCH_GAMEPAD_REPORT_BYTES,
            r is Err ==> r == Err::<Vec<u8>, UsbHidError>(UsbHidError::SerializationError),
    {
        if self.hat > 0xF || self.padding > 0xF {
            return Err(UsbHidError::SerializationError);
        }
        let mut bytes: Vec<u8> = Vec::new();
        bytes.push((self.buttons & 0xFF) as u8);
        bytes.push((self.buttons >> 8) as u8);
        bytes.push(self.hat | (self.padding << 4));
        bytes.push(self.lx);
        bytes.push(self.ly);
        bytes.push(self.rx);
        bytes.push(self.ry);
        proof {
            assert(bytes@ =~= self.spec_pack());
        }
        Ok(bytes)
    }

    /// The report a seven-byte wire image decodes to.
    pub open spec fn spec_unpack(bytes: Seq<u8>) -> Self
        recommends
            bytes.len() == SWITCH_GAMEPAD_REPORT_BYTES,
    {
        SwitchGamepadReport {
            buttons: bytes[0] as u16 | ((bytes[1] as u16) << 8),
            hat: bytes[2] & 0xF,
            padding: bytes[2] >> 4,
            lx: bytes[3],
            ly: bytes[4],
            rx: bytes[5],
            ry: bytes[6],
        }
    }

    /// Decodes a packed wire image. Any length other than the declared
    /// fixed size is a decode error.
    pub fn unpack(bytes: &[u8]) -> (r: Result<SwitchGamepadReport, UsbHidError>)
        ensures
            bytes@.len() == SWITCH_GAMEPAD_REPORT_BYTES <==> r is Ok,
            r matches Ok(rep) ==> rep == Self::spec_unpack(bytes@),
            r is Err ==> r == Err::<SwitchGamepadReport, UsbHidError>(
                UsbHidError::SerializationError,
            ),
    {
        if bytes.len() != SWITCH_GAMEPAD_REPORT_BYTES {
            return Err(UsbHidError::SerializationError);
        }
        Ok(SwitchGamepadReport {
            buttons: bytes[0] as u16 | ((bytes[1] as u16) << 8),
            hat: bytes[2] & 0xF,
            padding: bytes[2] >> 4,
            lx: bytes[3],
            ly: bytes[4],
            rx: bytes[5],
            ry: bytes[6],
        })
    }
}

impl Default for SwitchGamepadReport {
    /// The neutral report: every button released, hat and axes at zero.
    fn default() -> (r: Self)
        ensures
            r == SwitchGamepadReport::spec_default(),
    {
        SwitchGamepadReport { buttons: 0, hat: 0, padding: 0, lx: 0, ly: 0, rx: 0, ry: 0 }
    }
}

/// Splitting a sixteen-bit value into its two bytes and reassembling them
/// least-significant byte first gives the value back.
proof fn lemma_u16_byte_split(x: u16)
    by (bit_vector)
    ensures
        ((x & 0xFF) as u8) as u16 | ((((x >> 8) as u8) as u16) << 8) == x,
{
}

/// Packing two nibbles into one byte and masking or shifting them back out
/// recovers both nibbles.
proof fn lemma_nibble_split(h: u8, p: u8)
    by (bit_vector)
    requires
        h <= 0xF,
        p <= 0xF,
    ensures
        (h | (p << 4)) & 0xF == h,
        (h | (p << 4)) >> 4 == p,
{
}

/// Round-trip law: decoding the packed wire image of any report whose
/// fields fit their declared bit widths gives the report back unchanged.
pub proof fn lemma_pack_round_trip(rep: SwitchGamepadReport)
    requires
        rep.spec_valid(),
    ensures
        SwitchGamepadReport::spec_unpack(rep.spec_pack()) == rep,
{
    lemma_u16_byte_split(rep.buttons);
    lemma_nibble_split(rep.hat, rep.padding);
}

/// Fixed-size law: the packed wire image of every report, with no
/// restriction on its fields, has exactly the declared byte length.
pub proof fn lemma_pack_length(rep: SwitchGamepadReport)
    ensures
        rep.spec_pack().len() == SWITCH_GAMEPAD_REPORT_BYTES,
{
}

/// Every decoded report has fields within their declared bit widths, so a
/// decoded report can always be packed again.
pub proof fn lemma_unpack_valid(bytes: Seq<u8>)
    requires
        bytes.len() == SWITCH_GAMEPAD_REPORT_BYTES,
    ensures
        SwitchGamepadReport::spec_unpack(bytes).spec_valid(),
{
    let b2 = bytes[2];
    assert(b2 & 0xF <= 0xF && b2 >> 4 <= 0xF) by (bit_vector);
}

} // verus!
