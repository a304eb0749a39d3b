//! The four-byte header that starts every report of the device.

use vstd::prelude::*;

verus! {

/// Signature base of the device family: a report's packet kind is its
/// signature minus this value.
pub const HP_SIGNATURE: u16 = 0x0F00;

/// Largest payload length a header can declare (ten bits).
pub const MAX_LENGTH: usize = 1023;

/// Largest sequence number a header can carry (six bits).
pub const MAX_SEQUENCE: u8 = 63;

/// Header of one report.
#[derive(Clone, Copy, Debug, PartialEq, Eq, Structural)]
pub struct Header {
    /// Message family; twelve bits on the wire.
    pub signature: u16,
    /// Sub-device of a composite device that sent the report; four bits.
    pub composite_device: u8,
    /// Byte count of the whole logical packet; ten bits.
    pub length: usize,
    /// Index of this report within its logical packet; six bits.
    pub sequence: u8,
}

/// The payload formats the decoder knows.
#[derive(Clone, Copy, Debug, PartialEq, Eq, Structural)]
pub enum PacketKind {
    Firmware,
    Battery,
    Buttons,
    Mouse,
}

/// The header that the first four bytes of `data` encode, if there are four.
pub open spec fn spec_header(data: Seq<u8>) -> Option<Header> {
    if data.len() < 4 {
        None
    } else {
        Some(
            Header {
                signature: (data[0] as int + 256 * (data[1] as int % 16)) as u16,
                composite_device: data[1] / 16,
                length: (data[2] as int + 256 * (data[3] as int % 4)) as usize,
                sequence: data[3] / 4,
            },
        )
    }
}

/// The bytes of a report that follow its header.
pub open spec fn spec_payload(data: Seq<u8>) -> Seq<u8>
    recommends
        data.len() >= 4,
{
    data.skip(4)
}

/// Offset of `signature` from the signature base, unless it lies below the base.
pub open spec fn spec_kind(signature: u16) -> Option<u16> {
    if signature >= HP_SIGNATURE {
        Some((signature - HP_SIGNATURE) as u16)
    } else {
        None
    }
}

/// The payload format that a kind number selects.
pub open spec fn spec_packet_kind(kind: u16) -> Option<PacketKind> {
    if kind == 1 {
        Some(PacketKind::Firmware)
    } else if kind == 6 {
        Some(PacketKind::Battery)
    } else if kind == 14 {
        Some(PacketKind::Buttons)
    } else if kind == 18 {
        Some(PacketKind::Mouse)
    } else {
        None
    }
}

impl PacketKind {
    /// Selects the payload format for a kind number; other numbers have none.
    pub fn from_kind(kind: u16) -> (format: Option<PacketKind>)
        ensures
            format == spec_packet_kind(kind),
    {
        match kind {
            1 => Some(PacketKind::Firmware),
            6 => Some(PacketKind::Battery),
            14 => Some(PacketKind::Buttons),
            18 => Some(PacketKind::Mouse),
            _ => None,
        }
    }
}

impl Header {
    /// Every field lies in the range that its bits on the wire allow.
    pub open spec fn in_range(&self) -> bool {
        &&& self.signature <= 0x0FFF
        &&& self.composite_device <= 15
        &&& self.length <= MAX_LENGTH
        &&& self.sequence <= MAX_SEQUENCE
    }

    /// Parses the header at the start of `data`. Fails when fewer than four
    /// bytes are there.
    pub fn new(data: &[u8]) -> (header: Option<Header>)
        ensures
            header == spec_header(data@),
            header is Some <==> data@.len() >= 4,
            header matches Some(h) ==> h.in_range(),
    {
        if data.len() < 4 {
            return None;
        }
        let b0: u8 = data[0];
        let b1: u8 = data[1];
        let b2: u8 = data[2];
        let b3: u8 = data[3];
        let signature: u16 = crate::bits::u16_from_bytes(b0, b1 & 0b1111);
        let composite_device: u8 = (b1 >> 4) & 0b1111;
        let length: u16 = crate::bits::u16_from_bytes(b2, b3 & 0b11);
        let sequence: u8 = (b3 >> 2) & 0b111111;
        proof {
            assert(b1 & 0b1111 == b1 % 16) by (bit_vector);
            assert((b1 >> 4) & 0b1111 == b1 / 16) by (bit_vector);
            assert(b3 & 0b11 == b3 % 4) by (bit_vector);
            assert((b3 >> 2) & 0b111111 == b3 / 4) by (bit_vector);
        }
        Some(Header { signature, composite_device, length: length as usize, sequence })
    }

    /// The packet kind: the signature's offset from [`HP_SIGNATURE`]. A
    /// signature below the base has none.
    pub fn kind(&self) -> (kind: Option<u16>)
        ensures
            kind == spec_kind(self.signature),
            kind is Some <==> self.signature >= HP_SIGNATURE,
    {
        self.signature.checked_sub(HP_SIGNATURE)
    }
}

} // verus!
