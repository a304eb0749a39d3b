//! The four payload formats, stated over byte sequences.
//!
//! Each `spec_*` function says which event a complete logical packet encodes,
//! or that it encodes none.

use crate::bits::{spec_bit, spec_high_nibble, spec_low_nibble, spec_u16_from_bytes};
use crate::event::{ButtonView, EventView};
use crate::header::{spec_packet_kind, PacketKind};
use vstd::prelude::*;
use vstd::utf8::{decode_utf8, valid_utf8};

verus! {

/// End of the length-prefixed item whose length byte stands at `pos`: the
/// length byte is followed by as many bytes as it says, or by all that are
/// left if there are fewer.
pub open spec fn spec_item_end(data: Seq<u8>, pos: int) -> int
    recommends
        0 <= pos < data.len(),
{
    let end = pos + 1 + data[pos] as int;
    if end <= data.len() {
        end
    } else {
        data.len() as int
    }
}

/// Content of the length-prefixed item whose length byte stands at `pos`.
pub open spec fn spec_item(data: Seq<u8>, pos: int) -> Seq<u8>
    recommends
        0 <= pos < data.len(),
{
    data.subrange(pos + 1, spec_item_end(data, pos))
}

/// Major, minor and patch number packed in a firmware version number.
pub open spec fn spec_version(number: u16) -> (u16, u16, u16) {
    (number / 1000, ((number % 1000) / 10) as u16, number % 10)
}

/// A sensitivity level count: zero on the wire means there is none.
pub open spec fn spec_level_count(nibble: u8) -> Option<u8> {
    if nibble == 0 {
        None
    } else {
        Some(nibble)
    }
}

/// Firmware identity: a version number in bytes 0 and 1, then from byte 4 on
/// two length-prefixed items of UTF-8 text, the device name and the serial
/// number. Items after the second are ignored.
pub open spec fn spec_firmware(data: Seq<u8>) -> Option<EventView> {
    if data.len() <= 4 {
        None
    } else {
        let second = spec_item_end(data, 4);
        if second >= data.len() {
            None
        } else {
            let device = spec_item(data, 4);
            let serial = spec_item(data, second);
            if valid_utf8(device) && valid_utf8(serial) {
                Some(
                    EventView::Firmware {
                        version: spec_version(spec_u16_from_bytes(data[0], data[1])),
                        device: decode_utf8(device),
                        serial: decode_utf8(serial),
                    },
                )
            } else {
                None
            }
        }
    }
}

/// Battery status: five bytes in fixed order.
pub open spec fn spec_battery(data: Seq<u8>) -> Option<EventView> {
    if data.len() <= 4 {
        None
    } else {
        Some(
            EventView::Battery {
                low_level: data[0],
                crit_level: data[1],
                power_off_timeout: data[2],
                auto_report_delay: data[3],
                level: data[4],
            },
        )
    }
}

/// The button records that start at `pos`, at most `count` of them. A record
/// is three bytes (id, host id, press type) and a length-prefixed action. The
/// list ends early where fewer than four bytes are left for a record.
pub open spec fn spec_button_records(data: Seq<u8>, pos: int, count: nat) -> Seq<ButtonView>
    decreases count,
{
    if count == 0 || data.len() <= pos + 3 {
        Seq::empty()
    } else {
        seq![
            ButtonView {
                id: data[pos],
                host_id: data[pos + 1],
                press_type: data[pos + 2],
                action: spec_item(data, pos + 3),
            },
        ] + spec_button_records(data, spec_item_end(data, pos + 3), (count - 1) as nat)
    }
}

/// Button capabilities: a zero command byte, three counters, a flag byte, and
/// from byte 5 on one record for each programmed button.
pub open spec fn spec_buttons(data: Seq<u8>) -> Option<EventView> {
    if data.len() <= 4 || data[0] != 0 {
        None
    } else {
        Some(
            EventView::Buttons {
                total_buttons: data[1],
                programmed_buttons: data[2],
                host_id: data[3],
                support_long_press: spec_bit(data[4], 0),
                support_double_press: spec_bit(data[4], 1),
                support_down_up_press: spec_bit(data[4], 2),
                support_simulate: spec_bit(data[4], 3),
                support_program_stop: spec_bit(data[4], 4),
                buttons: spec_button_records(data, 5, data[2] as nat),
            },
        )
    }
}

/// Pointer settings: a zero command byte, four 16-bit little-endian values,
/// two bytes split in nibbles, three plain bytes and a flag byte.
pub open spec fn spec_mouse(data: Seq<u8>) -> Option<EventView> {
    if data.len() <= 14 || data[0] != 0 {
        None
    } else {
        Some(
            EventView::Mouse {
                max_dpi: spec_u16_from_bytes(data[1], data[2]),
                min_dpi: spec_u16_from_bytes(data[3], data[4]),
                dpi: spec_u16_from_bytes(data[5], data[6]),
                step_dpi: spec_u16_from_bytes(data[7], data[8]),
                nb_sensitivity_wheel1: spec_level_count(spec_low_nibble(data[9])),
                sensitivity_wheel1: spec_high_nibble(data[9]),
                nb_sensitivity_wheel2: spec_level_count(spec_low_nibble(data[10])),
                sensitivity_wheel2: spec_high_nibble(data[10]),
                host_id: data[11],
                cut_off_max: data[12],
                cut_off: data[13],
                support_left_handed: spec_bit(data[14], 0),
                left_handed: spec_bit(data[14], 1),
                support_no_save_to_flash: spec_bit(data[14], 2),
            },
        )
    }
}

/// The event that a complete logical packet of the given kind encodes. A kind
/// without a format encodes none.
pub open spec fn spec_decode(kind: u16, data: Seq<u8>) -> Option<EventView> {
    match spec_packet_kind(kind) {
        Some(PacketKind::Firmware) => spec_firmware(data),
        Some(PacketKind::Battery) => spec_battery(data),
        Some(PacketKind::Buttons) => spec_buttons(data),
        Some(PacketKind::Mouse) => spec_mouse(data),
        None => None,
    }
}

/// A button list never holds more records than were asked for.
pub proof fn lemma_button_records_len(data: Seq<u8>, pos: int, count: nat)
    ensures
        spec_button_records(data, pos, count).len() <= count,
    decreases count,
{
    if count == 0 || data.len() <= pos + 3 {
    } else {
        lemma_button_records_len(data, spec_item_end(data, pos + 3), (count - 1) as nat);
    }
}

/// Where record number `index` of the button list that starts at `pos` begins.
pub open spec fn spec_record_pos(data: Seq<u8>, pos: int, index: nat) -> int
    decreases index,
{
    if index == 0 {
        pos
    } else {
        spec_record_pos(data, spec_item_end(data, pos + 3), (index - 1) as nat)
    }
}

/// Every record of a button list is whole. Its three fields and its length
/// byte lie inside the packet, and its action holds the bytes that follow the
/// length byte, as many as that byte says unless the packet ends before.
pub proof fn lemma_button_records_whole(data: Seq<u8>, pos: int, count: nat, index: int)
    requires
        0 <= pos,
        0 <= index < spec_button_records(data, pos, count).len(),
    ensures
        ({
            let at = spec_record_pos(data, pos, index as nat);
            let record = spec_button_records(data, pos, count)[index];
            &&& pos <= at
            &&& at + 3 < data.len()
            &&& record.id == data[at]
            &&& record.host_id == data[at + 1]
            &&& record.press_type == data[at + 2]
            &&& record.action == spec_item(data, at + 3)
            &&& record.action.len() <= data[at + 3]
        }),
    decreases count,
{
    if index > 0 {
        let next = spec_item_end(data, pos + 3);
        let rest = spec_button_records(data, next, (count - 1) as nat);
        assert(spec_button_records(data, pos, count)[index] == rest[index - 1]);
        lemma_button_records_whole(data, next, (count - 1) as nat, index - 1);
    }
}

/// Finds the end of the length-prefixed item whose length byte stands at `pos`.
pub(crate) fn item_end(data: &[u8], pos: usize) -> (end: usize)
    requires
        pos < data@.len(),
    ensures
        end == spec_item_end(data@, pos as int),
        pos < end <= data@.len(),
{
    let size: usize = data[pos] as usize;
    let room: usize = data.len() - pos - 1;
    if size <= room {
        pos + 1 + size
    } else {
        data.len()
    }
}

/// Copies the bytes of `data` from `start` up to `end`.
pub(crate) fn copy_range(data: &[u8], start: usize, end: usize) -> (bytes: Vec<u8>)
    requires
        start <= end <= data@.len(),
    ensures
        bytes@ == data@.subrange(start as int, end as int),
{
    let mut bytes: Vec<u8> = Vec::with_capacity(end - start);
    let mut i: usize = start;
    while i < end
        invariant
            start <= i <= end <= data@.len(),
            bytes@ == data@.subrange(start as int, i as int),
        decreases end - i,
    {
        bytes.push(data[i]);
        i += 1;
    }
    bytes
}

} // verus!
