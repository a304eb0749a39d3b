//! The decoder: reassembly buffer, payload decoders and the step that takes
//! one raw report.

use crate::bits::{high_nibble, low_nibble, lsb0_bit, u16_from_bytes};
use crate::event::{spec_button_views, spec_event_view, Button, Event};
use crate::header::{spec_header, spec_payload, Header, PacketKind, HP_SIGNATURE};
use crate::payload::{
    copy_range, item_end, lemma_button_records_len, spec_battery, spec_button_records,
    spec_buttons, spec_firmware, spec_mouse,
};
use crate::reassembly::{
    spec_admit, spec_next, spec_step, Outcome, ProtocolError, Reassembly, StepView,
    REPORT_TYPE_PACKET,
};
use crate::text::text_from_bytes;
use vstd::prelude::*;
use vstd::slice::slice_subrange;

verus! {

/// Turns the raw reports of one device into events. It owns the reassembly
/// buffer; the transport that supplies the reports stays with the caller.
pub struct HpMouseEventIterator {
    incoming: Vec<u8>,
    header: Option<Header>,
}

impl View for HpMouseEventIterator {
    type V = Reassembly;

    closed spec fn view(&self) -> Reassembly {
        match self.header {
            None => Reassembly::Idle,
            Some(h) => Reassembly::Accumulating {
                signature: h.signature,
                length: h.length,
                sequence: h.sequence,
                buffered: self.incoming@,
            },
        }
    }
}

impl HpMouseEventIterator {
    #[verifier::type_invariant]
    spec fn inv(&self) -> bool {
        match self.header {
            None => self.incoming@.len() == 0,
            Some(h) => {
                &&& h.in_range()
                &&& h.signature >= HP_SIGNATURE
                &&& self.incoming@.len() < h.length
            },
        }
    }

    /// A decoder with no packet in progress.
    pub fn new() -> (decoder: Self)
        ensures
            decoder@ == Reassembly::Idle,
    {
        HpMouseEventIterator { incoming: Vec::new(), header: None }
    }

    /// Whether no packet is in progress.
    pub fn is_idle(&self) -> (idle: bool)
        ensures
            idle == (self@ is Idle),
    {
        self.header.is_none()
    }

    /// Decodes a firmware packet: version number, device name, serial number.
    /// Gives no event when the packet is too short, holds fewer than two text
    /// items, or one of the two is not UTF-8.
    pub fn report_1_packet_1(&self, data: &[u8]) -> (event: Option<Event>)
        ensures
            spec_event_view(event) == spec_firmware(data@),
    {
        if data.len() <= 3 {
            return None;
        }
        let firmware_version: u16 = u16_from_bytes(data[0], data[1]);
        let major_version: u16 = firmware_version / 1000;
        let minor_version: u16 = (firmware_version % 1000) / 10;
        let patch_version: u16 = firmware_version % 10;

        if data.len() <= 4 {
            return None;
        }
        let first_end: usize = item_end(data, 4);
        if first_end >= data.len() {
            return None;
        }
        let second_end: usize = item_end(data, first_end);
        let device_bytes: Vec<u8> = copy_range(data, 5, first_end);
        let serial_bytes: Vec<u8> = copy_range(data, first_end + 1, second_end);

        let device: String = match text_from_bytes(device_bytes.as_slice()) {
            Some(text) => text,
            None => {
                return None;
            },
        };
        let serial: String = match text_from_bytes(serial_bytes.as_slice()) {
            Some(text) => text,
            None => {
                return None;
            },
        };
        Some(
            Event::Firmware {
                version: (major_version, minor_version, patch_version),
                device,
                serial,
            },
        )
    }

    /// Decodes a battery packet: its first five bytes, in order. Gives no
    /// event when there are fewer.
    pub fn report_1_packet_6(&self, data: &[u8]) -> (event: Option<Event>)
        ensures
            spec_event_view(event) == spec_battery(data@),
            data@.len() >= 5 ==> event == Some(
                Event::Battery {
                    low_level: data@[0],
                    crit_level: data@[1],
                    power_off_timeout: data@[2],
                    auto_report_delay: data@[3],
                    level: data@[4],
                },
            ),
            data@.len() < 5 ==> event is None,
    {
        if data.len() <= 4 {
            return None;
        }
        let low_level: u8 = data[0];
        let crit_level: u8 = data[1];
        let power_off_timeout: u8 = data[2];
        let auto_report_delay: u8 = data[3];
        let level: u8 = data[4];

        Some(Event::Battery { low_level, crit_level, power_off_timeout, auto_report_delay, level })
    }

    /// Decodes a button packet: counters, capability flags and one record for
    /// each programmed button. The list stops where the packet ends, so it
    /// never holds more records than the packet declares. Gives no event when
    /// the command byte is not zero or the packet is too short.
    pub fn report_1_packet_14(&self, data: &[u8]) -> (event: Option<Event>)
        ensures
            spec_event_view(event) == spec_buttons(data@),
            event matches Some(e) ==> e matches Event::Buttons { programmed_buttons, buttons, .. }
                && buttons@.len() <= programmed_buttons,
    {
        if data.len() == 0 || data[0] != 0 {
            return None;
        }
        if data.len() <= 4 {
            return None;
        }
        let total_buttons: u8 = data[1];
        let programmed_buttons: u8 = data[2];
        let host_id: u8 = data[3];

        let flags: u8 = data[4];
        let support_long_press: bool = lsb0_bit(flags, 0);
        let support_double_press: bool = lsb0_bit(flags, 1);
        let support_down_up_press: bool = lsb0_bit(flags, 2);
        let support_simulate: bool = lsb0_bit(flags, 3);
        let support_program_stop: bool = lsb0_bit(flags, 4);

        let mut buttons: Vec<Button> = Vec::with_capacity(programmed_buttons as usize);
        let mut i: usize = 5;
        while buttons.len() < programmed_buttons as usize && data.len() - i > 3
            invariant
                5 <= i <= data@.len(),
                buttons@.len() <= programmed_buttons,
                spec_button_views(buttons@) + spec_button_records(
                    data@,
                    i as int,
                    (programmed_buttons - buttons@.len()) as nat,
                ) == spec_button_records(data@, 5, programmed_buttons as nat),
            decreases programmed_buttons - buttons@.len(),
        {
            let end: usize = item_end(data, i + 3);
            let button = Button {
                id: data[i],
                host_id: data[i + 1],
                press_type: data[i + 2],
                action: copy_range(data, i + 4, end),
            };
            proof {
                let before = spec_button_views(buttons@);
                let after = spec_button_views(buttons@.push(button));
                assert(after == before + seq![button@]);
                let rest = spec_button_records(
                    data@,
                    end as int,
                    (programmed_buttons - buttons@.len() - 1) as nat,
                );
                assert(before + (seq![button@] + rest) == after + rest);
            }
            buttons.push(button);
            i = end;
        }
        proof {
            lemma_button_records_len(data@, 5, programmed_buttons as nat);
            assert(spec_button_views(buttons@) == spec_button_records(
                data@,
                5,
                programmed_buttons as nat,
            ));
        }

        Some(
            Event::Buttons {
                total_buttons,
                programmed_buttons,
                host_id,
                support_long_press,
                support_double_press,
                support_down_up_press,
                support_simulate,
                support_program_stop,
                buttons,
            },
        )
    }

    /// Decodes a pointer settings packet. A wheel's level count is `None`
    /// exactly when its nibble is zero, else that nibble. Gives no event when
    /// the command byte is not zero or the packet is too short.
    pub fn report_1_packet_18(&self, data: &[u8]) -> (event: Option<Event>)
        ensures
            spec_event_view(event) == spec_mouse(data@),
            event matches Some(e) ==> e matches Event::Mouse {
                nb_sensitivity_wheel1,
                nb_sensitivity_wheel2,
                ..
            } && {
                &&& nb_sensitivity_wheel1 is None <==> data@[9] % 16 == 0
                &&& nb_sensitivity_wheel1 matches Some(n) ==> n == data@[9] % 16
                &&& nb_sensitivity_wheel2 is None <==> data@[10] % 16 == 0
                &&& nb_sensitivity_wheel2 matches Some(n) ==> n == data@[10] % 16
            },
    {
        if data.len() == 0 || data[0] != 0 {
            return None;
        }
        if data.len() <= 14 {
            return None;
        }
        let max_dpi: u16 = u16_from_bytes(data[1], data[2]);
        let min_dpi: u16 = u16_from_bytes(data[3], data[4]);
        let dpi: u16 = u16_from_bytes(data[5], data[6]);
        let step_dpi: u16 = u16_from_bytes(data[7], data[8]);

        let nb_sensitivity_wheel1: Option<u8> = level_count(low_nibble(data[9]));
        let sensitivity_wheel1: u8 = high_nibble(data[9]);
        let nb_sensitivity_wheel2: Option<u8> = level_count(low_nibble(data[10]));
        let sensitivity_wheel2: u8 = high_nibble(data[10]);

        let host_id: u8 = data[11];
        let cut_off_max: u8 = data[12];
        let cut_off: u8 = data[13];

        let flags: u8 = data[14];
        let support_left_handed: bool = lsb0_bit(flags, 0);
        let left_handed: bool = lsb0_bit(flags, 1);
        let support_no_save_to_flash: bool = lsb0_bit(flags, 2);

        Some(
            Event::Mouse {
                max_dpi,
                min_dpi,
                dpi,
                step_dpi,
                nb_sensitivity_wheel1,
                sensitivity_wheel1,
                nb_sensitivity_wheel2,
                sensitivity_wheel2,
                host_id,
                cut_off_max,
                cut_off,
                support_left_handed,
                left_handed,
                support_no_save_to_flash,
            },
        )
    }

    /// Takes the content of one report of type 1, that is the header and the
    /// payload bytes after it, and moves reassembly one step on.
    ///
    /// Gives `Ok(Some(event))` when the report completes a packet that decodes
    /// to an event, `Ok(None)` when it is ignored, completes a packet that
    /// decodes to nothing, or leaves the packet incomplete, and an error when
    /// it does not fit the packet in progress; the state is then idle.
    pub fn report_1(&mut self, data: &[u8]) -> (outcome: Result<Option<Event>, ProtocolError>)
        ensures
            final(self)@ == spec_step(old(self)@, data@).0,
            spec_outcome_view(outcome) == spec_step(old(self)@, data@).1,
            final(self)@.wf(),
            // A report without a whole header, or with a signature below the
            // base, changes nothing.
            data@.len() < 4 || spec_header(data@).unwrap().signature < HP_SIGNATURE ==> outcome
                == Ok::<Option<Event>, ProtocolError>(None) && final(self)@ == old(self)@,
            // A start while a packet is incomplete is rejected.
            data@.len() >= 4 && spec_header(data@).unwrap().signature >= HP_SIGNATURE && old(
                self,
            )@ is Accumulating && spec_header(data@).unwrap().sequence == 0 ==> outcome == Err::<
                Option<Event>,
                ProtocolError,
            >(ProtocolError::UnexpectedStart),
            // A continuation that disagrees with the packet in progress on
            // the signature is rejected, and so is one that disagrees on the
            // length.
            data@.len() >= 4 && spec_header(data@).unwrap().signature >= HP_SIGNATURE && old(
                self,
            )@ is Accumulating && spec_header(data@).unwrap().sequence != 0 && spec_header(
                data@,
            ).unwrap().signature != old(self)@->signature ==> outcome == Err::<
                Option<Event>,
                ProtocolError,
            >(ProtocolError::SignatureMismatch),
            data@.len() >= 4 && spec_header(data@).unwrap().signature >= HP_SIGNATURE && old(
                self,
            )@ is Accumulating && spec_header(data@).unwrap().sequence != 0 && spec_header(
                data@,
            ).unwrap().signature == old(self)@->signature && spec_header(data@).unwrap().length
                != old(self)@->length ==> outcome == Err::<Option<Event>, ProtocolError>(
                ProtocolError::LengthMismatch,
            ),
            // An error leaves no packet in progress.
            outcome is Err ==> final(self)@ == Reassembly::Idle,
    {
        proof {
            use_type_invariant(&*self);
        }
        let header: Header = match Header::new(data) {
            Some(header) => header,
            None => {
                return Ok(None);
            },
        };
        let kind: u16 = match header.kind() {
            Some(kind) => kind,
            None => {
                return Ok(None);
            },
        };
        let fault: Option<ProtocolError> = match self.header {
            None => if header.sequence == 0 {
                None
            } else {
                Some(ProtocolError::NoPacketInProgress)
            },
            Some(current) => if header.sequence == 0 {
                Some(ProtocolError::UnexpectedStart)
            } else if header.signature != current.signature {
                Some(ProtocolError::SignatureMismatch)
            } else if header.length != current.length {
                Some(ProtocolError::LengthMismatch)
            } else if header.sequence - 1 != current.sequence {
                Some(ProtocolError::SequenceMismatch)
            } else {
                None
            },
        };
        let mut bytes: Vec<u8> = Vec::new();
        core::mem::swap(&mut self.incoming, &mut bytes);
        if let Some(error) = fault {
            self.header = None;
            return Err(error);
        }
        let ghost buffered = bytes@;
        proof {
            if old(self)@ is Idle {
                assert(buffered =~= Seq::<u8>::empty());
            }
            assert(spec_admit(old(self)@, header) == Ok::<Seq<u8>, ProtocolError>(buffered));
        }
        let payload: &[u8] = slice_subrange(data, 4, data.len());
        bytes.extend_from_slice(payload);
        assert(bytes@ =~= buffered + spec_payload(data@));

        if bytes.len() >= header.length {
            self.header = None;
            bytes.truncate(header.length);
            let event: Option<Event> = match PacketKind::from_kind(kind) {
                Some(PacketKind::Firmware) => self.report_1_packet_1(bytes.as_slice()),
                Some(PacketKind::Battery) => self.report_1_packet_6(bytes.as_slice()),
                Some(PacketKind::Buttons) => self.report_1_packet_14(bytes.as_slice()),
                Some(PacketKind::Mouse) => self.report_1_packet_18(bytes.as_slice()),
                None => None,
            };
            return Ok(event);
        }
        self.header = Some(header);
        self.incoming = bytes;
        Ok(None)
    }

    /// Decides what follows one read from the transport. `report` holds the
    /// bytes that were read: none at the end of the stream, else a report type
    /// and the report's content. Reports of another type than 1 are skipped.
    pub fn next(&mut self, report: &[u8]) -> (step: Step)
        ensures
            final(self)@ == spec_next(old(self)@, report@).0,
            step@ == spec_next(old(self)@, report@).1,
            final(self)@.wf(),
            report@.len() == 0 <==> step is Finished,
    {
        proof {
            use_type_invariant(&*self);
        }
        if report.len() == 0 {
            return Step::Finished;
        }
        if report[0] != REPORT_TYPE_PACKET {
            return Step::ReadMore;
        }
        let content: &[u8] = slice_subrange(report, 1, report.len());
        match self.report_1(content) {
            Ok(Some(event)) => Step::Event(event),
            Ok(None) => Step::ReadMore,
            Err(error) => Step::Fault(error),
        }
    }
}

/// View of what one report yields.
pub open spec fn spec_outcome_view(outcome: Result<Option<Event>, ProtocolError>) -> Outcome {
    match outcome {
        Ok(event) => Ok(spec_event_view(event)),
        Err(error) => Err(error),
    }
}

/// What the owner of the transport does after one read.
#[derive(Debug, PartialEq, Eq)]
pub enum Step {
    /// The read returned no bytes: the stream has ended.
    Finished,
    /// A packet is complete and decoded: hand the event out.
    Event(Event),
    /// The report broke the protocol: hand the error out. The decoder is idle
    /// again and takes further reports.
    Fault(ProtocolError),
    /// Nothing to hand out yet: read the next report.
    ReadMore,
}

impl View for Step {
    type V = StepView;

    open spec fn view(&self) -> StepView {
        match *self {
            Step::Finished => StepView::Finished,
            Step::Event(event) => StepView::Event(event@),
            Step::Fault(error) => StepView::Fault(error),
            Step::ReadMore => StepView::ReadMore,
        }
    }
}

/// A level count from its nibble: zero stands for none.
fn level_count(nibble: u8) -> (count: Option<u8>)
    ensures
        count == crate::payload::spec_level_count(nibble),
{
    if nibble == 0 {
        None
    } else {
        Some(nibble)
    }
}

} // verus!
