//! The reassembly state machine, stated over mathematical values.

use crate::event::EventView;
use crate::header::{spec_header, spec_kind, spec_payload, Header, HP_SIGNATURE, MAX_LENGTH, MAX_SEQUENCE};
use crate::payload::spec_decode;
use vstd::prelude::*;

verus! {

/// A report that does not fit the packet being assembled. Each of them drops
/// the report and whatever was assembled so far.
#[derive(Clone, Copy, Debug, PartialEq, Eq, Structural)]
pub enum ProtocolError {
    /// A report with sequence number zero arrived while a packet was incomplete.
    UnexpectedStart,
    /// A report with a sequence number above zero arrived while no packet was
    /// being assembled.
    NoPacketInProgress,
    /// A continuation's signature differs from that of the packet in progress.
    SignatureMismatch,
    /// A continuation's declared length differs from that of the packet in
    /// progress.
    LengthMismatch,
    /// A continuation's sequence number is not the previous one plus one.
    SequenceMismatch,
}

/// Type tag of the reports that carry packets: the first byte of a raw report.
pub const REPORT_TYPE_PACKET: u8 = 1;

/// State of reassembly.
pub enum Reassembly {
    /// No logical packet is in progress.
    Idle,
    /// A logical packet is in progress.
    Accumulating {
        /// Signature of the packet's reports.
        signature: u16,
        /// Declared length of the packet.
        length: usize,
        /// Sequence number of the last report taken.
        sequence: u8,
        /// Payload bytes taken so far.
        buffered: Seq<u8>,
    },
}

/// What one report yields: an event, nothing, or a protocol error.
pub type Outcome = Result<Option<EventView>, ProtocolError>;

impl Reassembly {
    /// A state that reports can lead to: a packet in progress has a signature
    /// at or above the base, fields within the header's ranges, and fewer
    /// bytes than it declares.
    pub open spec fn wf(self) -> bool {
        match self {
            Reassembly::Idle => true,
            Reassembly::Accumulating { signature, length, sequence, buffered } => {
                &&& HP_SIGNATURE <= signature <= 0x0FFF
                &&& length <= MAX_LENGTH
                &&& sequence <= MAX_SEQUENCE
                &&& buffered.len() < length
            },
        }
    }
}

/// Checks a report's header against the state. Gives the bytes that the
/// report's payload is appended to, or the protocol error.
pub open spec fn spec_admit(state: Reassembly, header: Header) -> Result<Seq<u8>, ProtocolError> {
    match state {
        Reassembly::Idle => if header.sequence == 0 {
            Ok(Seq::empty())
        } else {
            Err(ProtocolError::NoPacketInProgress)
        },
        Reassembly::Accumulating { signature, length, sequence, buffered } => if header.sequence
            == 0 {
            Err(ProtocolError::UnexpectedStart)
        } else if header.signature != signature {
            Err(ProtocolError::SignatureMismatch)
        } else if header.length != length {
            Err(ProtocolError::LengthMismatch)
        } else if header.sequence != sequence + 1 {
            Err(ProtocolError::SequenceMismatch)
        } else {
            Ok(buffered)
        },
    }
}

/// One step of reassembly: the state after the report `data`, and what the
/// report yields.
///
/// A report too short for a header, or with a signature below the base, is
/// ignored. A report that does not fit the state is an error and resets the
/// state. Otherwise the payload is appended; once the declared length is
/// reached the packet, cut to that length, is decoded and the state is idle
/// again.
pub open spec fn spec_step(state: Reassembly, data: Seq<u8>) -> (Reassembly, Outcome) {
    match spec_header(data) {
        None => (state, Ok(None)),
        Some(header) => match spec_kind(header.signature) {
            None => (state, Ok(None)),
            Some(kind) => match spec_admit(state, header) {
                Err(error) => (Reassembly::Idle, Err(error)),
                Ok(buffered) => {
                    let bytes = buffered + spec_payload(data);
                    if bytes.len() >= header.length {
                        (
                            Reassembly::Idle,
                            Ok(spec_decode(kind, bytes.subrange(0, header.length as int))),
                        )
                    } else {
                        (
                            Reassembly::Accumulating {
                                signature: header.signature,
                                length: header.length,
                                sequence: header.sequence,
                                buffered: bytes,
                            },
                            Ok(None),
                        )
                    }
                },
            },
        },
    }
}

/// View of what follows one read from the transport.
pub enum StepView {
    /// The stream has ended.
    Finished,
    /// An event to hand out.
    Event(EventView),
    /// A protocol error to hand out.
    Fault(ProtocolError),
    /// Nothing to hand out yet.
    ReadMore,
}

/// One read from the transport: the state after it, and what follows. An
/// empty read ends the stream; a report of another type than
/// [`REPORT_TYPE_PACKET`] is skipped; the content of any other goes through
/// [`spec_step`].
pub open spec fn spec_next(state: Reassembly, report: Seq<u8>) -> (Reassembly, StepView) {
    if report.len() == 0 {
        (state, StepView::Finished)
    } else if report[0] != REPORT_TYPE_PACKET {
        (state, StepView::ReadMore)
    } else {
        let (after, outcome) = spec_step(state, report.skip(1));
        (
            after,
            match outcome {
                Ok(Some(event)) => StepView::Event(event),
                Ok(None) => StepView::ReadMore,
                Err(error) => StepView::Fault(error),
            },
        )
    }
}

} // verus!
