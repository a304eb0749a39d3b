//! Laws of reassembly, proved over the state machine of [`crate::reassembly`].

use crate::event::EventView;
use crate::header::{spec_header, spec_payload, HP_SIGNATURE};
use crate::reassembly::{spec_admit, spec_step, Outcome, ProtocolError, Reassembly};
use vstd::prelude::*;

verus! {

/// Feeds `frames` in order, starting in `state`: the state after the last one,
/// and what each of them yields.
pub open spec fn spec_run(state: Reassembly, frames: Seq<Seq<u8>>) -> (Reassembly, Seq<Outcome>)
    decreases frames.len(),
{
    if frames.len() == 0 {
        (state, Seq::empty())
    } else {
        let (before, outcomes) = spec_run(state, frames.drop_last());
        let (after, outcome) = spec_step(before, frames.last());
        (after, outcomes.push(outcome))
    }
}

/// The payloads of `frames`, joined in order.
pub open spec fn spec_payloads(frames: Seq<Seq<u8>>) -> Seq<u8>
    decreases frames.len(),
{
    if frames.len() == 0 {
        Seq::empty()
    } else {
        spec_payloads(frames.drop_last()) + spec_payload(frames.last())
    }
}

/// `frames` are the reports of one logical packet: each has a whole header
/// with the given signature and declared length, and the sequence numbers
/// count up from zero.
pub open spec fn spec_frames_of_packet(frames: Seq<Seq<u8>>, signature: u16, length: usize) -> bool {
    forall|i: int|
        0 <= i < frames.len() ==> {
            &&& (#[trigger] frames[i]).len() >= 4
            &&& spec_header(frames[i]).unwrap().signature == signature
            &&& spec_header(frames[i]).unwrap().length == length
            &&& spec_header(frames[i]).unwrap().sequence == i
        }
}

/// While the reports of a packet do not complete it, each yields nothing and
/// the state holds their payloads.
proof fn lemma_run_incomplete(frames: Seq<Seq<u8>>, signature: u16, length: usize, n: int)
    requires
        1 <= n <= frames.len(),
        signature >= HP_SIGNATURE,
        spec_frames_of_packet(frames, signature, length),
        spec_payloads(frames.take(n)).len() < length,
    ensures
        spec_run(Reassembly::Idle, frames.take(n)).0 == (Reassembly::Accumulating {
            signature,
            length,
            sequence: (n - 1) as u8,
            buffered: spec_payloads(frames.take(n)),
        }),
        spec_run(Reassembly::Idle, frames.take(n)).1.len() == n,
        forall|i: int|
            0 <= i < n ==> #[trigger] spec_run(Reassembly::Idle, frames.take(n)).1[i] == Ok::<
                Option<EventView>,
                ProtocolError,
            >(None),
    decreases n,
{
    let taken = frames.take(n);
    let frame = frames[n - 1];
    assert(taken.last() == frame);
    assert(taken.drop_last() =~= frames.take(n - 1));
    assert(spec_payloads(taken) == spec_payloads(frames.take(n - 1)) + spec_payload(frame));
    assert(frame.len() >= 4);
    let header = spec_header(frame).unwrap();
    if n == 1 {
        assert(frames.take(0).len() == 0);
        assert(spec_payloads(frames.take(0)) =~= Seq::<u8>::empty());
        assert(spec_run(Reassembly::Idle, frames.take(0)) == (
            Reassembly::Idle,
            Seq::<Outcome>::empty(),
        ));
        assert(spec_admit(Reassembly::Idle, header) == Ok::<Seq<u8>, ProtocolError>(Seq::empty()));
    } else {
        lemma_run_incomplete(frames, signature, length, n - 1);
        assert(frames[n - 2].len() >= 4);
        assert(header.sequence == n - 1);
    }
}

/// Reports with a signature below the base leave the state as it is and
/// yield nothing.
proof fn lemma_run_ignored(frames: Seq<Seq<u8>>, signature: u16, length: usize)
    requires
        signature < HP_SIGNATURE,
        spec_frames_of_packet(frames, signature, length),
    ensures
        spec_run(Reassembly::Idle, frames).0 == Reassembly::Idle,
        spec_run(Reassembly::Idle, frames).1.len() == frames.len(),
        forall|i: int|
            0 <= i < frames.len() ==> #[trigger] spec_run(Reassembly::Idle, frames).1[i] == Ok::<
                Option<EventView>,
                ProtocolError,
            >(None),
    decreases frames.len(),
{
    if frames.len() > 0 {
        let rest = frames.drop_last();
        assert forall|i: int| 0 <= i < rest.len() implies {
            &&& (#[trigger] rest[i]).len() >= 4
            &&& spec_header(rest[i]).unwrap().signature == signature
            &&& spec_header(rest[i]).unwrap().length == length
            &&& spec_header(rest[i]).unwrap().sequence == i
        } by {
            assert(rest[i] == frames[i]);
        }
        lemma_run_ignored(rest, signature, length);
        assert(frames.last() == frames[frames.len() - 1]);
    }
}

/// Reassembly does not depend on how a packet is split. Let `frames` be the
/// reports of one logical packet, with sequence numbers counting up from zero,
/// and let `whole` be a single report with the same signature and declared
/// length that carries all their payload bytes. Fed to an idle decoder, every
/// report but the last yields nothing, and the last yields exactly what
/// `whole` yields; where `whole` leaves the decoder idle, so do the `frames`.
///
/// The last report must be needed: the payloads before it may not already
/// reach the declared length, since the packet would then be complete before
/// the last report arrives.
pub proof fn lemma_split_packet_decodes_as_whole(frames: Seq<Seq<u8>>, whole: Seq<u8>)
    requires
        frames.len() >= 1,
        whole.len() >= 4,
        spec_header(whole).unwrap().sequence == 0,
        spec_frames_of_packet(
            frames,
            spec_header(whole).unwrap().signature,
            spec_header(whole).unwrap().length,
        ),
        spec_payload(whole) == spec_payloads(frames),
        frames.len() == 1 || spec_payloads(frames.drop_last()).len() < spec_header(
            whole,
        ).unwrap().length,
    ensures
        spec_run(Reassembly::Idle, frames).1.len() == frames.len(),
        forall|i: int|
            0 <= i < frames.len() - 1 ==> #[trigger] spec_run(Reassembly::Idle, frames).1[i] == Ok::<
                Option<EventView>,
                ProtocolError,
            >(None),
        spec_run(Reassembly::Idle, frames).1.last() == spec_step(Reassembly::Idle, whole).1,
        spec_step(Reassembly::Idle, whole).0 is Idle ==> spec_run(Reassembly::Idle, frames).0
            is Idle,
{
    let header = spec_header(whole).unwrap();
    let n = frames.len() as int;
    let last = frames[n - 1];
    assert(frames.last() == last);
    assert(last.len() >= 4);
    if header.signature < HP_SIGNATURE {
        lemma_run_ignored(frames, header.signature, header.length);
    } else if n == 1 {
        assert(frames.drop_last().len() == 0);
        assert(spec_payloads(frames.drop_last()) =~= Seq::<u8>::empty());
        assert(spec_run(Reassembly::Idle, frames.drop_last()) == (
            Reassembly::Idle,
            Seq::<Outcome>::empty(),
        ));
        assert(spec_payload(last) =~= spec_payload(whole));
    } else {
        assert(frames.take(n - 1) =~= frames.drop_last());
        lemma_run_incomplete(frames, header.signature, header.length, n - 1);
        assert(Seq::<u8>::empty() + spec_payload(whole) =~= spec_payloads(frames.drop_last())
            + spec_payload(last));
        assert(spec_header(last).unwrap().sequence == n - 1);
    }
}

/// A battery packet that arrives whole in one report decodes to its five
/// payload bytes, unchanged and in order, and leaves the decoder idle.
pub proof fn lemma_single_frame_battery(frame: Seq<u8>)
    requires
        frame.len() == 9,
        spec_header(frame).unwrap().signature == HP_SIGNATURE + 6,
        spec_header(frame).unwrap().length == 5,
        spec_header(frame).unwrap().sequence == 0,
    ensures
        spec_step(Reassembly::Idle, frame) == (
            Reassembly::Idle,
            Ok::<Option<EventView>, ProtocolError>(
                Some(
                    EventView::Battery {
                        low_level: frame[4],
                        crit_level: frame[5],
                        power_off_timeout: frame[6],
                        auto_report_delay: frame[7],
                        level: frame[8],
                    },
                ),
            ),
        ),
{
    let bytes = Seq::<u8>::empty() + spec_payload(frame);
    assert(bytes.subrange(0, 5) =~= frame.skip(4));
}

/// A report with sequence number zero is rejected while a packet is
/// incomplete, and so is a continuation whose signature or declared length
/// differs from that of the packet in progress. The decoder is idle afterwards.
pub proof fn lemma_misfit_rejected(state: Reassembly, frame: Seq<u8>)
    requires
        state is Accumulating,
        frame.len() >= 4,
        spec_header(frame).unwrap().signature >= HP_SIGNATURE,
        spec_header(frame).unwrap().sequence == 0 || spec_header(frame).unwrap().signature
            != state->signature || spec_header(frame).unwrap().length != state->length,
    ensures
        spec_step(state, frame).0 == Reassembly::Idle,
        spec_step(state, frame).1 == Err::<Option<EventView>, ProtocolError>(
            if spec_header(frame).unwrap().sequence == 0 {
                ProtocolError::UnexpectedStart
            } else if spec_header(frame).unwrap().signature != state->signature {
                ProtocolError::SignatureMismatch
            } else {
                ProtocolError::LengthMismatch
            },
        ),
{
}

/// A report whose signature lies below the base is ignored: it yields nothing
/// and the state stays as it is.
pub proof fn lemma_foreign_signature_ignored(state: Reassembly, frame: Seq<u8>)
    requires
        frame.len() >= 4,
        spec_header(frame).unwrap().signature < HP_SIGNATURE,
    ensures
        spec_step(state, frame) == (state, Ok::<Option<EventView>, ProtocolError>(None)),
{
}

/// Every step leads from a well-formed state to a well-formed state.
pub proof fn lemma_step_keeps_wf(state: Reassembly, frame: Seq<u8>)
    requires
        state.wf(),
    ensures
        spec_step(state, frame).0.wf(),
{
    if frame.len() >= 4 {
        let b1 = frame[1];
        let b3 = frame[3];
        assert(b1 % 16 <= 15 && b3 % 4 <= 3 && b3 / 4 <= 63);
    }
}

} // verus!
