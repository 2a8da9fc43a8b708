//! The request correlator: owns the codec, a single pending-request slot and
//! an inbound byte buffer, and matches exactly one in-flight command to its
//! eventual response.
//!
//! The correlator is a state machine. [`Programmer::call`] encodes one
//! command and hands back the bytes the transport must write; the correlator
//! then waits for the response. [`Programmer::deliver`] feeds it the bytes
//! the transport received, and says whether they completed a valid frame,
//! broke framing, or left the response still incomplete. The caller that
//! drives the transport performs the writes, runs the deadline, and resolves
//! the one pending call with what `deliver` reports.

use vstd::prelude::*;
use bytes::BytesMut;
use crate::StkError;
use crate::bytebuf::{buf_clear, buf_contents, buf_extend, buf_new, buf_to_vec};
use crate::codec::{DecodeOutcome, Packet, Stk500Codec, decode_spec,
    expected_response_len_spec, wire_bytes, bare_packet, load_address_packet,
    load_address_payload, prog_page_packet, prog_page_payload, set_device_packet,
    set_device_ext_packet, chosen_settings, default_device_settings,
    default_device_ext_settings};
use crate::commands::Command;

verus! {

/// The deadline a call is raced against, in milliseconds.
pub const DEFAULT_TIMEOUT_MS: u64 = 500;

/// Idle, or holding exactly one pending call.
#[derive(Clone, Copy, Debug, PartialEq, Eq, Structural)]
pub enum State {
    Idle,
    WaitResponse,
}

/// What one [`Programmer::deliver`] did with the bytes it was handed.
pub enum DeliverOutcome {
    /// No pending call was settled: the frame is still incomplete, or the
    /// bytes completed a frame while no call was outstanding and were
    /// discarded.
    Pending,
    /// A valid frame arrived: the pending call resolves with this payload.
    Resolved(Vec<u8>),
    /// Framing broke: the pending call fails with this error.
    Failed(StkError),
}

/// The ghost image of a [`DeliverOutcome`].
pub enum DeliverNote {
    Pending,
    Resolved(Seq<u8>),
    Failed(StkError),
}

/// The ghost image of a [`DeliverOutcome`], payload read as a sequence.
pub open spec fn note_of(out: DeliverOutcome) -> DeliverNote {
    match out {
        DeliverOutcome::Pending => DeliverNote::Pending,
        DeliverOutcome::Resolved(v) => DeliverNote::Resolved(v@),
        DeliverOutcome::Failed(e) => DeliverNote::Failed(e),
    }
}

/// The correlator's ghost model: its state, the bytes buffered so far, and
/// what the codec recorded at the last encode.
#[verifier::ext_equal]
pub struct CorrelatorModel {
    pub state: State,
    pub buffered: Seq<u8>,
    pub last_command: Command,
    pub expected_response_len: int,
}

impl CorrelatorModel {
    /// While a call is pending, the recorded expected response length covers
    /// the two sentinel bytes of the frame that answers it.
    pub open spec fn inv(self) -> bool {
        self.state is WaitResponse ==> self.expected_response_len >= 2
    }
}

/// What [`Programmer::call`] does to the correlator: the command and its
/// expected response length are recorded and the correlator waits.
pub open spec fn call_model(m: CorrelatorModel, cmd: Command, payload: Seq<u8>) -> CorrelatorModel {
    CorrelatorModel {
        state: State::WaitResponse,
        last_command: cmd,
        expected_response_len: expected_response_len_spec(cmd, payload),
        ..m
    }
}

/// What [`Programmer::deliver`] does to the correlator, and what it reports.
/// The bytes are appended, and the grown buffer is always decoded at the
/// recorded expected length: an incomplete frame leaves everything pending;
/// a valid frame resolves the pending call — where one exists — with the
/// inner payload; broken framing fails it. Either terminal outcome clears
/// the buffer and leaves the correlator idle, also where no call was
/// pending: a late frame that straggles in after a timeout is consumed and
/// discarded, never mistaken for the answer to the next call. Only before
/// the first encode, while no expected length is recorded yet, is there no
/// window to decode against and the bytes are merely buffered.
pub open spec fn deliver_model(m: CorrelatorModel, bytes: Seq<u8>) -> (CorrelatorModel, DeliverNote) {
    let incoming = m.buffered + bytes;
    if m.expected_response_len < 2 {
        (CorrelatorModel { buffered: incoming, ..m }, DeliverNote::Pending)
    } else {
        match decode_spec(m.expected_response_len, incoming) {
            DecodeOutcome::Incomplete => (
                CorrelatorModel { buffered: incoming, ..m },
                DeliverNote::Pending,
            ),
            DecodeOutcome::Frame(inner) => (
                CorrelatorModel { state: State::Idle, buffered: Seq::empty(), ..m },
                if m.state is WaitResponse {
                    DeliverNote::Resolved(inner)
                } else {
                    DeliverNote::Pending
                },
            ),
            DecodeOutcome::Error => (
                CorrelatorModel { state: State::Idle, buffered: Seq::empty(), ..m },
                if m.state is WaitResponse {
                    DeliverNote::Failed(StkError::FramingError)
                } else {
                    DeliverNote::Pending
                },
            ),
        }
    }
}

/// What [`Programmer::on_timeout`] does to the correlator: back to idle, the
/// stale bytes discarded.
pub open spec fn timeout_model(m: CorrelatorModel) -> CorrelatorModel {
    CorrelatorModel { state: State::Idle, buffered: Seq::empty(), ..m }
}

/// The request correlator.
pub struct Programmer {
    pub codec: Stk500Codec,
    pub buffer: BytesMut,
    pub state: State,
}

impl Programmer {
    /// The correlator's ghost model.
    pub open spec fn model(self) -> CorrelatorModel {
        CorrelatorModel {
            state: self.state,
            buffered: buf_contents(self.buffer),
            last_command: self.codec.last_command,
            expected_response_len: self.codec.expected_response_len as int,
        }
    }

    /// The correlator's invariant.
    pub open spec fn inv(self) -> bool {
        self.model().inv()
    }

    /// A fresh correlator: idle, nothing buffered, nothing recorded.
    pub fn new() -> (p: Programmer)
        ensures
            p.inv(),
            p.state is Idle,
            p.model().buffered == Seq::<u8>::empty(),
            p.model().expected_response_len == 0,
    {
        Programmer { codec: Stk500Codec::new(), buffer: buf_new(), state: State::Idle }
    }

    /// Whether a call may be issued now. A caller outside the verified crate
    /// checks this before [`Programmer::call`].
    pub fn is_idle(&self) -> (b: bool)
        ensures
            b == (self.state is Idle),
    {
        match self.state {
            State::Idle => true,
            State::WaitResponse => false,
        }
    }

    /// Issues one command: encodes the packet, records its expected response
    /// length, and hands back the bytes the transport must write. Only one
    /// call may be outstanding, so the correlator must be idle.
    pub fn call(&mut self, packet: Packet) -> (wire: Vec<u8>)
        requires
            old(self).inv(),
            old(self).state is Idle,
            packet.wf(),
        ensures
            final(self).inv(),
            final(self).model() == call_model(old(self).model(), packet.command, packet.payload@),
            wire@ == wire_bytes(packet.command, packet.payload@),
    {
        let ghost pkt = packet;
        let mut dst = buf_new();
        self.codec.encode(packet, &mut dst);
        self.state = State::WaitResponse;
        let wire = buf_to_vec(&dst);
        assert(wire@ =~= wire_bytes(pkt.command, pkt.payload@));
        assert(self.model() =~= call_model(old(self).model(), pkt.command, pkt.payload@));
        wire
    }

    /// Feeds the correlator bytes the transport received, and reports what
    /// they settled, as [`deliver_model`] states it.
    pub fn deliver(&mut self, buf: Vec<u8>) -> (out: DeliverOutcome)
        requires
            old(self).inv(),
        ensures
            final(self).inv(),
            final(self).model() == deliver_model(old(self).model(), buf@).0,
            note_of(out) == deliver_model(old(self).model(), buf@).1,
    {
        buf_extend(&mut self.buffer, buf.as_slice());
        if self.codec.expected_response_len < 2 {
            assert(self.model() =~= deliver_model(old(self).model(), buf@).0);
            return DeliverOutcome::Pending;
        }
        let was_waiting: bool = !self.is_idle();
        match self.codec.decode(&mut self.buffer) {
            Ok(None) => {
                assert(self.model() =~= deliver_model(old(self).model(), buf@).0);
                DeliverOutcome::Pending
            },
            Ok(Some(frame)) => {
                self.state = State::Idle;
                buf_clear(&mut self.buffer);
                assert(self.model() =~= deliver_model(old(self).model(), buf@).0);
                if was_waiting {
                    DeliverOutcome::Resolved(buf_to_vec(&frame))
                } else {
                    DeliverOutcome::Pending
                }
            },
            Err(_) => {
                self.state = State::Idle;
                buf_clear(&mut self.buffer);
                assert(self.model() =~= deliver_model(old(self).model(), buf@).0);
                if was_waiting {
                    DeliverOutcome::Failed(StkError::FramingError)
                } else {
                    DeliverOutcome::Pending
                }
            },
        }
    }

    /// The timeout wrapper's recovery duty: when the deadline of a call
    /// passes with no valid frame, the correlator is forced back to idle and
    /// the stale pending bytes are discarded, so a subsequent call is not
    /// blocked.
    pub fn on_timeout(&mut self)
        ensures
            final(self).inv(),
            final(self).model() == timeout_model(old(self).model()),
    {
        self.state = State::Idle;
        buf_clear(&mut self.buffer);
        assert(self.model() =~= timeout_model(old(self).model()));
    }

    /// Issues the get-sync command.
    pub fn get_sync(&mut self) -> (wire: Vec<u8>)
        requires
            old(self).inv(),
            old(self).state is Idle,
        ensures
            final(self).inv(),
            final(self).model() == call_model(
                old(self).model(),
                Command::CmndStkGetSync,
                Seq::<u8>::empty(),
            ),
            wire@ == wire_bytes(Command::CmndStkGetSync, Seq::<u8>::empty()),
    {
        self.call(bare_packet(Command::CmndStkGetSync))
    }

    /// Issues the get-sign-on command.
    pub fn sign_on(&mut self) -> (wire: Vec<u8>)
        requires
            old(self).inv(),
            old(self).state is Idle,
        ensures
            final(self).inv(),
            final(self).model() == call_model(
                old(self).model(),
                Command::CmndStkGetSignOn,
                Seq::<u8>::empty(),
            ),
            wire@ == wire_bytes(Command::CmndStkGetSignOn, Seq::<u8>::empty()),
    {
        self.call(bare_packet(Command::CmndStkGetSignOn))
    }

    /// Issues the read-signature command.
    pub fn read_sign(&mut self) -> (wire: Vec<u8>)
        requires
            old(self).inv(),
            old(self).state is Idle,
        ensures
            final(self).inv(),
            final(self).model() == call_model(
                old(self).model(),
                Command::CmndStkReadSign,
                Seq::<u8>::empty(),
            ),
            wire@ == wire_bytes(Command::CmndStkReadSign, Seq::<u8>::empty()),
    {
        self.call(bare_packet(Command::CmndStkReadSign))
    }

    /// Issues the set-device command with the given 20-byte device
    /// descriptor, or the default one where the caller supplies none.
    pub fn set_device(&mut self, settings: &Option<Vec<u8>>) -> (wire: Vec<u8>)
        requires
            old(self).inv(),
            old(self).state is Idle,
        ensures
            final(self).inv(),
            final(self).model() == call_model(
                old(self).model(),
                Command::CmndStkSetDevice,
                chosen_settings(*settings, default_device_settings()),
            ),
            wire@ == wire_bytes(
                Command::CmndStkSetDevice,
                chosen_settings(*settings, default_device_settings()),
            ),
    {
        self.call(set_device_packet(settings))
    }

    /// Issues the set-device-ext command with the given 5-byte extended
    /// descriptor, or the default one where the caller supplies none.
    pub fn set_device_ext(&mut self, settings: &Option<Vec<u8>>) -> (wire: Vec<u8>)
        requires
            old(self).inv(),
            old(self).state is Idle,
        ensures
            final(self).inv(),
            final(self).model() == call_model(
                old(self).model(),
                Command::CmndStkSetDeviceExt,
                chosen_settings(*settings, default_device_ext_settings()),
            ),
            wire@ == wire_bytes(
                Command::CmndStkSetDeviceExt,
                chosen_settings(*settings, default_device_ext_settings()),
            ),
    {
        self.call(set_device_ext_packet(settings))
    }

    /// Issues the enter-programming-mode command.
    pub fn enter_prog_mode(&mut self) -> (wire: Vec<u8>)
        requires
            old(self).inv(),
            old(self).state is Idle,
        ensures
            final(self).inv(),
            final(self).model() == call_model(
                old(self).model(),
                Command::CmndStkEnterProgmode,
                Seq::<u8>::empty(),
            ),
            wire@ == wire_bytes(Command::CmndStkEnterProgmode, Seq::<u8>::empty()),
    {
        self.call(bare_packet(Command::CmndStkEnterProgmode))
    }

    /// Issues the leave-programming-mode command.
    pub fn leave_prog_mode(&mut self) -> (wire: Vec<u8>)
        requires
            old(self).inv(),
            old(self).state is Idle,
        ensures
            final(self).inv(),
            final(self).model() == call_model(
                old(self).model(),
                Command::CmndStkLeaveProgmode,
                Seq::<u8>::empty(),
            ),
            wire@ == wire_bytes(Command::CmndStkLeaveProgmode, Seq::<u8>::empty()),
    {
        self.call(bare_packet(Command::CmndStkLeaveProgmode))
    }

    /// Issues the load-address command for a word address.
    pub fn load_address(&mut self, address: u16) -> (wire: Vec<u8>)
        requires
            old(self).inv(),
            old(self).state is Idle,
        ensures
            final(self).inv(),
            final(self).model() == call_model(
                old(self).model(),
                Command::CmndStkLoadAddress,
                load_address_payload(address),
            ),
            wire@ == wire_bytes(Command::CmndStkLoadAddress, load_address_payload(address)),
    {
        self.call(load_address_packet(address))
    }

    /// Issues the prog-page command for one page of data.
    pub fn prog_page(&mut self, mem_type: char, data: &Vec<u8>) -> (wire: Vec<u8>)
        requires
            old(self).inv(),
            old(self).state is Idle,
            data@.len() <= 0xffff,
            mem_type as u32 <= 0xff,
        ensures
            final(self).inv(),
            final(self).model() == call_model(
                old(self).model(),
                Command::CmndStkProgPage,
                prog_page_payload(mem_type, data@),
            ),
            wire@ == wire_bytes(Command::CmndStkProgPage, prog_page_payload(mem_type, data@)),
    {
        self.call(prog_page_packet(mem_type, data))
    }
}

/// Which side of the race between a pending call and its deadline finished
/// first, and how.
pub enum RaceOutcome {
    /// The call resolved with a frame payload before the deadline.
    Response(Vec<u8>),
    /// The call failed before the deadline.
    CallFailed(StkError),
    /// The deadline elapsed first.
    DeadlineElapsed,
    /// The timer backing the deadline itself failed.
    TimerFailed,
}

/// The timeout wrapper's decision: a payload that arrived in time is the
/// result; a call that failed in time keeps its error; an elapsed deadline
/// is a timeout; a broken timer is reported as a transport failure.
pub fn resolve_race(outcome: RaceOutcome) -> (r: Result<Vec<u8>, StkError>)
    ensures
        match outcome {
            RaceOutcome::Response(v) => r matches Ok(p) && p@ == v@,
            RaceOutcome::CallFailed(e) => r matches Err(x) && x == e,
            RaceOutcome::DeadlineElapsed => r matches Err(x) && x == StkError::Timeout,
            RaceOutcome::TimerFailed => r matches Err(x) && x == StkError::TransportError,
        },
{
    match outcome {
        RaceOutcome::Response(v) => Ok(v),
        RaceOutcome::CallFailed(e) => Err(e),
        RaceOutcome::DeadlineElapsed => Err(StkError::Timeout),
        RaceOutcome::TimerFailed => Err(StkError::TransportError),
    }
}

/// Timeout recovery: a call whose deadline passes without a valid frame
/// forces the correlator back to idle, and from there a next call is allowed
/// again and is recorded exactly as a call from idle always is — the pending
/// slot cannot stay occupied.
pub proof fn lemma_timeout_recovery(m: CorrelatorModel, cmd: Command, payload: Seq<u8>)
    requires
        expected_response_len_spec(cmd, payload) >= 2,
    ensures
        ({
            let after = timeout_model(m);
            &&& after.state is Idle
            &&& after.inv()
            &&& call_model(after, cmd, payload).state is WaitResponse
            &&& call_model(after, cmd, payload).inv()
            &&& call_model(after, cmd, payload).expected_response_len
                == expected_response_len_spec(cmd, payload)
        }),
{
}

} // verus!
