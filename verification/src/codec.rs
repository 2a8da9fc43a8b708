//! The packet codec: framing of outgoing commands and recognition and
//! validation of incoming response frames.
//!
//! A request goes out as `[opcode][payload][SYNC_CRC_EOP]`. A response comes
//! back as `[RESP_INSYNC][inner bytes][RESP_OK]`; the protocol carries no
//! length prefix, so the codec records, at encode time, how long the response
//! to the command just sent must be, and decode validates the two sentinel
//! bytes at exactly that length.

use vstd::prelude::*;
use bytes::BytesMut;
use crate::StkError;
use crate::bytebuf::{buf_contents, buf_extend, buf_index, buf_len, buf_push, buf_split_to,
    buf_truncate};
use crate::commands::{Command, RESP_INSYNC, RESP_OK, SYNC_CRC_EOP, opcode, opcode_spec};

verus! {

/// One outgoing command with its payload, consumed by the codec exactly once.
pub struct Packet {
    pub command: Command,
    pub payload: Vec<u8>,
}

impl Packet {
    /// The payload holds the bytes the expected-response-length rule of the
    /// command reads: the read-page command derives the length from its first
    /// two payload bytes.
    pub open spec fn len_ok(self) -> bool {
        self.command is CmndStkReadPage ==> self.payload@.len() >= 2
    }

    /// A packet whose response frame can exist at all: the expected response
    /// is long enough to hold its two sentinel bytes.
    pub open spec fn wf(self) -> bool {
        &&& self.len_ok()
        &&& expected_response_len_spec(self.command, self.payload@) >= 2
    }
}

/// The bytes a command with the given payload occupies on the wire:
/// opcode, payload, end-of-packet sentinel.
pub open spec fn wire_bytes(cmd: Command, payload: Seq<u8>) -> Seq<u8> {
    seq![opcode_spec(cmd)] + payload + seq![SYNC_CRC_EOP]
}

/// The bytes [`Stk500Codec::encode`] emits for a packet.
pub open spec fn encoded_bytes(p: Packet) -> Seq<u8> {
    wire_bytes(p.command, p.payload@)
}

/// The length, envelope included, of the response each command is answered
/// with. Fixed for most commands; the read-page command announces in its
/// payload how many bytes it asks for, as a 16-bit big-endian count.
pub open spec fn expected_response_len_spec(cmd: Command, payload: Seq<u8>) -> int {
    match cmd {
        Command::CmndStkGetSignOn => 9,
        Command::CmndStkGetParameter => 3,
        Command::CmndStkReadFlash => 4,
        Command::CmndStkReadData => 3,
        Command::CmndStkReadFuse => 4,
        Command::CmndStkReadFuseExt => 5,
        Command::CmndStkReadLock => 3,
        Command::CmndStkReadPage => (payload[0] as int) * 256 + (payload[1] as int),
        Command::CmndStkReadSign => 5,
        Command::CmndStkReadOsccal => 3,
        Command::CmndStkReadOsccalExt => 3,
        Command::CmndStkUniversal => 3,
        _ => 2,
    }
}

/// Executable expected-response-length table.
pub fn expected_response_len(packet: &Packet) -> (n: usize)
    requires
        packet.len_ok(),
    ensures
        n == expected_response_len_spec(packet.command, packet.payload@),
{
    match packet.command {
        Command::CmndStkGetSignOn => 9,
        Command::CmndStkGetParameter => 3,
        Command::CmndStkReadFlash => 4,
        Command::CmndStkReadData => 3,
        Command::CmndStkReadFuse => 4,
        Command::CmndStkReadFuseExt => 5,
        Command::CmndStkReadLock => 3,
        Command::CmndStkReadPage => {
            let bytes_high: u8 = packet.payload[0];
            let bytes_low: u8 = packet.payload[1];
            (bytes_high as usize) * 256 + (bytes_low as usize)
        },
        Command::CmndStkReadSign => 5,
        Command::CmndStkReadOsccal => 3,
        Command::CmndStkReadOsccalExt => 3,
        Command::CmndStkUniversal => 3,
        _ => 2,
    }
}

/// What decoding a buffer against an expected response length yields.
pub enum DecodeOutcome {
    /// Fewer bytes than the expected response length: wait for more.
    Incomplete,
    /// A valid frame; holds the inner payload, envelope stripped.
    Frame(Seq<u8>),
    /// A bad leading or trailing sentinel byte.
    Error,
}

/// The decoding rule: a buffer shorter than the expected length is
/// incomplete; otherwise the first byte must be the INSYNC sentinel and the
/// byte at the end of the expected window the OK sentinel, and the frame is
/// what stands between them.
pub open spec fn decode_spec(expected: int, buf: Seq<u8>) -> DecodeOutcome {
    if buf.len() < expected {
        DecodeOutcome::Incomplete
    } else if buf[0] != RESP_INSYNC {
        DecodeOutcome::Error
    } else if buf[expected - 1] != RESP_OK {
        DecodeOutcome::Error
    } else {
        DecodeOutcome::Frame(buf.subrange(1, expected - 1))
    }
}

/// The stateful codec: remembers the command just encoded and the length of
/// the response it must be answered with.
pub struct Stk500Codec {
    pub last_command: Command,
    pub expected_response_len: usize,
}

impl Stk500Codec {
    /// A fresh codec; no command has been encoded yet, so no expected
    /// response length has been recorded.
    pub fn new() -> (c: Stk500Codec)
        ensures
            c.last_command == Command::CmndStkGetSync,
            c.expected_response_len == 0,
    {
        Stk500Codec { last_command: Command::CmndStkGetSync, expected_response_len: 0 }
    }

    /// Frames the packet into `dst` and records the command and its expected
    /// response length for the decode that answers it.
    pub fn encode(&mut self, item: Packet, dst: &mut BytesMut)
        requires
            item.len_ok(),
        ensures
            final(self).last_command == item.command,
            final(self).expected_response_len == expected_response_len_spec(
                item.command,
                item.payload@,
            ),
            buf_contents(*final(dst)) == buf_contents(*old(dst)) + encoded_bytes(item),
    {
        self.last_command = item.command;
        self.expected_response_len = expected_response_len(&item);
        buf_push(dst, opcode(item.command));
        buf_extend(dst, item.payload.as_slice());
        buf_push(dst, SYNC_CRC_EOP);
        assert(buf_contents(*dst) =~= buf_contents(*old(dst)) + encoded_bytes(item));
    }

    /// Decodes one response frame from the front of `src` against the
    /// recorded expected length. An under-full buffer is left untouched and
    /// reported incomplete; a bad sentinel leaves the buffer untouched and is
    /// a framing error; a valid frame is consumed from the buffer and handed
    /// back with the envelope stripped.
    ///
    /// Decoding presupposes that a command was encoded, so the recorded
    /// expected length covers the two sentinel bytes.
    pub fn decode(&mut self, src: &mut BytesMut) -> (r: Result<Option<BytesMut>, StkError>)
        requires
            old(self).expected_response_len >= 2,
        ensures
            *final(self) == *old(self),
            match decode_spec(
                old(self).expected_response_len as int,
                buf_contents(*old(src)),
            ) {
                DecodeOutcome::Incomplete => {
                    &&& r matches Ok(None)
                    &&& buf_contents(*final(src)) == buf_contents(*old(src))
                },
                DecodeOutcome::Error => {
                    &&& r matches Err(e) && e == StkError::FramingError
                    &&& buf_contents(*final(src)) == buf_contents(*old(src))
                },
                DecodeOutcome::Frame(inner) => {
                    &&& r matches Ok(Some(frame)) && buf_contents(frame) == inner
                    &&& buf_contents(*final(src)) == buf_contents(*old(src)).subrange(
                        old(self).expected_response_len as int,
                        buf_contents(*old(src)).len() as int,
                    )
                },
            },
    {
        let expected: usize = self.expected_response_len;
        if buf_len(src) < expected {
            Ok(None)
        } else if buf_index(src, 0) != RESP_INSYNC {
            Err(StkError::FramingError)
        } else if buf_index(src, expected - 1) != RESP_OK {
            Err(StkError::FramingError)
        } else {
            let mut resp = buf_split_to(src, expected);
            let _envelope_head = buf_split_to(&mut resp, 1);
            let inner_len: usize = buf_len(&resp);
            buf_truncate(&mut resp, inner_len - 1);
            assert(buf_contents(resp) =~= buf_contents(*old(src)).subrange(
                1,
                expected - 1,
            ));
            Ok(Some(resp))
        }
    }
}

/// The 20-byte device descriptor sent when the caller supplies none.
pub open spec fn default_device_settings() -> Seq<u8> {
    seq![
        0x86u8, 0x00, 0x00, 0x01, 0x01, 0x01, 0x01, 0x03, 0xff, 0xff, 0xff, 0xff, 0x00, 0x80,
        0x04, 0x00, 0x00, 0x00, 0x80, 0x00,
    ]
}

/// The 5-byte extended device descriptor sent when the caller supplies none.
pub open spec fn default_device_ext_settings() -> Seq<u8> {
    seq![0x05u8, 0x04, 0xd7, 0xc2, 0x00]
}

/// The caller-supplied settings where there are any, the default otherwise.
pub open spec fn chosen_settings(settings: Option<Vec<u8>>, default: Seq<u8>) -> Seq<u8> {
    match settings {
        Some(s) => s@,
        None => default,
    }
}

/// The load-address payload: the word address, low byte first (little-endian
/// on the wire).
pub open spec fn load_address_payload(address: u16) -> Seq<u8> {
    seq![(address % 256) as u8, (address / 256) as u8]
}

/// The prog-page payload: the data length as a 16-bit big-endian count (the
/// byte order is inverted against load-address — the protocol has it so),
/// then the memory-type tag, then the page data.
pub open spec fn prog_page_payload(mem_type: char, data: Seq<u8>) -> Seq<u8> {
    seq![
        ((data.len() as int) / 256) as u8,
        ((data.len() as int) % 256) as u8,
        ((mem_type as u32) as u8),
    ] + data
}

/// A packet with an empty payload for the given command.
pub fn bare_packet(command: Command) -> (p: Packet)
    requires
        !(command is CmndStkReadPage),
    ensures
        p.command == command,
        p.payload@ == Seq::<u8>::empty(),
        p.wf(),
{
    let p = Packet { command, payload: Vec::new() };
    assert(p.payload@ =~= Seq::<u8>::empty());
    p
}

/// The set-device packet: the given 20-byte device descriptor, or the
/// default one where the caller supplies none.
pub fn set_device_packet(settings: &Option<Vec<u8>>) -> (p: Packet)
    ensures
        p.command == Command::CmndStkSetDevice,
        p.payload@ == chosen_settings(*settings, default_device_settings()),
        p.wf(),
{
    let payload: Vec<u8> = match settings {
        Some(s) => vstd::slice::slice_to_vec(s.as_slice()),
        None => {
            let v: Vec<u8> = vec![
                0x86, 0x00, 0x00, 0x01, 0x01, 0x01, 0x01, 0x03, 0xff, 0xff, 0xff, 0xff, 0x00,
                0x80, 0x04, 0x00, 0x00, 0x00, 0x80, 0x00,
            ];
            assert(v@ =~= default_device_settings());
            v
        },
    };
    Packet { command: Command::CmndStkSetDevice, payload }
}

/// The set-device-ext packet: the given 5-byte extended descriptor, or the
/// default one where the caller supplies none.
pub fn set_device_ext_packet(settings: &Option<Vec<u8>>) -> (p: Packet)
    ensures
        p.command == Command::CmndStkSetDeviceExt,
        p.payload@ == chosen_settings(*settings, default_device_ext_settings()),
        p.wf(),
{
    let payload: Vec<u8> = match settings {
        Some(s) => vstd::slice::slice_to_vec(s.as_slice()),
        None => {
            let v: Vec<u8> = vec![0x05, 0x04, 0xd7, 0xc2, 0x00];
            assert(v@ =~= default_device_ext_settings());
            v
        },
    };
    Packet { command: Command::CmndStkSetDeviceExt, payload }
}

/// The load-address packet for a word address.
pub fn load_address_packet(address: u16) -> (p: Packet)
    ensures
        p.command == Command::CmndStkLoadAddress,
        p.payload@ == load_address_payload(address),
        p.wf(),
{
    let lo: u8 = (address % 256) as u8;
    let hi: u8 = (address / 256) as u8;
    let mut payload: Vec<u8> = Vec::new();
    payload.push(lo);
    payload.push(hi);
    assert(payload@ =~= load_address_payload(address));
    Packet { command: Command::CmndStkLoadAddress, payload }
}

/// The prog-page packet for one page of data. The size field is 16 bits wide
/// and the memory-type tag one byte, so the page and the tag must fit them.
pub fn prog_page_packet(mem_type: char, data: &Vec<u8>) -> (p: Packet)
    requires
        data@.len() <= 0xffff,
        mem_type as u32 <= 0xff,
    ensures
        p.command == Command::CmndStkProgPage,
        p.payload@ == prog_page_payload(mem_type, data@),
        p.wf(),
{
    let size: u16 = data.len() as u16;
    let hi: u8 = (size / 256) as u8;
    let lo: u8 = (size % 256) as u8;
    let tag: u8 = (mem_type as u32) as u8;
    let mut payload: Vec<u8> = Vec::new();
    payload.push(hi);
    payload.push(lo);
    payload.push(tag);
    let mut rest: Vec<u8> = vstd::slice::slice_to_vec(data.as_slice());
    payload.append(&mut rest);
    assert(payload@ =~= prog_page_payload(mem_type, data@));
    Packet { command: Command::CmndStkProgPage, payload }
}

/// Round trip: the frame a well-behaved device echoes back for the command
/// just encoded — the INSYNC sentinel, the inner bytes filling the recorded
/// expected length, the OK sentinel — decodes to exactly those inner bytes.
pub proof fn lemma_round_trip(p: Packet, inner: Seq<u8>)
    requires
        p.wf(),
        inner.len() + 2 == expected_response_len_spec(p.command, p.payload@),
    ensures
        decode_spec(
            expected_response_len_spec(p.command, p.payload@),
            seq![RESP_INSYNC] + inner + seq![RESP_OK],
        ) == DecodeOutcome::Frame(inner),
{
    let expected: int = expected_response_len_spec(p.command, p.payload@);
    let buf = seq![RESP_INSYNC] + inner + seq![RESP_OK];
    assert(buf.len() == expected);
    assert(buf[0] == RESP_INSYNC);
    assert(buf[expected - 1] == RESP_OK);
    assert(buf.subrange(1, expected - 1) =~= inner);
}

/// A buffer that reaches the expected response length but does not open with
/// the INSYNC sentinel is a framing error, however much longer it is.
/// (A buffer still short of the expected length is reported incomplete
/// first, whatever its first byte holds.)
pub proof fn lemma_bad_leading_byte(expected: int, buf: Seq<u8>)
    requires
        expected <= buf.len(),
        buf.len() > 0,
        buf[0] != RESP_INSYNC,
    ensures
        decode_spec(expected, buf) is Error,
{
}

/// A buffer shorter than the expected response length is incomplete — never
/// an error, whatever bytes it holds.
pub proof fn lemma_short_buffer_incomplete(expected: int, buf: Seq<u8>)
    requires
        buf.len() < expected,
    ensures
        decode_spec(expected, buf) is Incomplete,
{
}

} // verus!
