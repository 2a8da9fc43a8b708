//! The programming orchestrator: drives the fixed sequence of correlator
//! calls that flashes a memory image — device entry, page-wise writes with
//! whole-page blank skipping, and exit.
//!
//! Each step of the sequence suspends: a command is sent and its response
//! awaited, or a settle delay is awaited. [`ProgMemory`] therefore is a state
//! machine from the last event — a response, a failure, an elapsed delay —
//! to the next action; the caller that owns the correlator and the clock
//! performs each action and hands the following event back. The first
//! failure aborts the whole operation.

use vstd::prelude::*;
use vstd::arithmetic::div_mod::{lemma_mod_multiples_vanish, lemma_small_mod};
use crate::StkError;
use crate::codec::{Packet, bare_packet, default_device_settings, default_device_ext_settings,
    load_address_packet, load_address_payload, prog_page_packet, prog_page_payload,
    set_device_packet, set_device_ext_packet};
use crate::commands::Command;

verus! {

/// The settle delay before each page write, in milliseconds.
pub const SETTLE_DELAY_MS: u64 = 50;

/// The byte erased flash reads as; a page holding nothing else need not be
/// written.
pub const ERASED: u8 = 0xff;

/// Every byte of `image` in `[from, to)` is the erased value.
pub open spec fn blank(image: Seq<u8>, from: int, to: int) -> bool {
    forall|k: int| from <= k < to ==> #[trigger] image[k] == ERASED
}

/// Where the page beginning at `index` ends: one whole page further, or at
/// the end of the image for the final partial page.
pub open spec fn page_end(len: int, index: int, page_size: int) -> int {
    if index + page_size <= len {
        index + page_size
    } else {
        len
    }
}

/// The first non-blank page at or after `start`, walking whole pages:
/// `Some((index, end))` bounds the first page window holding a byte that
/// needs writing; `None` says everything from `start` on is blank.
pub open spec fn next_page_spec(image: Seq<u8>, start: int, page_size: int) -> Option<(int, int)>
    decreases image.len() - start,
        when page_size >= 1 && 0 <= start
{
    if start >= image.len() {
        None
    } else {
        let end: int = page_end(image.len() as int, start, page_size);
        if !blank(image, start, end) {
            Some((start, end))
        } else {
            next_page_spec(image, end, page_size)
        }
    }
}

/// What [`next_page_spec`] finds: pages are skipped whole and only blank
/// ones are skipped, the window found begins at a page boundary, ends where
/// its page ends, and holds a byte that needs writing; and nothing is found
/// only when everything left is blank.
pub proof fn lemma_next_page_spec(image: Seq<u8>, start: int, page_size: int)
    requires
        page_size >= 1,
        0 <= start <= image.len(),
    ensures
        match next_page_spec(image, start, page_size) {
            Some((index, end)) => {
                &&& start <= index < image.len()
                &&& (index - start) % page_size == 0
                &&& blank(image, start, index)
                &&& end == page_end(image.len() as int, index, page_size)
                &&& !blank(image, index, end)
            },
            None => blank(image, start, image.len() as int),
        },
    decreases image.len() - start,
{
    if start < image.len() {
        let end: int = page_end(image.len() as int, start, page_size);
        lemma_small_mod(0, page_size as nat);
        if blank(image, start, end) {
            lemma_next_page_spec(image, end, page_size);
            match next_page_spec(image, end, page_size) {
                Some((index, _)) => {
                    assert(blank(image, start, index));
                    if end == start + page_size {
                        lemma_mod_multiples_vanish(1, index - end, page_size);
                        assert(page_size * 1 + (index - end) == index - start);
                    }
                },
                None => {
                    assert(blank(image, start, image.len() as int));
                },
            }
        }
    }
}

/// Finds the first non-blank page at or after `start`, skipping blank pages
/// whole, never byte by byte.
pub fn next_page(image: &Vec<u8>, start: usize, page_size: usize) -> (r: Option<(usize, usize)>)
    requires
        page_size >= 1,
        start <= image@.len(),
    ensures
        match r {
            Some((index, end)) => next_page_spec(image@, start as int, page_size as int)
                == Some((index as int, end as int)),
            None => next_page_spec(image@, start as int, page_size as int) is None,
        },
{
    let len: usize = image.len();
    let mut index: usize = start;
    while index < len
        invariant
            page_size >= 1,
            start <= index <= len,
            len == image@.len(),
            next_page_spec(image@, start as int, page_size as int) == next_page_spec(
                image@,
                index as int,
                page_size as int,
            ),
        decreases len - index,
    {
        let end: usize = if len - index > page_size {
            index + page_size
        } else {
            len
        };
        let mut j: usize = index;
        let mut is_blank: bool = true;
        while j < end
            invariant
                index <= j <= end <= len,
                len == image@.len(),
                is_blank == blank(image@, index as int, j as int),
            decreases end - j,
        {
            if image[j] != ERASED {
                is_blank = false;
            }
            j = j + 1;
        }
        assert(end == page_end(len as int, index as int, page_size as int));
        if !is_blank {
            return Some((index, end));
        }
        index = end;
    }
    None
}

/// The orchestrator's position in the programming sequence. The `*Sent`
/// steps await the response to the command named; `Settling` awaits the
/// settle delay before the page bounded by its window is addressed and
/// written.
#[derive(Clone, Copy, Debug, PartialEq, Eq, Structural)]
pub enum ProgStep {
    Start,
    SyncSent,
    SetDeviceSent,
    SetDeviceExtSent,
    EnterProgSent,
    ReadSignSent,
    Settling { index: usize, end: usize },
    LoadAddressSent { index: usize, end: usize },
    ProgPageSent { end: usize },
    LeaveProgSent,
    Done,
    Failed,
}

/// What the orchestrator asks its driver to do next.
pub enum ProgAction {
    /// Issue this packet as the next correlator call.
    Send(Packet),
    /// Wait the settle delay, then report that it elapsed.
    Delay,
    /// The whole sequence completed.
    Finished,
    /// The sequence aborted on its first failure, with this error.
    Aborted(StkError),
}

/// What the driver reports back after performing an action.
pub enum ProgEvent {
    /// The call resolved with this response payload.
    Response(Vec<u8>),
    /// The call failed, or the transport did.
    Failed(StkError),
    /// The settle delay elapsed.
    DelayDone,
}

/// The ghost image of a [`ProgAction`]: the packet read as command and
/// payload bytes.
pub enum ActionNote {
    Send(Command, Seq<u8>),
    Delay,
    Finished,
    Aborted(StkError),
}

/// The ghost image of a [`ProgAction`].
pub open spec fn action_note(a: ProgAction) -> ActionNote {
    match a {
        ProgAction::Send(p) => ActionNote::Send(p.command, p.payload@),
        ProgAction::Delay => ActionNote::Delay,
        ProgAction::Finished => ActionNote::Finished,
        ProgAction::Aborted(e) => ActionNote::Aborted(e),
    }
}

/// The ghost image of a [`ProgEvent`]; the transitions never read a
/// response's bytes, so the payload is dropped.
pub enum EventNote {
    Response,
    Failed(StkError),
    DelayDone,
}

/// The ghost image of a [`ProgEvent`].
pub open spec fn event_note(ev: ProgEvent) -> EventNote {
    match ev {
        ProgEvent::Response(_) => EventNote::Response,
        ProgEvent::Failed(e) => EventNote::Failed(e),
        ProgEvent::DelayDone => EventNote::DelayDone,
    }
}

/// One programming operation: the parameters of the write and the position
/// reached in the sequence.
pub struct ProgMemory {
    pub mem_type: char,
    pub page_size: usize,
    pub word_size: usize,
    pub image: Vec<u8>,
    pub step: ProgStep,
}

impl ProgMemory {
    /// A page window the sequence still works on lies inside the image, is
    /// non-empty, and fits one page.
    pub open spec fn window_ok(self, index: int, end: int) -> bool {
        &&& 0 <= index < end <= self.image@.len()
        &&& end - index <= self.page_size
    }

    /// The operation's invariant: the parameters fit the wire format — a
    /// page and its 16-bit size field, the one-byte memory-type tag, a
    /// positive word size to address by — and the step's window, where it
    /// carries one, is a valid page window.
    pub open spec fn wf(self) -> bool {
        &&& 1 <= self.page_size <= 0xffff
        &&& 1 <= self.word_size
        &&& self.mem_type as u32 <= 0xff
        &&& match self.step {
            ProgStep::Settling { index, end } => self.window_ok(index as int, end as int),
            ProgStep::LoadAddressSent { index, end } => self.window_ok(index as int, end as int),
            ProgStep::ProgPageSent { end } => end <= self.image@.len(),
            _ => true,
        }
    }

    /// The word address the page beginning at `index` is loaded at: the byte
    /// index divided by the word size, held to the 16 bits of the wire
    /// format.
    pub open spec fn word_address(self, index: int) -> u16 {
        ((index / (self.word_size as int)) % 0x10000) as u16
    }
}

/// Where the page phase goes from byte position `pos`: the next non-blank
/// page is settled before it is written; when everything left is blank,
/// nothing further is written and the sequence leaves programming mode.
pub open spec fn advance_model(m: ProgMemory, pos: int) -> (ProgStep, ActionNote) {
    match next_page_spec(m.image@, pos, m.page_size as int) {
        Some((index, end)) => (
            ProgStep::Settling { index: index as usize, end: end as usize },
            ActionNote::Delay,
        ),
        None => (
            ProgStep::LeaveProgSent,
            ActionNote::Send(Command::CmndStkLeaveProgmode, Seq::<u8>::empty()),
        ),
    }
}

/// The transition the orchestrator makes on an event: any failure aborts the
/// sequence; otherwise each step hands out the next command of the fixed
/// sequence, and the page phase walks the image as [`advance_model`] says.
pub open spec fn step_model(m: ProgMemory, ev: EventNote) -> (ProgStep, ActionNote) {
    match ev {
        EventNote::Failed(e) => (ProgStep::Failed, ActionNote::Aborted(e)),
        _ => match m.step {
            ProgStep::SyncSent => (
                ProgStep::SetDeviceSent,
                ActionNote::Send(Command::CmndStkSetDevice, default_device_settings()),
            ),
            ProgStep::SetDeviceSent => (
                ProgStep::SetDeviceExtSent,
                ActionNote::Send(Command::CmndStkSetDeviceExt, default_device_ext_settings()),
            ),
            ProgStep::SetDeviceExtSent => (
                ProgStep::EnterProgSent,
                ActionNote::Send(Command::CmndStkEnterProgmode, Seq::<u8>::empty()),
            ),
            ProgStep::EnterProgSent => (
                ProgStep::ReadSignSent,
                ActionNote::Send(Command::CmndStkReadSign, Seq::<u8>::empty()),
            ),
            ProgStep::ReadSignSent => advance_model(m, 0),
            ProgStep::Settling { index, end } => (
                ProgStep::LoadAddressSent { index, end },
                ActionNote::Send(
                    Command::CmndStkLoadAddress,
                    load_address_payload(m.word_address(index as int)),
                ),
            ),
            ProgStep::LoadAddressSent { index, end } => (
                ProgStep::ProgPageSent { end },
                ActionNote::Send(
                    Command::CmndStkProgPage,
                    prog_page_payload(m.mem_type, m.image@.subrange(index as int, end as int)),
                ),
            ),
            ProgStep::ProgPageSent { end } => advance_model(m, end as int),
            ProgStep::LeaveProgSent => (ProgStep::Done, ActionNote::Finished),
            _ => (m.step, ActionNote::Finished),
        },
    }
}

/// Which step may receive which event: the steps that sent a command await
/// its response, the settling step awaits its delay, and any waiting step
/// may learn of a failure.
pub open spec fn awaiting_response(step: ProgStep) -> bool {
    match step {
        ProgStep::SyncSent => true,
        ProgStep::SetDeviceSent => true,
        ProgStep::SetDeviceExtSent => true,
        ProgStep::EnterProgSent => true,
        ProgStep::ReadSignSent => true,
        ProgStep::LoadAddressSent { .. } => true,
        ProgStep::ProgPageSent { .. } => true,
        ProgStep::LeaveProgSent => true,
        _ => false,
    }
}

/// Which event [`ProgMemory::on_event`] accepts at which step.
pub open spec fn expects_event(step: ProgStep, ev: EventNote) -> bool {
    match ev {
        EventNote::Response => awaiting_response(step),
        EventNote::DelayDone => step is Settling,
        EventNote::Failed(_) => awaiting_response(step) || step is Settling,
    }
}

impl ProgMemory {
    /// One programming operation over `image`, not yet started.
    pub fn new(mem_type: char, page_size: usize, word_size: usize, image: Vec<u8>) -> (m:
        ProgMemory)
        requires
            1 <= page_size <= 0xffff,
            1 <= word_size,
            mem_type as u32 <= 0xff,
        ensures
            m.wf(),
            m.step is Start,
            m.mem_type == mem_type,
            m.page_size == page_size,
            m.word_size == word_size,
            m.image == image,
    {
        ProgMemory { mem_type, page_size, word_size, image, step: ProgStep::Start }
    }

    /// Begins the sequence: the first action is the get-sync command.
    pub fn start(&mut self) -> (a: ProgAction)
        requires
            old(self).wf(),
            old(self).step is Start,
        ensures
            final(self).wf(),
            final(self).step is SyncSent,
            final(self).mem_type == old(self).mem_type,
            final(self).page_size == old(self).page_size,
            final(self).word_size == old(self).word_size,
            final(self).image == old(self).image,
            action_note(a) == ActionNote::Send(Command::CmndStkGetSync, Seq::<u8>::empty()),
    {
        self.step = ProgStep::SyncSent;
        ProgAction::Send(bare_packet(Command::CmndStkGetSync))
    }

    /// Walks the page phase from byte position `pos`.
    fn advance_page(&mut self, pos: usize) -> (a: ProgAction)
        requires
            old(self).wf(),
            pos <= old(self).image@.len(),
        ensures
            final(self).wf(),
            final(self).step == advance_model(*old(self), pos as int).0,
            action_note(a) == advance_model(*old(self), pos as int).1,
            final(self).mem_type == old(self).mem_type,
            final(self).page_size == old(self).page_size,
            final(self).word_size == old(self).word_size,
            final(self).image == old(self).image,
    {
        proof {
            lemma_next_page_spec(self.image@, pos as int, self.page_size as int);
        }
        match next_page(&self.image, pos, self.page_size) {
            Some((index, end)) => {
                self.step = ProgStep::Settling { index, end };
                ProgAction::Delay
            },
            None => {
                self.step = ProgStep::LeaveProgSent;
                ProgAction::Send(bare_packet(Command::CmndStkLeaveProgmode))
            },
        }
    }

    /// Feeds the orchestrator the event its last action ended with and hands
    /// out the next action, as [`step_model`] states it.
    pub fn on_event(&mut self, ev: ProgEvent) -> (a: ProgAction)
        requires
            old(self).wf(),
            expects_event(old(self).step, event_note(ev)),
        ensures
            final(self).wf(),
            final(self).step == step_model(*old(self), event_note(ev)).0,
            action_note(a) == step_model(*old(self), event_note(ev)).1,
            final(self).mem_type == old(self).mem_type,
            final(self).page_size == old(self).page_size,
            final(self).word_size == old(self).word_size,
            final(self).image == old(self).image,
    {
        match ev {
            ProgEvent::Failed(e) => {
                self.step = ProgStep::Failed;
                ProgAction::Aborted(e)
            },
            _ => {
                match self.step {
                    ProgStep::SyncSent => {
                        self.step = ProgStep::SetDeviceSent;
                        ProgAction::Send(set_device_packet(&None))
                    },
                    ProgStep::SetDeviceSent => {
                        self.step = ProgStep::SetDeviceExtSent;
                        ProgAction::Send(set_device_ext_packet(&None))
                    },
                    ProgStep::SetDeviceExtSent => {
                        self.step = ProgStep::EnterProgSent;
                        ProgAction::Send(bare_packet(Command::CmndStkEnterProgmode))
                    },
                    ProgStep::EnterProgSent => {
                        self.step = ProgStep::ReadSignSent;
                        ProgAction::Send(bare_packet(Command::CmndStkReadSign))
                    },
                    ProgStep::ReadSignSent => self.advance_page(0),
                    ProgStep::Settling { index, end } => {
                        let word: usize = index / self.word_size;
                        let address: u16 = (word % 0x10000) as u16;
                        self.step = ProgStep::LoadAddressSent { index, end };
                        ProgAction::Send(load_address_packet(address))
                    },
                    ProgStep::LoadAddressSent { index, end } => {
                        let page: Vec<u8> = vstd::slice::slice_to_vec(
                            vstd::slice::slice_subrange(self.image.as_slice(), index, end),
                        );
                        self.step = ProgStep::ProgPageSent { end };
                        ProgAction::Send(prog_page_packet(self.mem_type, &page))
                    },
                    ProgStep::ProgPageSent { end } => self.advance_page(end),
                    ProgStep::LeaveProgSent => {
                        self.step = ProgStep::Done;
                        ProgAction::Finished
                    },
                    _ => ProgAction::Finished,
                }
            },
        }
    }
}

} // verus!
