//! Streaming fetch pipeline: delivers a container's payload to the panel
//! in ranged chunks against a fixed-size receive buffer, without ever
//! holding the whole image in memory.
//!
//! The pipeline is a state machine: the embedding program asks it for the
//! next ranged request window, performs the network fetch, and hands the
//! response body back; the pipeline validates, tracks progress, and
//! drives the panel controller. This module also holds the chunk-window
//! arithmetic and the `Range` header text formatting.

use vstd::prelude::*;
use vstd::arithmetic::div_mod::lemma_basic_div;
use vstd::arithmetic::div_mod::lemma_fundamental_div_mod;
use vstd::arithmetic::div_mod::lemma_hoist_over_denominator;

use crate::container::Error;
use crate::container::FormatError;
use crate::container::SizeError;
use crate::container::parse_header;
use crate::container::spec_header_ok;
use crate::container::spec_magic_ok;
use crate::container::spec_version_ok;
use crate::container::HEADER_SIZE;
use crate::container::FRAME_SIZE;
use crate::panel::EPD7in3f;
use crate::panel::PanelState;
use crate::panel::Step;
use crate::panel::StepView;
use crate::panel::Command;
use crate::panel::plan_view;
use crate::panel::spec_refresh_steps;

verus! {

/// Bytes requested per ranged chunk: matches the network stack's
/// receive-buffer size.
pub const CHUNK_SIZE: usize = 32768;

/// The decimal digits of `n`, most significant first; empty for zero.
pub open spec fn spec_digits(n: nat) -> Seq<u8>
    decreases n,
{
    if n == 0 {
        seq![]
    } else {
        spec_digits(n / 10) + seq![(n % 10 + 48) as u8]
    }
}

/// The decimal rendering of `n`: its digits, or `"0"` for zero.
pub open spec fn spec_decimal(n: nat) -> Seq<u8> {
    if n == 0 {
        seq![48u8]
    } else {
        spec_digits(n)
    }
}

/// Ten to the `k`.
pub open spec fn spec_pow10(k: nat) -> nat
    decreases k,
{
    if k == 0 {
        1
    } else {
        10 * spec_pow10((k - 1) as nat)
    }
}

/// A number below ten to the `k` has at most `k` decimal digits.
proof fn lemma_digits_len(n: nat, k: nat)
    requires
        n < spec_pow10(k),
    ensures
        spec_digits(n).len() <= k,
    decreases n,
{
    if n > 0 {
        if k == 0 {
            assert(spec_pow10(0) == 1);
        }
        assert(spec_pow10(k) == 10 * spec_pow10((k - 1) as nat));
        lemma_fundamental_div_mod(n as int, 10);
        lemma_digits_len(n / 10, (k - 1) as nat);
    }
}

/// Every value a `usize` can hold has at most 20 decimal digits.
proof fn lemma_usize_digits_len(n: usize)
    ensures
        spec_digits(n as nat).len() <= 20,
        spec_decimal(n as nat).len() <= 20,
        spec_decimal(n as nat).len() >= 1,
{
    reveal_with_fuel(spec_pow10, 21);
    assert(spec_pow10(20) == 100000000000000000000);
    assert(n < spec_pow10(20));
    lemma_digits_len(n as nat, 20);
    if n > 0 {
        assert(spec_digits(n as nat).len() >= 1);
    }
}

/// Writes the decimal digits of `num` into `buffer` starting at
/// `offset`, and returns how many digit bytes were written. Bytes outside
/// the written range are unchanged.
///
/// The buffer must leave at least 20 bytes of room at `offset`, the most
/// a `usize` can need.
pub fn write_number(buffer: &mut Vec<u8>, num: usize, offset: usize) -> (count: usize)
    requires
        offset + 20 <= old(buffer)@.len(),
    ensures
        count == spec_decimal(num as nat).len(),
        1 <= count <= 20,
        final(buffer)@.len() == old(buffer)@.len(),
        final(buffer)@.subrange(offset as int, offset + count) == spec_decimal(num as nat),
        forall|j: int|
            0 <= j < old(buffer)@.len() && !(offset <= j < offset + count) ==> final(buffer)@[j]
                == old(buffer)@[j],
{
    proof {
        lemma_usize_digits_len(num);
    }
    if num == 0 {
        buffer.set(offset, 48);
        assert(buffer@.subrange(offset as int, offset + 1) =~= spec_decimal(0));
        return 1;
    }
    let mut digits: Vec<u8> = Vec::new();
    let mut n = num;
    while n > 0
        invariant
            spec_digits(num as nat) =~= spec_digits(n as nat) + digits@.reverse(),
            n == 0 ==> digits@.len() > 0,
        decreases n,
    {
        let d = (n % 10) as u8 + 48;
        let ghost pre = digits@;
        digits.push(d);
        proof {
            lemma_fundamental_div_mod(n as int, 10);
            assert(spec_digits(n as nat) == spec_digits((n / 10) as nat) + seq![
                ((n as nat) % 10 + 48) as u8,
            ]);
            assert(pre.push(d).reverse() =~= seq![d] + pre.reverse());
            assert(spec_digits(num as nat) =~= spec_digits((n / 10) as nat) + digits@.reverse());
        }
        n = n / 10;
    }
    assert(spec_digits(num as nat) =~= digits@.reverse());
    let count = digits.len();
    assert(count == spec_digits(num as nat).len());
    let ghost orig = buffer@;
    let buffer_len = buffer.len();
    let mut j: usize = 0;
    while j < count
        invariant
            offset + 20 <= buffer_len <= usize::MAX,
            count == digits@.len(),
            count == spec_digits(num as nat).len(),
            1 <= count <= 20,
            spec_digits(num as nat) == digits@.reverse(),
            offset + 20 <= orig.len(),
            buffer@.len() == orig.len(),
            0 <= j <= count,
            forall|k: int|
                0 <= k < j ==> buffer@[offset + k] == spec_digits(num as nat)[k],
            forall|k: int|
                0 <= k < orig.len() && !(offset <= k < offset + count) ==> buffer@[k] == orig[k],
        decreases count - j,
    {
        let b = digits[count - 1 - j];
        proof {
            assert(digits@.reverse()[j as int] == digits@[count - 1 - j]);
        }
        buffer.set(offset + j, b);
        j = j + 1;
    }
    assert(buffer@.subrange(offset as int, offset + count) =~= spec_decimal(num as nat));
    count
}

/// The exact text of a `Range` header value for the inclusive byte window
/// `[start, end]`: `bytes=<start>-<end>` in ASCII.
pub open spec fn spec_range_value(start: nat, end: nat) -> Seq<u8> {
    seq![98u8, 121u8, 116u8, 101u8, 115u8, 61u8] + spec_decimal(start) + seq![45u8] + spec_decimal(
        end,
    )
}

/// Formats the `Range` header value `bytes=<start>-<end>` for one ranged
/// request, both bounds inclusive.
pub fn range_header_value(start: usize, end: usize) -> (r: Vec<u8>)
    ensures
        r@ == spec_range_value(start as nat, end as nat),
{
    let mut buf: Vec<u8> = Vec::new();
    let mut k: usize = 0;
    while k < 47
        invariant
            buf@.len() == k,
            0 <= k <= 47,
        decreases 47 - k,
    {
        buf.push(0);
        k = k + 1;
    }
    buf.set(0, 98);
    buf.set(1, 121);
    buf.set(2, 116);
    buf.set(3, 101);
    buf.set(4, 115);
    buf.set(5, 61);
    let ghost prefix = buf@.subrange(0, 6);
    assert(prefix =~= seq![98u8, 121u8, 116u8, 101u8, 115u8, 61u8]);
    let c1 = write_number(&mut buf, start, 6);
    let mut pos = 6 + c1;
    buf.set(pos, 45);
    pos = pos + 1;
    let c2 = write_number(&mut buf, end, pos);
    pos = pos + c2;
    buf.truncate(pos);
    proof {
        assert(buf@ =~= spec_range_value(start as nat, end as nat));
    }
    buf
}

/// One ranged request: the byte offset of its first byte in the fetched
/// resource and how many bytes it asks for.
#[derive(Clone, Copy, Debug, PartialEq, Eq, Structural)]
pub struct FetchWindow {
    /// Offset of the window's first byte.
    pub start: usize,
    /// Number of bytes the window asks for; always at least one.
    pub len: usize,
}

impl FetchWindow {
    /// The offset of the window's last byte, as in a `Range` header with
    /// inclusive bounds.
    pub open spec fn spec_end(self) -> int {
        self.start + self.len - 1
    }

    /// Returns the offset of the window's last byte (inclusive).
    pub fn end(&self) -> (r: usize)
        requires
            self.len >= 1,
            self.start + self.len - 1 <= usize::MAX,
        ensures
            r == self.spec_end(),
    {
        self.start + (self.len - 1)
    }

    /// Formats this window as a `Range` header value with inclusive
    /// bounds: `bytes=<start>-<end>`.
    pub fn range_value(&self) -> (r: Vec<u8>)
        requires
            self.len >= 1,
            self.start + self.len - 1 <= usize::MAX,
        ensures
            r@ == spec_range_value(self.start as nat, self.spec_end() as nat),
    {
        let e = self.end();
        range_header_value(self.start, e)
    }
}

/// The length of the chunk window issued after `delivered` payload bytes,
/// out of `total`, with chunks of at most `chunk` bytes: the smaller of
/// `chunk` and what remains.
pub open spec fn spec_window_len(delivered: nat, total: nat, chunk: nat) -> nat {
    if chunk <= total - delivered {
        chunk
    } else {
        (total - delivered) as nat
    }
}

/// The whole schedule of chunk windows from `delivered` onward, as
/// `(start offset, length)` pairs: each window starts right after the
/// header and the bytes already delivered, and takes at most `chunk`
/// bytes of what remains.
pub open spec fn spec_windows(delivered: nat, total: nat, chunk: nat) -> Seq<(nat, nat)>
    decreases total - delivered,
    when chunk > 0
{
    if delivered >= total {
        seq![]
    } else {
        let len = spec_window_len(delivered, total, chunk);
        seq![((HEADER_SIZE + delivered) as nat, len)] + spec_windows(
            delivered + len,
            total,
            chunk,
        )
    }
}

/// The sum of the window lengths of a schedule.
pub open spec fn spec_sum_lens(ws: Seq<(nat, nat)>) -> nat
    decreases ws.len(),
{
    if ws.len() == 0 {
        0
    } else {
        ws[0].1 + spec_sum_lens(ws.drop_first())
    }
}

/// Chunk-window generation is exhaustive and non-overlapping: for any
/// progress point, the remaining schedule starts right after the bytes
/// already delivered, consecutive windows are adjacent (no gap and no
/// overlap), every window is non-empty and at most one chunk long, the
/// window lengths sum to exactly the bytes that remain, and the number
/// of windows is the remaining byte count divided by the chunk size,
/// rounded up.
pub proof fn lemma_windows_tile(delivered: nat, total: nat, chunk: nat)
    requires
        chunk > 0,
        delivered <= total,
    ensures
        ({
            let ws = spec_windows(delivered, total, chunk);
            &&& spec_sum_lens(ws) == total - delivered
            &&& ws.len() == ((total - delivered) + chunk - 1) / (chunk as int)
            &&& forall|i: int| 0 <= i < ws.len() ==> 0 < (#[trigger] ws[i]).1 <= chunk
            &&& (ws.len() > 0 ==> ws[0].0 == HEADER_SIZE + delivered)
            &&& forall|i: int|
                0 <= i < ws.len() - 1 ==> (#[trigger] ws[i + 1]).0 == ws[i].0 + ws[i].1
        }),
    decreases total - delivered,
{
    let ws = spec_windows(delivered, total, chunk);
    let rem = (total - delivered) as nat;
    if delivered >= total {
        assert(ws.len() == 0);
        assert(((total - delivered) + chunk - 1) / (chunk as int) == 0) by {
            lemma_basic_div(chunk as int - 1, chunk as int);
        }
    } else {
        let len = spec_window_len(delivered, total, chunk);
        let rest = spec_windows(delivered + len, total, chunk);
        lemma_windows_tile(delivered + len, total, chunk);
        assert(ws == seq![((HEADER_SIZE + delivered) as nat, len)] + rest);
        assert(ws.drop_first() =~= rest);
        assert(spec_sum_lens(ws) == len + spec_sum_lens(rest));
        assert(ws.len() == ((total - delivered) + chunk - 1) / (chunk as int)) by {
            lemma_hoist_over_denominator(rem - 1, 1, chunk);
            assert((rem - 1) + 1 * chunk == rem + chunk - 1);
            if chunk <= rem {
                assert(rest.len() == ((rem - chunk) + chunk - 1) / (chunk as int));
                assert((rem - chunk) + chunk - 1 == rem - 1);
            } else {
                lemma_basic_div(rem - 1, chunk as int);
                assert(rest.len() == 0);
            }
        }
        assert forall|i: int| 0 <= i < ws.len() - 1 implies (#[trigger] ws[i + 1]).0 == ws[i].0
            + ws[i].1 by {
            if i == 0 {
                assert(rest.len() > 0);
                assert(rest[0].0 == HEADER_SIZE + delivered + len);
                assert(ws[1] == rest[0]);
            } else {
                assert(ws[i] == rest[i - 1]);
                assert(ws[i + 1] == rest[i]);
                assert(rest[(i - 1) + 1].0 == rest[i - 1].0 + rest[i - 1].1);
            }
        }
    }
}

/// The pipeline's phase: the transfer advances from fetching the header
/// through delivering the payload to one refresh, or to `Failed`.
#[derive(Clone, Copy, Debug, PartialEq, Eq, Structural)]
pub enum Phase {
    /// The header window must be fetched and validated next.
    Header,
    /// The header was accepted and data transmission has begun;
    /// `delivered` payload bytes have been handed to the panel so far.
    Body {
        /// Payload bytes handed to the panel since transmission began.
        delivered: usize,
    },
    /// The whole payload is delivered and the refresh sub-sequence has
    /// been issued.
    Refreshing,
    /// The refresh completed: the transfer is finished.
    Done,
    /// A format, size or transport failure aborted the transfer. If it
    /// struck mid-stream the panel is left in its data-transmission
    /// phase; the caller must sleep or reset it before reuse.
    Failed,
}

/// The streaming fetch pipeline: validates the container header, asks
/// for the payload in ranged chunk windows, feeds every received chunk
/// verbatim into the panel's data-transmission phase, and triggers
/// exactly one refresh once all expected bytes are delivered.
///
/// No request is retried: any failure aborts the whole transfer. A short
/// response body is accepted, not retried; it only moves the next
/// window's start back accordingly.
pub struct FetchPipeline {
    panel: EPD7in3f,
    phase: Phase,
}

impl FetchPipeline {
    /// The pipeline's phase.
    pub closed spec fn spec_phase(&self) -> Phase {
        self.phase
    }

    /// The owned panel controller.
    pub closed spec fn spec_panel(&self) -> EPD7in3f {
        self.panel
    }

    /// The pipeline and its panel move in lockstep: the panel is in the
    /// protocol state that the pipeline's phase requires.
    pub open spec fn wf(&self) -> bool {
        match self.spec_phase() {
            Phase::Header => self.spec_panel().spec_state() == PanelState::Initialized,
            Phase::Body { delivered } => self.spec_panel().spec_state() == (
            PanelState::TransmittingData { sent: delivered }) && delivered < FRAME_SIZE,
            Phase::Refreshing => self.spec_panel().spec_state() == PanelState::Refreshing,
            Phase::Done => self.spec_panel().spec_state() == PanelState::Initialized,
            Phase::Failed => true,
        }
    }

    /// Takes ownership of an initialized panel and prepares to fetch the
    /// container header.
    pub fn new(panel: EPD7in3f) -> (r: FetchPipeline)
        requires
            panel.spec_state() == PanelState::Initialized,
        ensures
            r.wf(),
            r.spec_phase() == Phase::Header,
            r.spec_panel() == panel,
    {
        FetchPipeline { panel, phase: Phase::Header }
    }

    /// Returns the pipeline's phase.
    pub fn phase(&self) -> (p: Phase)
        ensures
            p == self.spec_phase(),
    {
        self.phase
    }

    /// Returns the state of the owned panel controller.
    pub fn panel_state(&self) -> (s: PanelState)
        ensures
            s == self.spec_panel().spec_state(),
    {
        self.panel.state()
    }

    /// Returns how many payload bytes have been delivered to the panel:
    /// zero before the header is accepted, the running count while the
    /// body streams, and the whole frame once the refresh is issued. A
    /// failed transfer reports the bytes delivered before the failure
    /// only while mid-stream state is kept, so it reports zero.
    pub fn bytes_delivered(&self) -> (n: usize)
        ensures
            self.spec_phase() matches Phase::Body { delivered } ==> n == delivered,
            self.spec_phase() == Phase::Refreshing || self.spec_phase() == Phase::Done ==> n
                == FRAME_SIZE,
            self.spec_phase() == Phase::Header || self.spec_phase() == Phase::Failed ==> n == 0,
    {
        match self.phase {
            Phase::Header => 0,
            Phase::Body { delivered } => delivered,
            Phase::Refreshing => FRAME_SIZE,
            Phase::Done => FRAME_SIZE,
            Phase::Failed => 0,
        }
    }

    /// The window of the next ranged request: the 13-byte header window
    /// first, then one chunk window per loop turn, starting right after
    /// the bytes already delivered and asking for at most
    /// [`CHUNK_SIZE`] of what remains. `None` once no request is owed.
    pub fn next_window(&self) -> (r: Option<FetchWindow>)
        requires
            self.wf(),
        ensures
            r is Some <==> (self.spec_phase() == Phase::Header || self.spec_phase() matches
                Phase::Body { delivered: _ }),
            self.spec_phase() == Phase::Header ==> r == Some(
                FetchWindow { start: 0, len: HEADER_SIZE },
            ),
            self.spec_phase() matches Phase::Body { delivered } ==> r matches Some(w)
                && w.start == HEADER_SIZE + delivered && w.len == spec_window_len(
                delivered as nat,
                FRAME_SIZE as nat,
                CHUNK_SIZE as nat,
            ) && (w.start as nat, w.len as nat) == spec_windows(
                delivered as nat,
                FRAME_SIZE as nat,
                CHUNK_SIZE as nat,
            )[0],
    {
        match self.phase {
            Phase::Header => Some(FetchWindow { start: 0, len: HEADER_SIZE }),
            Phase::Body { delivered } => {
                let remaining = FRAME_SIZE - delivered;
                let len = if CHUNK_SIZE <= remaining {
                    CHUNK_SIZE
                } else {
                    remaining
                };
                Some(FetchWindow { start: HEADER_SIZE + delivered, len })
            },
            _ => None,
        }
    }

    /// Consumes the header window's response body.
    ///
    /// A body shorter than the header is rejected as too small; otherwise
    /// the header checks of [`parse_header`] run in order. On acceptance
    /// the panel's data-transmission phase begins and the returned plan
    /// must be performed; on rejection the transfer fails before any
    /// panel step is emitted.
    pub fn on_header(&mut self, body: &Vec<u8>) -> (r: Result<Vec<Step>, Error>)
        requires
            old(self).wf(),
            old(self).spec_phase() == Phase::Header,
        ensures
            final(self).wf(),
            final(self).spec_panel().spec_config() == old(self).spec_panel().spec_config(),
            r is Err ==> final(self).spec_phase() == Phase::Failed && final(self).spec_panel()
                == old(self).spec_panel(),
            body@.len() < HEADER_SIZE ==> r == Err::<Vec<Step>, Error>(
                Error::Size(SizeError::BufferTooSmall),
            ),
            body@.len() >= HEADER_SIZE && !spec_magic_ok(body@) ==> r == Err::<Vec<Step>, Error>(
                Error::Format(FormatError::InvalidMagic),
            ),
            body@.len() >= HEADER_SIZE && spec_magic_ok(body@) && !spec_version_ok(body@) ==> r
                == Err::<Vec<Step>, Error>(Error::Format(FormatError::InvalidVersion)),
            body@.len() >= HEADER_SIZE && spec_magic_ok(body@) && spec_version_ok(body@)
                && !spec_header_ok(body@) ==> r == Err::<Vec<Step>, Error>(
                Error::Format(FormatError::InvalidDimensions),
            ),
            r is Ok <==> body@.len() >= HEADER_SIZE && spec_header_ok(body@),
            r matches Ok(steps) ==> plan_view(steps@) == seq![
                StepView::SendCommand(Command::DataTransmissionStart.spec_opcode()),
            ] && final(self).spec_phase() == (Phase::Body { delivered: 0 }),
    {
        if body.len() < HEADER_SIZE {
            self.phase = Phase::Failed;
            return Err(Error::Size(SizeError::BufferTooSmall));
        }
        match parse_header(body.as_slice()) {
            Ok(_) => {},
            Err(e) => {
                self.phase = Phase::Failed;
                return Err(e);
            },
        }
        let steps = self.panel.begin_data_transmission();
        self.phase = Phase::Body { delivered: 0 };
        Ok(steps)
    }

    /// Consumes one chunk window's response body.
    ///
    /// A body longer than the requested window is a transport violation
    /// and aborts the transfer before any panel step is emitted. Any
    /// shorter body, the empty one included, is accepted verbatim: its
    /// bytes go to the panel and only move the delivered count forward.
    /// The chunk that completes the payload also issues the refresh
    /// sub-sequence — the transfer's only one.
    pub fn on_chunk(&mut self, body: &Vec<u8>) -> (r: Result<Vec<Step>, Error>)
        requires
            old(self).wf(),
            old(self).spec_phase() matches Phase::Body { delivered: _ },
        ensures
            final(self).wf(),
            final(self).spec_panel().spec_config() == old(self).spec_panel().spec_config(),
            ({
                let d = old(self).spec_phase()->delivered;
                let wlen = spec_window_len(d as nat, FRAME_SIZE as nat, CHUNK_SIZE as nat);
                &&& (body@.len() > wlen ==> r == Err::<Vec<Step>, Error>(Error::Transport)
                    && final(self).spec_phase() == Phase::Failed && final(self).spec_panel()
                    == old(self).spec_panel())
                &&& (body@.len() <= wlen ==> {
                    let nd = d + body@.len();
                    &&& r matches Ok(steps) && plan_view(steps@) == seq![
                        StepView::SendData(body@),
                    ] + (if nd == FRAME_SIZE {
                        spec_refresh_steps(old(self).spec_panel().spec_config())
                    } else {
                        Seq::<StepView>::empty()
                    })
                    &&& (nd < FRAME_SIZE ==> final(self).spec_phase() == (Phase::Body {
                        delivered: nd as usize,
                    }))
                    &&& (nd == FRAME_SIZE ==> final(self).spec_phase() == Phase::Refreshing)
                })
            }),
    {
        let delivered = match self.phase {
            Phase::Body { delivered } => delivered,
            _ => 0,
        };
        let remaining = FRAME_SIZE - delivered;
        let wlen = if CHUNK_SIZE <= remaining {
            CHUNK_SIZE
        } else {
            remaining
        };
        if body.len() > wlen {
            self.phase = Phase::Failed;
            return Err(Error::Transport);
        }
        let mut steps = self.panel.transmit(body);
        let nd = delivered + body.len();
        if nd == FRAME_SIZE {
            let ghost head = plan_view(steps@);
            let tail = self.panel.turn_on_display();
            crate::panel::append_steps(&mut steps, tail);
            self.phase = Phase::Refreshing;
            proof {
                assert(plan_view(steps@) =~= seq![StepView::SendData(body@)]
                    + spec_refresh_steps(old(self).spec_panel().spec_config()));
            }
        } else {
            self.phase = Phase::Body { delivered: nd };
            proof {
                assert(plan_view(steps@) =~= seq![StepView::SendData(body@)]
                    + Seq::<StepView>::empty());
            }
        }
        Ok(steps)
    }

    /// Records that a network request or response failed: the transfer
    /// aborts, and a failure mid-stream leaves the panel in its
    /// data-transmission phase.
    pub fn on_transport_error(&mut self) -> (r: Error)
        ensures
            final(self).wf(),
            final(self).spec_phase() == Phase::Failed,
            final(self).spec_panel() == old(self).spec_panel(),
            r == Error::Transport,
    {
        self.phase = Phase::Failed;
        Error::Transport
    }

    /// Records that a bus write of a returned plan failed: the transfer
    /// aborts and the panel is marked faulted; it must be reset before
    /// reuse.
    pub fn on_hardware_error(&mut self) -> (r: Error)
        ensures
            final(self).wf(),
            final(self).spec_phase() == Phase::Failed,
            final(self).spec_panel().spec_state() == PanelState::Faulted,
            final(self).spec_panel().spec_config() == old(self).spec_panel().spec_config(),
            r == Error::Hardware,
    {
        self.panel.fault();
        self.phase = Phase::Failed;
        Error::Hardware
    }

    /// Records that the refresh sub-sequence completed without error:
    /// the transfer is finished and the panel is back to accepting
    /// commands.
    pub fn refresh_complete(&mut self)
        requires
            old(self).wf(),
            old(self).spec_phase() == Phase::Refreshing,
        ensures
            final(self).wf(),
            final(self).spec_phase() == Phase::Done,
            final(self).spec_panel().spec_state() == PanelState::Initialized,
            final(self).spec_panel().spec_config() == old(self).spec_panel().spec_config(),
    {
        self.panel.refresh_complete();
        self.phase = Phase::Done;
    }

    /// Gives the panel controller back, for reuse after the transfer
    /// finished or failed.
    pub fn into_panel(self) -> (r: EPD7in3f)
        ensures
            r == self.spec_panel(),
    {
        self.panel
    }
}

} // verus!
