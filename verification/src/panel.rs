//! Panel controller: the command/protocol state machine of the
//! seven-color electrophoretic panel.
//!
//! The controller owns no hardware. Every operation returns a plan: a
//! sequence of [`Step`] values that the embedding program must perform, in
//! order, against the physical command/data lines and the busy-signal
//! line. The controller's state token tracks the protocol phase, and the
//! contracts pin down both the exact plan of every operation and the
//! transition it makes.
//!
//! The busy-signal wait has no timeout by default: an unresponsive panel
//! leaves the performing program blocked. That matches the hardware
//! contract; a bounded poll count can be configured instead.

use vstd::prelude::*;

use crate::codec::Color;
use crate::codec::spec_pack;
use crate::codec::pack_indices;
use crate::container::Error;
use crate::container::FormatError;
use crate::container::SizeError;
use crate::container::parse_header;
use crate::container::spec_header_ok;
use crate::container::spec_magic_ok;
use crate::container::spec_version_ok;
use crate::container::HEADER_SIZE;
use crate::container::FRAME_SIZE;

verus! {

/// How the busy-signal line is polled: the fixed interval between polls,
/// and an optional bound on the number of polls.
#[derive(Clone, Copy, Debug, PartialEq, Eq, Structural)]
pub struct PollConfig {
    /// Milliseconds between two polls of the busy line.
    pub interval_ms: u64,
    /// Largest number of polls before the wait is abandoned; `None` polls
    /// forever.
    pub max_polls: Option<u64>,
}

impl PollConfig {
    /// The panel's customary poll behavior: a 5 ms interval, no bound.
    /// An unresponsive panel then blocks the performer indefinitely; that
    /// is the documented hazard of the hardware contract, not a fault.
    pub fn unbounded() -> (r: PollConfig)
        ensures
            r.interval_ms == 5,
            r.max_polls is None,
    {
        PollConfig { interval_ms: 5, max_polls: None }
    }
}

/// One physical action the embedding program must perform.
#[derive(Clone, Debug, PartialEq, Eq)]
pub enum Step {
    /// Drive the reset line high.
    SetResetHigh,
    /// Drive the reset line low.
    SetResetLow,
    /// Wait the given number of milliseconds.
    DelayMs(u64),
    /// Write one opcode byte with the data/command line low.
    SendCommand(u8),
    /// Write the given bytes with the data/command line high.
    SendData(Vec<u8>),
    /// Write the byte that many times, one single-byte write per pixel
    /// pair, with the data/command line high.
    SendDataRepeated(u8, usize),
    /// Poll the busy line at the configured interval until it reads high.
    WaitWhileBusy(PollConfig),
}

/// The mathematical value of a [`Step`]: byte payloads become sequences.
#[verifier::ext_equal]
pub enum StepView {
    /// See [`Step::SetResetHigh`].
    SetResetHigh,
    /// See [`Step::SetResetLow`].
    SetResetLow,
    /// See [`Step::DelayMs`].
    DelayMs(u64),
    /// See [`Step::SendCommand`].
    SendCommand(u8),
    /// See [`Step::SendData`].
    SendData(Seq<u8>),
    /// See [`Step::SendDataRepeated`].
    SendDataRepeated(u8, usize),
    /// See [`Step::WaitWhileBusy`].
    WaitWhileBusy(PollConfig),
}

impl View for Step {
    type V = StepView;

    open spec fn view(&self) -> StepView {
        match self {
            Step::SetResetHigh => StepView::SetResetHigh,
            Step::SetResetLow => StepView::SetResetLow,
            Step::DelayMs(ms) => StepView::DelayMs(*ms),
            Step::SendCommand(op) => StepView::SendCommand(*op),
            Step::SendData(bytes) => StepView::SendData(bytes@),
            Step::SendDataRepeated(byte, count) => StepView::SendDataRepeated(*byte, *count),
            Step::WaitWhileBusy(cfg) => StepView::WaitWhileBusy(*cfg),
        }
    }
}

/// The mathematical value of a plan: the views of its steps, in order.
pub open spec fn plan_view(steps: Seq<Step>) -> Seq<StepView> {
    steps.map_values(|s: Step| s@)
}

/// Appending one step to a plan appends its view to the plan's value.
proof fn lemma_plan_view_push(steps: Seq<Step>, x: Step)
    ensures
        plan_view(steps.push(x)) == plan_view(steps).push(x@),
{
    assert(plan_view(steps.push(x)) =~= plan_view(steps).push(x@));
}

/// The commands of the panel protocol that the controller issues by name.
/// Each carries a fixed, ordered payload; the opcode values are fixed by
/// the hardware.
#[derive(Clone, Copy, Debug, PartialEq, Eq, Structural)]
pub enum Command {
    /// Unlocks the controller's command interface before register setup.
    CommandHeader,
    /// Powers the source/gate drivers on.
    PowerOn,
    /// Powers the drivers off after a refresh.
    PowerOff,
    /// Starts the display refresh from the transmitted frame.
    DisplayRefresh,
    /// Begins the data-transmission phase.
    DataTransmissionStart,
    /// Enters deep sleep; only a hardware reset leaves it.
    DeepSleep,
}

impl Command {
    /// The opcode byte of this command.
    pub open spec fn spec_opcode(self) -> u8 {
        match self {
            Command::CommandHeader => 0xAA,
            Command::PowerOn => 0x04,
            Command::PowerOff => 0x02,
            Command::DisplayRefresh => 0x12,
            Command::DataTransmissionStart => 0x10,
            Command::DeepSleep => 0x07,
        }
    }

    /// The fixed payload bytes that follow this command's opcode.
    pub open spec fn spec_payload(self) -> Seq<u8> {
        match self {
            Command::CommandHeader => seq![0x49u8, 0x55u8, 0x20u8, 0x08u8, 0x09u8, 0x18u8],
            Command::PowerOn => seq![],
            Command::PowerOff => seq![0x00u8],
            Command::DisplayRefresh => seq![0x00u8],
            Command::DataTransmissionStart => seq![],
            Command::DeepSleep => seq![0xA5u8],
        }
    }

    /// Returns the opcode byte of this command.
    pub fn opcode(self) -> (r: u8)
        ensures
            r == self.spec_opcode(),
    {
        match self {
            Command::CommandHeader => 0xAA,
            Command::PowerOn => 0x04,
            Command::PowerOff => 0x02,
            Command::DisplayRefresh => 0x12,
            Command::DataTransmissionStart => 0x10,
            Command::DeepSleep => 0x07,
        }
    }

    /// Returns the fixed payload bytes that follow this command's opcode.
    pub fn payload(self) -> (r: Vec<u8>)
        ensures
            r@ == self.spec_payload(),
    {
        let r: Vec<u8> = match self {
            Command::CommandHeader => vec![0x49, 0x55, 0x20, 0x08, 0x09, 0x18],
            Command::PowerOn => vec![],
            Command::PowerOff => vec![0x00],
            Command::DisplayRefresh => vec![0x00],
            Command::DataTransmissionStart => vec![],
            Command::DeepSleep => vec![0xA5],
        };
        assert(r@ =~= self.spec_payload());
        r
    }
}

/// The register-initialization sequence: each pair is an opcode and the
/// data bytes written after it, in the order the panel requires. The
/// values are fixed by the hardware. The first entry is the
/// [`Command::CommandHeader`] unlock.
pub open spec fn spec_init_table() -> Seq<(u8, Seq<u8>)> {
    seq![
        (0xAAu8, seq![0x49u8, 0x55u8, 0x20u8, 0x08u8, 0x09u8, 0x18u8]),
        (0x01u8, seq![0x3Fu8, 0x00u8, 0x32u8, 0x2Au8, 0x0Eu8, 0x2Au8]),
        (0x00u8, seq![0x5Fu8, 0x69u8]),
        (0x03u8, seq![0x00u8, 0x54u8, 0x00u8, 0x44u8]),
        (0x05u8, seq![0x40u8, 0x1Fu8, 0x1Fu8, 0x2Cu8]),
        (0x06u8, seq![0x6Fu8, 0x1Fu8, 0x1Fu8, 0x22u8]),
        (0x08u8, seq![0x6Fu8, 0x1Fu8, 0x1Fu8, 0x22u8]),
        (0x13u8, seq![0x00u8, 0x04u8]),
        (0x30u8, seq![0x3Cu8]),
        (0x41u8, seq![0x00u8]),
        (0x50u8, seq![0x3Fu8]),
        (0x60u8, seq![0x02u8, 0x00u8]),
        (0x61u8, seq![0x03u8, 0x20u8, 0x01u8, 0xE0u8]),
        (0x82u8, seq![0x1Eu8]),
        (0x84u8, seq![0x00u8]),
        (0x86u8, seq![0x00u8]),
        (0xE3u8, seq![0x2Fu8]),
        (0xE0u8, seq![0x00u8]),
        (0xE6u8, seq![0x00u8]),
    ]
}

/// The steps that write one table entry: the opcode, then its data bytes
/// if it has any.
pub open spec fn spec_entry_steps(entry: (u8, Seq<u8>)) -> Seq<StepView> {
    if entry.1.len() == 0 {
        seq![StepView::SendCommand(entry.0)]
    } else {
        seq![StepView::SendCommand(entry.0), StepView::SendData(entry.1)]
    }
}

/// The steps that write a whole table of register entries, in order.
pub open spec fn spec_write_steps(table: Seq<(u8, Seq<u8>)>) -> Seq<StepView>
    decreases table.len(),
{
    if table.len() == 0 {
        seq![]
    } else {
        spec_entry_steps(table[0]) + spec_write_steps(table.drop_first())
    }
}

/// The hardware reset pulse: the reset line toggled with fixed delays.
pub open spec fn spec_reset_steps() -> Seq<StepView> {
    seq![
        StepView::SetResetHigh,
        StepView::DelayMs(20),
        StepView::SetResetLow,
        StepView::DelayMs(10),
        StepView::SetResetHigh,
        StepView::DelayMs(20),
    ]
}

/// The register-initialization plan: wait for the panel to come out of
/// reset, settle, then write the whole init table.
pub open spec fn spec_init_steps(cfg: PollConfig) -> Seq<StepView> {
    seq![StepView::WaitWhileBusy(cfg), StepView::DelayMs(30)] + spec_write_steps(spec_init_table())
}

/// The refresh sub-sequence: power-on, refresh, power-off, each step
/// gated by a busy-signal wait.
pub open spec fn spec_refresh_steps(cfg: PollConfig) -> Seq<StepView> {
    seq![
        StepView::SendCommand(Command::PowerOn.spec_opcode()),
        StepView::WaitWhileBusy(cfg),
        StepView::SendCommand(Command::DisplayRefresh.spec_opcode()),
        StepView::SendData(Command::DisplayRefresh.spec_payload()),
        StepView::WaitWhileBusy(cfg),
        StepView::SendCommand(Command::PowerOff.spec_opcode()),
        StepView::SendData(Command::PowerOff.spec_payload()),
        StepView::WaitWhileBusy(cfg),
    ]
}

/// The deep-sleep plan: the sleep command, its payload, and a settle delay.
pub open spec fn spec_sleep_steps() -> Seq<StepView> {
    seq![
        StepView::SendCommand(Command::DeepSleep.spec_opcode()),
        StepView::SendData(Command::DeepSleep.spec_payload()),
        StepView::DelayMs(2000),
    ]
}

/// The full-frame display plan: begin data transmission, write the frame
/// bytes verbatim, then run the refresh sub-sequence.
pub open spec fn spec_display_steps(frame: Seq<u8>, cfg: PollConfig) -> Seq<StepView> {
    seq![
        StepView::SendCommand(Command::DataTransmissionStart.spec_opcode()),
        StepView::SendData(frame),
    ] + spec_refresh_steps(cfg)
}

/// The single-color fill plan: begin data transmission, write one packed
/// byte per pixel pair for the whole frame, then refresh.
pub open spec fn spec_clear_steps(color: Color, cfg: PollConfig) -> Seq<StepView> {
    seq![
        StepView::SendCommand(Command::DataTransmissionStart.spec_opcode()),
        StepView::SendDataRepeated(
            spec_pack(color.spec_index(), color.spec_index()),
            FRAME_SIZE,
        ),
    ] + spec_refresh_steps(cfg)
}

/// The panel's lifecycle token. The initial state is `Unpowered`; see the
/// methods of [`EPD7in3f`] for the transitions.
#[derive(Clone, Copy, Debug, PartialEq, Eq, Structural)]
pub enum PanelState {
    /// No reset pulse has been issued yet.
    Unpowered,
    /// The hardware reset pulse has been issued; registers are not set up.
    Reset,
    /// Registers are configured; the panel accepts data or commands.
    Initialized,
    /// Data transmission has begun; `sent` bytes have been handed to the
    /// panel so far.
    TransmittingData {
        /// Bytes handed to the panel since transmission began.
        sent: usize,
    },
    /// The refresh sub-sequence has been issued and not yet completed.
    Refreshing,
    /// Deep sleep; terminal until the next hardware reset.
    Sleeping,
    /// A hardware write failed partway through a plan: the physical
    /// sub-state is unknown, and only a reset leaves it.
    Faulted,
}

/// The controller for the 7.3-inch seven-color panel.
///
/// Operations return plans of [`Step`]s; the embedding program performs
/// them in order and reports failures through [`EPD7in3f::fault`].
pub struct EPD7in3f {
    state: PanelState,
    cfg: PollConfig,
}

impl EPD7in3f {
    /// The current lifecycle state.
    pub closed spec fn spec_state(&self) -> PanelState {
        self.state
    }

    /// The configured busy-line poll behavior.
    pub closed spec fn spec_config(&self) -> PollConfig {
        self.cfg
    }

    /// Creates a controller for an unpowered panel.
    pub fn new(cfg: PollConfig) -> (r: EPD7in3f)
        ensures
            r.spec_state() == PanelState::Unpowered,
            r.spec_config() == cfg,
    {
        EPD7in3f { state: PanelState::Unpowered, cfg }
    }

    /// Returns the current lifecycle state.
    pub fn state(&self) -> (s: PanelState)
        ensures
            s == self.spec_state(),
    {
        self.state
    }

    /// Hardware reset: asserts and deasserts the reset line with fixed
    /// delays. Always succeeds at this layer, from any state, and must
    /// run before [`EPD7in3f::init`].
    pub fn reset(&mut self) -> (steps: Vec<Step>)
        ensures
            final(self).spec_state() == PanelState::Reset,
            final(self).spec_config() == old(self).spec_config(),
            plan_view(steps@) == spec_reset_steps(),
    {
        self.state = PanelState::Reset;
        let mut steps: Vec<Step> = Vec::new();
        steps.push(Step::SetResetHigh);
        steps.push(Step::DelayMs(20));
        steps.push(Step::SetResetLow);
        steps.push(Step::DelayMs(10));
        steps.push(Step::SetResetHigh);
        steps.push(Step::DelayMs(20));
        assert(plan_view(steps@) =~= spec_reset_steps());
        steps
    }

    /// Issues the full fixed register-configuration sequence.
    ///
    /// If the embedding program finds that any write of the plan fails,
    /// the panel is left in an undefined sub-state: it must report
    /// [`EPD7in3f::fault`] and reset before retrying.
    pub fn init(&mut self) -> (steps: Vec<Step>)
        requires
            old(self).spec_state() == PanelState::Reset,
        ensures
            final(self).spec_state() == PanelState::Initialized,
            final(self).spec_config() == old(self).spec_config(),
            plan_view(steps@) == spec_init_steps(old(self).spec_config()),
    {
        self.state = PanelState::Initialized;
        let table = init_table();
        let mut steps: Vec<Step> = Vec::new();
        steps.push(Step::WaitWhileBusy(self.cfg));
        steps.push(Step::DelayMs(30));
        assert(plan_view(steps@) =~= seq![
            StepView::WaitWhileBusy(self.cfg),
            StepView::DelayMs(30),
        ]);
        let ghost prefix = plan_view(steps@);
        let mut i: usize = 0;
        while i < table.len()
            invariant
                table@.len() == spec_init_table().len(),
                forall|k: int|
                    0 <= k < table@.len() ==> #[trigger] table@[k].0 == spec_init_table()[k].0
                        && table@[k].1@ == spec_init_table()[k].1,
                0 <= i <= table@.len(),
                plan_view(steps@) =~= prefix + spec_write_steps(spec_init_table().take(i as int)),
            decreases table@.len() - i,
        {
            let entry_op = table[i].0;
            let payload = &table[i].1;
            let cmd_step = Step::SendCommand(entry_op);
            let ghost pre0 = steps@;
            let ghost cmd_val = cmd_step;
            steps.push(cmd_step);
            proof {
                lemma_plan_view_push(pre0, cmd_val);
            }
            if payload.len() > 0 {
                let data = copy_bytes(payload);
                let data_step = Step::SendData(data);
                let ghost pre1 = steps@;
                let ghost data_val = data_step;
                steps.push(data_step);
                proof {
                    lemma_plan_view_push(pre1, data_val);
                }
            }
            proof {
                let t = spec_init_table();
                assert(t.take(i + 1).drop_last() =~= t.take(i as int));
                assert(t.take(i + 1).last() == t[i as int]);
                lemma_write_steps_snoc(t.take(i + 1));
                assert(spec_write_steps(t.take(i + 1)) == spec_write_steps(t.take(i as int))
                    + spec_entry_steps(t[i as int]));
                assert(table@[i as int].0 == t[i as int].0 && table@[i as int].1@
                    == t[i as int].1);
                assert(plan_view(steps@) =~= prefix + spec_write_steps(t.take(i + 1)));
            }
            i = i + 1;
        }
        proof {
            assert(spec_init_table().take(spec_init_table().len() as int) =~= spec_init_table());
            assert(plan_view(steps@) =~= spec_init_steps(old(self).spec_config()));
        }
        steps
    }

    /// Begins the data-transmission phase.
    pub fn begin_data_transmission(&mut self) -> (steps: Vec<Step>)
        requires
            old(self).spec_state() == PanelState::Initialized,
        ensures
            final(self).spec_state() == (PanelState::TransmittingData { sent: 0 }),
            final(self).spec_config() == old(self).spec_config(),
            plan_view(steps@) == seq![
                StepView::SendCommand(Command::DataTransmissionStart.spec_opcode()),
            ],
    {
        self.state = PanelState::TransmittingData { sent: 0 };
        let mut steps: Vec<Step> = Vec::new();
        steps.push(Step::SendCommand(Command::DataTransmissionStart.opcode()));
        assert(plan_view(steps@) =~= seq![
            StepView::SendCommand(Command::DataTransmissionStart.spec_opcode()),
        ]);
        steps
    }

    /// Hands one chunk of frame bytes to the panel, verbatim.
    pub fn transmit(&mut self, data: &Vec<u8>) -> (steps: Vec<Step>)
        requires
            old(self).spec_state() matches PanelState::TransmittingData { sent } && sent
                + data@.len() <= FRAME_SIZE,
        ensures
            final(self).spec_state() == (PanelState::TransmittingData {
                sent: (old(self).spec_state()->sent + data@.len()) as usize,
            }),
            final(self).spec_config() == old(self).spec_config(),
            plan_view(steps@) == seq![StepView::SendData(data@)],
    {
        let sent = match self.state {
            PanelState::TransmittingData { sent } => sent,
            _ => 0,
        };
        self.state = PanelState::TransmittingData { sent: sent + data.len() };
        let mut steps: Vec<Step> = Vec::new();
        let chunk = copy_bytes(data);
        steps.push(Step::SendData(chunk));
        assert(plan_view(steps@) =~= seq![StepView::SendData(data@)]);
        steps
    }

    /// Runs the refresh sub-sequence: power-on, display-refresh,
    /// power-off, each gated by a busy-signal wait. Allowed once the
    /// panel is initialized, or once a transmission has delivered the
    /// whole frame. The embedding program reports completion through
    /// [`EPD7in3f::refresh_complete`].
    pub fn turn_on_display(&mut self) -> (steps: Vec<Step>)
        requires
            old(self).spec_state() == PanelState::Initialized || old(self).spec_state() == (
            PanelState::TransmittingData { sent: FRAME_SIZE }),
        ensures
            final(self).spec_state() == PanelState::Refreshing,
            final(self).spec_config() == old(self).spec_config(),
            plan_view(steps@) == spec_refresh_steps(old(self).spec_config()),
    {
        self.state = PanelState::Refreshing;
        let steps = refresh_steps(self.cfg);
        steps
    }

    /// Marks the refresh sub-sequence as completed without error.
    pub fn refresh_complete(&mut self)
        requires
            old(self).spec_state() == PanelState::Refreshing,
        ensures
            final(self).spec_state() == PanelState::Initialized,
            final(self).spec_config() == old(self).spec_config(),
    {
        self.state = PanelState::Initialized;
    }

    /// Records that a write of the current plan failed: the panel is in
    /// an undefined sub-state and must be reset before reuse.
    pub fn fault(&mut self)
        ensures
            final(self).spec_state() == PanelState::Faulted,
            final(self).spec_config() == old(self).spec_config(),
    {
        self.state = PanelState::Faulted;
    }

    /// Displays a full frame: fails with [`SizeError::BufferTooSmall`],
    /// emitting no step, if the buffer holds fewer than `FRAME_SIZE`
    /// bytes; otherwise begins data transmission, writes the buffer
    /// verbatim, and runs the refresh sub-sequence.
    pub fn display(&mut self, buffer: &Vec<u8>) -> (r: Result<Vec<Step>, Error>)
        requires
            old(self).spec_state() == PanelState::Initialized,
        ensures
            r is Err <==> buffer@.len() < FRAME_SIZE,
            r is Err ==> r == Err::<Vec<Step>, Error>(Error::Size(SizeError::BufferTooSmall))
                && *final(self) == *old(self),
            r matches Ok(steps) ==> plan_view(steps@) == spec_display_steps(
                buffer@,
                old(self).spec_config(),
            ) && final(self).spec_state() == PanelState::Refreshing && final(self).spec_config()
                == old(self).spec_config(),
    {
        if buffer.len() < FRAME_SIZE {
            return Err(Error::Size(SizeError::BufferTooSmall));
        }
        self.state = PanelState::Refreshing;
        let mut steps: Vec<Step> = Vec::new();
        steps.push(Step::SendCommand(Command::DataTransmissionStart.opcode()));
        steps.push(Step::SendData(copy_bytes(buffer)));
        let tail = refresh_steps(self.cfg);
        let ghost head = plan_view(steps@);
        append_steps(&mut steps, tail);
        proof {
            assert(head =~= seq![
                StepView::SendCommand(Command::DataTransmissionStart.spec_opcode()),
                StepView::SendData(buffer@),
            ]);
            assert(plan_view(steps@) =~= spec_display_steps(buffer@, self.cfg));
        }
        Ok(steps)
    }

    /// Validates a whole container and displays its payload.
    ///
    /// The checks run in order: buffer long enough for the header, then
    /// the header checks of [`parse_header`], then payload length. On any
    /// failure no step is emitted and the state is unchanged.
    pub fn display_epd(&mut self, data: &Vec<u8>) -> (r: Result<Vec<Step>, Error>)
        requires
            old(self).spec_state() == PanelState::Initialized,
        ensures
            r is Err ==> *final(self) == *old(self),
            data@.len() < HEADER_SIZE ==> r == Err::<Vec<Step>, Error>(
                Error::Size(SizeError::BufferTooSmall),
            ),
            data@.len() >= HEADER_SIZE && !spec_magic_ok(data@) ==> r == Err::<Vec<Step>, Error>(
                Error::Format(FormatError::InvalidMagic),
            ),
            data@.len() >= HEADER_SIZE && spec_magic_ok(data@) && !spec_version_ok(data@) ==> r
                == Err::<Vec<Step>, Error>(Error::Format(FormatError::InvalidVersion)),
            data@.len() >= HEADER_SIZE && spec_magic_ok(data@) && spec_version_ok(data@)
                && !spec_header_ok(data@) ==> r == Err::<Vec<Step>, Error>(
                Error::Format(FormatError::InvalidDimensions),
            ),
            data@.len() >= HEADER_SIZE && spec_header_ok(data@) && data@.len() - HEADER_SIZE
                < FRAME_SIZE ==> r == Err::<Vec<Step>, Error>(Error::Size(SizeError::BufferTooSmall)),
            r is Ok <==> data@.len() >= HEADER_SIZE + FRAME_SIZE && spec_header_ok(data@),
            r matches Ok(steps) ==> plan_view(steps@) == spec_display_steps(
                data@.skip(HEADER_SIZE as int),
                old(self).spec_config(),
            ) && final(self).spec_state() == PanelState::Refreshing && final(self).spec_config()
                == old(self).spec_config(),
    {
        if data.len() < HEADER_SIZE {
            return Err(Error::Size(SizeError::BufferTooSmall));
        }
        let info = match parse_header(data.as_slice()) {
            Ok(info) => info,
            Err(e) => {
                return Err(e);
            },
        };
        let payload_len = data.len() - HEADER_SIZE;
        if payload_len < info.payload_len {
            return Err(Error::Size(SizeError::BufferTooSmall));
        }
        let payload = vstd::slice::slice_to_vec(
            vstd::slice::slice_subrange(data.as_slice(), HEADER_SIZE, data.len()),
        );
        self.display(&payload)
    }

    /// Fills the whole panel with one color: begins data transmission,
    /// writes the packed byte once per pixel pair, and runs the refresh
    /// sub-sequence.
    pub fn clear(&mut self, color: Color) -> (steps: Vec<Step>)
        requires
            old(self).spec_state() == PanelState::Initialized,
        ensures
            final(self).spec_state() == PanelState::Refreshing,
            final(self).spec_config() == old(self).spec_config(),
            plan_view(steps@) == spec_clear_steps(color, old(self).spec_config()),
    {
        let idx = color.to_byte();
        let color_byte = pack_indices(idx, idx);
        self.state = PanelState::Refreshing;
        let mut steps: Vec<Step> = Vec::new();
        steps.push(Step::SendCommand(Command::DataTransmissionStart.opcode()));
        steps.push(Step::SendDataRepeated(color_byte, FRAME_SIZE));
        let tail = refresh_steps(self.cfg);
        let ghost head = plan_view(steps@);
        append_steps(&mut steps, tail);
        proof {
            assert(head =~= seq![
                StepView::SendCommand(Command::DataTransmissionStart.spec_opcode()),
                StepView::SendDataRepeated(
                    spec_pack(color.spec_index(), color.spec_index()),
                    FRAME_SIZE,
                ),
            ]);
            assert(plan_view(steps@) =~= spec_clear_steps(color, self.cfg));
        }
        steps
    }

    /// Issues the deep-sleep command and its settle delay. Terminal until
    /// the next hardware reset.
    pub fn sleep(&mut self) -> (steps: Vec<Step>)
        requires
            old(self).spec_state() == PanelState::Initialized,
        ensures
            final(self).spec_state() == PanelState::Sleeping,
            final(self).spec_config() == old(self).spec_config(),
            plan_view(steps@) == spec_sleep_steps(),
    {
        self.state = PanelState::Sleeping;
        let mut steps: Vec<Step> = Vec::new();
        steps.push(Step::SendCommand(Command::DeepSleep.opcode()));
        steps.push(Step::SendData(Command::DeepSleep.payload()));
        steps.push(Step::DelayMs(2000));
        assert(plan_view(steps@) =~= spec_sleep_steps());
        steps
    }
}

/// Returns the register-initialization table as data, so the init
/// sequence can be inspected and tested independently of the controller.
pub fn init_table() -> (r: Vec<(u8, Vec<u8>)>)
    ensures
        r@.len() == spec_init_table().len(),
        forall|k: int|
            0 <= k < r@.len() ==> #[trigger] r@[k].0 == spec_init_table()[k].0 && r@[k].1@
                == spec_init_table()[k].1,
{
    let mut r: Vec<(u8, Vec<u8>)> = Vec::new();
    r.push((0xAA, vec![0x49, 0x55, 0x20, 0x08, 0x09, 0x18]));
    r.push((0x01, vec![0x3F, 0x00, 0x32, 0x2A, 0x0E, 0x2A]));
    r.push((0x00, vec![0x5F, 0x69]));
    r.push((0x03, vec![0x00, 0x54, 0x00, 0x44]));
    r.push((0x05, vec![0x40, 0x1F, 0x1F, 0x2C]));
    r.push((0x06, vec![0x6F, 0x1F, 0x1F, 0x22]));
    r.push((0x08, vec![0x6F, 0x1F, 0x1F, 0x22]));
    r.push((0x13, vec![0x00, 0x04]));
    r.push((0x30, vec![0x3C]));
    r.push((0x41, vec![0x00]));
    r.push((0x50, vec![0x3F]));
    r.push((0x60, vec![0x02, 0x00]));
    r.push((0x61, vec![0x03, 0x20, 0x01, 0xE0]));
    r.push((0x82, vec![0x1E]));
    r.push((0x84, vec![0x00]));
    r.push((0x86, vec![0x00]));
    r.push((0xE3, vec![0x2F]));
    r.push((0xE0, vec![0x00]));
    r.push((0xE6, vec![0x00]));
    proof {
        assert forall|k: int| 0 <= k < r@.len() implies #[trigger] r@[k].0
            == spec_init_table()[k].0 && r@[k].1@ == spec_init_table()[k].1 by {
            assert(r@[k].1@ =~= spec_init_table()[k].1);
        }
    }
    r
}

proof fn lemma_write_steps_snoc(table: Seq<(u8, Seq<u8>)>)
    requires
        table.len() > 0,
    ensures
        spec_write_steps(table) == spec_write_steps(table.drop_last()) + spec_entry_steps(
            table.last(),
        ),
    decreases table.len(),
{
    if table.len() == 1 {
        assert(table.drop_last() =~= Seq::<(u8, Seq<u8>)>::empty());
        assert(table.drop_first() =~= Seq::<(u8, Seq<u8>)>::empty());
        assert(spec_write_steps(table) =~= spec_write_steps(table.drop_last()) + spec_entry_steps(
            table.last(),
        ));
    } else {
        lemma_write_steps_snoc(table.drop_first());
        assert(table.drop_first().drop_last() =~= table.drop_last().drop_first());
        assert(table.drop_first().last() == table.last());
        assert(table.drop_last()[0] == table[0]);
        assert(spec_write_steps(table) =~= spec_write_steps(table.drop_last()) + spec_entry_steps(
            table.last(),
        ));
    }
}

/// Copies a byte buffer so a plan can own its payload.
fn copy_bytes(data: &Vec<u8>) -> (r: Vec<u8>)
    ensures
        r@ == data@,
{
    vstd::slice::slice_to_vec(data.as_slice())
}

/// Builds the refresh sub-sequence plan.
fn refresh_steps(cfg: PollConfig) -> (steps: Vec<Step>)
    ensures
        plan_view(steps@) == spec_refresh_steps(cfg),
{
    let mut steps: Vec<Step> = Vec::new();
    steps.push(Step::SendCommand(Command::PowerOn.opcode()));
    steps.push(Step::WaitWhileBusy(cfg));
    steps.push(Step::SendCommand(Command::DisplayRefresh.opcode()));
    steps.push(Step::SendData(Command::DisplayRefresh.payload()));
    steps.push(Step::WaitWhileBusy(cfg));
    steps.push(Step::SendCommand(Command::PowerOff.opcode()));
    steps.push(Step::SendData(Command::PowerOff.payload()));
    steps.push(Step::WaitWhileBusy(cfg));
    assert(plan_view(steps@) =~= spec_refresh_steps(cfg));
    steps
}

/// Appends every step of `tail` to `steps`, in order.
pub(crate) fn append_steps(steps: &mut Vec<Step>, tail: Vec<Step>)
    ensures
        plan_view(final(steps)@) == plan_view(old(steps)@) + plan_view(tail@),
{
    let ghost orig = steps@;
    let ghost tail_orig = tail@;
    let mut i: usize = 0;
    let n = tail.len();
    while i < n
        invariant
            n == tail_orig.len(),
            tail@ == tail_orig,
            0 <= i <= n,
            plan_view(steps@) =~= plan_view(orig) + plan_view(tail_orig).take(i as int),
        decreases n - i,
    {
        let s = clone_step(&tail[i]);
        let ghost pre = steps@;
        let ghost sval = s;
        steps.push(s);
        proof {
            lemma_plan_view_push(pre, sval);
            assert(plan_view(steps@) == plan_view(pre).push(sval@));
            assert(plan_view(steps@) =~= plan_view(orig) + plan_view(tail_orig).take(i + 1));
        }
        i = i + 1;
    }
    proof {
        assert(plan_view(tail_orig).take(n as int) =~= plan_view(tail_orig));
        assert(plan_view(steps@) =~= plan_view(orig) + plan_view(tail_orig));
    }
}

/// Copies one step, payload included.
fn clone_step(s: &Step) -> (r: Step)
    ensures
        r@ == s@,
{
    match s {
        Step::SetResetHigh => Step::SetResetHigh,
        Step::SetResetLow => Step::SetResetLow,
        Step::DelayMs(ms) => Step::DelayMs(*ms),
        Step::SendCommand(op) => Step::SendCommand(*op),
        Step::SendData(bytes) => Step::SendData(copy_bytes(bytes)),
        Step::SendDataRepeated(byte, count) => Step::SendDataRepeated(*byte, *count),
        Step::WaitWhileBusy(cfg) => Step::WaitWhileBusy(*cfg),
    }
}

} // verus!
