//! Display driver: the IO-expander shadow registers, the bit-banged 9-bit
//! transport to the panel controller, the controller's bring-up program,
//! the software framebuffer and the blit request.
//!
//! Nothing here touches hardware. Every routine appends the line-level
//! operations it stands for to a list; whoever owns the pins and the bus
//! carries them out in order and stops at the first one that fails.

use vstd::prelude::*;

verus! {

/// Horizontal resolution of the panel, in pixels.
pub const DISP_HOR_RES: u16 = 480;

/// Vertical resolution of the panel, in pixels.
pub const DISP_VER_RES: u16 = 480;

/// Number of pixels of a full frame.
pub const FRAME_PIXELS: usize = 230_400;

/// Bus address of the IO expander.
pub const TCA9535_I2C_ADDR: u8 = 0x39;

/// Expander register: input port (read).
pub const TCA9535_INPUT_PORT_REG: u8 = 0x00;

/// Expander register: output port (write).
pub const TCA9535_OUTPUT_PORT_REG: u8 = 0x02;

/// Expander register: configuration, one bit per pin, 1 = input.
pub const TCA9535_CONFIGURATION_REG: u8 = 0x06;

/// Expander pin wired to the panel's chip select.
pub const EXPANDER_IO_LCD_CS: u8 = 4;

/// Expander pin wired to the panel's reset line.
pub const EXPANDER_IO_LCD_RESET: u8 = 5;

/// Bit of the expander's low output byte that drives chip select.
pub const CS_MASK: u8 = 0x10;

/// Bit of the expander's low output byte that drives the reset line.
pub const RESET_MASK: u8 = 0x20;

/// Per-transaction bus timeout, in scheduler ticks.
pub const BUS_TIMEOUT_TICKS: u32 = 100;

/// Half period of the bit-banged clock, in microseconds.
pub const SPI_HALF_PERIOD_US: u32 = 10;

/// Length of the reset pulse, in milliseconds.
pub const RESET_PULSE_MS: u32 = 10;

/// Time the panel is given to boot after reset, in milliseconds.
pub const PANEL_BOOT_MS: u32 = 100;

/// The status with which a panel call reports success.
pub const ESP_OK: i32 = 0;

/// Pin of the serial clock of the bit-banged transport.
pub const SPI_GPIO_CLK: i32 = 41;

/// Pin of the serial data line of the bit-banged transport.
pub const SPI_GPIO_MOSI: i32 = 48;

/// Pin of the backlight enable line.
pub const BACKLIGHT_GPIO: i32 = 45;

/// Pixel clock of the panel, in hertz.
pub const LCD_FREQ: u32 = 16_000_000;

/// Pin of the vertical sync signal.
pub const LCD_GPIO_VSYNC: i32 = 17;

/// Pin of the horizontal sync signal.
pub const LCD_GPIO_HSYNC: i32 = 16;

/// Pin of the data enable signal.
pub const LCD_GPIO_DE: i32 = 18;

/// Pin of the pixel clock.
pub const LCD_GPIO_PCLK: i32 = 21;

/// Pins of the sixteen data lines, line 0 first.
pub const LCD_GPIO_DATA: [i32; 16] = [15, 14, 13, 12, 11, 10, 9, 8, 7, 6, 5, 4, 3, 2, 1, 0];

/// Stands for a signal that has no pin.
pub const NO_GPIO: i32 = -1;

/// How a transaction on the register bus can fail.
#[derive(Clone, Copy, Debug, PartialEq, Eq, Structural)]
pub enum BusFault {
    /// The peripheral did not answer in time.
    Timeout,
    /// The peripheral did not acknowledge.
    Nack,
}

/// Errors of the display path and of the bus beneath it.
#[derive(Clone, Copy, Debug, PartialEq, Eq, Structural)]
pub enum DisplayError {
    /// A bus peripheral did not answer in time.
    BusTimeout,
    /// A bus peripheral did not acknowledge.
    BusNack,
    /// The panel rejected a transfer.
    TransferError,
    /// The panel or the framebuffer is not ready yet.
    NotInitialized,
    /// A call that starts the scan-out engine reported the given status.
    PanelCallFailed { call: PanelCall, status: i32 },
}

/// The error that a fault of the bus amounts to.
pub open spec fn bus_error(fault: BusFault) -> DisplayError {
    match fault {
        BusFault::Timeout => DisplayError::BusTimeout,
        BusFault::Nack => DisplayError::BusNack,
    }
}

/// One line-level operation of the panel bring-up.
#[derive(Clone, Copy, Debug, PartialEq, Eq, Structural)]
pub enum PanelOp {
    /// Read two bytes from an expander register.
    ExpanderRead { register: u8 },
    /// Write a 16-bit value, low byte first, to an expander register.
    ExpanderWrite { register: u8, low: u8, high: u8 },
    /// Drive the serial clock line.
    SetClock(bool),
    /// Drive the serial data line.
    SetData(bool),
    /// Drive the backlight enable line.
    SetBacklight(bool),
    /// Busy-wait for the given number of microseconds.
    DelayMicros(u32),
    /// Sleep for the given number of milliseconds.
    DelayMillis(u32),
}

/// `word` with bit `pin` forced to `level`.
pub open spec fn with_bit(word: u16, pin: u8, level: bool) -> u16 {
    if level {
        word | (1u16 << pin)
    } else {
        word & !(1u16 << pin)
    }
}

/// Forcing a bit of a word gives that bit the level asked for and leaves
/// every other bit as it was.
pub proof fn lemma_with_bit(word: u16, pin: u8, level: bool, other: u8)
    requires
        pin < 16,
        other < 16,
    ensures
        (with_bit(word, pin, level) & (1u16 << pin) != 0) == level,
        other != pin ==> (with_bit(word, pin, level) & (1u16 << other)) == (word & (1u16 << other)),
{
    assert((word | (1u16 << pin)) & (1u16 << pin) != 0) by (bit_vector)
        requires
            pin < 16,
    ;
    assert((word & !(1u16 << pin)) & (1u16 << pin) == 0) by (bit_vector)
        requires
            pin < 16,
    ;
    assert(other != pin ==> ((word | (1u16 << pin)) & (1u16 << other)) == (word & (1u16 << other)))
        by (bit_vector)
        requires
            pin < 16,
            other < 16,
    ;
    assert(other != pin ==> ((word & !(1u16 << pin)) & (1u16 << other)) == (word & (1u16
        << other))) by (bit_vector)
        requires
            pin < 16,
            other < 16,
    ;
}

/// Setting a pin that was just cleared, or clearing one that was just set,
/// gives the same word as doing so from the start.
pub proof fn lemma_with_bit_twice(word: u16, pin: u8, first: bool, second: bool)
    requires
        pin < 16,
    ensures
        with_bit(with_bit(word, pin, first), pin, second) == with_bit(word, pin, second),
{
    assert((word | (1u16 << pin)) | (1u16 << pin) == word | (1u16 << pin)) by (bit_vector)
        requires
            pin < 16,
    ;
    assert((word & !(1u16 << pin)) | (1u16 << pin) == word | (1u16 << pin)) by (bit_vector)
        requires
            pin < 16,
    ;
    assert((word | (1u16 << pin)) & !(1u16 << pin) == word & !(1u16 << pin)) by (bit_vector)
        requires
            pin < 16,
    ;
    assert((word & !(1u16 << pin)) & !(1u16 << pin) == word & !(1u16 << pin)) by (bit_vector)
        requires
            pin < 16,
    ;
}

/// The register write that stores `data` in expander register `register`.
pub open spec fn expander_write(register: u8, data: u16) -> PanelOp {
    PanelOp::ExpanderWrite { register, low: (data & 0xFF) as u8, high: ((data >> 8) & 0xFF) as u8 }
}

/// The write that puts `output` on the expander's output port.
pub open spec fn output_write(output: u16) -> PanelOp {
    expander_write(TCA9535_OUTPUT_PORT_REG, output)
}

/// The expander output word with chip select asserted (low).
pub open spec fn cs_low(output: u16) -> u16 {
    with_bit(output, EXPANDER_IO_LCD_CS, false)
}

/// The expander output word with chip select released (high).
pub open spec fn cs_high(output: u16) -> u16 {
    with_bit(output, EXPANDER_IO_LCD_CS, true)
}

/// The expander output word with the panel's reset line released (high).
pub open spec fn reset_released(output: u16) -> u16 {
    with_bit(output, EXPANDER_IO_LCD_RESET, true)
}

/// The configuration word after chip select and reset were made outputs.
pub open spec fn outputs_enabled(config: u16) -> u16 {
    with_bit(with_bit(config, EXPANDER_IO_LCD_CS, false), EXPANDER_IO_LCD_RESET, false)
}

/// The output word with chip select and reset both high.
pub open spec fn outputs_idle(output: u16) -> u16 {
    with_bit(with_bit(output, EXPANDER_IO_LCD_CS, true), EXPANDER_IO_LCD_RESET, true)
}

/// Operations of the expander set-up: a probe read, then the configuration
/// and the output port.
pub open spec fn expander_init_ops(config: u16, output: u16) -> Seq<PanelOp> {
    seq![
        PanelOp::ExpanderRead { register: TCA9535_INPUT_PORT_REG },
        expander_write(TCA9535_CONFIGURATION_REG, outputs_enabled(config)),
        output_write(outputs_idle(output)),
    ]
}

/// The register write that stores `data` in expander register `reg`.
pub fn tca9535_write_reg(reg: u8, data: u16) -> (op: PanelOp)
    ensures
        op == expander_write(reg, data),
{
    PanelOp::ExpanderWrite { register: reg, low: (data & 0xFF) as u8, high: ((data >> 8) & 0xFF) as u8 }
}

/// Marks a word on the wire as a data byte rather than a command byte.
pub const DATA_MARKER: u16 = 0x0100;

/// Whether the `k`-th bit on the wire is high when `data` is clocked out:
/// bit 8 goes first, bit 0 last.
pub open spec fn wire_bit(data: u16, k: int) -> bool {
    data & (0x0100u16 >> (k as u16)) != 0
}

/// The `i`-th operation of clocking out a 9-bit word: for each bit the data
/// line is set first, then the clock goes high and low again, each edge
/// followed by one half period.
pub open spec fn send_op(data: u16, i: int) -> PanelOp {
    if i % 5 == 0 {
        PanelOp::SetData(wire_bit(data, i / 5))
    } else if i % 5 == 1 {
        PanelOp::SetClock(true)
    } else if i % 5 == 3 {
        PanelOp::SetClock(false)
    } else {
        PanelOp::DelayMicros(SPI_HALF_PERIOD_US)
    }
}

/// The operations that clock out the low 9 bits of `data`, most significant
/// bit first.
pub open spec fn send_ops(data: u16) -> Seq<PanelOp> {
    Seq::new(45, |i: int| send_op(data, i))
}

/// Appends the operations that clock out the low 9 bits of `data`.
pub fn spi_send_data(data: u16, ops: &mut Vec<PanelOp>)
    ensures
        final(ops)@ == old(ops)@ + send_ops(data),
{
    let mut k: u16 = 0;
    while k < 9
        invariant
            k <= 9,
            ops@ == old(ops)@ + Seq::new(5 * k as nat, |i: int| send_op(data, i)),
        decreases 9 - k,
    {
        let level = data & (0x0100u16 >> k) != 0;
        ops.push(PanelOp::SetData(level));
        ops.push(PanelOp::SetClock(true));
        ops.push(PanelOp::DelayMicros(SPI_HALF_PERIOD_US));
        ops.push(PanelOp::SetClock(false));
        ops.push(PanelOp::DelayMicros(SPI_HALF_PERIOD_US));
        k = k + 1;
    }
}

/// A pause of one half period.
pub open spec fn half_period() -> PanelOp {
    PanelOp::DelayMicros(SPI_HALF_PERIOD_US)
}

/// Operations that open a transfer unit: chip select goes low and the clock
/// is parked low.
pub open spec fn select_ops(output: u16) -> Seq<PanelOp> {
    seq![output_write(cs_low(output)), half_period(), PanelOp::SetClock(false), half_period()]
}

/// Operations of one data write: chip select low, the byte clocked out behind
/// a set marker bit, one trailing clock pulse, chip select high.
pub open spec fn write_data_ops(output: u16, data: u16) -> Seq<PanelOp> {
    select_ops(output) + send_ops((data & 0x00FF) | DATA_MARKER) + seq![
        PanelOp::SetClock(true),
        half_period(),
        PanelOp::SetClock(false),
        half_period(),
        output_write(cs_high(output)),
        half_period(),
    ]
}

/// Operations of one command write: the high byte and the low byte of
/// `command` go out as two units, each behind a clear marker bit, with chip
/// select pulsed high between them.
pub open spec fn write_comm_ops(output: u16, command: u16) -> Seq<PanelOp> {
    select_ops(output) + send_ops(((command >> 8) & 0x00FF) | 0x2000) + seq![
        PanelOp::SetClock(true),
        half_period(),
        PanelOp::SetClock(false),
        output_write(cs_high(output)),
        half_period(),
        output_write(cs_low(output)),
        half_period(),
    ] + send_ops(command & 0x00FF) + seq![output_write(cs_high(output)), half_period()]
}

/// Marks a word of the bring-up program as a pause; its low bits are the
/// length of the pause in milliseconds.
pub const PROGRAM_DELAY_FLAG: u16 = 0x8000;

/// Number of words in the bring-up program.
pub const PROGRAM_LEN: usize = 208;

/// The controller's bring-up program. A word below `0x0100` is a command
/// byte, a word with [`DATA_MARKER`] set is a parameter byte of the command
/// before it, and a word with [`PROGRAM_DELAY_FLAG`] set is a pause. The
/// bytes are the vendor's and are sent exactly as they stand here.
pub const ST7701S_PROGRAM: [u16; 208] = [
    0x00FF, 0x0177, 0x0101, 0x0100, 0x0100, 0x0110,
    0x00C0, 0x013B, 0x0100,
    0x00C1, 0x010D, 0x0102,
    0x00C2, 0x0131, 0x0105,
    0x00C7, 0x0104,
    0x00CD, 0x0108,
    0x00B0, 0x0100, 0x0111, 0x0118, 0x010E, 0x0111, 0x0106, 0x0107,
    0x0108, 0x0107, 0x0122, 0x0104, 0x0112, 0x010F, 0x01AA, 0x0131,
    0x0118,
    0x00B1, 0x0100, 0x0111, 0x0119, 0x010E, 0x0112, 0x0107, 0x0108,
    0x0108, 0x0108, 0x0122, 0x0104, 0x0111, 0x0111, 0x01A9, 0x0132,
    0x0118,
    0x00FF, 0x0177, 0x0101, 0x0100, 0x0100, 0x0111,
    0x00B0, 0x0160,
    0x00B1, 0x0132,
    0x00B2, 0x0107,
    0x00B3, 0x0180,
    0x00B5, 0x0149,
    0x00B7, 0x0185,
    0x00B8, 0x0121,
    0x00C1, 0x0178,
    0x00C2, 0x0178,
    0x8014,
    0x00E0, 0x0100, 0x011B, 0x0102,
    0x00E1, 0x0108, 0x01A0, 0x0100, 0x0100, 0x0107, 0x01A0, 0x0100,
    0x0100, 0x0100, 0x0144, 0x0144,
    0x00E2, 0x0111, 0x0111, 0x0144, 0x0144, 0x01ED, 0x01A0, 0x0100,
    0x0100, 0x01EC, 0x01A0, 0x0100, 0x0100,
    0x00E3, 0x0100, 0x0100, 0x0111, 0x0111,
    0x00E4, 0x0144, 0x0144,
    0x00E5, 0x010A, 0x01E9, 0x01D8, 0x01A0, 0x010C, 0x01EB, 0x01D8,
    0x01A0, 0x010E, 0x01ED, 0x01D8, 0x01A0, 0x0110, 0x01EF, 0x01D8,
    0x01A0,
    0x00E6, 0x0100, 0x0100, 0x0111, 0x0111,
    0x00E7, 0x0144, 0x0144,
    0x00E8, 0x0109, 0x01E8, 0x01D8, 0x01A0, 0x010B, 0x01EA, 0x01D8,
    0x01A0, 0x010D, 0x01EC, 0x01D8, 0x01A0, 0x010F, 0x01EE, 0x01D8,
    0x01A0,
    0x00EB, 0x0102, 0x0100, 0x01E4, 0x01E4, 0x0188, 0x0100, 0x0140,
    0x00EC, 0x013C, 0x0100,
    0x00ED, 0x01AB, 0x0189, 0x0176, 0x0154, 0x0102, 0x01FF, 0x01FF,
    0x01FF, 0x01FF, 0x01FF, 0x01FF, 0x0120, 0x0145, 0x0167, 0x0198,
    0x01BA,
    0x0036, 0x0110,
    0x00FF, 0x0177, 0x0101, 0x0100, 0x0100, 0x0113,
    0x00E5, 0x01E4,
    0x00FF, 0x0177, 0x0101, 0x0100, 0x0100, 0x0100,
    0x003A, 0x0160,
    0x0021,
    0x0011,
    0x8078,
    0x0029,
    0x8078,
];

/// Operations of one word of the bring-up program: a pause, a data write or
/// a command write.
pub open spec fn step_ops(output: u16, word: u16) -> Seq<PanelOp> {
    if word & PROGRAM_DELAY_FLAG != 0 {
        seq![PanelOp::DelayMillis((word & 0x7FFF) as u32)]
    } else if word & DATA_MARKER != 0 {
        write_data_ops(output, word)
    } else {
        write_comm_ops(output, word)
    }
}

/// Operations of the first `n` words of the bring-up program, in order.
pub open spec fn program_ops(output: u16, n: nat) -> Seq<PanelOp>
    decreases n,
{
    if n == 0 {
        Seq::empty()
    } else {
        program_ops(output, (n - 1) as nat) + step_ops(output, ST7701S_PROGRAM[n - 1])
    }
}

/// Operations of the reset pulse: reset low for 10 ms, then high, then
/// 100 ms for the panel to boot.
pub open spec fn reset_ops(output: u16) -> Seq<PanelOp> {
    seq![
        output_write(with_bit(output, EXPANDER_IO_LCD_RESET, false)),
        PanelOp::DelayMillis(RESET_PULSE_MS),
        output_write(reset_released(output)),
        PanelOp::DelayMillis(PANEL_BOOT_MS),
    ]
}

/// Operations that park the lines after the program: chip select, clock and
/// data all high.
pub open spec fn park_ops(output: u16) -> Seq<PanelOp> {
    seq![output_write(cs_high(output)), PanelOp::SetClock(true), PanelOp::SetData(true)]
}

/// The whole controller bring-up: reset pulse, every word of the program,
/// lines parked.
pub open spec fn init_sequence_ops(output: u16) -> Seq<PanelOp> {
    reset_ops(output) + program_ops(reset_released(output), PROGRAM_LEN as nat) + park_ops(
        reset_released(output),
    )
}

/// Mathematical model of a [`PanelState`].
pub struct PanelStateView {
    pub reset: bool,
    pub chip_select: bool,
    pub clock: bool,
    pub data: bool,
    pub backlight: bool,
    /// Number of bring-up operations that have been carried out.
    pub cursor: nat,
    /// The error that ended the bring-up, if one did.
    pub failure: Option<DisplayError>,
}

/// The levels after operation `op` was carried out.
pub open spec fn levels_after(state: PanelStateView, op: PanelOp) -> PanelStateView {
    match op {
        PanelOp::ExpanderWrite { register, low, high } => if register
            == TCA9535_OUTPUT_PORT_REG {
            PanelStateView {
                chip_select: low & CS_MASK != 0,
                reset: low & RESET_MASK != 0,
                ..state
            }
        } else {
            state
        },
        PanelOp::SetClock(level) => PanelStateView { clock: level, ..state },
        PanelOp::SetData(level) => PanelStateView { data: level, ..state },
        PanelOp::SetBacklight(level) => PanelStateView { backlight: level, ..state },
        _ => state,
    }
}

impl PanelStateView {
    /// The state at power-on: every line low, nothing carried out.
    pub open spec fn initial() -> PanelStateView {
        PanelStateView {
            reset: false,
            chip_select: false,
            clock: false,
            data: false,
            backlight: false,
            cursor: 0,
            failure: None,
        }
    }

    /// The operation that is to be carried out next, if the bring-up has
    /// neither failed nor finished.
    pub open spec fn next(self, ops: Seq<PanelOp>) -> Option<PanelOp> {
        if self.failure is None && self.cursor < ops.len() {
            Some(ops[self.cursor as int])
        } else {
            None
        }
    }

    /// The state after the outcome of the operation that was next: success
    /// moves on, a fault ends the bring-up for good.
    pub open spec fn advance(self, ops: Seq<PanelOp>, outcome: Result<(), BusFault>) -> PanelStateView {
        match self.next(ops) {
            None => self,
            Some(op) => match outcome {
                Ok(_) => PanelStateView { cursor: self.cursor + 1, ..levels_after(self, op) },
                Err(fault) => PanelStateView { failure: Some(bus_error(fault)), ..self },
            },
        }
    }

    /// Whether the panel is in use: every operation was carried out and none
    /// failed.
    pub open spec fn active(self, ops: Seq<PanelOp>) -> bool {
        self.failure is None && self.cursor >= ops.len()
    }
}

/// A bring-up that has failed hands out no further operation, whatever is
/// reported to it: there is no degraded mode.
pub proof fn lemma_failure_is_final(
    state: PanelStateView,
    ops: Seq<PanelOp>,
    outcome: Result<(), BusFault>,
)
    requires
        state.failure is Some,
    ensures
        state.next(ops) is None,
        state.advance(ops, outcome) == state,
        !state.active(ops),
{
}

/// Progress of the line-level bring-up: the level of every line and the
/// place in the list of operations.
pub struct PanelState {
    reset: bool,
    chip_select: bool,
    clock: bool,
    data: bool,
    backlight: bool,
    cursor: usize,
    failure: Option<DisplayError>,
}

impl View for PanelState {
    type V = PanelStateView;

    closed spec fn view(&self) -> PanelStateView {
        PanelStateView {
            reset: self.reset,
            chip_select: self.chip_select,
            clock: self.clock,
            data: self.data,
            backlight: self.backlight,
            cursor: self.cursor as nat,
            failure: self.failure,
        }
    }
}

impl PanelState {
    /// The state at power-on.
    pub fn new() -> (state: PanelState)
        ensures
            state@ == PanelStateView::initial(),
    {
        PanelState {
            reset: false,
            chip_select: false,
            clock: false,
            data: false,
            backlight: false,
            cursor: 0,
            failure: None,
        }
    }

    /// The operation to carry out next, if any.
    pub fn next(&self, ops: &Vec<PanelOp>) -> (op: Option<PanelOp>)
        ensures
            op == self@.next(ops@),
    {
        if self.failure.is_none() && self.cursor < ops.len() {
            Some(ops[self.cursor])
        } else {
            None
        }
    }

    /// Takes the outcome of the operation that was next.
    pub fn advance(&mut self, ops: &Vec<PanelOp>, outcome: Result<(), BusFault>)
        ensures
            final(self)@ == old(self)@.advance(ops@, outcome),
    {
        match self.next(ops) {
            None => {},
            Some(op) => match outcome {
                Ok(_) => {
                    assert(self.cursor < ops.len());
                    match op {
                        PanelOp::ExpanderWrite { register, low, high } => {
                            if register == TCA9535_OUTPUT_PORT_REG {
                                self.chip_select = low & CS_MASK != 0;
                                self.reset = low & RESET_MASK != 0;
                            }
                        },
                        PanelOp::SetClock(level) => {
                            self.clock = level;
                        },
                        PanelOp::SetData(level) => {
                            self.data = level;
                        },
                        PanelOp::SetBacklight(level) => {
                            self.backlight = level;
                        },
                        _ => {},
                    }
                    self.cursor = self.cursor + 1;
                },
                Err(fault) => {
                    self.failure = Some(
                        match fault {
                            BusFault::Timeout => DisplayError::BusTimeout,
                            BusFault::Nack => DisplayError::BusNack,
                        },
                    );
                },
            },
        }
    }

    /// How the bring-up stands: the error that ended it, or whether every
    /// operation has been carried out.
    pub fn status(&self, ops: &Vec<PanelOp>) -> (status: Result<bool, DisplayError>)
        ensures
            status == (match self@.failure {
                Some(error) => Err::<bool, DisplayError>(error),
                None => Ok::<bool, DisplayError>(self@.active(ops@)),
            }),
    {
        match self.failure {
            Some(error) => Err(error),
            None => Ok(self.cursor >= ops.len()),
        }
    }

    /// Level of the reset line.
    pub fn reset(&self) -> (level: bool)
        ensures
            level == self@.reset,
    {
        self.reset
    }

    /// Level of the chip select line.
    pub fn chip_select(&self) -> (level: bool)
        ensures
            level == self@.chip_select,
    {
        self.chip_select
    }

    /// Level of the clock line.
    pub fn clock(&self) -> (level: bool)
        ensures
            level == self@.clock,
    {
        self.clock
    }

    /// Level of the data line.
    pub fn data(&self) -> (level: bool)
        ensures
            level == self@.data,
    {
        self.data
    }

    /// Level of the backlight line.
    pub fn backlight(&self) -> (level: bool)
        ensures
            level == self@.backlight,
    {
        self.backlight
    }

    /// Number of operations carried out.
    pub fn cursor(&self) -> (done: usize)
        ensures
            done == self@.cursor,
    {
        self.cursor
    }
}

/// Timing of one axis of the panel, in pixel clocks or lines.
#[derive(Clone, Copy, Debug, PartialEq, Eq, Structural)]
pub struct SyncTiming {
    pub pulse_width: u32,
    pub back_porch: u32,
    pub front_porch: u32,
}

/// What the scan-out engine is created with.
#[derive(Clone, Copy, Debug, PartialEq, Eq)]
pub struct RgbPanelConfig {
    pub pclk_hz: u32,
    pub h_res: u32,
    pub v_res: u32,
    pub hsync: SyncTiming,
    pub vsync: SyncTiming,
    /// Whether pixel data is valid on the falling clock edge.
    pub pclk_active_neg: bool,
    pub data_width: u32,
    pub bits_per_pixel: u32,
    pub sram_trans_align: u32,
    pub psram_trans_align: u32,
    pub num_fbs: u32,
    pub bounce_buffer_size_px: u32,
    pub hsync_gpio_num: i32,
    pub vsync_gpio_num: i32,
    pub de_gpio_num: i32,
    pub pclk_gpio_num: i32,
    /// Pin of the display enable signal; -1 where there is none.
    pub disp_gpio_num: i32,
    pub data_gpio_nums: [i32; 16],
    /// Whether the engine keeps its frame in external memory.
    pub fb_in_psram: bool,
}

/// The configuration of the scan-out engine for this panel: 480 x 480
/// pixels of 16 bits at 16 MHz, sync pulses of 8 with porches of 50 and 10,
/// one frame in external memory, no display enable pin.
pub open spec fn panel_config() -> RgbPanelConfig {
    RgbPanelConfig {
        pclk_hz: LCD_FREQ,
        h_res: DISP_HOR_RES as u32,
        v_res: DISP_VER_RES as u32,
        hsync: SyncTiming { pulse_width: 8, back_porch: 50, front_porch: 10 },
        vsync: SyncTiming { pulse_width: 8, back_porch: 50, front_porch: 10 },
        pclk_active_neg: false,
        data_width: 16,
        bits_per_pixel: 16,
        sram_trans_align: 4,
        psram_trans_align: 64,
        num_fbs: 1,
        bounce_buffer_size_px: 0,
        hsync_gpio_num: LCD_GPIO_HSYNC,
        vsync_gpio_num: LCD_GPIO_VSYNC,
        de_gpio_num: LCD_GPIO_DE,
        pclk_gpio_num: LCD_GPIO_PCLK,
        disp_gpio_num: NO_GPIO,
        data_gpio_nums: LCD_GPIO_DATA,
        fb_in_psram: true,
    }
}

/// The configuration that the scan-out engine is created with.
pub fn rgb_panel_config() -> (config: RgbPanelConfig)
    ensures
        config == panel_config(),
{
    RgbPanelConfig {
        pclk_hz: LCD_FREQ,
        h_res: DISP_HOR_RES as u32,
        v_res: DISP_VER_RES as u32,
        hsync: SyncTiming { pulse_width: 8, back_porch: 50, front_porch: 10 },
        vsync: SyncTiming { pulse_width: 8, back_porch: 50, front_porch: 10 },
        pclk_active_neg: false,
        data_width: 16,
        bits_per_pixel: 16,
        sram_trans_align: 4,
        psram_trans_align: 64,
        num_fbs: 1,
        bounce_buffer_size_px: 0,
        hsync_gpio_num: LCD_GPIO_HSYNC,
        vsync_gpio_num: LCD_GPIO_VSYNC,
        de_gpio_num: LCD_GPIO_DE,
        pclk_gpio_num: LCD_GPIO_PCLK,
        disp_gpio_num: NO_GPIO,
        data_gpio_nums: LCD_GPIO_DATA,
        fb_in_psram: true,
    }
}

/// The calls that start the panel's scan-out engine, in the order they are
/// made.
#[derive(Clone, Copy, Debug, PartialEq, Eq, Structural)]
pub enum PanelCall {
    Create,
    Reset,
    Init,
    DisplayOn,
}

impl PanelCall {
    /// The call that follows this one, if any.
    pub open spec fn next(self) -> Option<PanelCall> {
        match self {
            PanelCall::Create => Some(PanelCall::Reset),
            PanelCall::Reset => Some(PanelCall::Init),
            PanelCall::Init => Some(PanelCall::DisplayOn),
            PanelCall::DisplayOn => None,
        }
    }
}

/// A region of the framebuffer to hand to the scan-out engine.
#[derive(Clone, Copy, Debug, PartialEq, Eq, Structural)]
pub struct BlitRequest {
    pub x_start: i32,
    pub y_start: i32,
    /// One past the last column.
    pub x_end: i32,
    /// One past the last row.
    pub y_end: i32,
    /// Index in the framebuffer of the region's first pixel.
    pub offset: usize,
}

/// Whether the rectangle lies within the frame.
pub open spec fn region_in_frame(x: int, y: int, width: int, height: int) -> bool {
    &&& 0 <= x
    &&& 0 <= y
    &&& 0 <= width
    &&& 0 <= height
    &&& x + width <= DISP_HOR_RES
    &&& y + height <= DISP_VER_RES
}

/// Number of pixels of a full frame.
pub open spec fn frame_len() -> int {
    FRAME_PIXELS as int
}

/// A full frame holds one pixel for every column of every row.
pub proof fn lemma_frame_len()
    ensures
        frame_len() == DISP_HOR_RES as int * DISP_VER_RES as int,
{
}

/// Index of pixel `(x, y)` in the framebuffer.
pub open spec fn pixel_index(x: int, y: int) -> int {
    y * DISP_HOR_RES as int + x
}

/// Whether `(x, y)` lies on the panel.
pub open spec fn on_screen(x: int, y: int) -> bool {
    0 <= x < DISP_HOR_RES && 0 <= y < DISP_VER_RES
}

/// Mathematical model of a [`DisplayDriver`].
pub struct DisplayView {
    /// Shadow of the expander's output port.
    pub output: u16,
    /// Shadow of the expander's configuration register.
    pub config: u16,
    /// Whether the panel's scan-out engine is up.
    pub panel_ready: bool,
    /// The framebuffer, row by row; empty until it is allocated.
    pub pixels: Seq<u16>,
}

impl DisplayView {
    /// The framebuffer is either absent or holds exactly one full frame.
    pub open spec fn wf(self) -> bool {
        self.pixels.len() == 0 || self.pixels.len() == frame_len()
    }

    /// Whether the framebuffer has been allocated.
    pub open spec fn has_framebuffer(self) -> bool {
        self.pixels.len() == frame_len()
    }

    /// The state before any bring-up step: every expander pin an input, all
    /// outputs low, no panel and no framebuffer.
    pub open spec fn initial() -> DisplayView {
        DisplayView { output: 0, config: 0xFFFF, panel_ready: false, pixels: Seq::empty() }
    }
}

/// Operations of the line-level bring-up of a fresh driver: backlight off,
/// clock and data high, expander set up, controller program run.
pub open spec fn bring_up_ops() -> Seq<PanelOp> {
    seq![PanelOp::SetBacklight(false), PanelOp::SetClock(true), PanelOp::SetData(true)]
        + expander_init_ops(DisplayView::initial().config, DisplayView::initial().output)
        + init_sequence_ops(outputs_idle(DisplayView::initial().output))
}

/// After the expander set-up of a fresh driver, chip select and reset are
/// the only outputs, every other pin is an input, and both outputs are
/// high.
pub proof fn lemma_expander_setup()
    ensures
        outputs_enabled(DisplayView::initial().config) == 0xFFCF,
        outputs_idle(DisplayView::initial().output) == 0x0030,
{
    let cs = EXPANDER_IO_LCD_CS;
    let reset = EXPANDER_IO_LCD_RESET;
    assert((0xFFFFu16 & !(1u16 << cs)) & !(1u16 << reset) == 0xFFCF) by (bit_vector)
        requires
            cs == 4u8,
            reset == 5u8,
    ;
    assert((0u16 | (1u16 << cs)) | (1u16 << reset) == 0x0030) by (bit_vector)
        requires
            cs == 4u8,
            reset == 5u8,
    ;
}

/// The panel-side state that the bring-up needs to remember.
pub struct DisplayDriver {
    io_expander_output: u16,
    io_expander_config: u16,
    panel_ready: bool,
    frame_buffer: Vec<u16>,
}

impl View for DisplayDriver {
    type V = DisplayView;

    closed spec fn view(&self) -> DisplayView {
        DisplayView {
            output: self.io_expander_output,
            config: self.io_expander_config,
            panel_ready: self.panel_ready,
            pixels: self.frame_buffer@,
        }
    }
}

impl DisplayDriver {
    /// A driver for a panel that has just been powered: appends the whole
    /// line-level bring-up to `ops` and allocates the framebuffer, cleared
    /// to zero. The scan-out engine is started afterwards, call by call,
    /// through [`DisplayDriver::init_rgb_panel`].
    pub fn new(ops: &mut Vec<PanelOp>) -> (driver: DisplayDriver)
        ensures
            final(ops)@ == old(ops)@ + bring_up_ops(),
            driver@.output == cs_high(reset_released(outputs_idle(DisplayView::initial().output))),
            driver@.config == outputs_enabled(DisplayView::initial().config),
            !driver@.panel_ready,
            driver@.has_framebuffer(),
            forall|i: int| 0 <= i < frame_len() ==> driver@.pixels[i] == 0,
    {
        let mut driver = DisplayDriver {
            io_expander_output: 0,
            io_expander_config: 0xFFFF,
            panel_ready: false,
            frame_buffer: Vec::new(),
        };
        ops.push(PanelOp::SetBacklight(false));
        ops.push(PanelOp::SetClock(true));
        ops.push(PanelOp::SetData(true));
        driver.tca9535_init(ops);
        driver.st7701s_init_sequence(ops);
        driver.allocate_framebuffer();
        assert(ops@ =~= old(ops)@ + bring_up_ops());
        driver
    }

    /// Gives the driver its framebuffer: one full frame, every pixel zero.
    pub fn allocate_framebuffer(&mut self)
        ensures
            final(self)@.has_framebuffer(),
            forall|i: int| 0 <= i < frame_len() ==> final(self)@.pixels[i] == 0,
            final(self)@.output == old(self)@.output,
            final(self)@.config == old(self)@.config,
            final(self)@.panel_ready == old(self)@.panel_ready,
    {
        self.frame_buffer = vec![0u16; FRAME_PIXELS];
    }

    /// Takes the status of one call that starts the scan-out engine. A
    /// status other than [`ESP_OK`] is fatal. After the last call the panel
    /// is ready and the backlight is switched on.
    pub fn init_rgb_panel(&mut self, call: PanelCall, status: i32, ops: &mut Vec<PanelOp>) -> (next:
        Result<Option<PanelCall>, DisplayError>)
        ensures
            final(self)@.output == old(self)@.output,
            final(self)@.config == old(self)@.config,
            final(self)@.pixels == old(self)@.pixels,
            status != ESP_OK ==> next == Err::<Option<PanelCall>, DisplayError>(
                DisplayError::PanelCallFailed { call, status },
            ) && final(self)@.panel_ready == old(self)@.panel_ready && final(ops)@ == old(ops)@,
            status == ESP_OK ==> next == Ok::<Option<PanelCall>, DisplayError>(call.next()),
            status == ESP_OK && call != PanelCall::DisplayOn ==> final(self)@.panel_ready == old(
                self,
            )@.panel_ready && final(ops)@ == old(ops)@,
            status == ESP_OK && call == PanelCall::DisplayOn ==> final(self)@.panel_ready
                && final(ops)@ == old(ops)@.push(PanelOp::SetBacklight(true)),
    {
        if status != ESP_OK {
            return Err(DisplayError::PanelCallFailed { call, status });
        }
        match call {
            PanelCall::Create => Ok(Some(PanelCall::Reset)),
            PanelCall::Reset => Ok(Some(PanelCall::Init)),
            PanelCall::Init => Ok(Some(PanelCall::DisplayOn)),
            PanelCall::DisplayOn => {
                self.panel_ready = true;
                ops.push(PanelOp::SetBacklight(true));
                Ok(None)
            },
        }
    }

    /// Prepares the transfer of the `width` x `height` region at `(x, y)` to
    /// the panel. Fails with `NotInitialized` unless both the panel and the
    /// framebuffer are ready.
    pub fn flush(&self, x: i32, y: i32, width: i32, height: i32) -> (request: Result<
        BlitRequest,
        DisplayError,
    >)
        requires
            region_in_frame(x as int, y as int, width as int, height as int),
        ensures
            request == (if self@.panel_ready && self@.has_framebuffer() {
                Ok::<BlitRequest, DisplayError>(
                    BlitRequest {
                        x_start: x,
                        y_start: y,
                        x_end: (x + width) as i32,
                        y_end: (y + height) as i32,
                        offset: pixel_index(x as int, y as int) as usize,
                    },
                )
            } else {
                Err::<BlitRequest, DisplayError>(DisplayError::NotInitialized)
            }),
    {
        if self.frame_buffer.len() != FRAME_PIXELS || !self.panel_ready {
            return Err(DisplayError::NotInitialized);
        }
        Ok(
            BlitRequest {
                x_start: x,
                y_start: y,
                x_end: x + width,
                y_end: y + height,
                offset: (y * 480 + x) as usize,
            },
        )
    }

    /// The verdict on a transfer status: success for [`ESP_OK`] alone.
    pub open spec fn flush_status_spec(status: i32) -> Result<(), DisplayError> {
        if status == ESP_OK {
            Ok(())
        } else {
            Err(DisplayError::TransferError)
        }
    }

    /// Judges the status that the scan-out engine returned for a transfer.
    pub fn flush_status(status: i32) -> (outcome: Result<(), DisplayError>)
        ensures
            outcome == DisplayDriver::flush_status_spec(status),
    {
        if status != ESP_OK {
            return Err(DisplayError::TransferError);
        }
        Ok(())
    }

    /// The framebuffer, row by row, once it has been allocated.
    pub fn get_framebuffer(&self) -> (buffer: Option<&[u16]>)
        ensures
            self@.pixels.len() == 0 ==> buffer.is_none(),
            self@.pixels.len() != 0 ==> buffer.is_some() && buffer.unwrap()@ == self@.pixels,
    {
        if self.frame_buffer.len() == 0 {
            return None;
        }
        Some(self.frame_buffer.as_slice())
    }

    /// Sets every pixel to `color`.
    pub fn fill_screen(&mut self, color: u16)
        ensures
            final(self)@ == (DisplayView {
                pixels: Seq::new(old(self)@.pixels.len(), |i: int| color),
                ..old(self)@
            }),
    {
        let n = self.frame_buffer.len();
        let mut i: usize = 0;
        while i < n
            invariant
                i <= n,
                n == self.frame_buffer.len(),
                self.frame_buffer.len() == old(self).frame_buffer.len(),
                self.io_expander_output == old(self).io_expander_output,
                self.io_expander_config == old(self).io_expander_config,
                self.panel_ready == old(self).panel_ready,
                forall|j: int| 0 <= j < i ==> self.frame_buffer@[j] == color,
            decreases n - i,
        {
            self.frame_buffer.set(i, color);
            i = i + 1;
        }
        assert(self.frame_buffer@ =~= Seq::new(old(self)@.pixels.len(), |i: int| color));
    }

    /// Sets pixel `(x, y)` to `color`. A pixel off the panel, or any pixel
    /// while there is no full framebuffer, is left alone.
    pub fn draw_pixel(&mut self, x: u16, y: u16, color: u16)
        ensures
            final(self)@ == (DisplayView {
                pixels: if on_screen(x as int, y as int) && old(self)@.has_framebuffer() {
                    old(self)@.pixels.update(pixel_index(x as int, y as int), color)
                } else {
                    old(self)@.pixels
                },
                ..old(self)@
            }),
    {
        if x >= DISP_HOR_RES || y >= DISP_VER_RES {
            return ;
        }
        let index: usize = (y as usize) * 480 + (x as usize);
        if self.frame_buffer.len() == FRAME_PIXELS {
            self.frame_buffer.set(index, color);
        }
    }

    /// Makes chip select and reset outputs, drives both high, and appends
    /// the probe read and the two register writes that do so.
    pub fn tca9535_init(&mut self, ops: &mut Vec<PanelOp>)
        ensures
            final(self)@ == (DisplayView {
                config: outputs_enabled(old(self)@.config),
                output: outputs_idle(old(self)@.output),
                ..old(self)@
            }),
            final(ops)@ == old(ops)@ + expander_init_ops(old(self)@.config, old(self)@.output),
    {
        ops.push(PanelOp::ExpanderRead { register: TCA9535_INPUT_PORT_REG });
        self.io_expander_config = self.io_expander_config & !(1u16 << EXPANDER_IO_LCD_CS);
        self.io_expander_config = self.io_expander_config & !(1u16 << EXPANDER_IO_LCD_RESET);
        ops.push(tca9535_write_reg(TCA9535_CONFIGURATION_REG, self.io_expander_config));
        self.io_expander_output = self.io_expander_output | (1u16 << EXPANDER_IO_LCD_CS);
        self.io_expander_output = self.io_expander_output | (1u16 << EXPANDER_IO_LCD_RESET);
        ops.push(tca9535_write_reg(TCA9535_OUTPUT_PORT_REG, self.io_expander_output));
        assert(ops@ =~= old(ops)@ + expander_init_ops(old(self)@.config, old(self)@.output));
    }

    /// Appends the controller bring-up: the reset pulse, then every word of
    /// the program in order, then the lines parked high.
    pub fn st7701s_init_sequence(&mut self, ops: &mut Vec<PanelOp>)
        ensures
            final(self)@ == (DisplayView {
                output: cs_high(reset_released(old(self)@.output)),
                ..old(self)@
            }),
            final(ops)@ == old(ops)@ + init_sequence_ops(old(self)@.output),
    {
        let ghost start = self@.output;
        let ghost released = reset_released(start);
        proof {
            lemma_with_bit_twice(start, EXPANDER_IO_LCD_RESET, false, true);
            lemma_with_bit_twice(released, EXPANDER_IO_LCD_CS, true, true);
            lemma_with_bit_twice(released, EXPANDER_IO_LCD_CS, true, false);
        }
        self.tca9535_set_level(EXPANDER_IO_LCD_RESET, false, ops);
        ops.push(PanelOp::DelayMillis(RESET_PULSE_MS));
        self.tca9535_set_level(EXPANDER_IO_LCD_RESET, true, ops);
        ops.push(PanelOp::DelayMillis(PANEL_BOOT_MS));
        assert(ops@ =~= old(ops)@ + reset_ops(start));

        let mut i: usize = 0;
        while i < PROGRAM_LEN
            invariant
                i <= PROGRAM_LEN,
                self@.output == released || self@.output == cs_high(released),
                cs_high(cs_high(released)) == cs_high(released),
                cs_low(cs_high(released)) == cs_low(released),
                self@.config == old(self)@.config,
                self@.panel_ready == old(self)@.panel_ready,
                self@.pixels == old(self)@.pixels,
                ops@ == old(ops)@ + reset_ops(start) + program_ops(released, i as nat),
            decreases PROGRAM_LEN - i,
        {
            let word = ST7701S_PROGRAM[i];
            let ghost before = ops@;
            let ghost output = self@.output;
            if word & PROGRAM_DELAY_FLAG != 0 {
                ops.push(PanelOp::DelayMillis((word & 0x7FFF) as u32));
            } else if word & DATA_MARKER != 0 {
                self.spi_write_data(word, ops);
                assert(write_data_ops(output, word) == write_data_ops(released, word));
            } else {
                self.spi_write_comm(word, ops);
                assert(write_comm_ops(output, word) == write_comm_ops(released, word));
            }
            assert(ops@ =~= before + step_ops(released, word));
            assert(ops@ =~= old(ops)@ + reset_ops(start) + program_ops(released, (i + 1) as nat));
            i = i + 1;
        }
        self.tca9535_set_level(EXPANDER_IO_LCD_CS, true, ops);
        ops.push(PanelOp::SetClock(true));
        ops.push(PanelOp::SetData(true));
        assert(ops@ =~= old(ops)@ + init_sequence_ops(start));
    }

    /// Sets expander pin `pin` to `level` in the output shadow and appends the
    /// write that puts the whole shadow on the port.
    pub fn tca9535_set_level(&mut self, pin: u8, level: bool, ops: &mut Vec<PanelOp>)
        requires
            pin < 16,
        ensures
            final(self)@ == (DisplayView {
                output: with_bit(old(self)@.output, pin, level),
                ..old(self)@
            }),
            final(ops)@ == old(ops)@.push(output_write(final(self)@.output)),
    {
        if level {
            self.io_expander_output = self.io_expander_output | (1u16 << pin);
        } else {
            self.io_expander_output = self.io_expander_output & !(1u16 << pin);
        }
        ops.push(tca9535_write_reg(TCA9535_OUTPUT_PORT_REG, self.io_expander_output));
    }

    /// Appends one data write. Chip select ends high.
    pub fn spi_write_data(&mut self, data: u16, ops: &mut Vec<PanelOp>)
        ensures
            final(self)@ == (DisplayView { output: cs_high(old(self)@.output), ..old(self)@ }),
            final(ops)@ == old(ops)@ + write_data_ops(old(self)@.output, data),
    {
        let ghost output = self@.output;
        proof {
            lemma_with_bit_twice(output, EXPANDER_IO_LCD_CS, false, true);
        }
        self.tca9535_set_level(EXPANDER_IO_LCD_CS, false, ops);
        ops.push(PanelOp::DelayMicros(SPI_HALF_PERIOD_US));
        ops.push(PanelOp::SetClock(false));
        ops.push(PanelOp::DelayMicros(SPI_HALF_PERIOD_US));
        let mut d: u16 = data & 0x00FF;
        d = d | DATA_MARKER;
        spi_send_data(d, ops);
        ops.push(PanelOp::SetClock(true));
        ops.push(PanelOp::DelayMicros(SPI_HALF_PERIOD_US));
        ops.push(PanelOp::SetClock(false));
        ops.push(PanelOp::DelayMicros(SPI_HALF_PERIOD_US));
        self.tca9535_set_level(EXPANDER_IO_LCD_CS, true, ops);
        ops.push(PanelOp::DelayMicros(SPI_HALF_PERIOD_US));
        assert(ops@ =~= old(ops)@ + write_data_ops(output, data));
    }

    /// Appends one command write. Chip select ends high.
    pub fn spi_write_comm(&mut self, command: u16, ops: &mut Vec<PanelOp>)
        ensures
            final(self)@ == (DisplayView { output: cs_high(old(self)@.output), ..old(self)@ }),
            final(ops)@ == old(ops)@ + write_comm_ops(old(self)@.output, command),
    {
        let ghost output = self@.output;
        proof {
            lemma_with_bit_twice(output, EXPANDER_IO_LCD_CS, false, true);
            lemma_with_bit_twice(output, EXPANDER_IO_LCD_CS, true, false);
            lemma_with_bit_twice(output, EXPANDER_IO_LCD_CS, false, false);
            lemma_with_bit_twice(cs_high(output), EXPANDER_IO_LCD_CS, false, true);
        }
        self.tca9535_set_level(EXPANDER_IO_LCD_CS, false, ops);
        ops.push(PanelOp::DelayMicros(SPI_HALF_PERIOD_US));
        ops.push(PanelOp::SetClock(false));
        ops.push(PanelOp::DelayMicros(SPI_HALF_PERIOD_US));
        spi_send_data(((command >> 8) & 0x00FF) | 0x2000, ops);
        ops.push(PanelOp::SetClock(true));
        ops.push(PanelOp::DelayMicros(SPI_HALF_PERIOD_US));
        ops.push(PanelOp::SetClock(false));
        self.tca9535_set_level(EXPANDER_IO_LCD_CS, true, ops);
        ops.push(PanelOp::DelayMicros(SPI_HALF_PERIOD_US));
        self.tca9535_set_level(EXPANDER_IO_LCD_CS, false, ops);
        ops.push(PanelOp::DelayMicros(SPI_HALF_PERIOD_US));
        spi_send_data(command & 0x00FF, ops);
        self.tca9535_set_level(EXPANDER_IO_LCD_CS, true, ops);
        ops.push(PanelOp::DelayMicros(SPI_HALF_PERIOD_US));
        assert(ops@ =~= old(ops)@ + write_comm_ops(output, command));
    }
}

} // verus!
