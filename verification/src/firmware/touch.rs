//! Touch digitizer driver: the register frames of one poll, the decisions
//! between them, and the last known sample.
//!
//! A poll is a short dialogue on the register bus. The driver says which
//! transaction comes next and takes its outcome; whoever owns the bus
//! carries the transactions out.

use crate::firmware::display::{BusFault, BUS_TIMEOUT_TICKS};
use vstd::prelude::*;

verus! {

/// Bus address of the digitizer.
pub const GT911_I2C_ADDR: u8 = 0x5D;

/// Register: X coordinate, low byte. X high, Y low and Y high follow it.
pub const GT911_REG_X_LOW: u16 = 0x8140;

/// Register: X coordinate, high byte.
pub const GT911_REG_X_HIGH: u16 = 0x8141;

/// Register: Y coordinate, low byte.
pub const GT911_REG_Y_LOW: u16 = 0x8142;

/// Register: Y coordinate, high byte.
pub const GT911_REG_Y_HIGH: u16 = 0x8143;

/// Register: status. Writing zero arms the next event.
pub const GT911_REG_STATUS: u16 = 0x814E;

/// Register: number of touch points.
pub const GT911_REG_POINTS: u16 = 0x814F;

/// Bit of the status byte that says a touch is present.
pub const TOUCH_PRESENT: u8 = 0x80;

/// Per-transaction timeout, in scheduler ticks.
pub const TOUCH_TIMEOUT_TICKS: u32 = BUS_TIMEOUT_TICKS;

/// One touch sample.
#[derive(Debug, Clone, Copy, PartialEq, Eq, Structural)]
pub struct TouchState {
    pub x: i16,
    pub y: i16,
    pub pressed: bool,
}

impl Default for TouchState {
    fn default() -> (state: TouchState)
        ensures
            state == (TouchState { x: 0, y: 0, pressed: false }),
    {
        TouchState { x: 0, y: 0, pressed: false }
    }
}

/// One transaction on the register bus. A register address goes out high
/// byte first.
#[derive(Debug, Clone, Copy, PartialEq, Eq, Structural)]
pub enum TouchRequest {
    /// Send the register address, then read `len` bytes.
    Read { address: u8, register_high: u8, register_low: u8, len: usize },
    /// Send the register address followed by one byte of data.
    Write { address: u8, register_high: u8, register_low: u8, data: u8 },
}

/// Where a poll stands.
#[derive(Debug, Clone, Copy, PartialEq, Eq, Structural)]
pub enum TouchPhase {
    /// No poll is under way.
    Idle,
    /// The status byte has been asked for.
    Status,
    /// The coordinate block has been asked for.
    Coordinates,
    /// The coordinates are in; the status register is being cleared.
    Clear { x: i16, y: i16 },
}

/// What a poll needs next, or how it ended.
#[derive(Debug, Clone, Copy, PartialEq, Eq, Structural)]
pub enum TouchProgress {
    /// Carry out this transaction and report its outcome.
    Pending(TouchRequest),
    /// The poll is over and gave this sample.
    Done(TouchState),
    /// The poll is over: a transaction failed, the sample was dropped.
    Failed(BusFault),
}

/// Mathematical model of a [`TouchDriver`].
pub struct TouchView {
    pub last: TouchState,
    pub phase: TouchPhase,
}

/// High byte of a register address.
pub open spec fn register_high(reg: u16) -> u8 {
    (reg >> 8) as u8
}

/// Low byte of a register address.
pub open spec fn register_low(reg: u16) -> u8 {
    (reg & 0xFF) as u8
}

/// The transaction that reads `len` bytes starting at register `reg`.
pub open spec fn read_request(reg: u16, len: usize) -> TouchRequest {
    TouchRequest::Read {
        address: GT911_I2C_ADDR,
        register_high: register_high(reg),
        register_low: register_low(reg),
        len,
    }
}

/// The transaction that writes `data` to register `reg`.
pub open spec fn write_request(reg: u16, data: u8) -> TouchRequest {
    TouchRequest::Write {
        address: GT911_I2C_ADDR,
        register_high: register_high(reg),
        register_low: register_low(reg),
        data,
    }
}

/// The signed 16-bit value of two bytes, low byte first.
pub open spec fn le_i16(low: u8, high: u8) -> i16 {
    let v = high * 256 + low;
    if v >= 32768 {
        (v - 65536) as i16
    } else {
        v as i16
    }
}

/// Whether a status byte says that a touch is present: its top bit.
pub open spec fn touch_present(status: u8) -> bool {
    status & TOUCH_PRESENT != 0
}

impl TouchView {
    /// The state after the outcome `reply` of the transaction that the
    /// current phase waits for.
    pub open spec fn advance(self, reply: Result<[u8; 4], BusFault>) -> TouchView {
        match (self.phase, reply) {
            (TouchPhase::Idle, _) => self,
            (_, Err(_)) => TouchView { phase: TouchPhase::Idle, ..self },
            (TouchPhase::Status, Ok(bytes)) => if touch_present(bytes[0]) {
                TouchView { phase: TouchPhase::Coordinates, ..self }
            } else {
                TouchView {
                    phase: TouchPhase::Idle,
                    last: TouchState { pressed: false, ..self.last },
                }
            },
            (TouchPhase::Coordinates, Ok(bytes)) => TouchView {
                phase: TouchPhase::Clear {
                    x: le_i16(bytes[0], bytes[1]),
                    y: le_i16(bytes[2], bytes[3]),
                },
                ..self
            },
            (TouchPhase::Clear { x, y }, Ok(_)) => TouchView {
                phase: TouchPhase::Idle,
                last: TouchState { x, y, pressed: true },
            },
        }
    }

    /// What the driver answers to the outcome `reply`.
    pub open spec fn progress(self, reply: Result<[u8; 4], BusFault>) -> TouchProgress {
        match (self.phase, reply) {
            (TouchPhase::Idle, _) => TouchProgress::Done(self.last),
            (_, Err(fault)) => TouchProgress::Failed(fault),
            (TouchPhase::Status, Ok(bytes)) => if touch_present(bytes[0]) {
                TouchProgress::Pending(read_request(GT911_REG_X_LOW, 4))
            } else {
                TouchProgress::Done(TouchState { pressed: false, ..self.last })
            },
            (TouchPhase::Coordinates, Ok(_)) => TouchProgress::Pending(
                write_request(GT911_REG_STATUS, 0),
            ),
            (TouchPhase::Clear { x, y }, Ok(_)) => TouchProgress::Done(
                TouchState { x, y, pressed: true },
            ),
        }
    }
}

/// Decodes two bytes, low byte first, as a signed 16-bit value.
pub fn decode_le_i16(low: u8, high: u8) -> (value: i16)
    ensures
        value == le_i16(low, high),
{
    let v: u16 = (high as u16) * 256 + (low as u16);
    if v >= 32768 {
        ((v - 32768) as i32 - 32768) as i16
    } else {
        v as i16
    }
}

/// The digitizer as the event loop sees it.
pub struct TouchDriver {
    last_state: TouchState,
    phase: TouchPhase,
}

impl View for TouchDriver {
    type V = TouchView;

    closed spec fn view(&self) -> TouchView {
        TouchView { last: self.last_state, phase: self.phase }
    }
}

impl TouchDriver {
    /// A driver that has seen no touch yet.
    pub fn new() -> (driver: TouchDriver)
        ensures
            driver@ == (TouchView {
                last: TouchState { x: 0, y: 0, pressed: false },
                phase: TouchPhase::Idle,
            }),
    {
        TouchDriver { last_state: TouchState::default(), phase: TouchPhase::Idle }
    }

    /// Begins a poll: the status byte is read first. A poll that was under
    /// way is abandoned.
    pub fn read(&mut self) -> (request: TouchRequest)
        ensures
            request == read_request(GT911_REG_STATUS, 1),
            final(self)@ == (TouchView { phase: TouchPhase::Status, ..old(self)@ }),
    {
        self.phase = TouchPhase::Status;
        TouchDriver::gt911_read(GT911_REG_STATUS, 1)
    }

    /// Takes the outcome of the transaction asked for last: the bytes read
    /// (a status byte comes first; what a write returns is ignored) or the
    /// fault of the bus. With a touch present the coordinates are read and
    /// the status register is cleared; without one the last position is kept
    /// and marked released. A fault ends the poll and leaves the last sample
    /// as it was.
    pub fn advance(&mut self, reply: Result<[u8; 4], BusFault>) -> (progress: TouchProgress)
        ensures
            final(self)@ == old(self)@.advance(reply),
            progress == old(self)@.progress(reply),
    {
        match self.phase {
            TouchPhase::Idle => TouchProgress::Done(self.last_state),
            TouchPhase::Status => match reply {
                Err(fault) => {
                    self.phase = TouchPhase::Idle;
                    TouchProgress::Failed(fault)
                },
                Ok(bytes) => {
                    if bytes[0] & TOUCH_PRESENT != 0 {
                        self.phase = TouchPhase::Coordinates;
                        TouchProgress::Pending(TouchDriver::gt911_read(GT911_REG_X_LOW, 4))
                    } else {
                        self.phase = TouchPhase::Idle;
                        self.last_state.pressed = false;
                        TouchProgress::Done(self.last_state)
                    }
                },
            },
            TouchPhase::Coordinates => match reply {
                Err(fault) => {
                    self.phase = TouchPhase::Idle;
                    TouchProgress::Failed(fault)
                },
                Ok(bytes) => {
                    let x = decode_le_i16(bytes[0], bytes[1]);
                    let y = decode_le_i16(bytes[2], bytes[3]);
                    self.phase = TouchPhase::Clear { x, y };
                    TouchProgress::Pending(TouchDriver::gt911_write(GT911_REG_STATUS, 0))
                },
            },
            TouchPhase::Clear { x, y } => match reply {
                Err(fault) => {
                    self.phase = TouchPhase::Idle;
                    TouchProgress::Failed(fault)
                },
                Ok(_) => {
                    self.phase = TouchPhase::Idle;
                    self.last_state = TouchState { x, y, pressed: true };
                    TouchProgress::Done(self.last_state)
                },
            },
        }
    }

    /// The transaction that reads `len` bytes starting at register `reg`.
    pub fn gt911_read(reg: u16, len: usize) -> (request: TouchRequest)
        ensures
            request == read_request(reg, len),
    {
        TouchRequest::Read {
            address: GT911_I2C_ADDR,
            register_high: (reg >> 8) as u8,
            register_low: (reg & 0xFF) as u8,
            len,
        }
    }

    /// The transaction that writes `data` to register `reg`.
    pub fn gt911_write(reg: u16, data: u8) -> (request: TouchRequest)
        ensures
            request == write_request(reg, data),
    {
        TouchRequest::Write {
            address: GT911_I2C_ADDR,
            register_high: (reg >> 8) as u8,
            register_low: (reg & 0xFF) as u8,
            data,
        }
    }

    /// Whether the last sample was a touch.
    pub fn is_pressed(&self) -> (pressed: bool)
        ensures
            pressed == self@.last.pressed,
    {
        self.last_state.pressed
    }

    /// The last known position.
    pub fn get_position(&self) -> (position: (i16, i16))
        ensures
            position == (self@.last.x, self@.last.y),
    {
        (self.last_state.x, self.last_state.y)
    }
}

} // verus!
