//! What the panel controller receives: a model of its side of the serial
//! lines, and the proof that the bring-up delivers the program to it word
//! for word.
//!
//! The controller takes in the level of the data line at every rising edge
//! of the clock while chip select is low. The bits of one period of low
//! chip select form a unit; the first nine of them are a word: the marker
//! bit, then a byte, most significant bit first.

use crate::firmware::display::{
    cs_high,
    cs_low,
    expander_write,
    half_period,
    output_write,
    select_ops,
    send_op,
    send_ops,
    wire_bit,
    write_comm_ops,
    write_data_ops,
    bring_up_ops,
    expander_init_ops,
    init_sequence_ops,
    outputs_idle,
    park_ops,
    program_ops,
    reset_ops,
    reset_released,
    step_ops,
    DisplayView,
    PanelOp,
    CS_MASK,
    DATA_MARKER,
    EXPANDER_IO_LCD_CS,
    EXPANDER_IO_LCD_RESET,
    PROGRAM_DELAY_FLAG,
    PROGRAM_LEN,
    ST7701S_PROGRAM,
    TCA9535_CONFIGURATION_REG,
    TCA9535_OUTPUT_PORT_REG,
};
use vstd::prelude::*;

verus! {

/// The controller's side of the lines.
pub struct Wire {
    /// Level of chip select; the controller listens while it is low.
    pub chip_select: bool,
    pub clock: bool,
    pub data: bool,
    /// The bits taken in since chip select went low.
    pub bits: Seq<bool>,
    /// The units completed so far, oldest first.
    pub units: Seq<Seq<bool>>,
    /// Whether the data line ever moved while the controller was listening
    /// and the clock was high.
    pub glitch: bool,
}

/// The lines after one operation.
pub open spec fn wire_step(w: Wire, op: PanelOp) -> Wire {
    match op {
        PanelOp::ExpanderWrite { register, low, high } => if register == TCA9535_OUTPUT_PORT_REG {
            let level = low & CS_MASK != 0;
            if level && !w.chip_select && w.bits.len() > 0 {
                Wire { chip_select: true, units: w.units.push(w.bits), bits: Seq::empty(), ..w }
            } else {
                Wire { chip_select: level, ..w }
            }
        } else {
            w
        },
        PanelOp::SetClock(level) => Wire {
            clock: level,
            bits: if level && !w.clock && !w.chip_select {
                w.bits.push(w.data)
            } else {
                w.bits
            },
            ..w
        },
        PanelOp::SetData(level) => Wire {
            data: level,
            glitch: w.glitch || (w.clock && !w.chip_select && level != w.data),
            ..w
        },
        _ => w,
    }
}

/// The lines after the first `n` operations of `ops`.
pub open spec fn wire_run(w: Wire, ops: Seq<PanelOp>, n: int) -> Wire
    decreases n,
{
    if n <= 0 {
        w
    } else {
        wire_step(wire_run(w, ops, n - 1), ops[n - 1])
    }
}

/// The lines after all of `ops`.
pub open spec fn received(w: Wire, ops: Seq<PanelOp>) -> Wire {
    wire_run(w, ops, ops.len() as int)
}

/// The nine bits of a word as they go over the wire: bit 8 first.
pub open spec fn nine_bits(word: u16) -> Seq<bool> {
    Seq::new(9, |k: int| wire_bit(word, k))
}

/// The number that the first `n` bits spell, most significant bit first.
pub open spec fn bits_value(bits: Seq<bool>, n: int) -> int
    decreases n,
{
    if n <= 0 {
        0
    } else {
        2 * bits_value(bits, n - 1) + if bits[n - 1] {
            1int
        } else {
            0int
        }
    }
}

/// The word of a unit: what its first nine bits spell.
pub open spec fn unit_word(unit: Seq<bool>) -> int {
    bits_value(unit, 9)
}

/// What happens to the first operations does not depend on what follows
/// them.
pub proof fn lemma_run_prefix(w: Wire, a: Seq<PanelOp>, b: Seq<PanelOp>, n: int)
    requires
        0 <= n <= a.len(),
    ensures
        wire_run(w, a + b, n) == wire_run(w, a, n),
    decreases n,
{
    if n > 0 {
        lemma_run_prefix(w, a, b, n - 1);
        assert((a + b)[n - 1] == a[n - 1]);
    }
}

/// Running two lists one after the other is running them joined.
pub proof fn lemma_run_concat(w: Wire, a: Seq<PanelOp>, b: Seq<PanelOp>, k: int)
    requires
        0 <= k <= b.len(),
    ensures
        wire_run(w, a + b, a.len() + k) == wire_run(received(w, a), b, k),
    decreases k,
{
    if k == 0 {
        lemma_run_prefix(w, a, b, a.len() as int);
    } else {
        lemma_run_concat(w, a, b, k - 1);
        assert((a + b)[a.len() + k - 1] == b[k - 1]);
    }
}

/// What was received after two lists is what was received after the second,
/// starting from what was received after the first.
pub proof fn lemma_received_concat(w: Wire, a: Seq<PanelOp>, b: Seq<PanelOp>)
    ensures
        received(w, a + b) == received(received(w, a), b),
{
    lemma_run_concat(w, a, b, b.len() as int);
}

/// While the controller listens and the clock is low, clocking out a word
/// hands it the first `k` bits after `5 * k` operations, each taken at a
/// rising edge after the data line was set, and leaves the clock low.
pub proof fn lemma_send_prefix(w: Wire, word: u16, k: int)
    requires
        0 <= k <= 9,
        !w.clock,
        !w.chip_select,
    ensures
        wire_run(w, send_ops(word), 5 * k) == (Wire {
            bits: w.bits + Seq::new(k as nat, |j: int| wire_bit(word, j)),
            data: if k > 0 {
                wire_bit(word, k - 1)
            } else {
                w.data
            },
            ..w
        }),
    decreases k,
{
    let ops = send_ops(word);
    if k == 0 {
        assert(w.bits + Seq::new(0, |j: int| wire_bit(word, j)) =~= w.bits);
    } else {
        lemma_send_prefix(w, word, k - 1);
        let before = wire_run(w, ops, 5 * (k - 1));
        let i = 5 * (k - 1);
        assert(ops[i] == send_op(word, i));
        assert(ops[i + 1] == send_op(word, i + 1));
        assert(ops[i + 2] == send_op(word, i + 2));
        assert(ops[i + 3] == send_op(word, i + 3));
        assert(ops[i + 4] == send_op(word, i + 4));
        assert(i / 5 == k - 1);
        let s1 = wire_step(before, ops[i]);
        let s2 = wire_step(s1, ops[i + 1]);
        let s3 = wire_step(s2, ops[i + 2]);
        let s4 = wire_step(s3, ops[i + 3]);
        let s5 = wire_step(s4, ops[i + 4]);
        assert(wire_run(w, ops, i + 1) == s1);
        assert(wire_run(w, ops, i + 2) == s2);
        assert(wire_run(w, ops, i + 3) == s3);
        assert(wire_run(w, ops, i + 4) == s4);
        assert(wire_run(w, ops, i + 5) == s5);
        assert(s5.bits =~= w.bits + Seq::new(k as nat, |j: int| wire_bit(word, j)));
    }
}

/// While the controller listens and the clock is low, clocking out a word
/// hands it the nine bits of the word and nothing else.
pub proof fn lemma_send_received(w: Wire, word: u16)
    requires
        !w.clock,
        !w.chip_select,
    ensures
        received(w, send_ops(word)) == (Wire {
            bits: w.bits + nine_bits(word),
            data: wire_bit(word, 8),
            ..w
        }),
{
    lemma_send_prefix(w, word, 9);
}

/// A write of the output port with chip select asserted puts the line low,
/// and one with chip select released puts it high.
pub proof fn lemma_chip_select_level(w: Wire, output: u16)
    ensures
        wire_step(w, output_write(cs_low(output))) == (Wire { chip_select: false, ..w }),
        w.bits.len() == 0 ==> wire_step(w, output_write(cs_high(output))) == (Wire {
            chip_select: true,
            ..w
        }),
        w.bits.len() > 0 && !w.chip_select ==> wire_step(w, output_write(cs_high(output))) == (Wire {
            chip_select: true,
            units: w.units.push(w.bits),
            bits: Seq::empty(),
            ..w
        }),
{
    let pin = EXPANDER_IO_LCD_CS;
    assert((((output & !(1u16 << pin)) & 0xFF) as u8) & 0x10u8 == 0) by (bit_vector)
        requires
            pin == 4u8,
    ;
    assert((((output | (1u16 << pin)) & 0xFF) as u8) & 0x10u8 != 0) by (bit_vector)
        requires
            pin == 4u8,
    ;
}

/// Opening a transfer unit makes the controller listen, with the clock low
/// and nothing taken in yet.
pub proof fn lemma_select_received(w: Wire, output: u16)
    requires
        w.bits.len() == 0,
    ensures
        received(w, select_ops(output)) == (Wire { chip_select: false, clock: false, ..w }),
{
    let ops = select_ops(output);
    lemma_chip_select_level(w, output);
    let s1 = wire_step(w, ops[0]);
    let s2 = wire_step(s1, ops[1]);
    let s3 = wire_step(s2, ops[2]);
    let s4 = wire_step(s3, ops[3]);
    assert(wire_run(w, ops, 0) == w);
    assert(wire_run(w, ops, 1) == s1);
    assert(wire_run(w, ops, 2) == s2);
    assert(wire_run(w, ops, 3) == s3);
    assert(wire_run(w, ops, 4) == s4);
}

/// The unit that a data write delivers: the nine bits of the byte behind a
/// set marker, and the last bit once more for the trailing clock pulse.
pub open spec fn data_unit(data: u16) -> Seq<bool> {
    nine_bits((data & 0x00FF) | DATA_MARKER).push(wire_bit((data & 0x00FF) | DATA_MARKER, 8))
}

/// The first unit that a command write delivers: the high byte of the
/// command behind a clear marker, and the last bit once more.
pub open spec fn command_high_unit(command: u16) -> Seq<bool> {
    nine_bits(((command >> 8) & 0x00FF) | 0x2000).push(
        wire_bit(((command >> 8) & 0x00FF) | 0x2000, 8),
    )
}

/// The second unit that a command write delivers: the low byte of the
/// command behind a clear marker.
pub open spec fn command_low_unit(command: u16) -> Seq<bool> {
    nine_bits(command & 0x00FF)
}

/// A data write delivers exactly one unit, ends with chip select high and
/// never moves the data line while the clock is high.
pub proof fn lemma_write_data_received(w: Wire, output: u16, data: u16)
    requires
        w.bits.len() == 0,
    ensures
        received(w, write_data_ops(output, data)) == (Wire {
            chip_select: true,
            clock: false,
            data: wire_bit((data & 0x00FF) | DATA_MARKER, 8),
            bits: Seq::empty(),
            units: w.units.push(data_unit(data)),
            glitch: w.glitch,
        }),
{
    let word = (data & 0x00FF) | DATA_MARKER;
    let a = select_ops(output);
    let b = send_ops(word);
    let c = seq![
        PanelOp::SetClock(true),
        half_period(),
        PanelOp::SetClock(false),
        half_period(),
        output_write(cs_high(output)),
        half_period(),
    ];
    assert(write_data_ops(output, data) == a + b + c);
    lemma_received_concat(w, a + b, c);
    lemma_received_concat(w, a, b);
    lemma_select_received(w, output);
    let wa = received(w, a);
    lemma_send_received(wa, word);
    let wb = received(wa, b);
    assert(wb.bits =~= nine_bits(word));
    let s1 = wire_step(wb, c[0]);
    let s2 = wire_step(s1, c[1]);
    let s3 = wire_step(s2, c[2]);
    let s4 = wire_step(s3, c[3]);
    lemma_chip_select_level(s4, output);
    let s5 = wire_step(s4, c[4]);
    let s6 = wire_step(s5, c[5]);
    assert(wire_run(wb, c, 0) == wb);
    assert(wire_run(wb, c, 1) == s1);
    assert(wire_run(wb, c, 2) == s2);
    assert(wire_run(wb, c, 3) == s3);
    assert(wire_run(wb, c, 4) == s4);
    assert(wire_run(wb, c, 5) == s5);
    assert(wire_run(wb, c, 6) == s6);
    assert(s1.bits =~= data_unit(data));
}

/// A command write delivers exactly two units, ends with chip select high
/// and never moves the data line while the clock is high.
pub proof fn lemma_write_comm_received(w: Wire, output: u16, command: u16)
    requires
        w.bits.len() == 0,
    ensures
        received(w, write_comm_ops(output, command)) == (Wire {
            chip_select: true,
            clock: false,
            data: wire_bit(command & 0x00FF, 8),
            bits: Seq::empty(),
            units: w.units.push(command_high_unit(command)).push(command_low_unit(command)),
            glitch: w.glitch,
        }),
{
    let high = ((command >> 8) & 0x00FF) | 0x2000;
    let low = command & 0x00FF;
    let a = select_ops(output);
    let b = send_ops(high);
    let c = seq![
        PanelOp::SetClock(true),
        half_period(),
        PanelOp::SetClock(false),
        output_write(cs_high(output)),
        half_period(),
        output_write(cs_low(output)),
        half_period(),
    ];
    let d = send_ops(low);
    let e = seq![output_write(cs_high(output)), half_period()];
    assert(write_comm_ops(output, command) == a + b + c + d + e);
    lemma_received_concat(w, a + b + c + d, e);
    lemma_received_concat(w, a + b + c, d);
    lemma_received_concat(w, a + b, c);
    lemma_received_concat(w, a, b);
    lemma_select_received(w, output);
    let wa = received(w, a);
    lemma_send_received(wa, high);
    let wb = received(wa, b);
    assert(wb.bits =~= nine_bits(high));
    // The trailing pulse, the end of the first unit and the new select.
    let s1 = wire_step(wb, c[0]);
    let s2 = wire_step(s1, c[1]);
    let s3 = wire_step(s2, c[2]);
    lemma_chip_select_level(s3, output);
    let s4 = wire_step(s3, c[3]);
    let s5 = wire_step(s4, c[4]);
    lemma_chip_select_level(s5, output);
    let s6 = wire_step(s5, c[5]);
    let s7 = wire_step(s6, c[6]);
    assert(wire_run(wb, c, 0) == wb);
    assert(wire_run(wb, c, 1) == s1);
    assert(wire_run(wb, c, 2) == s2);
    assert(wire_run(wb, c, 3) == s3);
    assert(wire_run(wb, c, 4) == s4);
    assert(wire_run(wb, c, 5) == s5);
    assert(wire_run(wb, c, 6) == s6);
    assert(wire_run(wb, c, 7) == s7);
    assert(s1.bits =~= command_high_unit(command));
    let wc = received(wb, c);
    assert(wc == s7);
    lemma_send_received(wc, low);
    let wd = received(wc, d);
    assert(wd.bits =~= nine_bits(low));
    lemma_chip_select_level(wd, output);
    let t1 = wire_step(wd, e[0]);
    let t2 = wire_step(t1, e[1]);
    assert(wire_run(wd, e, 0) == wd);
    assert(wire_run(wd, e, 1) == t1);
    assert(wire_run(wd, e, 2) == t2);
}

/// The nine bits of a word spell its low nine bits.
pub proof fn lemma_nine_bits_value(word: u16)
    ensures
        unit_word(nine_bits(word)) == word & 0x1FF,
        unit_word(nine_bits(word).push(wire_bit(word, 8))) == word & 0x1FF,
{
    let bits = nine_bits(word);
    let more = bits.push(wire_bit(word, 8));
    assert(bits[0] == (word & (0x0100u16 >> 0u16) != 0));
    assert(bits[1] == (word & (0x0100u16 >> 1u16) != 0));
    assert(bits[2] == (word & (0x0100u16 >> 2u16) != 0));
    assert(bits[3] == (word & (0x0100u16 >> 3u16) != 0));
    assert(bits[4] == (word & (0x0100u16 >> 4u16) != 0));
    assert(bits[5] == (word & (0x0100u16 >> 5u16) != 0));
    assert(bits[6] == (word & (0x0100u16 >> 6u16) != 0));
    assert(bits[7] == (word & (0x0100u16 >> 7u16) != 0));
    assert(bits[8] == (word & (0x0100u16 >> 8u16) != 0));
    assert(forall|i: int| 0 <= i < 9 ==> more[i] == bits[i]);
    let b0: int = if bits[0] { 1 } else { 0 };
    let b1: int = if bits[1] { 1 } else { 0 };
    let b2: int = if bits[2] { 1 } else { 0 };
    let b3: int = if bits[3] { 1 } else { 0 };
    let b4: int = if bits[4] { 1 } else { 0 };
    let b5: int = if bits[5] { 1 } else { 0 };
    let b6: int = if bits[6] { 1 } else { 0 };
    let b7: int = if bits[7] { 1 } else { 0 };
    let b8: int = if bits[8] { 1 } else { 0 };
    assert(word & 0x1FF == (if word & (0x0100u16 >> 0u16) != 0 { 256int } else { 0int }) + (if word & (0x0100u16 >> 1u16) != 0 { 128int } else { 0int }) + (if word & (0x0100u16 >> 2u16) != 0 { 64int } else { 0int }) + (if word & (0x0100u16 >> 3u16) != 0 { 32int } else { 0int }) + (if word & (0x0100u16 >> 4u16) != 0 { 16int } else { 0int }) + (if word & (0x0100u16 >> 5u16) != 0 { 8int } else { 0int }) + (if word & (0x0100u16 >> 6u16) != 0 { 4int } else { 0int }) + (if word & (0x0100u16 >> 7u16) != 0 { 2int } else { 0int }) + (if word & (0x0100u16 >> 8u16) != 0 { 1int } else { 0int })) by (bit_vector);
    assert(bits_value(bits, 0) == 0);
    assert(bits_value(bits, 1) == b0);
    assert(bits_value(bits, 2) == 2 * b0 + b1);
    assert(bits_value(bits, 3) == 4 * b0 + 2 * b1 + b2);
    assert(bits_value(bits, 4) == 8 * b0 + 4 * b1 + 2 * b2 + b3);
    assert(bits_value(bits, 5) == 16 * b0 + 8 * b1 + 4 * b2 + 2 * b3 + b4);
    assert(bits_value(bits, 6) == 32 * b0 + 16 * b1 + 8 * b2 + 4 * b3 + 2 * b4 + b5);
    assert(bits_value(bits, 7) == 64 * b0 + 32 * b1 + 16 * b2 + 8 * b3 + 4 * b4 + 2 * b5 + b6);
    assert(bits_value(bits, 8) == 128 * b0 + 64 * b1 + 32 * b2 + 16 * b3 + 8 * b4 + 4 * b5 + 2 * b6
        + b7);
    assert(bits_value(bits, 9) == 256 * b0 + 128 * b1 + 64 * b2 + 32 * b3 + 16 * b4 + 8 * b5 + 4
        * b6 + 2 * b7 + b8);
    assert(bits_value(more, 0) == 0);
    assert(bits_value(more, 1) == b0);
    assert(bits_value(more, 2) == 2 * b0 + b1);
    assert(bits_value(more, 3) == 4 * b0 + 2 * b1 + b2);
    assert(bits_value(more, 4) == 8 * b0 + 4 * b1 + 2 * b2 + b3);
    assert(bits_value(more, 5) == 16 * b0 + 8 * b1 + 4 * b2 + 2 * b3 + b4);
    assert(bits_value(more, 6) == 32 * b0 + 16 * b1 + 8 * b2 + 4 * b3 + 2 * b4 + b5);
    assert(bits_value(more, 7) == 64 * b0 + 32 * b1 + 16 * b2 + 8 * b3 + 4 * b4 + 2 * b5 + b6);
    assert(bits_value(more, 8) == 128 * b0 + 64 * b1 + 32 * b2 + 16 * b3 + 8 * b4 + 4 * b5 + 2 * b6
        + b7);
    assert(bits_value(more, 9) == 256 * b0 + 128 * b1 + 64 * b2 + 32 * b3 + 16 * b4 + 8 * b5 + 4
        * b6 + 2 * b7 + b8);
}

/// The word of the unit of a data write is the byte behind a set marker;
/// the words of the units of a command write are the high and the low byte
/// of the command behind a clear marker.
pub proof fn lemma_unit_words(word: u16)
    ensures
        unit_word(data_unit(word)) == 0x100 + (word & 0x00FF),
        unit_word(command_high_unit(word)) == (word >> 8) & 0x00FF,
        unit_word(command_low_unit(word)) == word & 0x00FF,
{
    lemma_nine_bits_value((word & 0x00FF) | DATA_MARKER);
    lemma_nine_bits_value(((word >> 8) & 0x00FF) | 0x2000);
    lemma_nine_bits_value(word & 0x00FF);
    assert(((word & 0x00FF) | 0x0100) & 0x1FF == 0x100 + (word & 0x00FF)) by (bit_vector);
    assert((((word >> 8) & 0x00FF) | 0x2000) & 0x1FF == (word >> 8) & 0x00FF) by (bit_vector);
    assert((word & 0x00FF) & 0x1FF == word & 0x00FF) by (bit_vector);
}

/// The words that the controller is to receive for one word of the
/// bring-up program: none for a pause, the byte behind a set marker for a
/// parameter, the two bytes of the command for a command.
pub open spec fn step_words(word: u16) -> Seq<int> {
    if word & PROGRAM_DELAY_FLAG != 0 {
        Seq::empty()
    } else if word & DATA_MARKER != 0 {
        seq![0x100 + (word & 0x00FF)]
    } else {
        seq![((word >> 8) & 0x00FF) as int, (word & 0x00FF) as int]
    }
}

/// The words that the controller is to receive for the first `n` words of
/// the bring-up program.
pub open spec fn program_words(n: nat) -> Seq<int>
    decreases n,
{
    if n == 0 {
        Seq::empty()
    } else {
        program_words((n - 1) as nat) + step_words(ST7701S_PROGRAM[n - 1])
    }
}

/// The words of a list of units.
pub open spec fn words_of(units: Seq<Seq<bool>>) -> Seq<int> {
    Seq::new(units.len(), |i: int| unit_word(units[i]))
}

/// One word of the bring-up program delivers its words, leaves nothing half
/// taken in and causes no glitch.
pub proof fn lemma_step_received(w: Wire, output: u16, word: u16)
    requires
        w.bits.len() == 0,
    ensures
        received(w, step_ops(output, word)).bits.len() == 0,
        received(w, step_ops(output, word)).glitch == w.glitch,
        words_of(received(w, step_ops(output, word)).units) == words_of(w.units) + step_words(word),
{
    let r = received(w, step_ops(output, word));
    lemma_unit_words(word);
    if word & PROGRAM_DELAY_FLAG != 0 {
        let ops = step_ops(output, word);
        assert(wire_run(w, ops, 0) == w);
        assert(wire_run(w, ops, 1) == wire_step(w, ops[0]));
        assert(r == w);
        assert(words_of(r.units) =~= words_of(w.units) + step_words(word));
    } else if word & DATA_MARKER != 0 {
        lemma_write_data_received(w, output, word);
        assert(words_of(r.units) =~= words_of(w.units) + step_words(word));
    } else {
        lemma_write_comm_received(w, output, word);
        assert(words_of(r.units) =~= words_of(w.units) + step_words(word));
    }
}

/// The first `n` words of the bring-up program deliver their words in
/// order, leave nothing half taken in and cause no glitch.
pub proof fn lemma_program_received(w: Wire, output: u16, n: nat)
    requires
        w.bits.len() == 0,
        n <= PROGRAM_LEN,
    ensures
        received(w, program_ops(output, n)).bits.len() == 0,
        received(w, program_ops(output, n)).glitch == w.glitch,
        words_of(received(w, program_ops(output, n)).units) == words_of(w.units) + program_words(n),
    decreases n,
{
    if n == 0 {
        assert(words_of(w.units) + program_words(0) =~= words_of(w.units));
    } else {
        let before = program_ops(output, (n - 1) as nat);
        let word = ST7701S_PROGRAM[n - 1];
        lemma_program_received(w, output, (n - 1) as nat);
        lemma_received_concat(w, before, step_ops(output, word));
        lemma_step_received(received(w, before), output, word);
        assert(words_of(w.units) + program_words((n - 1) as nat) + step_words(word) =~= words_of(
            w.units,
        ) + program_words(n));
    }
}

/// A write of the output port while nothing is half taken in completes no
/// unit and causes no glitch, whatever level it gives chip select.
pub proof fn lemma_idle_write(w: Wire, register: u8, value: u16)
    requires
        w.bits.len() == 0,
    ensures
        wire_step(w, expander_write(register, value)).bits.len() == 0,
        wire_step(w, expander_write(register, value)).units == w.units,
        wire_step(w, expander_write(register, value)).glitch == w.glitch,
        wire_step(w, expander_write(register, value)).clock == w.clock,
        wire_step(w, expander_write(register, value)).data == w.data,
        register != TCA9535_OUTPUT_PORT_REG ==> wire_step(w, expander_write(register, value)) == w,
{
}

/// The controller bring-up, started while nothing is half taken in,
/// delivers the whole program to the controller, word for word and in
/// order, and never moves the data line while the controller listens and
/// the clock is high.
pub proof fn lemma_init_sequence_received(w: Wire, output: u16)
    requires
        w.bits.len() == 0,
    ensures
        received(w, init_sequence_ops(output)).bits.len() == 0,
        received(w, init_sequence_ops(output)).glitch == w.glitch,
        received(w, init_sequence_ops(output)).chip_select,
        words_of(received(w, init_sequence_ops(output)).units) == words_of(w.units) + program_words(
            PROGRAM_LEN as nat,
        ),
{
    let released = reset_released(output);
    let a = reset_ops(output);
    let b = program_ops(released, PROGRAM_LEN as nat);
    let c = park_ops(released);
    lemma_received_concat(w, a + b, c);
    lemma_received_concat(w, a, b);
    // The reset pulse.
    lemma_idle_write(
        w,
        TCA9535_OUTPUT_PORT_REG,
        crate::firmware::display::with_bit(output, EXPANDER_IO_LCD_RESET, false),
    );
    let s1 = wire_step(w, a[0]);
    let s2 = wire_step(s1, a[1]);
    lemma_idle_write(s2, TCA9535_OUTPUT_PORT_REG, released);
    let s3 = wire_step(s2, a[2]);
    let s4 = wire_step(s3, a[3]);
    assert(wire_run(w, a, 0) == w);
    assert(wire_run(w, a, 1) == s1);
    assert(wire_run(w, a, 2) == s2);
    assert(wire_run(w, a, 3) == s3);
    assert(wire_run(w, a, 4) == s4);
    let wa = received(w, a);
    assert(wa.units == w.units);
    // The program.
    lemma_program_received(wa, released, PROGRAM_LEN as nat);
    let wb = received(wa, b);
    // The lines parked.
    lemma_chip_select_level(wb, released);
    let t1 = wire_step(wb, c[0]);
    let t2 = wire_step(t1, c[1]);
    let t3 = wire_step(t2, c[2]);
    assert(wire_run(wb, c, 0) == wb);
    assert(wire_run(wb, c, 1) == t1);
    assert(wire_run(wb, c, 2) == t2);
    assert(wire_run(wb, c, 3) == t3);
}

/// The whole line-level bring-up of a fresh driver, run against a
/// controller that is not listening and has nothing half taken in, delivers
/// the program to it, word for word and in order, and never moves the data
/// line while the controller listens and the clock is high.
pub proof fn lemma_bring_up_delivers_program(w: Wire)
    requires
        w.chip_select,
        w.bits.len() == 0,
    ensures
        received(w, bring_up_ops()).bits.len() == 0,
        received(w, bring_up_ops()).glitch == w.glitch,
        received(w, bring_up_ops()).chip_select,
        words_of(received(w, bring_up_ops()).units) == words_of(w.units) + program_words(
            PROGRAM_LEN as nat,
        ),
{
    let start = DisplayView::initial();
    let a = seq![PanelOp::SetBacklight(false), PanelOp::SetClock(true), PanelOp::SetData(true)];
    let b = expander_init_ops(start.config, start.output);
    let c = init_sequence_ops(outputs_idle(start.output));
    assert(bring_up_ops() == a + b + c);
    lemma_received_concat(w, a + b, c);
    lemma_received_concat(w, a, b);
    let s1 = wire_step(w, a[0]);
    let s2 = wire_step(s1, a[1]);
    let s3 = wire_step(s2, a[2]);
    assert(wire_run(w, a, 0) == w);
    assert(wire_run(w, a, 1) == s1);
    assert(wire_run(w, a, 2) == s2);
    assert(wire_run(w, a, 3) == s3);
    let wa = received(w, a);
    let t1 = wire_step(wa, b[0]);
    lemma_idle_write(
        t1,
        TCA9535_CONFIGURATION_REG,
        crate::firmware::display::outputs_enabled(start.config),
    );
    let t2 = wire_step(t1, b[1]);
    lemma_idle_write(t2, TCA9535_OUTPUT_PORT_REG, outputs_idle(start.output));
    let t3 = wire_step(t2, b[2]);
    assert(wire_run(wa, b, 0) == wa);
    assert(wire_run(wa, b, 1) == t1);
    assert(wire_run(wa, b, 2) == t2);
    assert(wire_run(wa, b, 3) == t3);
    let wb = received(wa, b);
    assert(wb.units == w.units);
    lemma_init_sequence_received(wb, outputs_idle(start.output));
}

} // verus!
