//! The serial audio controller: a model of the register state that the driver
//! has written, and the ordered commands that carry each operation out.
//!
//! The driver decides every register write and every wait; the code that owns
//! the hardware takes the commands with `take_commands` and performs them in
//! order, spinning on each wait until the hardware reports it done.

use vstd::prelude::*;
use crate::clock::{ClockConfig, Oscillator, DFLL48M_HZ, bit_clock, clock_divisor, nearest_divisor};
use crate::regs::{
    clock_unit_value,
    clock_unit_word,
    control_value,
    control_word,
    serializer_value,
    serializer_word,
};

verus! {

/// Slots per frame: left and right.
pub const SLOTS: u8 = 2;

/// Bits per slot.
pub const SLOT_BITS: u32 = 32;

/// Frames per second.
pub const SAMPLE_RATE: u32 = 44_100;

/// Generic clock generator that feeds the peripheral.
pub const CLOCK_GENERATOR: u8 = 3;

/// The divisor of the 48 MHz oscillator for 44,100 stereo frames of 32-bit
/// slots per second.
pub const CLOCK_DIVISOR: u16 = 17;

/// One step that the hardware layer performs.
#[derive(Debug, Clone, Copy, PartialEq, Eq, Structural)]
pub enum Command {
    /// Program a generic clock generator's divisor and source, waiting for
    /// the generator to be idle before and after.
    ConfigureClock(ClockConfig),
    /// Feed the peripheral's clock input from the given generator, and wait
    /// for it to be idle.
    RouteClock(u8),
    /// Open the peripheral's bus clock in the power manager.
    PowerOn,
    /// Write CTRLA.
    WriteControl(u32),
    /// Write CLKCTRL of clock unit 0.
    WriteClockUnit(u32),
    /// Write SERCTRL of serializer 0.
    WriteSerializer(u32),
    /// Spin until every bit of SYNCBUSY reads clear.
    WaitSync,
    /// Spin until transmit-ready 0 is set and the data 0 sync-busy bit is clear.
    WaitTxReady,
    /// Write one to the transmit-underrun 0 flag, clearing it.
    ClearUnderrun,
    /// Write the data register of serializer 0.
    WriteData(u32),
}

/// What the driver has written to the peripheral's configuration registers.
#[derive(Debug, Clone, Copy, PartialEq, Eq, Structural)]
pub struct Registers {
    pub control: u32,
    pub clock_unit: u32,
    pub serializer: u32,
}

/// The registers once configured, with every enable clear.
pub open spec fn configured_registers() -> Registers {
    Registers {
        control: control_value(false),
        clock_unit: clock_unit_value(SLOTS),
        serializer: serializer_value(),
    }
}

/// The registers after the three enables are all set to `on`.
pub open spec fn switched(regs: Registers, on: bool) -> Registers {
    Registers { control: control_value(on), ..regs }
}

/// The clock generator settings for the frame format.
pub open spec fn clock_config() -> ClockConfig {
    ClockConfig {
        generator: CLOCK_GENERATOR,
        divisor: CLOCK_DIVISOR,
        source: Oscillator::Dfll48m,
        improve_duty_cycle: true,
    }
}

/// Commands that bring the peripheral from reset to configured and disabled:
/// clock first, then all enables clear, then the configuration registers,
/// with a full sync wait after the enables and after the configuration.
pub open spec fn init_commands() -> Seq<Command> {
    seq![
        Command::ConfigureClock(clock_config()),
        Command::RouteClock(CLOCK_GENERATOR),
        Command::PowerOn,
        Command::WriteControl(control_value(false)),
        Command::WaitSync,
        Command::WriteClockUnit(clock_unit_value(SLOTS)),
        Command::WriteSerializer(serializer_value()),
        Command::WaitSync,
    ]
}

/// Commands that set the three enables to `on` in one write, then wait for
/// every sync-busy bit to clear.
pub open spec fn switch_commands(on: bool) -> Seq<Command> {
    seq![Command::WriteControl(control_value(on)), Command::WaitSync]
}

/// Commands that send one word: wait until it can be taken, clear a pending
/// underrun, write the word.
pub open spec fn word_commands(word: u32) -> Seq<Command> {
    seq![Command::WaitTxReady, Command::ClearUnderrun, Command::WriteData(word)]
}

/// Commands that send one frame, left word then right word.
pub open spec fn frame_commands(left: u32, right: u32) -> Seq<Command> {
    word_commands(left) + word_commands(right)
}

/// The reference clock: dividing the 48 MHz oscillator by 17 comes nearest to
/// the bit clock of 44,100 stereo frames of 32-bit slots per second.
pub proof fn lemma_reference_divisor()
    ensures
        bit_clock(SAMPLE_RATE as int, SLOT_BITS as int, SLOTS as int) == 2_822_400,
        nearest_divisor(DFLL48M_HZ as int, 2_822_400) == CLOCK_DIVISOR,
{
    assert(nearest_divisor(48_000_000, 2_822_400) == 17) by (nonlinear_arith);
}

/// The words written to the data register by `cmds`, in order.
pub open spec fn data_writes(cmds: Seq<Command>) -> Seq<u32>
    decreases cmds.len(),
{
    if cmds.len() == 0 {
        Seq::empty()
    } else {
        let rest = data_writes(cmds.drop_last());
        match cmds.last() {
            Command::WriteData(w) => rest.push(w),
            _ => rest,
        }
    }
}

proof fn lemma_data_writes_concat(a: Seq<Command>, b: Seq<Command>)
    ensures
        data_writes(a + b) == data_writes(a) + data_writes(b),
    decreases b.len(),
{
    if b.len() == 0 {
        assert(a + b =~= a);
        assert(data_writes(b) =~= Seq::<u32>::empty());
        assert(data_writes(a) + data_writes(b) =~= data_writes(a));
    } else {
        lemma_data_writes_concat(a, b.drop_last());
        assert((a + b).drop_last() =~= a + b.drop_last());
        assert((a + b).last() == b.last());
        match b.last() {
            Command::WriteData(w) => {
                assert(data_writes(a) + data_writes(b.drop_last()).push(w) =~= (data_writes(a)
                    + data_writes(b.drop_last())).push(w));
            },
            _ => {},
        }
    }
}

proof fn lemma_word_data_writes(w: u32)
    ensures
        data_writes(word_commands(w)) == seq![w],
{
    reveal_with_fuel(data_writes, 4);
    let c = word_commands(w);
    assert(c.drop_last() =~= seq![Command::WaitTxReady, Command::ClearUnderrun]);
    assert(c.drop_last().drop_last() =~= seq![Command::WaitTxReady]);
    assert(c.drop_last().drop_last().drop_last() =~= Seq::<Command>::empty());
    assert(data_writes(c) =~= seq![w]);
}

/// Starting, stopping and starting again: stopping clears all three enables
/// and leaves the configuration registers as they were before the start, and
/// the second start gives exactly the registers of the first.
pub proof fn lemma_restart_keeps_configuration(regs: Registers)
    ensures
        ({
            let on = switched(regs, true);
            let off = switched(on, false);
            &&& off.control & (crate::regs::CTRLA_ENABLE | crate::regs::CTRLA_CKEN0
                | crate::regs::CTRLA_SEREN0) == 0
            &&& off.clock_unit == regs.clock_unit
            &&& off.serializer == regs.serializer
            &&& switched(off, true) == on
        }),
{
    assert(0u32 & ((1u32 << 1u32) | (1u32 << 2u32) | (1u32 << 4u32)) == 0u32) by (bit_vector);
}

/// Two frames sent one after the other reach the data register as exactly
/// four words, first left, first right, second left, second right, and every
/// data write comes right after an underrun clear.
pub proof fn lemma_two_frames_in_order(l1: u32, r1: u32, l2: u32, r2: u32)
    ensures
        ({
            let cmds = frame_commands(l1, r1) + frame_commands(l2, r2);
            &&& data_writes(cmds) == seq![l1, r1, l2, r2]
            &&& forall|i: int|
                0 <= i < cmds.len() && #[trigger] cmds[i] is WriteData ==> i >= 1 && cmds[i - 1]
                    == Command::ClearUnderrun
        }),
{
    lemma_word_data_writes(l1);
    lemma_word_data_writes(r1);
    lemma_word_data_writes(l2);
    lemma_word_data_writes(r2);
    lemma_data_writes_concat(word_commands(l1), word_commands(r1));
    lemma_data_writes_concat(word_commands(l2), word_commands(r2));
    lemma_data_writes_concat(frame_commands(l1, r1), frame_commands(l2, r2));
    assert(seq![l1] + seq![r1] + (seq![l2] + seq![r2]) =~= seq![l1, r1, l2, r2]);
    let cmds = frame_commands(l1, r1) + frame_commands(l2, r2);
    assert(cmds =~= seq![
        Command::WaitTxReady, Command::ClearUnderrun, Command::WriteData(l1),
        Command::WaitTxReady, Command::ClearUnderrun, Command::WriteData(r1),
        Command::WaitTxReady, Command::ClearUnderrun, Command::WriteData(l2),
        Command::WaitTxReady, Command::ClearUnderrun, Command::WriteData(r2),
    ]);
}

/// Driver of serializer 0 and clock unit 0, transmit only.
pub struct I2s {
    regs: Registers,
    pending: Vec<Command>,
}

impl I2s {
    /// The configuration registers as the driver has written them.
    pub closed spec fn registers_spec(&self) -> Registers {
        self.regs
    }

    /// Commands decided and not yet taken.
    pub closed spec fn commands(&self) -> Seq<Command> {
        self.pending@
    }

    /// Whether the peripheral is streaming.
    pub open spec fn is_enabled_spec(&self) -> bool {
        self.registers_spec().control == control_value(true)
    }

    /// Configures the clock and the peripheral for 32-bit stereo at 44,100
    /// frames per second, leaving it disabled.
    pub fn init() -> (r: Self)
        ensures
            r.registers_spec() == configured_registers(),
            r.commands() == init_commands(),
            !r.is_enabled_spec(),
    {
        proof {
            lemma_reference_divisor();
        }
        let divisor: u16 = match clock_divisor(DFLL48M_HZ, SAMPLE_RATE, SLOT_BITS, SLOTS as u32) {
            Some(d) => d,
            None => {
                proof {
                    assert(false);
                }
                CLOCK_DIVISOR
            },
        };
        let clock = ClockConfig {
            generator: CLOCK_GENERATOR,
            divisor,
            source: Oscillator::Dfll48m,
            improve_duty_cycle: true,
        };
        let off: u32 = control_word(false);
        let clock_unit: u32 = clock_unit_word(SLOTS);
        let serializer: u32 = serializer_word();
        let mut pending: Vec<Command> = Vec::new();
        pending.push(Command::ConfigureClock(clock));
        pending.push(Command::RouteClock(CLOCK_GENERATOR));
        pending.push(Command::PowerOn);
        pending.push(Command::WriteControl(off));
        pending.push(Command::WaitSync);
        pending.push(Command::WriteClockUnit(clock_unit));
        pending.push(Command::WriteSerializer(serializer));
        pending.push(Command::WaitSync);
        assert(pending@ =~= init_commands());
        let r = I2s { regs: Registers { control: off, clock_unit, serializer }, pending };
        assert(control_value(false) != control_value(true)) by (bit_vector);
        r
    }

    fn switch(&mut self, on: bool)
        ensures
            final(self).registers_spec() == switched(old(self).registers_spec(), on),
            final(self).commands() == old(self).commands() + switch_commands(on),
    {
        let word: u32 = control_word(on);
        self.pending.push(Command::WriteControl(word));
        self.pending.push(Command::WaitSync);
        self.regs = Registers { control: word, ..self.regs };
        assert(self.pending@ =~= old(self).pending@ + switch_commands(on));
    }

    /// Starts transmitting: the three enables set together, then a full sync
    /// wait.
    pub fn enable(&mut self)
        ensures
            final(self).registers_spec() == switched(old(self).registers_spec(), true),
            final(self).commands() == old(self).commands() + switch_commands(true),
            final(self).is_enabled_spec(),
    {
        self.switch(true);
    }

    /// Stops transmitting: the three enables cleared together, then a full
    /// sync wait. The configuration registers keep their values.
    pub fn disable(&mut self)
        ensures
            final(self).registers_spec() == switched(old(self).registers_spec(), false),
            final(self).commands() == old(self).commands() + switch_commands(false),
            !final(self).is_enabled_spec(),
    {
        self.switch(false);
        assert(control_value(false) != control_value(true)) by (bit_vector);
    }

    /// Sends one frame: the left word, then the right word, each once the
    /// peripheral can take it and after clearing a pending underrun.
    pub fn write(&mut self, left: u32, right: u32)
        requires
            old(self).is_enabled_spec(),
        ensures
            final(self).registers_spec() == old(self).registers_spec(),
            final(self).commands() == old(self).commands() + frame_commands(left, right),
    {
        let words: [u32; 2] = [left, right];
        let mut k: usize = 0;
        while k < 2
            invariant
                k <= 2,
                words@ == seq![left, right],
                self.regs == old(self).regs,
                self.pending@ == old(self).pending@ + (if k == 0 {
                    Seq::<Command>::empty()
                } else if k == 1 {
                    word_commands(left)
                } else {
                    frame_commands(left, right)
                }),
            decreases 2 - k,
        {
            let word: u32 = words[k];
            self.pending.push(Command::WaitTxReady);
            self.pending.push(Command::ClearUnderrun);
            self.pending.push(Command::WriteData(word));
            k = k + 1;
            assert(self.pending@ =~= old(self).pending@ + (if k == 1 {
                word_commands(left)
            } else {
                frame_commands(left, right)
            }));
        }
    }

    /// Whether the peripheral is streaming.
    pub fn is_enabled(&self) -> (r: bool)
        ensures
            r == self.is_enabled_spec(),
    {
        self.regs.control == control_word(true)
    }

    /// The configuration registers as the driver has written them.
    pub fn registers(&self) -> (r: Registers)
        ensures
            r == self.registers_spec(),
    {
        self.regs
    }

    /// Hands over the commands decided so far, in order, and forgets them.
    pub fn take_commands(&mut self) -> (r: Vec<Command>)
        ensures
            r@ == old(self).commands(),
            final(self).commands() == Seq::<Command>::empty(),
            final(self).registers_spec() == old(self).registers_spec(),
    {
        let mut out: Vec<Command> = Vec::new();
        std::mem::swap(&mut out, &mut self.pending);
        out
    }
}

} // verus!
