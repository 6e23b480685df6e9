use vstd::prelude::*;
use crate::bits::{bit_set, clear_bit, lemma_lowest_set_bit, lowest_set_bit, with_bit};

verus! {

/// Command-word bit that starts the initialization sequence.
pub const ICW1_INIT: u8 = 0x10;

/// Command-word bit that announces the final mode word of the sequence.
pub const ICW1_ICW4: u8 = 0x01;

/// The one mode word that is supported: 8086/8088 mode.
pub const ICW4_8086: u8 = 0x01;

/// Command that latches the request register for the next command-port read.
pub const READ_IRR: u8 = 0x0A;

/// Command that latches the in-service register for the next command-port read.
pub const READ_ISR: u8 = 0x0B;

/// Non-specific end-of-interrupt command.
pub const EOI: u8 = 0x20;

/// Position of a chip in its initialization sequence.
#[derive(Clone, Copy, Debug, PartialEq, Eq, Structural)]
pub enum InitStage {
    NotInitialized,
    AwaitingOffset,
    AwaitingCascadeWord,
    AwaitingMode,
    Ready,
}

/// A request that the chip hands to the host's interrupt-injection layer.
#[derive(Clone, Copy, Debug, PartialEq, Eq, Structural)]
pub enum HostRequest {
    /// Deliver this vector to the virtual CPU at its next opportunity.
    InjectVector(u8),
    /// Discard every injection requested before and not yet delivered.
    CancelPending,
}

/// The vector that line `line` maps to on a chip programmed with `offset`.
/// Vectors are bytes, so the sum is taken modulo 256.
pub open spec fn vector_of(offset: u8, line: u8) -> u8 {
    ((offset as int + line as int) % 256) as u8
}

/// The register left by a non-specific end of interrupt: the lowest-numbered
/// in-service bit is cleared.
pub open spec fn isr_after_eoi(isr: u8) -> u8 {
    if isr == 0 {
        0
    } else {
        clear_bit(isr, lowest_set_bit(isr))
    }
}

/// Injection requests for the lines below `n` that are pending in `irr`,
/// lowest line first.
pub open spec fn reinjections(irr: u8, offset: u8, n: nat) -> Seq<HostRequest>
    decreases n,
{
    if n == 0 {
        seq![]
    } else {
        let i = (n - 1) as u8;
        let before = reinjections(irr, offset, (n - 1) as nat);
        if bit_set(irr, i) {
            before.push(HostRequest::InjectVector(vector_of(offset, i)))
        } else {
            before
        }
    }
}

/// Whether a command byte is one this emulation accepts: any command
/// without the initialization bit, or an initialization command that sets
/// nothing but the mode-word bit besides.
pub open spec fn command_supported(cmd: u8) -> bool {
    cmd & ICW1_INIT == 0 || cmd & !(ICW1_INIT | ICW1_ICW4) == 0
}

/// One emulated 8259A chip.
pub struct I8259A {
    /// Interrupt request register: lines waiting for delivery.
    pub irr: u8,
    /// In-service register: lines delivered and not yet ended.
    pub isr: u8,
    /// Interrupt mask register: lines that are disabled.
    pub imr: u8,
    /// Base vector: line `i` maps to vector `offset + i`.
    pub offset: u8,
    /// For the master, the line the slave is wired to.
    pub icw3: u8,
    /// Position in the initialization sequence.
    pub init_stage: InitStage,
    /// Value returned by the next command-port read.
    pub cmd_latch: u8,
}

impl I8259A {
    /// The state at power-on: every register zero, not initialized.
    pub open spec fn is_reset(self) -> bool {
        &&& self.irr == 0
        &&& self.isr == 0
        &&& self.imr == 0
        &&& self.offset == 0
        &&& self.icw3 == 0
        &&& self.init_stage == InitStage::NotInitialized
        &&& self.cmd_latch == 0
    }

    /// The initialization sequence is complete.
    pub open spec fn ready(&self) -> bool {
        self.init_stage == InitStage::Ready
    }

    /// Whether `assert_irq(line)` records and forwards the line.
    pub open spec fn accepts_line(&self, line: u8) -> bool {
        self.ready() && !bit_set(self.imr, line)
    }

    /// The chip after `assert_irq(line)`.
    pub open spec fn after_assert(self, line: u8) -> I8259A {
        if self.accepts_line(line) {
            I8259A { irr: with_bit(self.irr, line), ..self }
        } else {
            self
        }
    }

    /// The host requests made by `assert_irq(line)`.
    pub open spec fn assert_requests(self, line: u8) -> Seq<HostRequest> {
        if self.accepts_line(line) {
            seq![HostRequest::InjectVector(vector_of(self.offset, line))]
        } else {
            seq![]
        }
    }

    /// The line that `vec` stands for on this chip.
    pub open spec fn line_of(self, vec: u8) -> u8 {
        (vec - self.offset) as u8
    }

    /// Whether `vec` can be acknowledged: it maps to a line of this chip
    /// whose request is pending.
    pub open spec fn ack_allowed(self, vec: u8) -> bool {
        &&& self.offset <= vec
        &&& vec - self.offset < 8
        &&& bit_set(self.irr, self.line_of(vec))
    }

    /// The chip after `ack(vec)`.
    pub open spec fn after_ack(self, vec: u8) -> I8259A {
        I8259A {
            irr: clear_bit(self.irr, self.line_of(vec)),
            isr: with_bit(self.isr, self.line_of(vec)),
            ..self
        }
    }

    /// The chip after `write_command(cmd)`.
    pub open spec fn after_command(self, cmd: u8) -> I8259A {
        if cmd & ICW1_INIT != 0 {
            I8259A { imr: 0, init_stage: InitStage::AwaitingOffset, ..self }
        } else if cmd == READ_IRR {
            I8259A { cmd_latch: self.irr, ..self }
        } else if cmd == READ_ISR {
            I8259A { cmd_latch: self.isr, ..self }
        } else if cmd == EOI {
            I8259A { isr: isr_after_eoi(self.isr), ..self }
        } else {
            self
        }
    }

    /// The host requests made by `write_command(cmd)`.
    pub open spec fn command_requests(self, cmd: u8) -> Seq<HostRequest> {
        if cmd & ICW1_INIT != 0 && self.irr != 0 {
            seq![HostRequest::CancelPending]
        } else {
            seq![]
        }
    }

    /// Whether a data-port write of `value` is accepted in the current stage:
    /// only the supported mode word may end the initialization sequence.
    pub open spec fn data_accepted(self, value: u8) -> bool {
        self.init_stage == InitStage::AwaitingMode ==> value == ICW4_8086
    }

    /// The chip after `write_data(value)`.
    pub open spec fn after_data(self, value: u8) -> I8259A {
        match self.init_stage {
            InitStage::AwaitingOffset => I8259A {
                offset: value,
                init_stage: InitStage::AwaitingCascadeWord,
                ..self
            },
            InitStage::AwaitingCascadeWord => I8259A {
                icw3: value,
                init_stage: InitStage::AwaitingMode,
                ..self
            },
            InitStage::AwaitingMode => I8259A { init_stage: InitStage::Ready, ..self },
            _ => I8259A { imr: value, ..self },
        }
    }

    /// The host requests made by `write_data(value)`.
    pub open spec fn data_requests(self, value: u8) -> Seq<HostRequest> {
        if self.init_stage == InitStage::AwaitingMode {
            reinjections(self.irr, self.offset, 8)
        } else {
            seq![]
        }
    }

    /// A chip fresh from reset: all registers zero, not initialized.
    pub fn default() -> (r: I8259A)
        ensures
            r.is_reset(),
    {
        I8259A {
            irr: 0,
            isr: 0,
            imr: 0,
            offset: 0,
            icw3: 0,
            init_stage: InitStage::NotInitialized,
            cmd_latch: 0,
        }
    }

    /// Whether the initialization sequence has completed.
    pub fn is_initialized(&self) -> (r: bool)
        ensures
            r == self.ready(),
    {
        matches!(self.init_stage, InitStage::Ready)
    }

    /// The line of the master that the slave is wired to.
    pub fn slave_irq(&self) -> (r: u8)
        ensures
            r == self.icw3,
    {
        self.icw3
    }

    /// Asserts line `line`. On an initialized chip where the line is not
    /// masked, the line becomes pending and its vector is requested; the
    /// request is made even when the line was pending already. Otherwise
    /// nothing changes and nothing is requested.
    pub fn assert_irq(&mut self, line: u8) -> (r: Vec<HostRequest>)
        requires
            line < 8,
        ensures
            *final(self) == old(self).after_assert(line),
            r@ == old(self).assert_requests(line),
    {
        if !self.is_initialized() {
            return Vec::new();
        }
        let mask: u8 = 1u8 << line;
        if (self.imr & mask) != 0 {
            return Vec::new();
        }
        self.irr = self.irr | mask;
        let mut r: Vec<HostRequest> = Vec::new();
        r.push(HostRequest::InjectVector(line.wrapping_add(self.offset)));
        r
    }

    /// Whether `vec` stands for a pending line of this chip, so that
    /// `ack(vec)` may be called.
    pub fn can_ack(&self, vec: u8) -> (r: bool)
        ensures
            r == self.ack_allowed(vec),
    {
        vec >= self.offset && vec - self.offset < 8 && (self.irr & (1u8 << (vec - self.offset)))
            != 0
    }

    /// The host has handed vector `vec` to the CPU: its line moves from the
    /// request register to the in-service register.
    pub fn ack(&mut self, vec: u8)
        requires
            old(self).ack_allowed(vec),
        ensures
            *final(self) == old(self).after_ack(vec),
    {
        let line: u8 = vec - self.offset;
        self.isr = self.isr | (1u8 << line);
        self.irr = self.irr & !(1u8 << line);
    }

    /// Whether `write_command(cmd)` accepts `cmd`.
    pub fn accepts_command(cmd: u8) -> (r: bool)
        ensures
            r == command_supported(cmd),
    {
        cmd & ICW1_INIT == 0 || cmd & !(ICW1_INIT | ICW1_ICW4) == 0
    }

    /// A write to the command port.
    ///
    /// An initialization command unmasks every line and restarts the
    /// initialization sequence; when requests are pending it asks the host
    /// to cancel the injections requested for them, since their vectors are
    /// about to change. The request and in-service registers are kept.
    /// The two read commands latch the request or the in-service register
    /// for the next command-port read. An end of interrupt clears the
    /// lowest-numbered in-service bit, if any. Other commands are ignored.
    pub fn write_command(&mut self, cmd: u8) -> (r: Vec<HostRequest>)
        requires
            command_supported(cmd),
        ensures
            *final(self) == old(self).after_command(cmd),
            r@ == old(self).command_requests(cmd),
    {
        let mut r: Vec<HostRequest> = Vec::new();
        if cmd & ICW1_INIT != 0 {
            self.init_stage = InitStage::AwaitingOffset;
            self.imr = 0;
            if self.irr != 0 {
                r.push(HostRequest::CancelPending);
            }
        } else if cmd == READ_IRR {
            self.cmd_latch = self.irr;
        } else if cmd == READ_ISR {
            self.cmd_latch = self.isr;
        } else if cmd == EOI {
            if self.isr != 0 {
                let pos = lowest_bit(self.isr);
                self.isr = self.isr & !(1u8 << pos);
            }
        }
        r
    }

    /// A read of the command port: the last latched register.
    pub fn read_command(&self) -> (r: u8)
        ensures
            r == self.cmd_latch,
    {
        self.cmd_latch
    }

    /// A read of the data port: the interrupt mask.
    pub fn read_data(&self) -> (r: u8)
        ensures
            r == self.imr,
    {
        self.imr
    }

    /// Whether `write_data(value)` accepts `value` in the current stage.
    pub fn accepts_data(&self, value: u8) -> (r: bool)
        ensures
            r == self.data_accepted(value),
    {
        !matches!(self.init_stage, InitStage::AwaitingMode) || value == ICW4_8086
    }

    /// A write to the data port.
    ///
    /// During initialization the value is, in turn, the vector offset, the
    /// cascade word and the mode word. Once the mode word is in, the chip is
    /// ready and every line still pending is requested again, lowest line
    /// first, with the new offset. Outside initialization the value becomes
    /// the interrupt mask, also on a chip never initialized.
    pub fn write_data(&mut self, value: u8) -> (r: Vec<HostRequest>)
        requires
            old(self).data_accepted(value),
        ensures
            *final(self) == old(self).after_data(value),
            r@ == old(self).data_requests(value),
    {
        let mut r: Vec<HostRequest> = Vec::new();
        match self.init_stage {
            InitStage::AwaitingOffset => {
                self.offset = value;
                self.init_stage = InitStage::AwaitingCascadeWord;
            },
            InitStage::AwaitingCascadeWord => {
                self.icw3 = value;
                self.init_stage = InitStage::AwaitingMode;
            },
            InitStage::AwaitingMode => {
                self.init_stage = InitStage::Ready;
                let mut i: u8 = 0;
                while i < 8
                    invariant
                        i <= 8,
                        r@ == reinjections(self.irr, self.offset, i as nat),
                    decreases 8 - i,
                {
                    if (self.irr & (1u8 << i)) != 0 {
                        r.push(HostRequest::InjectVector(i.wrapping_add(self.offset)));
                    }
                    i = i + 1;
                }
            },
            _ => {
                self.imr = value;
            },
        }
        r
    }
}

/// The lowest-numbered bit set in a non-zero register.
fn lowest_bit(isr: u8) -> (pos: u8)
    requires
        isr != 0,
    ensures
        pos == lowest_set_bit(isr),
        pos < 8,
{
    let mut cur: u8 = isr;
    let mut pos: u8 = 0;
    assert(isr >> 0u8 == isr) by (bit_vector);
    while cur & 1 == 0
        invariant
            pos < 8,
            cur == isr >> pos,
            cur != 0,
            forall|j: u8| j < pos ==> !bit_set(isr, j),
        decreases 8 - pos,
    {
        proof {
            lemma_shift_step(isr, pos);
        }
        pos = pos + 1;
        cur = cur >> 1;
    }
    proof {
        lemma_low_bit_of_shift(isr, pos);
        lemma_lowest_set_bit(isr);
    }
    pos
}

proof fn lemma_shift_step(x: u8, pos: u8)
    by (bit_vector)
    requires
        pos < 8,
        x >> pos != 0,
        (x >> pos) & 1 == 0,
    ensures
        pos < 7,
        x >> ((pos + 1) as u8) == (x >> pos) >> 1u8,
        (x >> pos) >> 1u8 != 0,
        !bit_set(x, pos),
{
}

proof fn lemma_low_bit_of_shift(x: u8, pos: u8)
    by (bit_vector)
    requires
        pos < 8,
        (x >> pos) & 1 != 0,
    ensures
        bit_set(x, pos),
{
}

} // verus!
