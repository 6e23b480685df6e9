use vstd::prelude::*;
use crate::chip::{command_supported, HostRequest, I8259A};

verus! {

/// Command port of the master chip.
pub const PIC_MASTER_CMD: u16 = 0x20;

/// Data port of the master chip.
pub const PIC_MASTER_DATA: u16 = 0x21;

/// Command port of the slave chip.
pub const PIC_SLAVE_CMD: u16 = 0xA0;

/// Data port of the slave chip.
pub const PIC_SLAVE_DATA: u16 = 0xA1;

/// The master/slave pair: lines 0 to 7 on the master, 8 to 15 on the slave,
/// whose output is wired to the master's cascade line.
pub struct PIC {
    pub master: I8259A,
    pub slave: I8259A,
}

/// Whether `port` is one of the four ports of the pair.
pub open spec fn is_pic_port(port: u16) -> bool {
    port == PIC_MASTER_CMD || port == PIC_MASTER_DATA || port == PIC_SLAVE_CMD || port
        == PIC_SLAVE_DATA
}

impl PIC {
    /// Whether `assert_irq(line)` may be called: the line is one of the
    /// sixteen, and a slave line needs a master whose cascade line is one
    /// of its eight lines.
    pub open spec fn assert_allowed(self, line: u8) -> bool {
        &&& line <= 15
        &&& line >= 8 ==> self.master.icw3 < 8
    }

    /// The pair after `assert_irq(line)`.
    pub open spec fn after_assert(self, line: u8) -> PIC {
        if line < 8 {
            PIC { master: self.master.after_assert(line), slave: self.slave }
        } else {
            PIC {
                master: self.master.after_assert(self.master.icw3),
                slave: self.slave.after_assert((line - 8) as u8),
            }
        }
    }

    /// The host requests made by `assert_irq(line)`, the master's first.
    pub open spec fn assert_requests(self, line: u8) -> Seq<HostRequest> {
        if line < 8 {
            self.master.assert_requests(line)
        } else {
            self.master.assert_requests(self.master.icw3) + self.slave.assert_requests(
                (line - 8) as u8,
            )
        }
    }

    /// Whether `vec` goes to the slave: it is at or above the slave's offset.
    pub open spec fn routes_to_slave(self, vec: u8) -> bool {
        vec >= self.slave.offset
    }

    /// Whether `ack(vec)` may be called: the chip it is routed to has the
    /// vector's line pending.
    pub open spec fn ack_allowed(self, vec: u8) -> bool {
        if self.routes_to_slave(vec) {
            self.slave.ack_allowed(vec)
        } else {
            self.master.ack_allowed(vec)
        }
    }

    /// The pair after `ack(vec)`.
    pub open spec fn after_ack(self, vec: u8) -> PIC {
        if self.routes_to_slave(vec) {
            PIC { master: self.master, slave: self.slave.after_ack(vec) }
        } else {
            PIC { master: self.master.after_ack(vec), slave: self.slave }
        }
    }

    /// Whether `io_write(port, value)` may be called: the port is one of the
    /// pair's and the chip behind it accepts the value.
    pub open spec fn io_write_allowed(self, port: u16, value: u8) -> bool {
        if port == PIC_MASTER_CMD || port == PIC_SLAVE_CMD {
            command_supported(value)
        } else if port == PIC_MASTER_DATA {
            self.master.data_accepted(value)
        } else if port == PIC_SLAVE_DATA {
            self.slave.data_accepted(value)
        } else {
            false
        }
    }

    /// The pair after `io_write(port, value)`.
    pub open spec fn after_io_write(self, port: u16, value: u8) -> PIC {
        if port == PIC_MASTER_CMD {
            PIC { master: self.master.after_command(value), slave: self.slave }
        } else if port == PIC_MASTER_DATA {
            PIC { master: self.master.after_data(value), slave: self.slave }
        } else if port == PIC_SLAVE_CMD {
            PIC { master: self.master, slave: self.slave.after_command(value) }
        } else {
            PIC { master: self.master, slave: self.slave.after_data(value) }
        }
    }

    /// The host requests made by `io_write(port, value)`.
    pub open spec fn io_write_requests(self, port: u16, value: u8) -> Seq<HostRequest> {
        if port == PIC_MASTER_CMD {
            self.master.command_requests(value)
        } else if port == PIC_MASTER_DATA {
            self.master.data_requests(value)
        } else if port == PIC_SLAVE_CMD {
            self.slave.command_requests(value)
        } else {
            self.slave.data_requests(value)
        }
    }

    /// The byte that `io_read(port)` returns.
    pub open spec fn io_read_value(self, port: u16) -> u8 {
        if port == PIC_MASTER_DATA {
            self.master.imr
        } else if port == PIC_MASTER_CMD {
            self.master.cmd_latch
        } else if port == PIC_SLAVE_DATA {
            self.slave.imr
        } else if port == PIC_SLAVE_CMD {
            self.slave.cmd_latch
        } else {
            0
        }
    }

    /// Two chips fresh from reset.
    pub fn new() -> (r: PIC)
        ensures
            r.master.is_reset(),
            r.slave.is_reset(),
    {
        PIC { master: I8259A::default(), slave: I8259A::default() }
    }

    /// Whether `assert_irq(line)` may be called.
    pub fn can_assert_irq(&self, line: u8) -> (r: bool)
        ensures
            r == self.assert_allowed(line),
    {
        line <= 15 && (line < 8 || self.master.slave_irq() < 8)
    }

    /// Asserts line `line` of the pair. A master line goes to the master. A
    /// slave line goes to the master as its cascade line, then to the slave
    /// as the slave's own line; the requests of the two come in that order.
    pub fn assert_irq(&mut self, line: u8) -> (r: Vec<HostRequest>)
        requires
            old(self).assert_allowed(line),
        ensures
            *final(self) == old(self).after_assert(line),
            r@ == old(self).assert_requests(line),
    {
        if line < 8 {
            self.master.assert_irq(line)
        } else {
            let cascade_line = self.master.slave_irq();
            let mut r = self.master.assert_irq(cascade_line);
            let mut from_slave = self.slave.assert_irq(line - 8);
            r.append(&mut from_slave);
            r
        }
    }

    /// Whether `ack(vec)` may be called.
    pub fn can_ack(&self, vec: u8) -> (r: bool)
        ensures
            r == self.ack_allowed(vec),
    {
        if vec >= self.slave.offset {
            self.slave.can_ack(vec)
        } else {
            self.master.can_ack(vec)
        }
    }

    /// The host has delivered vector `vec`: vectors at or above the slave's
    /// offset are acknowledged on the slave, the others on the master.
    pub fn ack(&mut self, vec: u8)
        requires
            old(self).ack_allowed(vec),
        ensures
            *final(self) == old(self).after_ack(vec),
    {
        if vec >= self.slave.offset {
            self.slave.ack(vec);
        } else {
            self.master.ack(vec);
        }
    }

    /// A one-byte read of `port`: the latched status on a command port, the
    /// mask on a data port, zero on any other port.
    pub fn io_read(&self, port: u16) -> (r: u8)
        ensures
            r == self.io_read_value(port),
    {
        if port == PIC_MASTER_DATA {
            self.master.read_data()
        } else if port == PIC_MASTER_CMD {
            self.master.read_command()
        } else if port == PIC_SLAVE_DATA {
            self.slave.read_data()
        } else if port == PIC_SLAVE_CMD {
            self.slave.read_command()
        } else {
            0
        }
    }

    /// Whether `io_write(port, value)` may be called.
    pub fn can_io_write(&self, port: u16, value: u8) -> (r: bool)
        ensures
            r == self.io_write_allowed(port, value),
    {
        if port == PIC_MASTER_CMD || port == PIC_SLAVE_CMD {
            I8259A::accepts_command(value)
        } else if port == PIC_MASTER_DATA {
            self.master.accepts_data(value)
        } else if port == PIC_SLAVE_DATA {
            self.slave.accepts_data(value)
        } else {
            false
        }
    }

    /// A one-byte write of `value` to one of the pair's four ports, handed to
    /// the command or data port of the chip behind it.
    pub fn io_write(&mut self, port: u16, value: u8) -> (r: Vec<HostRequest>)
        requires
            old(self).io_write_allowed(port, value),
        ensures
            *final(self) == old(self).after_io_write(port, value),
            r@ == old(self).io_write_requests(port, value),
    {
        if port == PIC_MASTER_CMD {
            self.master.write_command(value)
        } else if port == PIC_MASTER_DATA {
            self.master.write_data(value)
        } else if port == PIC_SLAVE_CMD {
            self.slave.write_command(value)
        } else {
            self.slave.write_data(value)
        }
    }
}

} // verus!
