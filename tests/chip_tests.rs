use i8259::chip::{
    HostRequest, I8259A, InitStage, EOI, ICW1_ICW4, ICW1_INIT, ICW4_8086, READ_IRR, READ_ISR,
};

fn init_common(offset: u8, mask: u8, cascade: u8) -> I8259A {
    let mut dev = I8259A::default();
    assert!(!dev.is_initialized());

    dev.write_command(ICW1_INIT | ICW1_ICW4);
    assert!(!dev.is_initialized());

    dev.write_data(offset);
    assert!(!dev.is_initialized());

    dev.write_data(cascade);
    assert!(!dev.is_initialized());

    dev.write_data(ICW4_8086);
    assert!(dev.is_initialized());

    dev.write_data(mask);
    assert!(dev.read_data() == mask);

    dev
}

#[test]
fn init() {
    let dev = init_common(0x08, 0xAB, 0x02);
    assert!(dev.is_initialized());
}

#[test]
fn init_sequence_stages() {
    let mut dev = I8259A::default();
    assert_eq!(dev.init_stage, InitStage::NotInitialized);
    assert_eq!(dev.write_command(0x11), vec![]);
    assert_eq!(dev.init_stage, InitStage::AwaitingOffset);
    assert_eq!(dev.write_data(0x08), vec![]);
    assert_eq!(dev.init_stage, InitStage::AwaitingCascadeWord);
    assert_eq!(dev.write_data(0x02), vec![]);
    assert_eq!(dev.init_stage, InitStage::AwaitingMode);
    assert_eq!(dev.write_data(0x01), vec![]);
    assert_eq!(dev.init_stage, InitStage::Ready);
    assert_eq!(dev.offset, 0x08);
    assert_eq!(dev.slave_irq(), 0x02);
    dev.write_data(0xAB);
    assert_eq!(dev.read_data(), 0xAB);
    assert!(dev.is_initialized());
}

#[test]
fn assert_unmasked_line_sets_irr_and_injects_once() {
    let mut dev = init_common(0x20, 0x00, 0x00);
    let r = dev.assert_irq(3);
    assert_eq!(r, vec![HostRequest::InjectVector(0x23)]);
    assert_eq!(dev.irr, 0b0000_1000);
}

#[test]
fn assert_masked_line_is_noop() {
    let mut dev = init_common(0x20, 0b0000_1000, 0x00);
    let r = dev.assert_irq(3);
    assert!(r.is_empty());
    assert_eq!(dev.irr, 0);
    let r = dev.assert_irq(2);
    assert_eq!(r, vec![HostRequest::InjectVector(0x22)]);
    assert_eq!(dev.irr, 0b0000_0100);
}

#[test]
fn assert_before_init_is_noop() {
    let mut dev = I8259A::default();
    assert!(dev.assert_irq(0).is_empty());
    assert_eq!(dev.irr, 0);
    dev.write_command(0x11);
    dev.write_data(0x08);
    assert!(dev.assert_irq(1).is_empty());
    dev.write_data(0x02);
    assert!(dev.assert_irq(1).is_empty());
    assert_eq!(dev.irr, 0);
}

#[test]
fn reassert_pending_line_requests_again() {
    let mut dev = init_common(0x08, 0x00, 0x00);
    assert_eq!(dev.assert_irq(5), vec![HostRequest::InjectVector(0x0D)]);
    assert_eq!(dev.assert_irq(5), vec![HostRequest::InjectVector(0x0D)]);
    assert_eq!(dev.irr, 0b0010_0000);
}

#[test]
fn vector_wraps_at_byte_width() {
    let mut dev = init_common(0xFC, 0x00, 0x00);
    assert_eq!(dev.assert_irq(5), vec![HostRequest::InjectVector(0x01)]);
}

#[test]
fn ack_moves_line_from_irr_to_isr() {
    let mut dev = init_common(0x08, 0x00, 0x00);
    dev.assert_irq(1);
    dev.assert_irq(6);
    assert!(dev.can_ack(0x0E));
    dev.ack(0x0E);
    assert_eq!(dev.irr, 0b0000_0010);
    assert_eq!(dev.isr, 0b0100_0000);
}

#[test]
fn ack_of_vector_not_pending_is_refused() {
    let mut dev = init_common(0x08, 0x00, 0x00);
    dev.assert_irq(1);
    assert!(!dev.can_ack(0x0A));
    assert!(!dev.can_ack(0x07));
    assert!(!dev.can_ack(0x10));
    assert!(dev.can_ack(0x09));
}

#[test]
fn eoi_clears_lowest_in_service_bit_first() {
    let mut dev = I8259A::default();
    dev.isr = 0b0000_1010;
    assert!(dev.write_command(EOI).is_empty());
    assert_eq!(dev.isr, 0b0000_1000);
    dev.write_command(EOI);
    assert_eq!(dev.isr, 0);
    dev.write_command(EOI);
    assert_eq!(dev.isr, 0);
}

#[test]
fn eoi_after_assert_and_ack() {
    let mut dev = init_common(0x08, 0x00, 0x00);
    dev.assert_irq(7);
    dev.ack(0x0F);
    dev.write_command(EOI);
    assert_eq!(dev.isr, 0);
    assert_eq!(dev.irr, 0);
}

#[test]
fn read_commands_latch_registers() {
    let mut dev = I8259A::default();
    dev.irr = 0x5A;
    dev.isr = 0x81;
    dev.write_command(READ_IRR);
    assert_eq!(dev.read_command(), 0x5A);
    assert_eq!(dev.read_command(), 0x5A);
    dev.write_command(READ_ISR);
    assert_eq!(dev.read_command(), 0x81);
}

#[test]
fn unknown_command_is_ignored() {
    let mut dev = init_common(0x08, 0x3C, 0x04);
    dev.isr = 0x02;
    assert!(dev.write_command(0x0C).is_empty());
    assert_eq!(dev.isr, 0x02);
    assert_eq!(dev.imr, 0x3C);
    assert_eq!(dev.cmd_latch, 0);
    assert_eq!(dev.init_stage, InitStage::Ready);
}

#[test]
fn reinit_with_pending_line_cancels_then_reinjects() {
    let mut dev = init_common(0x08, 0x00, 0x00);
    dev.assert_irq(4);
    assert_eq!(dev.write_command(0x11), vec![HostRequest::CancelPending]);
    assert_eq!(dev.irr, 0b0001_0000);
    assert_eq!(dev.imr, 0);
    assert!(dev.write_data(0x30).is_empty());
    assert!(dev.write_data(0x00).is_empty());
    assert_eq!(dev.write_data(ICW4_8086), vec![HostRequest::InjectVector(0x34)]);
    assert_eq!(dev.irr, 0b0001_0000);
}

#[test]
fn reinit_reinjects_pending_lines_lowest_first() {
    let mut dev = init_common(0x08, 0x00, 0x00);
    dev.assert_irq(6);
    dev.assert_irq(0);
    dev.write_command(0x10);
    dev.write_data(0x40);
    dev.write_data(0x00);
    assert_eq!(
        dev.write_data(ICW4_8086),
        vec![HostRequest::InjectVector(0x40), HostRequest::InjectVector(0x46)]
    );
}

#[test]
fn reinit_without_pending_lines_requests_nothing() {
    let mut dev = init_common(0x08, 0xFF, 0x00);
    dev.isr = 0x01;
    assert!(dev.write_command(0x11).is_empty());
    assert_eq!(dev.isr, 0x01);
    assert_eq!(dev.imr, 0);
}

#[test]
fn data_write_before_init_sets_mask() {
    let mut dev = I8259A::default();
    assert!(dev.write_data(0x42).is_empty());
    assert_eq!(dev.read_data(), 0x42);
    assert_eq!(dev.init_stage, InitStage::NotInitialized);
}

#[test]
fn unsupported_init_command_and_mode_are_refused() {
    assert!(I8259A::accepts_command(0x11));
    assert!(I8259A::accepts_command(0x10));
    assert!(I8259A::accepts_command(0x0A));
    assert!(!I8259A::accepts_command(0x13));
    assert!(!I8259A::accepts_command(0x19));
    let mut dev = I8259A::default();
    assert!(dev.accepts_data(0x03));
    dev.write_command(0x11);
    dev.write_data(0x08);
    dev.write_data(0x02);
    assert!(!dev.accepts_data(0x03));
    assert!(dev.accepts_data(ICW4_8086));
}
