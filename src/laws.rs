use vstd::prelude::*;
use crate::bits::{
    bit_set, is_lowest_set_bit, lemma_clear_bit, lemma_lowest_set_bit, lemma_two_bits,
    lemma_with_bit,
};
use crate::chip::{
    command_supported, isr_after_eoi, reinjections, vector_of, HostRequest, I8259A, InitStage,
    EOI, ICW1_INIT, ICW4_8086,
};

verus! {

/// How many times `x` occurs in `s`.
pub open spec fn count_of(s: Seq<HostRequest>, x: HostRequest) -> nat
    decreases s.len(),
{
    if s.len() == 0 {
        0
    } else {
        count_of(s.drop_last(), x) + if s.last() == x {
            1nat
        } else {
            0nat
        }
    }
}

/// Acknowledging the vector of a line that an assertion has just made
/// pending is allowed, and moves that line from the request register to
/// the in-service register.
pub proof fn lemma_ack_after_assert(c: I8259A, line: u8)
    requires
        line < 8,
        c.accepts_line(line),
        c.offset + line <= 255,
    ensures
        ({
            let a = c.after_assert(line);
            let v = vector_of(c.offset, line);
            &&& v == c.offset + line
            &&& a.ack_allowed(v)
            &&& !bit_set(a.after_ack(v).irr, line)
            &&& bit_set(a.after_ack(v).isr, line)
        }),
{
    let a = c.after_assert(line);
    let v = vector_of(c.offset, line);
    assert(a.line_of(v) == line);
    lemma_with_bit(c.irr, line, line);
    lemma_clear_bit(a.irr, line, line);
    lemma_with_bit(c.isr, line, line);
}

/// With exactly two lines in service, a first end of interrupt ends the
/// lower-numbered one and a second ends the other.
pub proof fn lemma_eoi_lowest_first(c: I8259A, i: u8, j: u8)
    requires
        i < j,
        j < 8,
        c.isr == (1u8 << i) | (1u8 << j),
    ensures
        c.after_command(EOI).isr == 1u8 << j,
        c.after_command(EOI).after_command(EOI).isr == 0,
{
    let r = (1u8 << i) | (1u8 << j);
    let s = 1u8 << j;
    assert(EOI & ICW1_INIT == 0) by (bit_vector);
    lemma_two_bits(i, j, 0);
    assert forall|k: u8| k < i implies !bit_set(r, k) by {
        lemma_two_bits(i, j, k);
    }
    assert(is_lowest_set_bit(r, i));
    lemma_lowest_set_bit(r);
    assert(isr_after_eoi(r) == s);
    assert forall|k: u8| k < j implies !bit_set(s, k) by {
        lemma_two_bits(i, j, k);
    }
    assert(is_lowest_set_bit(s, j));
    lemma_lowest_set_bit(s);
    assert(isr_after_eoi(s) == 0);
}

/// The initialization sequence, from any state: after the initialization
/// command, the offset and the cascade word the chip is not initialized;
/// after the mode word it is, with the offset and cascade word written.
/// Each of the four writes is accepted.
pub proof fn lemma_init_sequence(c: I8259A, cmd: u8, offset: u8, cascade: u8)
    requires
        cmd & ICW1_INIT != 0,
        command_supported(cmd),
    ensures
        ({
            let c1 = c.after_command(cmd);
            let c2 = c1.after_data(offset);
            let c3 = c2.after_data(cascade);
            let c4 = c3.after_data(ICW4_8086);
            &&& c1.init_stage == InitStage::AwaitingOffset && !c1.ready()
            &&& c2.init_stage == InitStage::AwaitingCascadeWord && !c2.ready()
            &&& c3.init_stage == InitStage::AwaitingMode && !c3.ready()
            &&& c4.ready()
            &&& c1.data_accepted(offset) && c2.data_accepted(cascade) && c3.data_accepted(
                ICW4_8086,
            )
            &&& c4.offset == offset && c4.icw3 == cascade && c4.imr == 0
        }),
{
}

/// The requests re-issued at the end of initialization hold the vector of
/// each pending line below `n` exactly once, and no other line's vector.
proof fn lemma_reinjection_count(irr: u8, offset: u8, n: nat, line: u8)
    requires
        n <= 8,
        line < 8,
    ensures
        count_of(reinjections(irr, offset, n), HostRequest::InjectVector(vector_of(offset, line)))
            == if line < n && bit_set(irr, line) {
            1nat
        } else {
            0nat
        },
    decreases n,
{
    let x = HostRequest::InjectVector(vector_of(offset, line));
    if n > 0 {
        let i = (n - 1) as u8;
        let before = reinjections(irr, offset, (n - 1) as nat);
        lemma_reinjection_count(irr, offset, (n - 1) as nat, line);
        if bit_set(irr, i) {
            let y = HostRequest::InjectVector(vector_of(offset, i));
            assert(before.push(y).drop_last() =~= before);
            assert((y == x) == (i == line));
        }
    }
}

/// Re-initializing a chip while line `line` is pending asks once for the
/// pending injections to be cancelled, asks nothing while the offset and
/// cascade word are written, and, once the mode word is in, asks exactly
/// once for the line's vector under the new offset. The line stays
/// pending throughout.
pub proof fn lemma_reinit_with_pending_line(
    c: I8259A,
    line: u8,
    cmd: u8,
    offset: u8,
    cascade: u8,
)
    requires
        line < 8,
        bit_set(c.irr, line),
        cmd & ICW1_INIT != 0,
        command_supported(cmd),
    ensures
        ({
            let c1 = c.after_command(cmd);
            let c2 = c1.after_data(offset);
            let c3 = c2.after_data(cascade);
            let c4 = c3.after_data(ICW4_8086);
            let x = HostRequest::InjectVector(vector_of(offset, line));
            &&& c.command_requests(cmd) == seq![HostRequest::CancelPending]
            &&& c1.data_requests(offset) == Seq::<HostRequest>::empty()
            &&& c2.data_requests(cascade) == Seq::<HostRequest>::empty()
            &&& count_of(c3.data_requests(ICW4_8086), x) == 1
            &&& bit_set(c1.irr, line) && bit_set(c2.irr, line) && bit_set(c3.irr, line)
            &&& bit_set(c4.irr, line)
        }),
{
    let irr = c.irr;
    assert(irr & (1u8 << line) != 0 ==> irr != 0) by (bit_vector);
    let c3 = c.after_command(cmd).after_data(offset).after_data(cascade);
    lemma_reinjection_count(c3.irr, c3.offset, 8, line);
}

} // verus!
