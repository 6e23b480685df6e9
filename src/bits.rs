use vstd::prelude::*;

verus! {

/// Whether bit `i` of the 8-bit register `r` is set.
pub open spec fn bit_set(r: u8, i: u8) -> bool {
    r & (1u8 << i) != 0
}

/// `i` is the lowest-numbered bit set in `r`.
pub open spec fn is_lowest_set_bit(r: u8, i: u8) -> bool {
    &&& i < 8
    &&& bit_set(r, i)
    &&& forall|j: u8| j < i ==> !bit_set(r, j)
}

/// The lowest-numbered bit set in a non-zero register.
pub open spec fn lowest_set_bit(r: u8) -> u8
    recommends
        r != 0,
{
    choose|i: u8| is_lowest_set_bit(r, i)
}

/// `r` with bit `i` cleared.
pub open spec fn clear_bit(r: u8, i: u8) -> u8 {
    r & !(1u8 << i)
}

/// `r` with bit `i` set.
pub open spec fn with_bit(r: u8, i: u8) -> u8 {
    r | (1u8 << i)
}

/// A non-zero register has exactly one lowest set bit.
pub proof fn lemma_lowest_set_bit(r: u8)
    requires
        r != 0,
    ensures
        is_lowest_set_bit(r, lowest_set_bit(r)),
        forall|i: u8| is_lowest_set_bit(r, i) ==> i == lowest_set_bit(r),
{
    assert(bit_set(r, 0) || bit_set(r, 1) || bit_set(r, 2) || bit_set(r, 3) || bit_set(r, 4)
        || bit_set(r, 5) || bit_set(r, 6) || bit_set(r, 7)) by (bit_vector)
        requires
            r != 0,
    ;
    let k: u8 = if bit_set(r, 0) {
        0
    } else if bit_set(r, 1) {
        1
    } else if bit_set(r, 2) {
        2
    } else if bit_set(r, 3) {
        3
    } else if bit_set(r, 4) {
        4
    } else if bit_set(r, 5) {
        5
    } else if bit_set(r, 6) {
        6
    } else {
        7
    };
    assert forall|j: u8| j < k implies !bit_set(r, j) by {
        assert(j == 0 || j == 1 || j == 2 || j == 3 || j == 4 || j == 5 || j == 6);
    }
    assert(is_lowest_set_bit(r, k));
    lemma_lowest_unique(r);
}

proof fn lemma_lowest_unique(r: u8)
    requires
        exists|i: u8| is_lowest_set_bit(r, i),
    ensures
        is_lowest_set_bit(r, lowest_set_bit(r)),
        forall|i: u8| is_lowest_set_bit(r, i) ==> i == lowest_set_bit(r),
{
    let l = lowest_set_bit(r);
    assert forall|i: u8| is_lowest_set_bit(r, i) implies i == l by {
        if i < l {
            assert(!bit_set(r, i));
        } else if l < i {
            assert(!bit_set(r, l));
        }
    }
}

/// Setting bit `i` sets it and leaves bit `j != i` as it was.
pub proof fn lemma_with_bit(r: u8, i: u8, j: u8)
    by (bit_vector)
    requires
        i < 8,
        j < 8,
    ensures
        bit_set(with_bit(r, i), i),
        i != j ==> (bit_set(with_bit(r, i), j) == bit_set(r, j)),
{
}

/// Clearing bit `i` clears it and leaves bit `j != i` as it was.
pub proof fn lemma_clear_bit(r: u8, i: u8, j: u8)
    by (bit_vector)
    requires
        i < 8,
        j < 8,
    ensures
        !bit_set(clear_bit(r, i), i),
        i != j ==> (bit_set(clear_bit(r, i), j) == bit_set(r, j)),
{
}

/// Facts on the register holding exactly bits `i < j`, and on the one
/// holding bit `j` alone.
pub proof fn lemma_two_bits(i: u8, j: u8, k: u8)
    by (bit_vector)
    requires
        i < j,
        j < 8,
    ensures
        bit_set((1u8 << i) | (1u8 << j), i),
        k < i ==> !bit_set((1u8 << i) | (1u8 << j), k),
        clear_bit((1u8 << i) | (1u8 << j), i) == 1u8 << j,
        bit_set(1u8 << j, j),
        k < j ==> !bit_set(1u8 << j, k),
        clear_bit(1u8 << j, j) == 0,
        (1u8 << i) | (1u8 << j) != 0,
        1u8 << j != 0,
{
}

} // verus!
