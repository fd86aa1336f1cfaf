use vstd::prelude::*;

use vstd::arithmetic::div_mod::{lemma_fundamental_div_mod, lemma_fundamental_div_mod_converse};

verus! {

/// A selection index moved by `delta` places, wrapping around `count`
/// items (Euclidean remainder).
pub open spec fn wrapped(selected: int, delta: int, count: int) -> int {
    (selected + delta) % count
}

/// Moves a selection index by `delta`, wrapping around `count` items.
pub fn wrap_index(selected: usize, delta: isize, count: usize) -> (r: usize)
    requires
        count > 0,
    ensures
        r as int == wrapped(selected as int, delta as int, count as int),
        r < count,
{
    let x: i128 = selected as i128 + delta as i128;
    let n: u128 = count as u128;
    if x >= 0 {
        let r = (x as u128) % n;
        r as usize
    } else {
        let y: u128 = (0i128 - x) as u128;
        let m: u128 = y % n;
        proof {
            lemma_fundamental_div_mod(y as int, n as int);
            let q = (y as int) / (n as int);
            assert(y as int == q * (n as int) + (m as int)) by (nonlinear_arith)
                requires
                    y as int == (n as int) * q + (y as int) % (n as int),
                    m as int == (y as int) % (n as int),
            ;
            if m == 0 {
                assert(x as int == (-q) * (n as int) + 0) by (nonlinear_arith)
                    requires
                        y as int == q * (n as int),
                        x as int == -(y as int),
                ;
                lemma_fundamental_div_mod_converse(x as int, n as int, -q, 0);
            } else {
                assert(x as int == (-q - 1) * (n as int) + ((n as int) - (m as int))) by (
                nonlinear_arith)
                    requires
                        y as int == q * (n as int) + (m as int),
                        x as int == -(y as int),
                ;
                lemma_fundamental_div_mod_converse(
                    x as int,
                    n as int,
                    -q - 1,
                    (n as int) - (m as int),
                );
            }
        }
        if m == 0 {
            0
        } else {
            (n - m) as usize
        }
    }
}

/// A selection index kept inside `count` items: the last one when past the
/// end, zero when there are none.
pub open spec fn clamped(selected: int, count: int) -> int {
    if count <= 0 {
        0
    } else if selected >= count {
        count - 1
    } else {
        selected
    }
}

/// Keeps a selection index inside `count` items.
pub fn clamp_index(selected: usize, count: usize) -> (r: usize)
    ensures
        r as int == clamped(selected as int, count as int),
{
    if count == 0 {
        0
    } else if selected >= count {
        count - 1
    } else {
        selected
    }
}

/// Moving a selection by `delta` and back by `-delta` returns to where it
/// was, for any selection within the items.
pub proof fn law_wrapped_move_is_undone(selected: int, delta: int, count: int)
    requires
        count > 0,
        0 <= selected < count,
    ensures
        wrapped(wrapped(selected, delta, count), -delta, count) == selected,
{
    let m = wrapped(selected, delta, count);
    lemma_fundamental_div_mod(selected + delta, count);
    let q = (selected + delta) / count;
    assert(m + (-delta) == selected + (-q) * count) by (nonlinear_arith)
        requires
            selected + delta == count * q + m,
    ;
    lemma_fundamental_div_mod_converse(m + (-delta), count, -q, selected);
}

} // verus!
