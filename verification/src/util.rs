//! Dice arithmetic shared by the generator and the renderer.

use crate::draws::{is_face, DiceSource};
use vstd::prelude::*;

verus! {

/// `n` restricted to the closed interval from `min` to `max`.
pub open spec fn clamped(n: int, min: int, max: int) -> int {
    if n < min {
        min
    } else if n > max {
        max
    } else {
        n
    }
}

/// The sum of the `count` faces that `drawn` holds from position `at` on.
pub open spec fn roll_total(drawn: Seq<int>, at: int, count: nat) -> int
    decreases count,
{
    if count == 0 {
        0
    } else {
        roll_total(drawn, at, (count - 1) as nat) + drawn[at + count - 1]
    }
}

/// Two histories hold the same faces at every position from `from` up to, not including, `to`.
pub open spec fn same_draws(a: Seq<int>, b: Seq<int>, from: int, to: int) -> bool {
    forall|i: int| #![trigger a[i]] #![trigger b[i]] from <= i < to ==> a[i] == b[i]
}

/// `after` is `before` with exactly `count` more faces drawn behind it.
pub open spec fn grew_by(before: Seq<int>, after: Seq<int>, count: int) -> bool {
    &&& after.len() == before.len() + count
    &&& same_draws(before, after, 0, before.len() as int)
    &&& forall|i: int| before.len() <= i < after.len() ==> is_face(#[trigger] after[i])
}

/// The two-digit hexadecimal alphabet, upper case, by value.
pub open spec fn hex_digits() -> Seq<char> {
    seq!['0', '1', '2', '3', '4', '5', '6', '7', '8', '9', 'A', 'B', 'C', 'D', 'E', 'F']
}

/// A roll reads nothing but its own `count` faces: histories that agree there total the same.
pub proof fn lemma_roll_total_same(a: Seq<int>, b: Seq<int>, at: int, count: nat)
    requires
        same_draws(a, b, at, at + count),
    ensures
        roll_total(a, at, count) == roll_total(b, at, count),
    decreases count,
{
    if count > 0 {
        lemma_roll_total_same(a, b, at, (count - 1) as nat);
        assert(a[at + count - 1] == b[at + count - 1]);
    }
}

/// A roll of `count` dice totals at least `count` and at most six times `count`.
pub proof fn lemma_roll_total_bounds(drawn: Seq<int>, at: int, count: nat)
    requires
        forall|i: int| at <= i < at + count ==> is_face(#[trigger] drawn[i]),
    ensures
        count <= roll_total(drawn, at, count) <= 6 * count,
    decreases count,
{
    if count > 0 {
        lemma_roll_total_bounds(drawn, at, (count - 1) as nat);
        assert(is_face(drawn[at + count - 1]));
    }
}

/// Throw `num_dice` six-sided dice and add `dice_modifer` to their sum.
pub fn dice<D: DiceSource>(num_dice: usize, dice_modifer: isize, rng: &mut D) -> (throw: isize)
    requires
        6 * num_dice <= isize::MAX,
        6 * num_dice + dice_modifer <= isize::MAX,
    ensures
        grew_by(old(rng).drawn(), final(rng).drawn(), num_dice as int),
        throw == roll_total(final(rng).drawn(), old(rng).drawn().len() as int, num_dice as nat)
            + dice_modifer,
{
    let ghost start = rng.drawn();
    let ghost at = start.len() as int;
    let mut throw: isize = 0;
    let mut thrown: usize = 0;
    while thrown < num_dice
        invariant
            thrown <= num_dice,
            6 * num_dice <= isize::MAX,
            at == start.len(),
            grew_by(start, rng.drawn(), thrown as int),
            throw == roll_total(rng.drawn(), at, thrown as nat),
            thrown <= throw <= 6 * thrown,
        decreases num_dice - thrown,
    {
        let ghost before = rng.drawn();
        let face = rng.draw();
        proof {
            lemma_roll_total_same(before, rng.drawn(), at, thrown as nat);
        }
        throw = throw + face;
        thrown = thrown + 1;
    }
    throw + dice_modifer
}

/// Clamp `n` between `min` and `max`, inclusive.
pub fn clamp(n: isize, min: isize, max: isize) -> (r: isize)
    requires
        min <= max,
    ensures
        r == clamped(n as int, min as int, max as int),
{
    if n < min {
        min
    } else if n > max {
        max
    } else {
        n
    }
}

/// Converts a single digit to its upper-case hexadecimal character.
pub fn code(digit: isize) -> (c: char)
    requires
        0 <= digit <= 15,
    ensures
        c == hex_digits()[digit as int],
{
    if digit < 10 {
        (48u8 + digit as u8) as char
    } else {
        (55u8 + digit as u8) as char
    }
}

} // verus!
