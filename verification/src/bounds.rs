//! Clamped index and window arithmetic shared by the navigation engine and
//! the viewport.

use vstd::prelude::*;

verus! {

/// Which way a relative move or a scroll goes.
#[derive(Clone, Copy, Debug, PartialEq, Eq, Structural)]
pub enum Direction {
    /// Towards index 0 (the top of the list, the start of the store).
    Up,
    /// Towards the last index (the bottom of the list, the end of the store).
    Down,
}

/// The signed offset that `amount` steps in `direction` stand for.
pub open spec fn signed_delta(direction: Direction, amount: nat) -> int {
    match direction {
        Direction::Up => -(amount as int),
        Direction::Down => amount as int,
    }
}

/// `value` forced into the closed interval `[low, high]`.
pub open spec fn clamp_into(value: int, low: int, high: int) -> int {
    if value < low {
        low
    } else if value > high {
        high
    } else {
        value
    }
}

/// The index reached from `current` by the offset `delta`, kept inside
/// `[0, max_index]`.
pub open spec fn clamp_move_spec(current: nat, delta: int, max_index: nat) -> nat {
    clamp_into(current + delta, 0, max_index as int) as nat
}

/// The largest index of a list of `len` items; 0 for the empty list, so that
/// index 0 is always in range.
pub open spec fn max_index_spec(len: nat) -> nat {
    if len == 0 {
        0
    } else {
        (len - 1) as nat
    }
}

/// The new offset of a window of `take` items that starts at `skip` when it is
/// moved by `amount` in `direction` over a store of `total` items, or `None`
/// when the move is rejected.
///
/// Moving up is rejected when the window already starts at 0 or would start
/// before 0. Moving down is rejected when `take + amount` exceeds `total`, or
/// when the new offset would not fit in a `usize`.
pub open spec fn window_extend_spec(
    skip: nat,
    take: nat,
    direction: Direction,
    amount: nat,
    total: nat,
) -> Option<nat> {
    match direction {
        Direction::Up => if skip == 0 || amount > skip {
            None
        } else {
            Some((skip - amount) as nat)
        },
        Direction::Down => if take + amount > total || skip + amount > usize::MAX {
            None
        } else {
            Some(skip + amount)
        },
    }
}

/// Largest valid index of a list of `len` items (0 when the list is empty).
pub fn max_index(len: usize) -> (r: usize)
    ensures
        r == max_index_spec(len as nat),
{
    if len == 0 {
        0
    } else {
        len - 1
    }
}

/// Moves `current` by `amount` steps in `direction`, saturating at both ends
/// of `[0, max_index]`.
pub fn clamp_move(current: usize, direction: Direction, amount: usize, max_index: usize) -> (r:
    usize)
    ensures
        r == clamp_move_spec(current as nat, signed_delta(direction, amount as nat), max_index as nat),
        r <= max_index,
{
    match direction {
        Direction::Up => {
            let moved: usize = if amount > current {
                0
            } else {
                current - amount
            };
            if moved > max_index {
                max_index
            } else {
                moved
            }
        },
        Direction::Down => {
            if current >= max_index {
                max_index
            } else if amount > max_index - current {
                max_index
            } else {
                current + amount
            }
        },
    }
}

/// Moves the window offset `skip` by `amount` in `direction`; `None` means the
/// move is rejected and the window stays where it is.
pub fn window_extend(skip: usize, take: usize, direction: Direction, amount: usize, total: usize) -> (r:
    Option<usize>)
    ensures
        r.is_some() == window_extend_spec(
            skip as nat,
            take as nat,
            direction,
            amount as nat,
            total as nat,
        ).is_some(),
        r.is_some() ==> r.unwrap() as nat == window_extend_spec(
            skip as nat,
            take as nat,
            direction,
            amount as nat,
            total as nat,
        ).unwrap(),
{
    match direction {
        Direction::Up => {
            if skip == 0 || amount > skip {
                None
            } else {
                Some(skip - amount)
            }
        },
        Direction::Down => {
            if take > total || amount > total - take {
                None
            } else if amount > usize::MAX - skip {
                None
            } else {
                Some(skip + amount)
            }
        },
    }
}

} // verus!
