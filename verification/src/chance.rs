use crate::dancers::{FULL_TURN, TIMER_UNIT};
use vstd::prelude::*;

verus! {

/// Calls `rand::random` for sixty-four bits from the thread's generator.
/// Nothing is claimed of the bits that come back.
#[verifier::external_body]
fn random_bits() -> (bits: u64) {
    rand::random::<u64>()
}

/// The share of `whole` that the top fifty-three bits of `bits` stand for
/// when read as a fraction of one, rounded down.
pub open spec fn share(bits: u64, whole: u64) -> int {
    (bits as int / 0x800) * whole / 0x20_0000_0000_0000
}

/// Turns random bits into a number below `whole`, as `share` defines it.
pub fn scale(bits: u64, whole: u64) -> (part: u64)
    ensures
        part == share(bits, whole),
        whole > 0 ==> part < whole,
        whole == 0 ==> part == 0,
{
    let top: u128 = (bits / 0x800) as u128;
    let all: u128 = whole as u128;
    assert(top * all <= 0x1F_FFFF_FFFF_FFFF * all && top * all >= 0 && (all > 0 ==> top * all
        / 0x20_0000_0000_0000 < all) && (all == 0 ==> top * all == 0)) by (nonlinear_arith)
        requires
            0 <= top <= 0x1F_FFFF_FFFF_FFFF,
            0 <= all,
    ;
    (top * all / 0x20_0000_0000_0000) as u64
}

/// A random angle below a full turn: the share of a full turn that some
/// sixty-four random bits stand for.
pub fn roll_angle() -> (angle: u32)
    ensures
        angle < FULL_TURN,
        exists|bits: u64| angle == #[trigger] share(bits, FULL_TURN as u64),
{
    let bits = random_bits();
    let angle = scale(bits, FULL_TURN as u64) as u32;
    assert(angle == share(bits, FULL_TURN as u64));
    angle
}

/// A random movement timer below one unit: the share of one unit that some
/// sixty-four random bits stand for.
pub fn roll_interval() -> (interval: u64)
    ensures
        interval < TIMER_UNIT,
        exists|bits: u64| interval == #[trigger] share(bits, TIMER_UNIT),
{
    let bits = random_bits();
    let interval = scale(bits, TIMER_UNIT);
    assert(interval == share(bits, TIMER_UNIT));
    interval
}

} // verus!
