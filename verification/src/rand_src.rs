//! The stochastic source: uniform fixed-point samples drawn from the
//! operating system's entropy, and the rejection sampler for points inside
//! the unit ball.

use vstd::prelude::*;
use getrandom::getrandom;
use crate::fixed::{fadd, fmul, fsub, sp_add, sp_mul, sp_sub, ONE, RAW_MAX, SCALE};
use crate::vec3::{v_dot, Vec3};

verus! {

/// Relies on getrandom::getrandom: fills a four-byte buffer with entropy from
/// the operating system. Nothing is promised of the value: the draw depends
/// on the OS entropy source, and a failed call leaves whatever the buffer
/// held, so every `u32` is a possible outcome.
#[verifier::external_body]
fn random_u32() -> (r: u32)
{
    let mut buf = [0u8; 4];
    let _ = getrandom(&mut buf);
    u32::from_ne_bytes(buf)
}

/// The fixed-point value a 32-bit draw stands for: `u * SCALE` divided by
/// `u32::MAX - 1`, rounded down; always within `[0, ONE]`.
pub open spec fn unit_of(u: int) -> int {
    u * (SCALE as int) / 0xffff_fffe
}

/// Convert a 32-bit draw into a uniform fixed-point sample in `[0, ONE]`.
pub fn unit_from_u32(u: u32) -> (r: i64)
    ensures
        r as int == unit_of(u as int),
        0 <= r <= ONE,
{
    proof {
        assert((u as int) * (SCALE as int) <= 0xffff_ffff * 1_000_000) by (nonlinear_arith)
            requires 0 <= (u as int) <= 0xffff_ffff, SCALE as int == 1_000_000;
    }
    let num: u64 = (u as u64) * (SCALE as u64);
    let q: u64 = num / 0xffff_fffe;
    proof {
        assert(num as int <= 0xffff_ffff * (SCALE as int)) by (nonlinear_arith)
            requires num as int == (u as int) * (SCALE as int), u as int <= 0xffff_ffff;
        vstd::arithmetic::div_mod::lemma_div_is_ordered(
            num as int,
            0xffff_ffff * (SCALE as int),
            0xffff_fffe,
        );
        assert(0xffff_ffff * 1_000_000 / 0xffff_fffe == 1_000_000) by (nonlinear_arith);
    }
    q as i64
}

/// A uniform sample in `[0, ONE]`, one raw unit per draw of OS entropy.
pub fn rand_unit() -> (r: i64)
    ensures 0 <= r <= ONE,
{
    unit_from_u32(random_u32())
}

/// A uniform sample in `[min, max]` (for `min <= max`): `min + u * (max - min)`
/// for a uniform `u` in `[0, ONE]`; for representable bounds in order the
/// result stays within them.
pub fn rand_min_max(min: i64, max: i64) -> (r: i64)
    ensures
        exists|u: int|
            0 <= u <= ONE as int && r as int == sp_add(
                min as int,
                sp_mul(u, sp_sub(max as int, min as int)),
            ),
        (-RAW_MAX <= min && min <= max) ==> (min <= r && r <= max),
{
    let u: i64 = rand_unit();
    let r: i64 = fadd(min, fmul(u, fsub(max, min)));
    proof {
        assert(0 <= u as int <= ONE as int && r as int == sp_add(
            min as int,
            sp_mul(u as int, sp_sub(max as int, min as int)),
        ));
        if -RAW_MAX <= min && min <= max {
            crate::fixed::lemma_affine_unit_range(min as int, max as int, u as int);
        }
    }
    r
}

/// Rejection-sample a point uniformly inside the unit ball: draw each
/// component uniform in `[-1, 1]` and retry while the squared length is not
/// below one. The retry count is bounded; if every draw is rejected (vanishing
/// probability), the center of the ball is returned.
pub fn random_in_unit_sphere() -> (r: Vec3)
    ensures v_dot(r@, r@) < ONE as int,
{
    let mut tries: usize = 0;
    while tries < 64
        invariant tries <= 64,
        decreases 64 - tries,
    {
        let x: i64 = fsub(fadd(rand_unit(), rand_unit()), ONE);
        let y: i64 = fsub(fadd(rand_unit(), rand_unit()), ONE);
        let z: i64 = fsub(fadd(rand_unit(), rand_unit()), ONE);
        let p: Vec3 = Vec3::new(x, y, z);
        if p.length_squared() < ONE {
            return p;
        }
        tries = tries + 1;
    }
    Vec3::zero()
}

} // verus!
