//! Random components, drawn with `fastrand`.

use vstd::prelude::*;

use crate::parse::{spec_rand_policy, RandPolicy};
use crate::space::ColorSpace;

verus! {

/// Relies on `fastrand::u8`: over the full range `..` it returns a byte.
#[verifier::external_body]
fn random_byte() -> (r: u8) {
    fastrand::u8(..)
}

/// Relies on `fastrand::u32`: on the non-empty range `lo..=hi` it returns a
/// value inside that range (it panics only on an empty range).
#[verifier::external_body]
fn random_u32(lo: u32, hi: u32) -> (r: u32)
    requires
        lo <= hi,
    ensures
        lo <= r <= hi,
{
    fastrand::u32(lo..=hi)
}

/// Whether `v` is a value that `policy` may draw.
pub open spec fn admits(policy: RandPolicy, v: u32) -> bool {
    match policy {
        RandPolicy::Byte => v <= 255,
        RandPolicy::Unit => false,
        RandPolicy::Below(n) => v < n,
        RandPolicy::Through(n) => v <= n,
    }
}

/// Draws an integer as `policy` says. Fractions (`Unit`) and the empty range
/// `Below(0)` give `None`.
pub fn draw_integer(policy: RandPolicy) -> (r: Option<u32>)
    ensures
        r is Some <==> (policy != RandPolicy::Unit && policy != RandPolicy::Below(0)),
        r matches Some(v) ==> admits(policy, v),
{
    match policy {
        RandPolicy::Byte => Some(random_byte() as u32),
        RandPolicy::Unit => None,
        RandPolicy::Below(n) => if n == 0 { None } else { Some(random_u32(0, n - 1)) },
        RandPolicy::Through(n) => Some(random_u32(0, n)),
    }
}

/// Three random channels of an RGB color.
pub fn random_rgb() -> (r: (u8, u8, u8)) {
    (random_byte(), random_byte(), random_byte())
}

/// A random component is valid where it stands: every integer that `rand`
/// may draw for component `i` of `space` lies in that component's range, and
/// where it draws a fraction in `0..1`, the range holds all of `0..=1`.
pub proof fn lemma_rand_fits_range(space: ColorSpace, i: int, v: u32)
    requires
        0 <= i < space.arity(),
        spec_rand_policy(space, i) is Some,
    ensures
        (space.spec_range(i) is Some && admits(spec_rand_policy(space, i)->0, v))
            ==> ((space.spec_range(i)->0).min <= v && v <= (space.spec_range(i)->0).max),
        (space.spec_range(i) is Some && spec_rand_policy(space, i) == Some(RandPolicy::Unit))
            ==> ((space.spec_range(i)->0).min <= 0 && 1 <= (space.spec_range(i)->0).max),
{
}

} // verus!
