//! Texture samplers: per-axis wrap modes mapping an arbitrary fixed-point
//! uv coordinate into `[0, 1]`.

use vstd::prelude::*;

use crate::fx::{emod_i64, FX_ONE};

verus! {

/// Per-axis wrap modes of a texture sampler.
#[derive(Clone, Copy, Debug, PartialEq, Eq, Structural)]
pub enum Wrap {
    ClampToEdge,
    Repeat,
    Mirror,
}

impl Default for Wrap {
    fn default() -> (r: Self)
        ensures
            r == Wrap::Repeat,
    {
        Wrap::Repeat
    }
}

/// A sampler: one wrap mode for the horizontal (u) axis and one for the
/// vertical (v) axis.
#[derive(Clone, Copy, Debug, PartialEq, Eq, Structural)]
pub struct Sampler {
    pub wrap_s: Wrap,
    pub wrap_t: Wrap,
}

impl Default for Sampler {
    fn default() -> (r: Self)
        ensures
            r == (Sampler { wrap_s: Wrap::Repeat, wrap_t: Wrap::Repeat }),
    {
        Sampler { wrap_s: Wrap::Repeat, wrap_t: Wrap::Repeat }
    }
}

/// Clamp a uv coordinate to `[0, 1]`.
pub open spec fn spec_clamp_to_edge(u: int) -> int {
    if u < 0 {
        0
    } else if u > FX_ONE as int {
        FX_ONE as int
    } else {
        u
    }
}

/// The fractional part `u - floor(u)`, in `[0, 1)`.
pub open spec fn spec_repeat(u: int) -> int {
    u % (FX_ONE as int)
}

/// Reflected repetition: the fractional part on even periods and its
/// reflection on odd ones, in `[0, 1]`.
pub open spec fn spec_mirror(u: int) -> int {
    if (u / (FX_ONE as int)) % 2 == 0 {
        u % (FX_ONE as int)
    } else {
        FX_ONE as int - u % (FX_ONE as int)
    }
}

/// The wrapped coordinate under a given mode.
pub open spec fn spec_wrap(mode: Wrap, u: int) -> int {
    match mode {
        Wrap::ClampToEdge => spec_clamp_to_edge(u),
        Wrap::Repeat => spec_repeat(u),
        Wrap::Mirror => spec_mirror(u),
    }
}

/// Every wrap mode lands in `[0, 1]`, for every finite input.
pub proof fn lemma_wrap_in_range(mode: Wrap, u: int)
    ensures
        0 <= spec_wrap(mode, u) <= FX_ONE as int,
{
    vstd::arithmetic::div_mod::lemma_mod_bound(u, FX_ONE as int);
}

/// Repeat has period one: shifting the coordinate by 1.0 leaves the
/// wrapped value unchanged.
pub proof fn lemma_repeat_period(u: int)
    ensures
        spec_repeat(u + FX_ONE as int) == spec_repeat(u),
{
    vstd::arithmetic::div_mod::lemma_mod_add_multiples_vanish(u, FX_ONE as int);
}

/// Mirror is symmetric about 1.0: for `u` in `[0, 1]`, reflecting the
/// input as `2.0 - u` gives the same wrapped value.
pub proof fn lemma_mirror_symmetric(u: int)
    requires
        0 <= u <= FX_ONE as int,
    ensures
        spec_mirror(2 * FX_ONE as int - u) == spec_mirror(u),
{
    let one = FX_ONE as int;
    if u == 0 {
        vstd::arithmetic::div_mod::lemma_fundamental_div_mod_converse(2 * one, one, 2, 0);
        vstd::arithmetic::div_mod::lemma_fundamental_div_mod_converse(0, one, 0, 0);
        vstd::arithmetic::div_mod::lemma_fundamental_div_mod_converse(2int, 2, 1, 0);
        vstd::arithmetic::div_mod::lemma_fundamental_div_mod_converse(0, 2, 0, 0);
    } else if u == one {
        vstd::arithmetic::div_mod::lemma_fundamental_div_mod_converse(one, one, 1, 0);
        vstd::arithmetic::div_mod::lemma_fundamental_div_mod_converse(1, 2, 0, 1);
    } else {
        vstd::arithmetic::div_mod::lemma_fundamental_div_mod_converse(
            2 * one - u,
            one,
            1,
            one - u,
        );
        vstd::arithmetic::div_mod::lemma_fundamental_div_mod_converse(u, one, 0, u);
        vstd::arithmetic::div_mod::lemma_fundamental_div_mod_converse(1, 2, 0, 1);
        vstd::arithmetic::div_mod::lemma_fundamental_div_mod_converse(0, 2, 0, 0);
    }
}

/// Exec counterpart of [`spec_clamp_to_edge`].
pub fn clamp_to_edge(uv: i64) -> (r: i64)
    ensures
        r as int == spec_clamp_to_edge(uv as int),
        0 <= r <= FX_ONE,
{
    if uv < 0 {
        0
    } else if uv > FX_ONE {
        FX_ONE
    } else {
        uv
    }
}

/// Exec counterpart of [`spec_repeat`].
pub fn repeat(uv: i64) -> (r: i64)
    requires
        uv > i64::MIN,
    ensures
        r as int == spec_repeat(uv as int),
        0 <= r < FX_ONE,
{
    emod_i64(uv, FX_ONE)
}

/// Exec counterpart of [`spec_mirror`]: the remainder modulo 2.0 already
/// carries the parity of `floor(uv)` in its upper half.
pub fn mirror(uv: i64) -> (r: i64)
    requires
        uv > i64::MIN,
    ensures
        r as int == spec_mirror(uv as int),
        0 <= r <= FX_ONE,
{
    let m: i64 = emod_i64(uv, 2 * FX_ONE);
    proof {
        let one = FX_ONE as int;
        let q: int = (uv as int) / one;
        let f: int = (uv as int) % one;
        let p: int = q % 2;
        vstd::arithmetic::div_mod::lemma_fundamental_div_mod(uv as int, one);
        vstd::arithmetic::div_mod::lemma_fundamental_div_mod(q, 2);
        vstd::arithmetic::div_mod::lemma_mod_bound(uv as int, one);
        vstd::arithmetic::div_mod::lemma_mod_bound(q, 2);
        assert(uv as int == (2 * one) * (q / 2) + (one * p + f)) by (nonlinear_arith)
            requires
                uv as int == one * q + f,
                q == 2 * (q / 2) + p,
                one == 65536,
        ;
        vstd::arithmetic::div_mod::lemma_fundamental_div_mod_converse(
            uv as int,
            2 * one,
            q / 2,
            one * p + f,
        );
    }
    if m < FX_ONE {
        m
    } else {
        2 * FX_ONE - m
    }
}

/// The wrapped coordinate under a given mode.
pub fn wrap_uv(mode: Wrap, uv: i64) -> (r: i64)
    requires
        uv > i64::MIN,
    ensures
        r as int == spec_wrap(mode, uv as int),
        0 <= r <= FX_ONE,
{
    match mode {
        Wrap::ClampToEdge => clamp_to_edge(uv),
        Wrap::Repeat => repeat(uv),
        Wrap::Mirror => mirror(uv),
    }
}

} // verus!
