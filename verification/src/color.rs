//! Clear colours in fixed point.
//!
//! A channel counts millionths of full intensity, so that wrapping a component
//! into one unit interval is exact integer arithmetic.

use vstd::prelude::*;
use vstd::arithmetic::div_mod::lemma_mod_multiples_vanish;

verus! {

/// The count that stands for full intensity, 1.0.
pub const UNIT: u32 = 1_000_000;

/// The channel that a raw component wraps to: its remainder by one whole unit.
/// A negative component lies outside the domain of the wrap and is clamped to
/// zero.
pub open spec fn wrapped(v: int) -> int {
    if v < 0 {
        0
    } else {
        v % (UNIT as int)
    }
}

/// Wraps one raw component into `[0, UNIT)`.
pub fn wrap_channel(v: i128) -> (c: u32)
    ensures
        c as int == wrapped(v as int),
        c < UNIT,
{
    if v < 0 {
        0
    } else {
        let unit: i128 = 1_000_000;
        let rest: i128 = v % unit;
        rest as u32
    }
}

/// The three components of a clear colour before wrapping, in millionths. Any
/// value may stand here: the components follow an outside source, such as a
/// pointer's position.
#[derive(Clone, Copy, Debug, PartialEq, Eq, Structural)]
pub struct RawColor {
    pub r: i128,
    pub g: i128,
    pub b: i128,
}

/// A clear colour as it is handed to a render pass, in millionths.
#[derive(Clone, Copy, Debug, PartialEq, Eq, Structural)]
pub struct ClearColor {
    pub r: u32,
    pub g: u32,
    pub b: u32,
    pub a: u32,
}

impl ClearColor {
    /// Red, green and blue lie in `[0, 1)`, and the colour is opaque.
    pub open spec fn normalized(self) -> bool {
        self.r < UNIT && self.g < UNIT && self.b < UNIT && self.a == UNIT
    }

    /// The opaque colour whose channels are the wrapped components.
    pub open spec fn of(raw: RawColor) -> ClearColor {
        ClearColor {
            r: wrapped(raw.r as int) as u32,
            g: wrapped(raw.g as int) as u32,
            b: wrapped(raw.b as int) as u32,
            a: UNIT,
        }
    }

    /// Wraps each component into `[0, 1)` and makes the colour opaque.
    pub fn wrap(raw: RawColor) -> (color: ClearColor)
        ensures
            color == ClearColor::of(raw),
            color.normalized(),
    {
        ClearColor {
            r: wrap_channel(raw.r),
            g: wrap_channel(raw.g),
            b: wrap_channel(raw.b),
            a: UNIT,
        }
    }
}

/// Whatever the component, the wrapped channel lies in `[0, 1)`.
pub proof fn lemma_wrapped_in_range(v: int)
    ensures
        0 <= wrapped(v) < UNIT,
{
}

/// The wrap is taken modulo one whole unit: it keeps a component that already
/// lies in `[0, 1)`, and it drops whole units from a larger one.
pub proof fn lemma_wrapped_drops_whole_units(v: int, units: nat)
    requires
        0 <= v < UNIT,
    ensures
        wrapped(v) == v,
        wrapped(v + units * UNIT) == v,
{
    lemma_mod_multiples_vanish(units as int, v, UNIT as int);
    assert(v + units * UNIT >= 0) by (nonlinear_arith)
        requires
            v >= 0,
            units >= 0,
    ;
    assert(units * UNIT + v == v + units * UNIT);
}

/// A component below zero is clamped: its channel is zero.
pub proof fn lemma_wrapped_clamps_negative(v: int)
    requires
        v < 0,
    ensures
        wrapped(v) == 0,
{
}

/// Every clear colour that comes out of the wrap is normalized.
pub proof fn lemma_clear_color_normalized(raw: RawColor)
    ensures
        ClearColor::of(raw).normalized(),
{
}

} // verus!
