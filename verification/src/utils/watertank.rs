//! The tank: a box of water with a stochastic inflow and a commanded outflow.
//!
//! All quantities are integers in fixed units, chosen so that the mass balance
//! needs no conversion factor: the length unit is a thousandth of a
//! millimetre, the cross-section is in square millimetres, the flow unit is a
//! cubic millimetre per second, and time is in milliseconds. One flow unit over
//! one millisecond then fills one square millimetre by one length unit.

use crate::utils::rounding::{
    div_round, lemma_round_div_exact, lemma_round_div_nearest, lemma_round_div_shift, round_div,
};
use vstd::prelude::*;

verus! {

/// Cubic millimetres in one litre: a flow of one litre per second is this many
/// flow units.
pub const CUBIC_MM_PER_LITRE: i64 = 1_000_000;

/// Length units in one millimetre.
pub const UNITS_PER_MM: i64 = 1_000;

/// A snapshot of the tank. It is a plain value: every tick of the simulation
/// makes a new one.
#[derive(Debug, Copy, Clone, PartialEq, Eq, Structural)]
pub struct WaterTank {
    /// Height of the water, in length units. It follows the mass balance and
    /// nothing holds it inside the tank.
    pub level: i64,
    /// Mean of the inflow's distribution, in flow units.
    pub inflow_mean: i64,
    /// Standard deviation of the inflow's distribution, in flow units.
    pub inflow_stddev: i64,
    /// The inflow drawn for the current tick, in flow units; a draw below
    /// zero is kept as it is.
    pub inflow: i64,
    /// The inflow that is reported as full scale, in flow units.
    pub max_inflow: i64,
    /// Horizontal cross-section, in square millimetres.
    pub areal: i64,
    /// Height of the tank, in length units, and the level that is reported as
    /// full scale.
    pub height: i64,
    /// The commanded outflow, in flow units.
    pub outflow: i64,
    /// The outflow that a full-scale command asks for, in flow units.
    pub max_outflow: i64,
    /// The level that the controller aims at, in length units. Nothing in
    /// the tank acts on it.
    pub set_level: i64,
}

impl WaterTank {
    /// What holds of every tank that the simulation works on: the cross-section
    /// is positive, and the outflow lies between zero and its maximum.
    pub open spec fn wf(&self) -> bool {
        &&& self.areal > 0
        &&& 0 <= self.outflow <= self.max_outflow
    }

    /// The volume of water in the tank, in units of cross-section times length.
    pub open spec fn volume(&self) -> int {
        self.areal * self.level
    }

    /// The volume that flows in (or, below zero, out) during `millis`
    /// milliseconds at the current flows.
    pub open spec fn volume_change(&self, millis: int) -> int {
        (self.inflow - self.outflow) * millis
    }

    /// The level after `millis` milliseconds: the new volume over the
    /// cross-section, rounded to the nearest length unit.
    pub open spec fn level_after(&self, millis: int) -> int {
        round_div(self.volume() + self.volume_change(millis), self.areal as int)
    }

    /// Tells whether this tank satisfies [`WaterTank::wf`].
    pub fn is_valid(&self) -> (valid: bool)
        ensures
            valid == self.wf(),
    {
        self.areal > 0 && 0 <= self.outflow && self.outflow <= self.max_outflow
    }

    /// Whether the level after `millis` milliseconds can be computed and
    /// represented: the cross-section is positive and the new level fits the
    /// level's type.
    pub open spec fn can_advance(&self, millis: int) -> bool {
        self.areal > 0 && i64::MIN <= self.level_after(millis) <= i64::MAX
    }

    /// The level after `millis` milliseconds, or `None` where there is none
    /// by [`WaterTank::can_advance`].
    pub fn next_level(&self, millis: u32) -> (next: Option<i64>)
        ensures
            match next {
                Some(level) => self.can_advance(millis as int) && level == self.level_after(millis as int),
                None => !self.can_advance(millis as int),
            },
    {
        if self.areal <= 0 {
            return None;
        }
        let net: i128 = self.inflow as i128 - self.outflow as i128;
        assert(-0x1_0000_0000_0000_0000_0000_0000 <= net * millis <= 0x1_0000_0000_0000_0000_0000_0000)
            by (nonlinear_arith)
            requires
                -0x1_0000_0000_0000_0000 <= net <= 0x1_0000_0000_0000_0000,
                0 <= millis <= 0xffff_ffff,
        ;
        let change: i128 = net * (millis as i128);
        let rise: i128 = div_round(change, self.areal as i128);
        proof {
            lemma_round_div_nearest(change as int, self.areal as int);
            lemma_round_div_shift(change as int, self.areal as int, self.level as int);
            assert(-0x1_0000_0000_0000_0000_0000_0000 <= rise <= 0x1_0000_0000_0000_0000_0000_0000)
                by (nonlinear_arith)
                requires
                    self.areal > 0,
                    -self.areal <= 2 * (change - rise * self.areal) < self.areal,
                    -0x1_0000_0000_0000_0000_0000_0000 <= change <= 0x1_0000_0000_0000_0000_0000_0000,
            ;
        }
        let level: i128 = self.level as i128 + rise;
        if level < i64::MIN as i128 || level > i64::MAX as i128 {
            None
        } else {
            Some(level as i64)
        }
    }

    /// Integrates the mass balance over `millis` milliseconds: the water that
    /// flowed in less the water that flowed out is added to the volume, and the
    /// level follows from the new volume. Nothing but the level changes, and
    /// the volume is conserved to within the rounding of the level.
    pub fn update_level(&mut self, millis: u32)
        requires
            old(self).can_advance(millis as int),
        ensures
            *final(self) == (WaterTank { level: old(self).level_after(millis as int) as i64, ..*old(self) }),
            final(self).level == old(self).level_after(millis as int),
            -final(self).areal <= 2 * (old(self).volume() + old(self).volume_change(millis as int)
                - final(self).volume()) < final(self).areal,
    {
        proof {
            lemma_volume_conserved(*self, millis as int);
        }
        match self.next_level(millis) {
            Some(level) => {
                self.level = level;
            },
            None => {},
        }
    }

    /// Takes `sample`, a draw from the inflow's distribution, as the inflow
    /// of the current tick. Nothing is clamped: a draw below zero stays.
    pub fn update_inflow(&mut self, sample: i64)
        ensures
            *final(self) == (WaterTank { inflow: sample, ..*old(self) }),
    {
        self.inflow = sample;
    }
}

/// Conservation of volume: the volume at the new level differs from the old
/// volume plus what flowed in and out by at most half a length unit over the
/// cross-section, which is the rounding of the level.
pub proof fn lemma_volume_conserved(tank: WaterTank, millis: int)
    requires
        tank.areal > 0,
    ensures
        -tank.areal <= 2 * (tank.volume() + tank.volume_change(millis) - tank.areal * tank.level_after(millis))
            < tank.areal,
{
    let n = tank.volume() + tank.volume_change(millis);
    lemma_round_div_nearest(n, tank.areal as int);
    assert(tank.level_after(millis) * tank.areal == tank.areal * tank.level_after(millis)) by (nonlinear_arith);
}

/// Where the cross-section divides the volume that flowed, nothing is rounded
/// and the volume is conserved exactly.
pub proof fn lemma_volume_conserved_exactly(tank: WaterTank, millis: int)
    requires
        tank.areal > 0,
        tank.volume_change(millis) % (tank.areal as int) == 0,
    ensures
        tank.areal * tank.level_after(millis) == tank.volume() + tank.volume_change(millis),
{
    let d = tank.areal as int;
    let c = tank.volume_change(millis);
    lemma_round_div_exact(c, d);
    lemma_round_div_shift(c, d, tank.level as int);
    assert(tank.level * d == tank.volume()) by (nonlinear_arith)
        requires
            tank.volume() == d * tank.level,
    ;
    assert(d * (tank.level + round_div(c, d)) == d * tank.level + round_div(c, d) * d) by (nonlinear_arith);
}

} // verus!
