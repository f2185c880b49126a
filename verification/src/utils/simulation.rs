//! The simulation driver: the one owner of the tank, which it advances by one
//! tick for each command that it is given.
//!
//! The driver neither sleeps nor waits. Its owner keeps the period, takes the
//! next entry from the queue of commands, draws the inflow, and hands both to
//! [`Simulation::tick`]; what comes back is the snapshot to publish.

use crate::utils::protocol::{convert_u16_to_physical, lemma_scaled_in_range, scaled, Payload};
use crate::utils::watertank::{lemma_volume_conserved, WaterTank};
use vstd::prelude::*;

verus! {

/// The period of the simulation where none is chosen, in milliseconds.
pub const DEFAULT_PERIOD: u32 = 300;

/// What the queue of commands handed over.
#[derive(Debug, Copy, Clone, PartialEq, Eq, Structural)]
pub enum ControlEvent {
    /// The next command.
    Command(Payload),
    /// The queue overflowed: this many commands were dropped unread. The
    /// commands that remain are still to come.
    Missed(u64),
}

/// What a tick came to.
#[derive(Debug, Copy, Clone, PartialEq, Eq, Structural)]
pub enum TickOutcome {
    /// The tank was advanced; this is its new snapshot, to be published.
    Published(WaterTank),
    /// Commands were missed, this many. The tank stands as it was and the
    /// driver goes on with the next entry of the queue.
    Skipped(u64),
    /// The new level cannot be represented. The tank stands as it was.
    OutOfRange,
}

/// The tank after one tick of `millis` milliseconds under `command`, with
/// `sample` as the inflow drawn for the tick: the command's outflow is scaled
/// to the tank's largest outflow, the draw becomes the inflow, and the level
/// follows from the mass balance at these two flows. The set point that the
/// command carries is not acted upon.
pub open spec fn advanced(tank: WaterTank, command: Payload, sample: i64, millis: int) -> WaterTank {
    let flowing = WaterTank {
        outflow: scaled(tank.max_outflow as int, command.outflow as int) as i64,
        inflow: sample,
        ..tank
    };
    WaterTank { level: flowing.level_after(millis) as i64, ..flowing }
}

/// Whether the level of `advanced(tank, command, sample, millis)` can be
/// represented.
pub open spec fn advance_fits(tank: WaterTank, command: Payload, sample: i64, millis: int) -> bool {
    let flowing = WaterTank {
        outflow: scaled(tank.max_outflow as int, command.outflow as int) as i64,
        inflow: sample,
        ..tank
    };
    flowing.can_advance(millis)
}

/// A tick keeps a well-formed tank well-formed: the cross-section stays, and
/// the outflow that a command asks for lies between zero and the largest.
pub proof fn lemma_advanced_is_well_formed(tank: WaterTank, command: Payload, sample: i64, millis: int)
    requires
        tank.wf(),
    ensures
        advanced(tank, command, sample, millis).wf(),
        advanced(tank, command, sample, millis).outflow == scaled(tank.max_outflow as int, command.outflow as int),
{
    lemma_scaled_in_range(tank.max_outflow as int, command.outflow as int);
}

/// A tick conserves volume: the volume after it differs from the volume
/// before it plus what flowed in and out during the tick, at the flows of that
/// tick, by at most half a length unit over the cross-section.
pub proof fn lemma_tick_conserves_volume(tank: WaterTank, command: Payload, sample: i64, millis: int)
    requires
        advance_fits(tank, command, sample, millis),
    ensures
        ({
            let next = advanced(tank, command, sample, millis);
            let flowed = (next.inflow - next.outflow) * millis;
            -tank.areal <= 2 * (tank.volume() + flowed - next.volume()) < tank.areal
        }),
{
    let flowing = WaterTank {
        outflow: scaled(tank.max_outflow as int, command.outflow as int) as i64,
        inflow: sample,
        ..tank
    };
    lemma_volume_conserved(flowing, millis);
}

/// The driver of the simulation. It holds the only tank that is ever
/// changed, and that tank is well-formed at all times.
pub struct Simulation {
    tank: WaterTank,
    period: u32,
}

impl View for Simulation {
    type V = WaterTank;

    closed spec fn view(&self) -> WaterTank {
        self.tank
    }
}

impl Simulation {
    #[verifier::type_invariant]
    spec fn well_formed(self) -> bool {
        self.tank.wf()
    }

    /// The period of the simulation, in milliseconds.
    pub closed spec fn spec_period(&self) -> u32 {
        self.period
    }

    /// A driver for `tank` with a period of `period` milliseconds, or `None`
    /// where the tank is not well-formed.
    pub fn new(tank: WaterTank, period: u32) -> (driver: Option<Simulation>)
        ensures
            match driver {
                Some(simulation) => tank.wf() && simulation@ == tank && simulation.spec_period() == period,
                None => !tank.wf(),
            },
    {
        if tank.is_valid() {
            Some(Simulation { tank, period })
        } else {
            None
        }
    }

    /// The tank as it stands.
    pub fn tank(&self) -> (tank: WaterTank)
        ensures
            tank == self@,
            tank.wf(),
    {
        proof {
            use_type_invariant(self);
        }
        self.tank
    }

    /// The period of the simulation, in milliseconds.
    #[verifier::when_used_as_spec(spec_period)]
    pub fn period(&self) -> (period: u32)
        ensures
            period == self.spec_period(),
    {
        self.period
    }

    /// One tick. A command advances the tank by one period, with `sample` as
    /// the inflow drawn for this tick, and gives the snapshot to publish. An
    /// overflow of the queue changes nothing and does not stop the driver: the
    /// tick is skipped, and `sample` goes unused.
    pub fn tick(&mut self, event: ControlEvent, sample: i64) -> (outcome: TickOutcome)
        ensures
            final(self).spec_period() == old(self).spec_period(),
            final(self)@.wf(),
            match event {
                ControlEvent::Command(command) => {
                    if advance_fits(old(self)@, command, sample, old(self).spec_period() as int) {
                        &&& final(self)@ == advanced(old(self)@, command, sample, old(self).spec_period() as int)
                        &&& outcome == TickOutcome::Published(final(self)@)
                    } else {
                        &&& final(self)@ == old(self)@
                        &&& outcome == TickOutcome::OutOfRange
                    }
                },
                ControlEvent::Missed(missed) => {
                    &&& final(self)@ == old(self)@
                    &&& outcome == TickOutcome::Skipped(missed)
                },
            },
    {
        proof {
            use_type_invariant(&*self);
        }
        match event {
            ControlEvent::Command(command) => {
                let mut tank = self.tank;
                tank.outflow = convert_u16_to_physical(tank.max_outflow, command.outflow);
                tank.update_inflow(sample);
                if tank.next_level(self.period).is_some() {
                    tank.update_level(self.period);
                    self.tank = tank;
                    TickOutcome::Published(tank)
                } else {
                    TickOutcome::OutOfRange
                }
            },
            ControlEvent::Missed(missed) => TickOutcome::Skipped(missed),
        }
    }
}

} // verus!
