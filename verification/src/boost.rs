//! The boost: a store of energy that drains while it is spent and fills up
//! again afterwards, with a cooldown between two uses.

use vstd::prelude::*;
use rand::rngs::StdRng;
use crate::random::{draw_percent, PERCENT};
use crate::timer::{Timer, TimerMode};

verus! {

/// A full charge.  Energy is counted in ten-millionths of it, so that both
/// rates below are whole numbers per microsecond.
pub const ENERGY_FULL: u32 = 10_000_000;

/// Energy spent per microsecond of boosting: 0.4 of a full charge a second.
pub const ENERGY_CONSUMPTION_RATE: u32 = 4;

/// Energy regained per microsecond of recharging: half a charge a second.
pub const ENERGY_RECHARGE_RATE: u32 = 5;

/// A boost starts only with more energy than this, a tenth of a charge.
pub const BOOST_MIN_ENERGY: u32 = 1_000_000;

/// A computer-steered actor considers a boost only above this, 0.95 of a
/// charge.
pub const BOOST_THRESHOLD: u32 = 9_500_000;

/// Chances in a hundred that a computer-steered actor, once it considers a
/// boost, starts one.
pub const AI_BOOST_CHANCE: u32 = 10;

/// Time that must pass after a boost has ended before the next may start.
pub const BOOST_COOLDOWN: u32 = 1_000_000;

/// Time after which an emptied store starts to fill again.
pub const RECHARGE_DELAY: u32 = 2_000_000;

/// The boost state of one actor.
#[derive(Clone, Copy, Debug, PartialEq, Eq, Structural)]
pub struct EnergyBoost {
    pub energy: u32,
    pub is_boosting: bool,
    pub cooldown_timer: Timer,
    pub recharge_timer: Timer,
}

/// One call on a boost, for statements about runs of calls.
#[derive(Clone, Copy, Debug, PartialEq, Eq, Structural)]
pub enum BoostCall {
    Tick(u32),
    Start,
    Stop,
}

/// What is left of `energy` after `elapsed` microseconds of boosting.
pub open spec fn drained(energy: u32, elapsed: u32) -> u32 {
    if ENERGY_CONSUMPTION_RATE * elapsed >= energy {
        0
    } else {
        (energy - ENERGY_CONSUMPTION_RATE * elapsed) as u32
    }
}

/// What `energy` has grown to after `elapsed` microseconds of recharging.
pub open spec fn recharged(energy: u32, elapsed: u32) -> u32 {
    if energy + ENERGY_RECHARGE_RATE * elapsed >= ENERGY_FULL {
        ENERGY_FULL
    } else {
        (energy + ENERGY_RECHARGE_RATE * elapsed) as u32
    }
}

/// `energy`, held to a full charge at most.
pub open spec fn capped(energy: u32) -> u32 {
    if energy > ENERGY_FULL {
        ENERGY_FULL
    } else {
        energy
    }
}

impl EnergyBoost {
    /// The energy is within a full charge, boosting implies energy left,
    /// and both timers are well-formed one-shot timers.
    pub open spec fn wf(self) -> bool {
        &&& self.energy <= ENERGY_FULL
        &&& self.is_boosting ==> self.energy > 0
        &&& self.cooldown_timer.mode == TimerMode::Once
        &&& self.recharge_timer.mode == TimerMode::Once
        &&& self.cooldown_timer.wf()
        &&& self.recharge_timer.wf()
    }

    /// A full store, at rest, with both timers fresh.  The cooldown counts
    /// from the start: a new actor waits it out once before its first boost.
    pub open spec fn spec_default() -> EnergyBoost {
        EnergyBoost {
            energy: ENERGY_FULL,
            is_boosting: false,
            cooldown_timer: Timer::fresh(BOOST_COOLDOWN, TimerMode::Once),
            recharge_timer: Timer::fresh(RECHARGE_DELAY, TimerMode::Once),
        }
    }

    /// The state after `elapsed` microseconds.
    ///
    /// Both timers advance.  While boosting, energy drains; at zero the
    /// boost ends and both timers start over.  At rest, energy fills up
    /// once the recharge timer has run out.
    pub open spec fn spec_tick(self, elapsed: u32) -> EnergyBoost {
        let cooldown = self.cooldown_timer.ticked(elapsed);
        let recharge = self.recharge_timer.ticked(elapsed);
        let energy = capped(self.energy);
        if self.is_boosting {
            if drained(energy, elapsed) == 0 {
                EnergyBoost {
                    energy: 0,
                    is_boosting: false,
                    cooldown_timer: cooldown.restarted(),
                    recharge_timer: recharge.restarted(),
                }
            } else {
                EnergyBoost {
                    energy: drained(energy, elapsed),
                    is_boosting: true,
                    cooldown_timer: cooldown,
                    recharge_timer: recharge,
                }
            }
        } else if recharge.finished {
            EnergyBoost {
                energy: recharged(energy, elapsed),
                is_boosting: false,
                cooldown_timer: cooldown,
                recharge_timer: recharge,
            }
        } else {
            EnergyBoost {
                energy,
                is_boosting: false,
                cooldown_timer: cooldown,
                recharge_timer: recharge,
            }
        }
    }

    /// Whether a boost may start now: more than a tenth of a charge, not
    /// boosting already, and the cooldown run out.
    pub open spec fn can_start(self) -> bool {
        &&& self.energy > BOOST_MIN_ENERGY
        &&& !self.is_boosting
        &&& self.cooldown_timer.finished
    }

    /// The state after a request to start: boosting, with the cooldown
    /// timer wound back, where a boost may start; unchanged where not.
    pub open spec fn spec_start(self) -> EnergyBoost {
        if self.can_start() {
            EnergyBoost {
                is_boosting: true,
                cooldown_timer: self.cooldown_timer.restarted(),
                ..self
            }
        } else {
            self
        }
    }

    /// The state after the boost was let go: at rest, the cooldown begun.
    pub open spec fn spec_stop(self) -> EnergyBoost {
        EnergyBoost {
            is_boosting: false,
            cooldown_timer: self.cooldown_timer.restarted(),
            ..self
        }
    }

    /// The state after one frame of a player's boost key.
    pub open spec fn spec_handle(self, pressed: bool, released: bool, elapsed: u32) -> EnergyBoost {
        let ticked = self.spec_tick(elapsed);
        let started = if pressed { ticked.spec_start() } else { ticked };
        if released && started.is_boosting {
            started.spec_stop()
        } else {
            started
        }
    }

    /// Whether a computer-steered actor starts a boost on `draw`.
    pub open spec fn ai_wants_boost(self, draw: u32) -> bool {
        &&& self.energy > BOOST_THRESHOLD
        &&& !self.is_boosting
        &&& draw < AI_BOOST_CHANCE
    }

    /// The state after one frame of a computer-steered actor.
    pub open spec fn spec_handle_ai(self, elapsed: u32, draw: u32) -> EnergyBoost {
        let ticked = self.spec_tick(elapsed);
        if ticked.ai_wants_boost(draw) {
            ticked.spec_start()
        } else {
            ticked
        }
    }

    /// The state after one call.
    pub open spec fn after_call(self, call: BoostCall) -> EnergyBoost {
        match call {
            BoostCall::Tick(elapsed) => self.spec_tick(elapsed),
            BoostCall::Start => self.spec_start(),
            BoostCall::Stop => self.spec_stop(),
        }
    }

    /// The state after a run of calls, first to last.
    pub open spec fn after_calls(self, calls: Seq<BoostCall>) -> EnergyBoost
        decreases calls.len(),
    {
        if calls.len() == 0 {
            self
        } else {
            self.after_calls(calls.drop_last()).after_call(calls.last())
        }
    }

    /// The cooldown is running: at rest, the one-shot timer not finished.
    pub open spec fn cooldown_pending(self) -> bool {
        &&& !self.is_boosting
        &&& self.cooldown_timer.mode == TimerMode::Once
        &&& !self.cooldown_timer.finished
        &&& self.cooldown_timer.elapsed <= self.cooldown_timer.duration
    }

    /// Advances the boost by `elapsed` microseconds.
    pub fn tick(&mut self, elapsed: u32)
        ensures
            *final(self) == old(self).spec_tick(elapsed),
            final(self).energy <= ENERGY_FULL,
            final(self).is_boosting ==> final(self).energy > 0,
            old(self).wf() ==> final(self).wf(),
    {
        proof {
            old(self).cooldown_timer.lemma_tick_wf(elapsed);
            old(self).recharge_timer.lemma_tick_wf(elapsed);
        }
        self.cooldown_timer.tick(elapsed);
        self.recharge_timer.tick(elapsed);
        let energy: u32 = if self.energy > ENERGY_FULL { ENERGY_FULL } else { self.energy };
        if self.is_boosting {
            let spent: u64 = ENERGY_CONSUMPTION_RATE as u64 * elapsed as u64;
            if spent >= energy as u64 {
                self.energy = 0;
                self.is_boosting = false;
                self.cooldown_timer.reset();
                self.recharge_timer.reset();
            } else {
                self.energy = energy - spent as u32;
            }
        } else if self.recharge_timer.finished() {
            let gained: u64 = energy as u64 + ENERGY_RECHARGE_RATE as u64 * elapsed as u64;
            self.energy = if gained >= ENERGY_FULL as u64 { ENERGY_FULL } else { gained as u32 };
        } else {
            self.energy = energy;
        }
    }

    /// Asks for a boost.  It starts, and `true` is returned, exactly where
    /// `can_start` holds; otherwise nothing changes.
    pub fn start_boost(&mut self) -> (started: bool)
        ensures
            started == old(self).can_start(),
            *final(self) == old(self).spec_start(),
            !started ==> *final(self) == *old(self),
            old(self).wf() ==> final(self).wf(),
    {
        if self.energy > BOOST_MIN_ENERGY && !self.is_boosting && self.cooldown_timer.finished() {
            apply_boost(self);
            true
        } else {
            false
        }
    }

    /// Ends the boost and begins the cooldown.
    pub fn stop_boost(&mut self)
        ensures
            *final(self) == old(self).spec_stop(),
            final(self).cooldown_pending() || final(self).cooldown_timer.mode != TimerMode::Once,
            old(self).wf() ==> final(self).wf(),
    {
        self.is_boosting = false;
        self.cooldown_timer.reset();
    }

    /// Energy stays within a full charge over every run of calls.
    pub proof fn lemma_energy_bounds(self, calls: Seq<BoostCall>)
        requires
            self.energy <= ENERGY_FULL,
        ensures
            self.after_calls(calls).energy <= ENERGY_FULL,
        decreases calls.len(),
    {
        if calls.len() > 0 {
            self.lemma_energy_bounds(calls.drop_last());
        }
    }

    /// Every run of calls keeps a well-formed boost well-formed; so an
    /// actor boosts only while it has energy left.
    pub proof fn lemma_calls_keep_wf(self, calls: Seq<BoostCall>)
        requires
            self.wf(),
        ensures
            self.after_calls(calls).wf(),
        decreases calls.len(),
    {
        if calls.len() > 0 {
            self.lemma_calls_keep_wf(calls.drop_last());
            let before = self.after_calls(calls.drop_last());
            match calls.last() {
                BoostCall::Tick(elapsed) => {
                    before.cooldown_timer.lemma_tick_wf(elapsed);
                    before.recharge_timer.lemma_tick_wf(elapsed);
                },
                _ => {},
            }
        }
    }
}

impl Default for EnergyBoost {
    fn default() -> (boost: EnergyBoost)
        ensures
            boost == EnergyBoost::spec_default(),
            boost.wf(),
            boost.cooldown_pending(),
    {
        EnergyBoost {
            energy: ENERGY_FULL,
            is_boosting: false,
            cooldown_timer: Timer::new(BOOST_COOLDOWN, TimerMode::Once),
            recharge_timer: Timer::new(RECHARGE_DELAY, TimerMode::Once),
        }
    }
}

/// Puts the actor into the boost and winds the cooldown timer back.
fn apply_boost(boost: &mut EnergyBoost)
    ensures
        *final(boost) == (EnergyBoost {
            is_boosting: true,
            cooldown_timer: old(boost).cooldown_timer.restarted(),
            ..*old(boost)
        }),
{
    boost.is_boosting = true;
    boost.cooldown_timer.reset();
}

/// Energy moves while time passes.  A boost spends it: after a tick of
/// some length there is less than before.  At rest, once the recharge delay
/// has run out, a store that is not full holds more than before.
pub proof fn lemma_energy_moves(boost: EnergyBoost, elapsed: u32)
    requires
        boost.wf(),
        elapsed > 0,
    ensures
        boost.is_boosting ==> boost.spec_tick(elapsed).energy < boost.energy,
        !boost.is_boosting && boost.recharge_timer.ticked(elapsed).finished && boost.energy
            < ENERGY_FULL ==> boost.spec_tick(elapsed).energy > boost.energy,
        !boost.is_boosting && !boost.recharge_timer.ticked(elapsed).finished ==> boost.spec_tick(
            elapsed,
        ).energy == boost.energy,
{
}

/// The time that a run of calls lets pass.
pub open spec fn time_passed(calls: Seq<BoostCall>) -> nat
    decreases calls.len(),
{
    if calls.len() == 0 {
        0
    } else {
        time_passed(calls.drop_last()) + match calls.last() {
            BoostCall::Tick(elapsed) => elapsed as nat,
            _ => 0,
        }
    }
}

/// Once a boost has ended, no request starts the next one before the
/// cooldown has run its time, however much energy there is: over a run of
/// calls that lets less time pass than the cooldown still has to go, the
/// cooldown stays pending and `can_start` stays false.
pub proof fn lemma_cooldown_blocks_start(boost: EnergyBoost, calls: Seq<BoostCall>)
    requires
        boost.cooldown_pending(),
        time_passed(calls) < boost.cooldown_timer.duration - boost.cooldown_timer.elapsed,
    ensures
        boost.after_calls(calls).cooldown_pending(),
        !boost.after_calls(calls).can_start(),
        boost.after_calls(calls).cooldown_timer.duration == boost.cooldown_timer.duration,
        boost.after_calls(calls).cooldown_timer.elapsed <= boost.cooldown_timer.elapsed
            + time_passed(calls),
    decreases calls.len(),
{
    if calls.len() > 0 {
        lemma_cooldown_blocks_start(boost, calls.drop_last());
    }
}

/// Both ways in which a boost ends begin the cooldown: letting it go, and
/// running out of energy in a tick.
pub proof fn lemma_end_of_boost_begins_cooldown(boost: EnergyBoost, elapsed: u32)
    requires
        boost.cooldown_timer.mode == TimerMode::Once,
    ensures
        boost.spec_stop().cooldown_pending(),
        boost.spec_stop().cooldown_timer.elapsed == 0,
        boost.is_boosting && !boost.spec_tick(elapsed).is_boosting ==> boost.spec_tick(
            elapsed,
        ).cooldown_pending() && boost.spec_tick(elapsed).cooldown_timer.elapsed == 0,
{
}

/// The other half: a cooldown that was begun and then ticked for its whole
/// duration has run out, and a boost starts as soon as there is energy.
pub proof fn lemma_cooldown_runs_out(boost: EnergyBoost, elapsed: u32)
    requires
        boost.cooldown_pending(),
        elapsed >= boost.cooldown_timer.duration - boost.cooldown_timer.elapsed,
    ensures
        boost.spec_tick(elapsed).cooldown_timer.finished,
        boost.spec_tick(elapsed).can_start() <==> boost.spec_tick(elapsed).energy
            > BOOST_MIN_ENERGY,
{
}

/// One frame of the player's boost: time passes, then a fresh press of
/// the key asks for a boost, then a release ends the boost that runs.
pub fn handle_boost(boost: &mut EnergyBoost, pressed: bool, released: bool, elapsed: u32)
    ensures
        *final(boost) == old(boost).spec_handle(pressed, released, elapsed),
        final(boost).energy <= ENERGY_FULL,
        old(boost).wf() ==> final(boost).wf(),
{
    boost.tick(elapsed);
    if pressed {
        boost.start_boost();
    }
    if released && boost.is_boosting {
        boost.stop_boost();
    }
}

/// One frame of a computer-steered actor's boost, on a given draw: time
/// passes, then above the threshold and at rest the actor asks for a boost
/// where the draw comes up.
pub fn handle_ai_boost_on_draw(boost: &mut EnergyBoost, elapsed: u32, draw: u32)
    ensures
        *final(boost) == old(boost).spec_handle_ai(elapsed, draw),
        final(boost).energy <= ENERGY_FULL,
        old(boost).wf() ==> final(boost).wf(),
{
    boost.tick(elapsed);
    if boost.energy > BOOST_THRESHOLD && !boost.is_boosting && draw < AI_BOOST_CHANCE {
        boost.start_boost();
    }
}

/// One frame of a computer-steered actor's boost.  The draw is taken from
/// `rng` only where a boost is considered at all.
pub fn handle_ai_boost(boost: &mut EnergyBoost, elapsed: u32, rng: &mut StdRng)
    ensures
        exists|draw: u32|
            draw < PERCENT && *final(boost) == #[trigger] old(boost).spec_handle_ai(elapsed, draw),
        final(boost).energy <= ENERGY_FULL,
        old(boost).wf() ==> final(boost).wf(),
{
    let ghost before = *boost;
    boost.tick(elapsed);
    if boost.energy > BOOST_THRESHOLD && !boost.is_boosting {
        let draw = draw_percent(rng);
        if draw < AI_BOOST_CHANCE {
            boost.start_boost();
        }
        assert(*boost == before.spec_handle_ai(elapsed, draw));
    } else {
        assert(*boost == before.spec_handle_ai(elapsed, 0));
    }
}

/// The width of the boost bar, in thousandths of a percent of its frame.
pub fn update_boost_indicator(boost: &EnergyBoost) -> (width: u32)
    ensures
        width == capped(boost.energy) / 100,
        width <= 100_000,
{
    let energy: u32 = if boost.energy > ENERGY_FULL { ENERGY_FULL } else { boost.energy };
    energy / 100
}

} // verus!
