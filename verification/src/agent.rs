//! The bot agent: per-racer state and the one-tick pipeline.
//!
//! A [`BotAgent`] is created when a racer is spawned under bot control.  It
//! owns a private random stream forked from a global one, a fixed obstacle
//! probe configuration, and the goal list of the current tick (replaced
//! wholesale each tick, never mutated in place).  One call of
//! [`BotAgent::tick`] runs goal generation, influence arbitration and the
//! steering decision; when the kinematic snapshot is unavailable the whole
//! tick is skipped and the agent is left untouched, so the host keeps the
//! bot coasting on its previous command.

use vstd::prelude::*;
use crate::arbiter::centroid;
use crate::arbiter::ideal_target;
use crate::arbiter::influences_of;
use crate::geom::Point;
use crate::goal::Goal;
use crate::goal::Kinematics;
use crate::goal::ProbeHit;
use crate::goal::TagDirective;
use crate::goal::compute_goals;
use crate::goal::generated_goals;
use crate::num::MILLI;
use crate::rng::RngStream;
use crate::rng::advanced;
use crate::rng::mixed;
use crate::steering::SteeringOutcome;
use crate::steering::decide_steering;
use crate::steering::delta_rotation;
use crate::steering::reverse_cheaper;
use crate::steering::steering_value;
use crate::track::Track;

verus! {

/// The host's collision layer for checkpoints, which the probe must ignore:
/// bit five of the layer mask.
pub const CHECKPOINT_LAYER: u64 = 0x20;

/// Configuration of the short-range obstacle probe, fixed when the agent is
/// created.  The host's physics engine performs the cast; the controller
/// only owns the parameters.
#[derive(Clone, Copy, Debug, PartialEq, Eq, Structural)]
pub struct ProbeConfig {
    /// How many hits the cast may report.
    pub max_hits: u32,
    /// Range of the cast, as a time to impact in milli time units.
    pub max_time_of_impact: i64,
    /// Whether shapes already overlapping the bot are ignored.
    pub ignore_origin_penetration: bool,
    /// Collision layers the cast ignores.
    pub ignore_mask: u64,
}

impl ProbeConfig {
    /// A usable probe: at least one hit, positive range.
    pub open spec fn wf(self) -> bool {
        0 < self.max_hits && 0 < self.max_time_of_impact
    }
}

/// The probe the host game casts for every bot: two hits, range of two
/// hundred and fifty time units, origin penetrations and checkpoints
/// ignored.
impl Default for ProbeConfig {
    fn default() -> (r: ProbeConfig)
        ensures
            r == (ProbeConfig {
                max_hits: 2u32,
                max_time_of_impact: 250_000i64,
                ignore_origin_penetration: true,
                ignore_mask: CHECKPOINT_LAYER,
            }),
            r.wf(),
    {
        ProbeConfig {
            max_hits: 2,
            max_time_of_impact: 250_000,
            ignore_origin_penetration: true,
            ignore_mask: CHECKPOINT_LAYER,
        }
    }
}

/// One AI-controlled racer's controller state.
#[derive(Debug)]
pub struct BotAgent {
    /// The private random stream, owned exclusively by this agent.
    pub rng: RngStream,
    /// The obstacle probe configuration, fixed at creation.
    pub probe: ProbeConfig,
    /// The goal set of the current tick.
    pub goals: Vec<Goal>,
}

/// The aggression scalar a tick draws, as a function of the stream state
/// before the tick.
pub open spec fn tick_aggression(state_before: u64) -> int {
    mixed(advanced(state_before)) as int % (MILLI + 1)
}

/// The ideal target a tick blends, as a function of the snapshot and the
/// tick's inputs.
pub open spec fn tick_ideal(
    k: Kinematics,
    center: Point,
    probe: Option<ProbeHit>,
    tag: Option<TagDirective>,
) -> Point {
    centroid(influences_of(generated_goals(k, center, probe, tag), k.position, k.velocity))
}

/// The wrapped bearing error a tick steers against.
pub open spec fn tick_delta(
    k: Kinematics,
    center: Point,
    probe: Option<ProbeHit>,
    tag: Option<TagDirective>,
) -> int {
    delta_rotation(k.position, k.facing as int, tick_ideal(k, center, probe, tag))
}

impl BotAgent {
    /// Spawns an agent: forks its private stream off the global one and
    /// fixes the probe configuration.
    pub fn new(global: &mut RngStream, probe: ProbeConfig) -> (r: BotAgent)
        ensures
            final(global).state == advanced(old(global).state),
            r.rng.state == mixed(advanced(old(global).state)),
            r.probe == probe,
            r.goals@.len() == 0,
    {
        BotAgent { rng: global.fork_rng(), probe, goals: Vec::new() }
    }

    /// One tick of the controller.
    ///
    /// With a readable kinematic snapshot: replaces the goal set, draws one
    /// aggression scalar from the private stream, and returns the steering
    /// decision for the blended ideal target.  Without one: returns nothing
    /// and leaves the agent untouched, so the previous outcome stays in
    /// force.
    pub fn tick(
        &mut self,
        kin: Option<Kinematics>,
        track: &Track,
        probe: Option<ProbeHit>,
        tag: Option<TagDirective>,
    ) -> (r: Option<SteeringOutcome>)
        requires
            track.wf(),
            kin matches Option::Some(k) ==> k.wf(),
            probe matches Option::Some(h) ==> h.wf(),
            tag matches Option::Some(d) ==> d.wf(),
        ensures
            kin is None ==> r is None && *final(self) == *old(self),
            kin matches Option::Some(k) ==> {
                &&& final(self).probe == old(self).probe
                &&& final(self).rng.state == advanced(old(self).rng.state)
                &&& final(self).goals@ == generated_goals(k, track.center, probe, tag)
                &&& r matches Option::Some(out)
                    && out.accelerate_forward == !reverse_cheaper(
                    tick_delta(k, track.center, probe, tag),
                ) && out.steering == steering_value(
                    tick_delta(k, track.center, probe, tag),
                    tick_aggression(old(self).rng.state),
                ) && -MILLI <= out.steering <= MILLI
            },
    {
        match kin {
            Option::None => Option::None,
            Option::Some(k) => {
                let goals = compute_goals(&k, track, probe, tag);
                let ideal = ideal_target(&goals, k.position, k.velocity);
                let aggression = self.rng.next_milli();
                let out = decide_steering(k.position, k.facing, ideal, aggression);
                self.goals = goals;
                Option::Some(out)
            },
        }
    }
}

} // verus!
