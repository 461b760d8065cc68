//! The model of an agent: its state in unbounded integers, and the steering
//! rules and the integration step as functions of that state.

use crate::color::Color;
use crate::math::{
    ceil_sqrt, fixed_product, floor_sqrt, lemma_ceil_sqrt, lemma_floor_sqrt,
    lemma_trunc_div_bounds, lemma_trunc_div_le, magnitude, map_value, trunc_div, LIMIT, SCALE,
};
use crate::rect::{lemma_wrapped, Rect};
use crate::vector::{lemma_clamp_length_max, lemma_length_sq, Vector};
use vstd::prelude::*;

verus! {

/// The speed that a new agent starts with.
pub const CRUISE_SPEED: i64 = 75_000;

/// The speed limit that a new agent starts with.
pub const DEFAULT_MAX_SPEED: i64 = 75_000;

/// The steering limit that a new agent starts with.
pub const DEFAULT_MAX_FORCE: i64 = 500;

/// The diameter that a new agent starts with.
pub const DEFAULT_DIAMETER: i64 = 300_000;

/// The perception radius that a new agent starts with.
pub const DEFAULT_PERCEPTION_RADIUS: i64 = 2_500_000;

/// The weight of alignment that a new agent starts with.
pub const DEFAULT_ALIGNMENT: i64 = 1_000_000;

/// The weight of cohesion that a new agent starts with.
pub const DEFAULT_COHESION: i64 = 1_000_000;

/// The weight of separation that a new agent starts with.
pub const DEFAULT_SEPARATION: i64 = 900_000;

/// Largest magnitude of a coordinate of the random velocity that an agent
/// made without a heading starts with.
pub const DRIFT: i64 = 100_000;

/// Largest magnitude of a coordinate of the acceleration that the three
/// weighted rules can add up to.
pub const FORCE_LIMIT: i64 = 3_000_000_000_000_000_000;

/// The lowest value of a colour channel that is derived from the state of an agent.
pub const COLOR_LOWER: i64 = 200_000;

/// The highest value of a colour channel that is derived from a state
/// inside its range.
pub const COLOR_UPPER: i64 = 800_000;

/// One of the three steering rules.
#[derive(Clone, Copy, PartialEq, Eq, Structural, Debug)]
pub enum Rule {
    /// Steer toward the mean velocity of the neighbours.
    Alignment,
    /// Steer toward the mean position of the neighbours.
    Cohesion,
    /// Steer away from the neighbours, the near ones most.
    Separation,
}

/// One of the seven parameters of an agent that can be tuned.
#[derive(Clone, Copy, PartialEq, Eq, Structural, Debug)]
pub enum Parameter {
    PerceptionRadius,
    Diameter,
    MaxSpeed,
    MaxForce,
    Alignment,
    Cohesion,
    Separation,
}

/// Why a change of a parameter is refused.
#[derive(Clone, Copy, PartialEq, Eq, Structural, Debug)]
pub enum ParameterError {
    /// The parameter would become zero or negative.
    NotPositive,
    /// The parameter would become larger than `LIMIT`.
    TooLarge,
}

/// What a `Boid` stands for: its state in unbounded integers.
pub struct Agent {
    pub position: Vector,
    pub velocity: Vector,
    pub acceleration: Vector,
    pub max_speed: int,
    pub max_force: int,
    pub diameter: int,
    pub perception_radius: int,
    pub alignment_modifier: int,
    pub cohesion_modifier: int,
    pub separation_modifier: int,
}

/// What a parameter becomes when it is multiplied by a fixed-point number,
/// or why the product is refused.
pub open spec fn rescaled(value: int, multiplier: int) -> Result<int, ParameterError> {
    if fixed_product(value, multiplier) <= 0 {
        Err(ParameterError::NotPositive)
    } else if fixed_product(value, multiplier) > LIMIT {
        Err(ParameterError::TooLarge)
    } else {
        Ok(fixed_product(value, multiplier))
    }
}

impl Agent {
    /// A new agent at a position and with a velocity, with the parameters
    /// that every agent starts with.
    pub open spec fn fresh(position: Vector, velocity: Vector) -> Agent {
        Agent {
            position,
            velocity,
            acceleration: Vector::zero(),
            max_speed: DEFAULT_MAX_SPEED as int,
            max_force: DEFAULT_MAX_FORCE as int,
            diameter: DEFAULT_DIAMETER as int,
            perception_radius: DEFAULT_PERCEPTION_RADIUS as int,
            alignment_modifier: DEFAULT_ALIGNMENT as int,
            cohesion_modifier: DEFAULT_COHESION as int,
            separation_modifier: DEFAULT_SEPARATION as int,
        }
    }

    /// A new agent somewhere inside a boundary, at cruise speed in some
    /// direction, with the parameters that every agent starts with.
    pub open spec fn spawned(self, boundary: Rect) -> bool {
        &&& boundary.contains(self.position)
        &&& exists|heading: Vector|
            self == Agent::fresh(
                self.position,
                #[trigger] heading.with_length(CRUISE_SPEED as int),
            )
    }

    /// The agent that joins a flock: a copy of `template` in the middle,
    /// with a velocity of its own.
    pub open spec fn newcomer(template: Agent, velocity: Vector) -> Agent {
        Agent { position: Vector::zero(), velocity, ..template }
    }

    /// The four limits are positive, and every number is small enough for
    /// the arithmetic of a step.
    pub open spec fn valid_parameters(self) -> bool {
        &&& 0 < self.max_speed <= LIMIT
        &&& 0 < self.max_force <= LIMIT
        &&& 0 < self.diameter <= LIMIT
        &&& 0 < self.perception_radius <= LIMIT
        &&& -LIMIT <= self.alignment_modifier <= LIMIT
        &&& -LIMIT <= self.cohesion_modifier <= LIMIT
        &&& -LIMIT <= self.separation_modifier <= LIMIT
    }

    /// The state of an agent between two steps: valid parameters, bounded
    /// position and velocity, and no acceleration left over.
    pub open spec fn wf(self) -> bool {
        &&& self.valid_parameters()
        &&& self.position.within(2 * LIMIT)
        &&& self.velocity.within(LIMIT as int)
        &&& self.acceleration == Vector::zero()
    }

    /// The state of an agent inside a step, with its acceleration gathered.
    pub open spec fn charged(self) -> bool {
        &&& self.valid_parameters()
        &&& self.position.within(2 * LIMIT)
        &&& self.velocity.within(LIMIT as int)
        &&& self.acceleration.within(FORCE_LIMIT as int)
    }

    /// The other agent is nearer than the perception radius.
    pub open spec fn sees(self, other: Agent) -> bool {
        self.position.minus(other.position).length_sq() < self.perception_radius
            * self.perception_radius
    }

    /// Slot `j` of the snapshot holds a neighbour of the agent in slot
    /// `index`: another slot, and near enough.
    pub open spec fn is_neighbor(self, flock: Seq<Agent>, index: int, j: int) -> bool {
        j != index && self.sees(flock[j])
    }

    /// The number of neighbours among the first `upto` slots of the snapshot.
    pub open spec fn neighbor_count(self, flock: Seq<Agent>, index: int, upto: int) -> int
        decreases upto,
    {
        if upto <= 0 {
            0
        } else {
            self.neighbor_count(flock, index, upto - 1) + if self.is_neighbor(
                flock,
                index,
                upto - 1,
            ) {
                1int
            } else {
                0int
            }
        }
    }

    /// The offset from the other agent to this one, divided by the squared
    /// distance between them; zero where both are in one place.
    pub open spec fn repulsion(self, other: Agent) -> Vector {
        let away = self.position.minus(other.position);
        Vector {
            x: trunc_div(away.x * (SCALE * SCALE), away.length_sq()),
            y: trunc_div(away.y * (SCALE * SCALE), away.length_sq()),
        }
    }

    /// What one neighbour adds to the sum that a rule averages.
    pub open spec fn pull(self, other: Agent, rule: Rule) -> Vector {
        match rule {
            Rule::Alignment => other.velocity,
            Rule::Cohesion => other.position,
            Rule::Separation => self.repulsion(other),
        }
    }

    /// The sum of what the neighbours among the first `upto` slots add.
    pub open spec fn pull_sum(
        self,
        flock: Seq<Agent>,
        index: int,
        upto: int,
        rule: Rule,
    ) -> Vector
        decreases upto,
    {
        if upto <= 0 {
            Vector::zero()
        } else if self.is_neighbor(flock, index, upto - 1) {
            self.pull_sum(flock, index, upto - 1, rule).plus(self.pull(flock[upto - 1], rule))
        } else {
            self.pull_sum(flock, index, upto - 1, rule)
        }
    }

    /// The mean over all neighbours of what they add under a rule.
    pub open spec fn pull_mean(self, flock: Seq<Agent>, index: int, rule: Rule) -> Vector {
        self.pull_sum(flock, index, flock.len() as int, rule).divided(
            self.neighbor_count(flock, index, flock.len() as int),
        )
    }

    /// The bounded change of velocity that turns the agent toward `desired`:
    /// that direction at full speed, less the present velocity, clamped to
    /// the steering limit.
    pub open spec fn steer(self, desired: Vector) -> Vector {
        desired.with_length(self.max_speed).minus(self.velocity).clamp_length_max(self.max_force)
    }

    /// The alignment rule: steer toward the mean velocity of the neighbours.
    /// Zero without neighbours, and where their mean velocity is zero.
    pub open spec fn alignment(self, flock: Seq<Agent>, index: int) -> Vector {
        let mean = self.pull_mean(flock, index, Rule::Alignment);
        if self.neighbor_count(flock, index, flock.len() as int) == 0 || mean == Vector::zero() {
            Vector::zero()
        } else {
            self.steer(mean)
        }
    }

    /// The cohesion rule: steer toward the mean position of the neighbours.
    /// Zero without neighbours.
    pub open spec fn cohesion(self, flock: Seq<Agent>, index: int) -> Vector {
        if self.neighbor_count(flock, index, flock.len() as int) == 0 {
            Vector::zero()
        } else {
            self.steer(self.pull_mean(flock, index, Rule::Cohesion).minus(self.position))
        }
    }

    /// The separation rule: steer along the mean repulsion of the
    /// neighbours. Zero without neighbours.
    pub open spec fn separation(self, flock: Seq<Agent>, index: int) -> Vector {
        if self.neighbor_count(flock, index, flock.len() as int) == 0 {
            Vector::zero()
        } else {
            self.steer(self.pull_mean(flock, index, Rule::Separation))
        }
    }

    /// The acceleration of one step: the three rules, each multiplied by its
    /// weight, added up.
    pub open spec fn steering(self, flock: Seq<Agent>, index: int) -> Vector {
        self.alignment(flock, index).scaled(self.alignment_modifier).plus(
            self.cohesion(flock, index).scaled(self.cohesion_modifier),
        ).plus(self.separation(flock, index).scaled(self.separation_modifier))
    }

    /// The agent after integration: it moves by its velocity and wraps
    /// around the boundary; its velocity takes up the acceleration and is
    /// capped at the speed limit; the acceleration is spent.
    pub open spec fn integrated(self, boundary: Rect) -> Agent {
        Agent {
            position: boundary.wrapped(self.position.plus(self.velocity), self.diameter),
            velocity: self.velocity.plus(self.acceleration).clamp_length_max(self.max_speed),
            acceleration: Vector::zero(),
            ..self
        }
    }

    /// The agent after one step against a snapshot of the flock in which it
    /// holds slot `index`.
    pub open spec fn flocked(self, flock: Seq<Agent>, index: int, boundary: Rect) -> Agent {
        (Agent {
            acceleration: self.acceleration.plus(self.steering(flock, index)),
            ..self
        }).integrated(boundary)
    }

    /// The value of one of the seven parameters.
    pub open spec fn parameter(self, which: Parameter) -> int {
        match which {
            Parameter::PerceptionRadius => self.perception_radius,
            Parameter::Diameter => self.diameter,
            Parameter::MaxSpeed => self.max_speed,
            Parameter::MaxForce => self.max_force,
            Parameter::Alignment => self.alignment_modifier,
            Parameter::Cohesion => self.cohesion_modifier,
            Parameter::Separation => self.separation_modifier,
        }
    }

    /// The agent with one of the seven parameters set to a value.
    pub open spec fn with_parameter(self, which: Parameter, value: int) -> Agent {
        match which {
            Parameter::PerceptionRadius => Agent { perception_radius: value, ..self },
            Parameter::Diameter => Agent { diameter: value, ..self },
            Parameter::MaxSpeed => Agent { max_speed: value, ..self },
            Parameter::MaxForce => Agent { max_force: value, ..self },
            Parameter::Alignment => Agent { alignment_modifier: value, ..self },
            Parameter::Cohesion => Agent { cohesion_modifier: value, ..self },
            Parameter::Separation => Agent { separation_modifier: value, ..self },
        }
    }

    /// The agent with one parameter multiplied by a fixed-point number, or
    /// why the product is refused.
    pub open spec fn retuned(self, which: Parameter, multiplier: int) -> Result<
        Agent,
        ParameterError,
    > {
        match rescaled(self.parameter(which), multiplier) {
            Ok(value) => Ok(self.with_parameter(which, value)),
            Err(e) => Err(e),
        }
    }

    /// The display colour of the agent inside a boundary that has a width
    /// and a height.
    pub open spec fn shade(self, boundary: Rect) -> Color {
        Color {
            r: map_value(
                floor_sqrt(self.velocity.length_sq()),
                0,
                self.max_speed,
                COLOR_LOWER as int,
                COLOR_UPPER as int,
            ) as i64,
            g: map_value(
                self.position.x,
                boundary.left as int,
                boundary.right as int,
                COLOR_LOWER as int,
                COLOR_UPPER as int,
            ) as i64,
            b: map_value(
                self.position.y,
                boundary.bottom as int,
                boundary.top as int,
                COLOR_LOWER as int,
                COLOR_UPPER as int,
            ) as i64,
            a: SCALE,
        }
    }
}

/// Every agent of the snapshot is in the state between two steps.
pub open spec fn all_wf(flock: Seq<Agent>) -> bool {
    forall|j: int| 0 <= j < flock.len() ==> (#[trigger] flock[j]).wf()
}

/// The count of neighbours among the first `upto` slots is between zero and `upto`.
pub proof fn lemma_neighbor_count_bounds(me: Agent, flock: Seq<Agent>, index: int, upto: int)
    requires
        0 <= upto,
    ensures
        0 <= me.neighbor_count(flock, index, upto) <= upto,
    decreases upto,
{
    if upto > 0 {
        lemma_neighbor_count_bounds(me, flock, index, upto - 1);
    }
}

/// The repulsion of a neighbour is at most one world unit per unit of
/// distance, so no coordinate of it exceeds `SCALE * SCALE`.
pub proof fn lemma_repulsion_bound(me: Agent, other: Agent)
    ensures
        me.repulsion(other).within(SCALE * SCALE),
{
    let away = me.position.minus(other.position);
    let n = away.length_sq();
    lemma_length_sq(away);
    if n > 0 {
        assert(magnitude(away.x * (SCALE * SCALE)) <= (SCALE * SCALE) * n) by (nonlinear_arith)
            requires
                magnitude(away.x) <= n,
        ;
        assert(magnitude(away.y * (SCALE * SCALE)) <= (SCALE * SCALE) * n) by (nonlinear_arith)
            requires
                magnitude(away.y) <= n,
        ;
        lemma_trunc_div_le(away.x * (SCALE * SCALE), n, SCALE * SCALE);
        lemma_trunc_div_le(away.y * (SCALE * SCALE), n, SCALE * SCALE);
    }
}

/// What one agent of a step adds to a sum has no coordinate beyond `2 * LIMIT`.
pub proof fn lemma_pull_bound(me: Agent, other: Agent, rule: Rule)
    requires
        other.wf(),
    ensures
        me.pull(other, rule).within(2 * LIMIT),
{
    lemma_repulsion_bound(me, other);
}

/// The sum over the neighbours has no coordinate beyond `2 * LIMIT` times their count.
pub proof fn lemma_pull_sum_bound(
    me: Agent,
    flock: Seq<Agent>,
    index: int,
    upto: int,
    rule: Rule,
)
    requires
        all_wf(flock),
        0 <= upto <= flock.len(),
    ensures
        me.pull_sum(flock, index, upto, rule).within(
            2 * LIMIT * me.neighbor_count(flock, index, upto),
        ),
    decreases upto,
{
    if upto > 0 {
        lemma_pull_sum_bound(me, flock, index, upto - 1, rule);
        lemma_pull_bound(me, flock[upto - 1], rule);
    }
}

/// The mean over the neighbours has no coordinate beyond `2 * LIMIT`.
pub proof fn lemma_pull_mean_bound(me: Agent, flock: Seq<Agent>, index: int, rule: Rule)
    requires
        all_wf(flock),
    ensures
        me.pull_mean(flock, index, rule).within(2 * LIMIT),
{
    let n = me.neighbor_count(flock, index, flock.len() as int);
    let sum = me.pull_sum(flock, index, flock.len() as int, rule);
    lemma_neighbor_count_bounds(me, flock, index, flock.len() as int);
    lemma_pull_sum_bound(me, flock, index, flock.len() as int, rule);
    if n > 0 {
        lemma_trunc_div_le(sum.x, n, 2 * LIMIT);
        lemma_trunc_div_le(sum.y, n, 2 * LIMIT);
    }
}

/// Steering toward any direction is no longer than the steering limit.
pub proof fn lemma_steer_bound(me: Agent, desired: Vector)
    requires
        me.valid_parameters(),
    ensures
        me.steer(desired).length_sq() <= me.max_force * me.max_force,
        me.steer(desired).within(me.max_force),
{
    lemma_clamp_length_max(
        desired.with_length(me.max_speed).minus(me.velocity),
        me.max_force,
    );
}

/// Each of the three rules gives a vector no longer than the steering limit.
pub proof fn lemma_rules_bound(me: Agent, flock: Seq<Agent>, index: int)
    requires
        me.valid_parameters(),
    ensures
        me.alignment(flock, index).length_sq() <= me.max_force * me.max_force,
        me.cohesion(flock, index).length_sq() <= me.max_force * me.max_force,
        me.separation(flock, index).length_sq() <= me.max_force * me.max_force,
        me.alignment(flock, index).within(me.max_force),
        me.cohesion(flock, index).within(me.max_force),
        me.separation(flock, index).within(me.max_force),
{
    lemma_steer_bound(me, me.pull_mean(flock, index, Rule::Alignment));
    lemma_steer_bound(me, me.pull_mean(flock, index, Rule::Cohesion).minus(me.position));
    lemma_steer_bound(me, me.pull_mean(flock, index, Rule::Separation));
    assert(0 <= me.max_force * me.max_force) by (nonlinear_arith);
}

/// A rule's vector multiplied by a weight has no coordinate beyond a third
/// of `FORCE_LIMIT`.
pub proof fn lemma_weighted_bound(v: Vector, weight: int)
    requires
        v.within(LIMIT as int),
        -LIMIT <= weight <= LIMIT,
    ensures
        v.scaled(weight).within(FORCE_LIMIT / 3),
{
    assert(magnitude(v.x * weight) <= (FORCE_LIMIT / 3) * SCALE) by (nonlinear_arith)
        requires
            -LIMIT <= v.x <= LIMIT,
            -LIMIT <= weight <= LIMIT,
    ;
    assert(magnitude(v.y * weight) <= (FORCE_LIMIT / 3) * SCALE) by (nonlinear_arith)
        requires
            -LIMIT <= v.y <= LIMIT,
            -LIMIT <= weight <= LIMIT,
    ;
    lemma_trunc_div_le(v.x * weight, SCALE as int, FORCE_LIMIT / 3);
    lemma_trunc_div_le(v.y * weight, SCALE as int, FORCE_LIMIT / 3);
}

/// The acceleration of a step has no coordinate beyond `FORCE_LIMIT`.
pub proof fn lemma_steering_bound(me: Agent, flock: Seq<Agent>, index: int)
    requires
        me.valid_parameters(),
    ensures
        me.steering(flock, index).within(FORCE_LIMIT as int),
{
    lemma_rules_bound(me, flock, index);
    lemma_weighted_bound(me.alignment(flock, index), me.alignment_modifier);
    lemma_weighted_bound(me.cohesion(flock, index), me.cohesion_modifier);
    lemma_weighted_bound(me.separation(flock, index), me.separation_modifier);
}

/// A number of bounded size, carried over to the range of a colour channel
/// from a range that is not empty, can be stored.
pub proof fn lemma_channel(num: int, start: int, stop: int)
    requires
        start < stop,
        -3 * LIMIT <= num - start <= 3 * LIMIT,
    ensures
        i64::MIN <= map_value(num, start, stop, COLOR_LOWER as int, COLOR_UPPER as int)
            <= i64::MAX,
{
    let a = (num - start) * (COLOR_UPPER - COLOR_LOWER);
    assert(magnitude(a) <= 1_800_000_000_000_000_000 * (stop - start)) by (nonlinear_arith)
        requires
            a == (num - start) * 600_000,
            -3_000_000_000_000 <= num - start <= 3_000_000_000_000,
            stop - start >= 1,
    ;
    lemma_trunc_div_le(a, stop - start, 1_800_000_000_000_000_000);
}

/// The three derived colour channels of an agent between two steps can be stored.
pub proof fn lemma_shade(me: Agent, boundary: Rect)
    requires
        me.wf(),
        boundary.wf(),
    ensures
        0 <= floor_sqrt(me.velocity.length_sq()) <= 2 * LIMIT,
        i64::MIN <= map_value(
            floor_sqrt(me.velocity.length_sq()),
            0,
            me.max_speed,
            COLOR_LOWER as int,
            COLOR_UPPER as int,
        ) <= i64::MAX,
        boundary.left < boundary.right ==> i64::MIN <= map_value(
            me.position.x,
            boundary.left as int,
            boundary.right as int,
            COLOR_LOWER as int,
            COLOR_UPPER as int,
        ) <= i64::MAX,
        boundary.bottom < boundary.top ==> i64::MIN <= map_value(
            me.position.y,
            boundary.bottom as int,
            boundary.top as int,
            COLOR_LOWER as int,
            COLOR_UPPER as int,
        ) <= i64::MAX,
{
    let n = me.velocity.length_sq();
    lemma_length_sq(me.velocity);
    lemma_floor_sqrt(n);
    let speed = floor_sqrt(n);
    assert(n <= 2_000_000_000_000_000_000_000_000) by (nonlinear_arith)
        requires
            n == me.velocity.x * me.velocity.x + me.velocity.y * me.velocity.y,
            -1_000_000_000_000 <= me.velocity.x <= 1_000_000_000_000,
            -1_000_000_000_000 <= me.velocity.y <= 1_000_000_000_000,
    ;
    if speed > 2_000_000_000_000 {
        assert(speed * speed > 2_000_000_000_000_000_000_000_000) by (nonlinear_arith)
            requires
                speed > 2_000_000_000_000,
        ;
    }
    lemma_channel(speed, 0, me.max_speed);
    if boundary.left < boundary.right {
        lemma_channel(me.position.x, boundary.left as int, boundary.right as int);
    }
    if boundary.bottom < boundary.top {
        lemma_channel(me.position.y, boundary.bottom as int, boundary.top as int);
    }
}

/// Integration leaves an agent in the state between two steps, no faster
/// than its speed limit and, where the boundary is at least half its
/// diameter wide and high, inside the boundary.
pub proof fn lemma_integrated(me: Agent, boundary: Rect)
    requires
        me.charged(),
        boundary.wf(),
    ensures
        me.integrated(boundary).wf(),
        me.integrated(boundary).velocity.length_sq() <= me.max_speed * me.max_speed,
        boundary.fits(me.diameter) ==> boundary.contains(me.integrated(boundary).position),
{
    lemma_clamp_length_max(me.velocity.plus(me.acceleration), me.max_speed);
    lemma_wrapped(boundary, me.position.plus(me.velocity), me.diameter);
}

/// One step leaves an agent in the state between two steps, no faster than
/// its speed limit and, where the boundary is at least half its diameter
/// wide and high, inside the boundary, whatever the snapshot holds.
pub proof fn lemma_flocked(me: Agent, flock: Seq<Agent>, index: int, boundary: Rect)
    requires
        me.wf(),
        boundary.wf(),
    ensures
        me.flocked(flock, index, boundary).wf(),
        me.flocked(flock, index, boundary).velocity.length_sq() <= me.max_speed * me.max_speed,
        boundary.fits(me.diameter) ==> boundary.contains(
            me.flocked(flock, index, boundary).position,
        ),
{
    lemma_steering_bound(me, flock, index);
    lemma_integrated(
        Agent { acceleration: me.acceleration.plus(me.steering(flock, index)), ..me },
        boundary,
    );
}

/// An agent without neighbours gets no acceleration: each of the three
/// rules gives the zero vector, and so does their weighted sum.
pub proof fn lemma_alone(me: Agent, flock: Seq<Agent>, index: int)
    requires
        me.neighbor_count(flock, index, flock.len() as int) == 0,
    ensures
        me.alignment(flock, index) == Vector::zero(),
        me.cohesion(flock, index) == Vector::zero(),
        me.separation(flock, index) == Vector::zero(),
        me.steering(flock, index) == Vector::zero(),
{
    assert(0 * me.alignment_modifier == 0 && 0 * me.cohesion_modifier == 0 && 0
        * me.separation_modifier == 0) by (nonlinear_arith);
}

/// The acceleration of an agent is a function of the agent, of its slot
/// and of what the slots of the snapshot hold, and of nothing else: equal
/// agents in equal slots of snapshots that agree slot by slot get equal
/// accelerations, each of the three rules included.
pub proof fn lemma_steering_deterministic(
    me: Agent,
    twin: Agent,
    flock: Seq<Agent>,
    copy: Seq<Agent>,
    index: int,
)
    requires
        me == twin,
        flock.len() == copy.len(),
        forall|j: int| 0 <= j < flock.len() ==> flock[j] == copy[j],
    ensures
        me.alignment(flock, index) == twin.alignment(copy, index),
        me.cohesion(flock, index) == twin.cohesion(copy, index),
        me.separation(flock, index) == twin.separation(copy, index),
        me.steering(flock, index) == twin.steering(copy, index),
{
    assert(flock =~= copy);
}

/// Two agents with one perception radius see each other or neither sees
/// the other.
pub proof fn lemma_sees_symmetric(me: Agent, other: Agent)
    requires
        me.perception_radius == other.perception_radius,
    ensures
        me.sees(other) == other.sees(me),
{
    let there = me.position.minus(other.position);
    let back = other.position.minus(me.position);
    assert(there.length_sq() == back.length_sq()) by (nonlinear_arith)
        requires
            back.x == -there.x,
            back.y == -there.y,
            there.length_sq() == there.x * there.x + there.y * there.y,
            back.length_sq() == back.x * back.x + back.y * back.y,
    ;
}

/// The repulsion between two agents is mutual and points away: what one
/// gets from the other is the opposite of what the other gets from it, and
/// no coordinate of it points toward the other.
pub proof fn lemma_repulsion_points_away(me: Agent, other: Agent)
    ensures
        me.repulsion(other).x == -other.repulsion(me).x,
        me.repulsion(other).y == -other.repulsion(me).y,
        me.position.x >= other.position.x ==> me.repulsion(other).x >= 0,
        me.position.x <= other.position.x ==> me.repulsion(other).x <= 0,
        me.position.y >= other.position.y ==> me.repulsion(other).y >= 0,
        me.position.y <= other.position.y ==> me.repulsion(other).y <= 0,
{
    let there = me.position.minus(other.position);
    let back = other.position.minus(me.position);
    let unit = SCALE * SCALE;
    lemma_length_sq(there);
    assert(there.length_sq() == back.length_sq()) by (nonlinear_arith)
        requires
            back.x == -there.x,
            back.y == -there.y,
            there.length_sq() == there.x * there.x + there.y * there.y,
            back.length_sq() == back.x * back.x + back.y * back.y,
    ;
    assert(back.x * unit == -(there.x * unit) && back.y * unit == -(there.y * unit)
        && (there.x >= 0 ==> there.x * unit >= 0) && (there.x <= 0 ==> there.x * unit <= 0)
        && (there.y >= 0 ==> there.y * unit >= 0) && (there.y <= 0 ==> there.y * unit <= 0))
        by (nonlinear_arith)
        requires
            back.x == -there.x,
            back.y == -there.y,
            unit > 0,
    ;
    if there.length_sq() > 0 {
        lemma_trunc_div_bounds(there.x * unit, there.length_sq());
        lemma_trunc_div_bounds(there.y * unit, there.length_sq());
    }
}

/// The boundary of a step decides where an agent ends up and nothing else:
/// stepped inside two boundaries, an agent differs in its position alone.
pub proof fn lemma_boundary_moves_position_only(
    me: Agent,
    flock: Seq<Agent>,
    index: int,
    first: Rect,
    second: Rect,
)
    ensures
        me.flocked(flock, index, first) == (Agent {
            position: me.flocked(flock, index, first).position,
            ..me.flocked(flock, index, second)
        }),
{
}

/// A multiplier that an agent takes changes the one parameter and leaves
/// the agent in the state between two steps, if it was in it.
pub proof fn lemma_retuned(me: Agent, which: Parameter, multiplier: int)
    requires
        me.retuned(which, multiplier) is Ok,
    ensures
        me.retuned(which, multiplier).unwrap() == me.with_parameter(
            which,
            fixed_product(me.parameter(which), multiplier),
        ),
        0 < me.retuned(which, multiplier).unwrap().parameter(which) <= LIMIT,
        me.wf() ==> me.retuned(which, multiplier).unwrap().wf(),
{
}

/// The sum of the repulsions points away from any side that holds all the
/// neighbours: where none of them among the first `upto` slots lies to the
/// right, the sum does not point to the right, and so for the three other
/// sides.
pub proof fn lemma_repulsion_sum_side(me: Agent, flock: Seq<Agent>, index: int, upto: int)
    ensures
        (forall|j: int|
            0 <= j < upto && #[trigger] me.is_neighbor(flock, index, j) ==> flock[j].position.x
                <= me.position.x) ==> me.pull_sum(flock, index, upto, Rule::Separation).x >= 0,
        (forall|j: int|
            0 <= j < upto && #[trigger] me.is_neighbor(flock, index, j) ==> flock[j].position.x
                >= me.position.x) ==> me.pull_sum(flock, index, upto, Rule::Separation).x <= 0,
        (forall|j: int|
            0 <= j < upto && #[trigger] me.is_neighbor(flock, index, j) ==> flock[j].position.y
                <= me.position.y) ==> me.pull_sum(flock, index, upto, Rule::Separation).y >= 0,
        (forall|j: int|
            0 <= j < upto && #[trigger] me.is_neighbor(flock, index, j) ==> flock[j].position.y
                >= me.position.y) ==> me.pull_sum(flock, index, upto, Rule::Separation).y <= 0,
    decreases upto,
{
    if upto > 0 {
        lemma_repulsion_sum_side(me, flock, index, upto - 1);
        lemma_repulsion_points_away(me, flock[upto - 1]);
    }
}

/// Separation heads away from any side that holds all the neighbours. Where
/// no neighbour lies to the right, neither the mean repulsion nor, unless
/// that mean is zero, the velocity that the rule steers toward points to the
/// right; and so for the three other sides. The steering itself is that
/// velocity less the present one, clamped.
pub proof fn lemma_separation_heads_away(me: Agent, flock: Seq<Agent>, index: int)
    requires
        0 <= me.max_speed,
    ensures
        ({
            let mean = me.pull_mean(flock, index, Rule::Separation);
            let desired = mean.with_length(me.max_speed);
            &&& (forall|j: int|
                0 <= j < flock.len() && #[trigger] me.is_neighbor(flock, index, j)
                    ==> flock[j].position.x <= me.position.x) ==> mean.x >= 0 && (mean
                != Vector::zero() ==> desired.x >= 0)
            &&& (forall|j: int|
                0 <= j < flock.len() && #[trigger] me.is_neighbor(flock, index, j)
                    ==> flock[j].position.x >= me.position.x) ==> mean.x <= 0 && (mean
                != Vector::zero() ==> desired.x <= 0)
            &&& (forall|j: int|
                0 <= j < flock.len() && #[trigger] me.is_neighbor(flock, index, j)
                    ==> flock[j].position.y <= me.position.y) ==> mean.y >= 0 && (mean
                != Vector::zero() ==> desired.y >= 0)
            &&& (forall|j: int|
                0 <= j < flock.len() && #[trigger] me.is_neighbor(flock, index, j)
                    ==> flock[j].position.y >= me.position.y) ==> mean.y <= 0 && (mean
                != Vector::zero() ==> desired.y <= 0)
        }),
{
    let n = me.neighbor_count(flock, index, flock.len() as int);
    let sum = me.pull_sum(flock, index, flock.len() as int, Rule::Separation);
    let mean = me.pull_mean(flock, index, Rule::Separation);
    lemma_repulsion_sum_side(me, flock, index, flock.len() as int);
    lemma_neighbor_count_bounds(me, flock, index, flock.len() as int);
    if n > 0 {
        lemma_trunc_div_bounds(sum.x, n);
        lemma_trunc_div_bounds(sum.y, n);
    }
    lemma_length_sq(mean);
    if mean != Vector::zero() {
        let root = ceil_sqrt(mean.length_sq());
        lemma_ceil_sqrt(mean.length_sq());
        lemma_trunc_div_bounds(mean.x * me.max_speed, root);
        lemma_trunc_div_bounds(mean.y * me.max_speed, root);
        assert((mean.x >= 0 ==> mean.x * me.max_speed >= 0) && (mean.x <= 0 ==> mean.x
            * me.max_speed <= 0) && (mean.y >= 0 ==> mean.y * me.max_speed >= 0) && (mean.y <= 0
            ==> mean.y * me.max_speed <= 0)) by (nonlinear_arith)
            requires
                0 <= me.max_speed,
        ;
    }
}

} // verus!
