//! One agent of the flock as it is stored and stepped.

use crate::agent::{
    all_wf, lemma_alone, lemma_integrated, lemma_pull_bound, lemma_pull_mean_bound,
    lemma_repulsion_bound, lemma_rules_bound, lemma_shade, lemma_weighted_bound, rescaled, Agent,
    Parameter, ParameterError, Rule, COLOR_LOWER, COLOR_UPPER, CRUISE_SPEED, DEFAULT_ALIGNMENT,
    DEFAULT_COHESION, DEFAULT_DIAMETER, DEFAULT_MAX_FORCE, DEFAULT_MAX_SPEED,
    DEFAULT_PERCEPTION_RADIUS, DEFAULT_SEPARATION, DRIFT, FORCE_LIMIT,
};
use crate::color::Color;
use crate::math::{fixed_mul, map_fixed, LIMIT, SCALE};
use crate::random::random_heading;
use crate::rect::Rect;
use crate::vector::{lemma_with_length, Vec2, Vector};
use vstd::prelude::*;

verus! {

/// An agent of the flock.
#[derive(Clone, Copy, PartialEq, Eq, Structural, Debug)]
pub struct Boid {
    position: Vec2,
    velocity: Vec2,
    acceleration: Vec2,
    max_speed: i64,
    max_force: i64,
    diameter: i64,
    // How far the boid can see.
    perception_radius: i64,
    // The weights of the three rules.
    alignment_modifier: i64,
    cohesion_modifier: i64,
    separation_modifier: i64,
}

impl View for Boid {
    type V = Agent;

    /// The state of the boid, field by field.
    closed spec fn view(&self) -> Agent {
        Agent {
            position: self.position@,
            velocity: self.velocity@,
            acceleration: self.acceleration@,
            max_speed: self.max_speed as int,
            max_force: self.max_force as int,
            diameter: self.diameter as int,
            perception_radius: self.perception_radius as int,
            alignment_modifier: self.alignment_modifier as int,
            cohesion_modifier: self.cohesion_modifier as int,
            separation_modifier: self.separation_modifier as int,
        }
    }
}

/// The agents that a sequence of boids stands for, slot by slot.
pub open spec fn agents(flock: Seq<Boid>) -> Seq<Agent> {
    Seq::new(flock.len(), |j: int| flock[j]@)
}

/// Multiplies a parameter by a fixed-point number, and refuses a product
/// that is not positive or is larger than `LIMIT`.
pub fn rescale(value: i64, multiplier: i64) -> (r: Result<i64, ParameterError>)
    ensures
        match r {
            Ok(v) => rescaled(value as int, multiplier as int) == Ok::<int, ParameterError>(
                v as int,
            ),
            Err(e) => rescaled(value as int, multiplier as int) == Err::<int, ParameterError>(e),
        },
{
    let product: i128 = fixed_mul(value, multiplier);
    if product <= 0 {
        Err(ParameterError::NotPositive)
    } else if product > LIMIT as i128 {
        Err(ParameterError::TooLarge)
    } else {
        Ok(product as i64)
    }
}

// Whether a number lies between two bounds, the bounds included.
fn between(low: i64, value: i64, high: i64) -> (b: bool)
    ensures
        b == (low <= value <= high),
{
    low <= value && value <= high
}

impl Boid {
    /// A new agent at `position` that moves at cruise speed in the direction
    /// of `velocity`, or along the positive x axis where `velocity` is zero.
    pub fn new(position: Vec2, velocity: Vec2) -> (boid: Boid)
        ensures
            boid@ == Agent::fresh(position@, velocity@.with_length(CRUISE_SPEED as int)),
            boid@.velocity.length_sq() <= CRUISE_SPEED * CRUISE_SPEED,
            position@.within(2 * LIMIT) ==> boid@.wf(),
    {
        proof {
            lemma_with_length(velocity@, CRUISE_SPEED as int);
        }
        Boid {
            position,
            velocity: velocity.with_length(CRUISE_SPEED),
            acceleration: Vec2::zero(),
            max_speed: DEFAULT_MAX_SPEED,
            max_force: DEFAULT_MAX_FORCE,
            diameter: DEFAULT_DIAMETER,
            perception_radius: DEFAULT_PERCEPTION_RADIUS,
            alignment_modifier: DEFAULT_ALIGNMENT,
            cohesion_modifier: DEFAULT_COHESION,
            separation_modifier: DEFAULT_SEPARATION,
        }
    }

    /// Whether the agent is in the state between two steps: its four limits
    /// positive, no number larger than the arithmetic of a step allows, and
    /// no acceleration left over.
    pub fn is_valid(&self) -> (b: bool)
        ensures
            b == self@.wf(),
    {
        let limits: bool = between(1, self.max_speed, LIMIT) && between(1, self.max_force, LIMIT)
            && between(1, self.diameter, LIMIT) && between(1, self.perception_radius, LIMIT);
        let weights: bool = between(-LIMIT, self.alignment_modifier, LIMIT) && between(
            -LIMIT,
            self.cohesion_modifier,
            LIMIT,
        ) && between(-LIMIT, self.separation_modifier, LIMIT);
        let state: bool = self.position.is_within(2 * LIMIT) && self.velocity.is_within(LIMIT)
            && self.acceleration.x == 0 && self.acceleration.y == 0;
        limits && weights && state
    }

    /// Where the agent is.
    pub fn position(&self) -> (r: Vec2)
        ensures
            r@ == self@.position,
    {
        self.position
    }

    /// How the agent moves in one step.
    pub fn velocity(&self) -> (r: Vec2)
        ensures
            r@ == self@.velocity,
    {
        self.velocity
    }

    /// The acceleration gathered so far: zero between two steps.
    pub fn acceleration(&self) -> (r: Vec2)
        ensures
            r@ == self@.acceleration,
    {
        self.acceleration
    }

    /// Whether the other agent is nearer than the perception radius.
    pub fn sees(&self, other: &Boid) -> (b: bool)
        requires
            self@.wf(),
            other@.wf(),
        ensures
            b == self@.sees(other@),
    {
        let reach: u128 = self.perception_radius as u128;
        assert(reach * reach <= LIMIT * LIMIT) by (nonlinear_arith)
            requires
                0 <= reach <= LIMIT,
        ;
        self.position.distance_squared(other.position) < reach * reach
    }

    // The offset from the other agent, divided by the squared distance.
    fn repulsion(&self, other: &Boid) -> (r: Vec2)
        requires
            self@.wf(),
            other@.wf(),
        ensures
            r@ == self@.repulsion(other@),
    {
        let away: Vec2 = self.position.minus(other.position);
        let n: u128 = away.length_squared();
        if n == 0 {
            return Vec2::zero();
        }
        let unit: i128 = 1_000_000_000_000;
        let x: i128 = away.x as i128;
        let y: i128 = away.y as i128;
        proof {
            lemma_repulsion_bound(self@, other@);
            assert(unit == SCALE * SCALE) by (nonlinear_arith)
                requires
                    unit == 1_000_000_000_000,
                    SCALE == 1_000_000,
            ;
            assert(n <= 32_000_000_000_000_000_000_000_000) by (nonlinear_arith)
                requires
                    n == x * x + y * y,
                    -4_000_000_000_000 <= x <= 4_000_000_000_000,
                    -4_000_000_000_000 <= y <= 4_000_000_000_000,
            ;
            assert(-4_000_000_000_000_000_000_000_000 <= x * unit
                <= 4_000_000_000_000_000_000_000_000 && -4_000_000_000_000_000_000_000_000 <= y
                * unit <= 4_000_000_000_000_000_000_000_000) by (nonlinear_arith)
                requires
                    unit == 1_000_000_000_000,
                    -4_000_000_000_000 <= x <= 4_000_000_000_000,
                    -4_000_000_000_000 <= y <= 4_000_000_000_000,
            ;
        }
        Vec2 { x: ((x * unit) / (n as i128)) as i64, y: ((y * unit) / (n as i128)) as i64 }
    }

    // What the other agent adds to the sum that a rule averages.
    fn pull(&self, other: &Boid, rule: Rule) -> (r: Vec2)
        requires
            self@.wf(),
            other@.wf(),
        ensures
            r@ == self@.pull(other@, rule),
            r@.within(2 * LIMIT),
    {
        proof {
            lemma_pull_bound(self@, other@, rule);
        }
        match rule {
            Rule::Alignment => other.velocity,
            Rule::Cohesion => other.position,
            Rule::Separation => self.repulsion(other),
        }
    }

    // Counts the neighbours and adds up what they give under a rule.
    fn gather(&self, flock: &[Boid], index: usize, rule: Rule) -> (r: (usize, i128, i128))
        requires
            self@.wf(),
            all_wf(agents(flock@)),
        ensures
            r.0 == self@.neighbor_count(agents(flock@), index as int, flock@.len() as int),
            (Vector { x: r.1 as int, y: r.2 as int }) == self@.pull_sum(
                agents(flock@),
                index as int,
                flock@.len() as int,
                rule,
            ),
    {
        let ghost snapshot = agents(flock@);
        let mut count: usize = 0;
        let mut sum_x: i128 = 0;
        let mut sum_y: i128 = 0;
        let mut j: usize = 0;
        while j < flock.len()
            invariant
                j <= flock.len(),
                snapshot == agents(flock@),
                self@.wf(),
                all_wf(snapshot),
                count == self@.neighbor_count(snapshot, index as int, j as int),
                count <= j,
                (Vector { x: sum_x as int, y: sum_y as int }) == self@.pull_sum(
                    snapshot,
                    index as int,
                    j as int,
                    rule,
                ),
                -2_000_000_000_000 * count <= sum_x <= 2_000_000_000_000 * count,
                -2_000_000_000_000 * count <= sum_y <= 2_000_000_000_000 * count,
            decreases flock.len() - j,
        {
            let other: &Boid = &flock[j];
            assert(snapshot[j as int] == other@);
            assert(snapshot[j as int].wf());
            if j != index && self.sees(other) {
                let pulled: Vec2 = self.pull(other, rule);
                sum_x = sum_x + pulled.x as i128;
                sum_y = sum_y + pulled.y as i128;
                count = count + 1;
            }
            j = j + 1;
        }
        (count, sum_x, sum_y)
    }

    // The mean over the neighbours of what they give under a rule, with
    // their count.
    fn gather_mean(&self, flock: &[Boid], index: usize, rule: Rule) -> (r: (usize, Vec2))
        requires
            self@.wf(),
            all_wf(agents(flock@)),
        ensures
            r.0 == self@.neighbor_count(agents(flock@), index as int, flock@.len() as int),
            r.0 > 0 ==> r.1@ == self@.pull_mean(agents(flock@), index as int, rule),
            r.1@.within(2 * LIMIT),
    {
        let (total, sum_x, sum_y) = self.gather(flock, index, rule);
        if total == 0 {
            return (0, Vec2::zero());
        }
        proof {
            lemma_pull_mean_bound(self@, agents(flock@), index as int, rule);
        }
        let count: i128 = total as i128;
        (total, Vec2 { x: (sum_x / count) as i64, y: (sum_y / count) as i64 })
    }

    // The bounded change of velocity that turns the agent toward `desired`.
    fn steer(&self, desired: Vec2) -> (r: Vec2)
        requires
            self@.wf(),
        ensures
            r@ == self@.steer(desired@),
            r@.length_sq() <= self@.max_force * self@.max_force,
    {
        proof {
            lemma_with_length(desired@, self.max_speed as int);
        }
        desired.with_length(self.max_speed).minus(self.velocity).clamp_length_max(self.max_force)
    }

    /// The alignment rule: the steering toward the mean velocity of the
    /// neighbours in a snapshot of the flock, in which the agent itself
    /// holds slot `index`.
    pub fn align(&self, flock: &[Boid], index: usize) -> (steering: Vec2)
        requires
            self@.wf(),
            all_wf(agents(flock@)),
        ensures
            steering@ == self@.alignment(agents(flock@), index as int),
            steering@.length_sq() <= self@.max_force * self@.max_force,
            self@.neighbor_count(agents(flock@), index as int, flock@.len() as int) == 0
                ==> steering@ == Vector::zero(),
    {
        proof {
            lemma_rules_bound(self@, agents(flock@), index as int);
        }
        let (total, mean) = self.gather_mean(flock, index, Rule::Alignment);
        if total == 0 || (mean.x == 0 && mean.y == 0) {
            Vec2::zero()
        } else {
            self.steer(mean)
        }
    }

    /// The cohesion rule: the steering toward the mean position of the
    /// neighbours in a snapshot of the flock, in which the agent itself
    /// holds slot `index`.
    pub fn cohere(&self, flock: &[Boid], index: usize) -> (steering: Vec2)
        requires
            self@.wf(),
            all_wf(agents(flock@)),
        ensures
            steering@ == self@.cohesion(agents(flock@), index as int),
            steering@.length_sq() <= self@.max_force * self@.max_force,
            self@.neighbor_count(agents(flock@), index as int, flock@.len() as int) == 0
                ==> steering@ == Vector::zero(),
    {
        proof {
            lemma_rules_bound(self@, agents(flock@), index as int);
        }
        let (total, mean) = self.gather_mean(flock, index, Rule::Cohesion);
        if total == 0 {
            Vec2::zero()
        } else {
            self.steer(mean.minus(self.position))
        }
    }

    /// The separation rule: the steering away from the neighbours in a
    /// snapshot of the flock, in which the agent itself holds slot `index`.
    pub fn separate(&self, flock: &[Boid], index: usize) -> (steering: Vec2)
        requires
            self@.wf(),
            all_wf(agents(flock@)),
        ensures
            steering@ == self@.separation(agents(flock@), index as int),
            steering@.length_sq() <= self@.max_force * self@.max_force,
            self@.neighbor_count(agents(flock@), index as int, flock@.len() as int) == 0
                ==> steering@ == Vector::zero(),
    {
        proof {
            lemma_rules_bound(self@, agents(flock@), index as int);
        }
        let (total, mean) = self.gather_mean(flock, index, Rule::Separation);
        if total == 0 {
            Vec2::zero()
        } else {
            self.steer(mean)
        }
    }

    /// The integration step: the agent moves by its velocity, its velocity
    /// takes up the acceleration and is capped at the speed limit, the
    /// acceleration is spent, and the position wraps around the boundary.
    pub fn update(&mut self, boundary_rect: Rect)
        requires
            old(self)@.charged(),
            boundary_rect.wf(),
        ensures
            final(self)@ == old(self)@.integrated(boundary_rect),
            final(self)@.wf(),
            final(self)@.velocity.length_sq() <= final(self)@.max_speed * final(self)@.max_speed,
            boundary_rect.fits(final(self)@.diameter) ==> boundary_rect.contains(
                final(self)@.position,
            ),
    {
        proof {
            lemma_integrated(self@, boundary_rect);
        }
        self.position = self.position.plus(self.velocity);
        self.velocity = self.velocity.plus(self.acceleration).clamp_length_max(self.max_speed);
        // Reset the acceleration
        self.acceleration = Vec2::zero();
        self.position = boundary_rect.wrap(self.position, self.diameter);
    }

    /// The acceleration that the three rules give the agent against a
    /// snapshot of the flock in which it holds slot `index`: each rule
    /// multiplied by its weight, added up.
    pub fn steering(&self, flock: &[Boid], index: usize) -> (acceleration: Vec2)
        requires
            self@.wf(),
            all_wf(agents(flock@)),
        ensures
            acceleration@ == self@.steering(agents(flock@), index as int),
            acceleration@.within(FORCE_LIMIT as int),
            self@.neighbor_count(agents(flock@), index as int, flock@.len() as int) == 0
                ==> acceleration@ == Vector::zero(),
    {
        proof {
            lemma_rules_bound(self@, agents(flock@), index as int);
            lemma_weighted_bound(
                self@.alignment(agents(flock@), index as int),
                self@.alignment_modifier,
            );
            lemma_weighted_bound(
                self@.cohesion(agents(flock@), index as int),
                self@.cohesion_modifier,
            );
            lemma_weighted_bound(
                self@.separation(agents(flock@), index as int),
                self@.separation_modifier,
            );
            if self@.neighbor_count(agents(flock@), index as int, flock@.len() as int) == 0 {
                lemma_alone(self@, agents(flock@), index as int);
            }
        }
        // The three rules
        let alignment: Vec2 = self.align(flock, index).scaled(self.alignment_modifier).unwrap();
        let cohesion: Vec2 = self.cohere(flock, index).scaled(self.cohesion_modifier).unwrap();
        let separation: Vec2 = self.separate(flock, index).scaled(
            self.separation_modifier,
        ).unwrap();
        alignment.plus(cohesion).plus(separation)
    }

    /// One step of the agent against a snapshot of the flock in which it
    /// holds slot `index`: the three rules give its acceleration, then it
    /// moves, turns and wraps around the boundary.
    pub fn flock(&mut self, flock: &[Boid], index: usize, win_rect: Rect)
        requires
            old(self)@.wf(),
            all_wf(agents(flock@)),
            win_rect.wf(),
        ensures
            final(self)@ == old(self)@.flocked(agents(flock@), index as int, win_rect),
            final(self)@.wf(),
            final(self)@.velocity.length_sq() <= final(self)@.max_speed * final(self)@.max_speed,
            win_rect.fits(final(self)@.diameter) ==> win_rect.contains(final(self)@.position),
    {
        // Updating the acceleration
        self.acceleration = self.acceleration.plus(self.steering(flock, index));

        // Update velocity and position, and reset the acceleration
        self.update(win_rect);
    }

    /// The display colour of the agent inside a boundary: red from its speed,
    /// green from its x position, blue from its y position, each carried over
    /// to the range from `COLOR_LOWER` to `COLOR_UPPER`; fully opaque. There
    /// is none where the boundary has no width or no height.
    pub fn color(&self, win_rect: Rect) -> (c: Option<Color>)
        requires
            self@.wf(),
            win_rect.wf(),
        ensures
            c is Some <==> win_rect.left < win_rect.right && win_rect.bottom < win_rect.top,
            c is Some ==> c.unwrap() == self@.shade(win_rect),
    {
        proof {
            lemma_shade(self@, win_rect);
        }
        if win_rect.left == win_rect.right || win_rect.bottom == win_rect.top {
            return None;
        }
        let speed: i64 = self.velocity.length() as i64;
        let red: i64 = map_fixed(speed, 0, self.max_speed, COLOR_LOWER, COLOR_UPPER).unwrap();
        // Map left to right
        let green: i64 = map_fixed(
            self.position.x,
            win_rect.left,
            win_rect.right,
            COLOR_LOWER,
            COLOR_UPPER,
        ).unwrap();
        // Map bottom to top
        let blue: i64 = map_fixed(
            self.position.y,
            win_rect.bottom,
            win_rect.top,
            COLOR_LOWER,
            COLOR_UPPER,
        ).unwrap();
        Some(Color::new(red, green, blue, SCALE))
    }

    /// How far the agent sees.
    pub fn get_perception(&self) -> (r: i64)
        ensures
            r == self@.perception_radius,
    {
        self.perception_radius
    }

    /// The diameter of the agent.
    pub fn get_diameter(&self) -> (r: i64)
        ensures
            r == self@.diameter,
    {
        self.diameter
    }

    /// The speed limit of the agent.
    pub fn get_max_speed(&self) -> (r: i64)
        ensures
            r == self@.max_speed,
    {
        self.max_speed
    }

    /// The steering limit of the agent.
    pub fn get_max_force(&self) -> (r: i64)
        ensures
            r == self@.max_force,
    {
        self.max_force
    }

    /// The weight of the alignment rule.
    pub fn get_alignment_modifier(&self) -> (r: i64)
        ensures
            r == self@.alignment_modifier,
    {
        self.alignment_modifier
    }

    /// The weight of the cohesion rule.
    pub fn get_cohesion_modifier(&self) -> (r: i64)
        ensures
            r == self@.cohesion_modifier,
    {
        self.cohesion_modifier
    }

    /// The weight of the separation rule.
    pub fn get_separation_modifier(&self) -> (r: i64)
        ensures
            r == self@.separation_modifier,
    {
        self.separation_modifier
    }

    /// Multiplies the perception radius by a fixed-point number. A product that is
    /// not positive or is larger than `LIMIT` is refused, and the agent stays
    /// as it was.
    pub fn change_perception(&mut self, multiplier: i64) -> (r: Result<(), ParameterError>)
        ensures
            match rescaled(old(self)@.perception_radius, multiplier as int) {
                Ok(v) => r is Ok && final(self)@ == (Agent { perception_radius: v, ..old(self)@ }),
                Err(e) => r == Err::<(), ParameterError>(e) && final(self)@ == old(self)@,
            },
            old(self)@.wf() ==> final(self)@.wf(),
    {
        match rescale(self.perception_radius, multiplier) {
            Ok(v) => {
                self.perception_radius = v;
                Ok(())
            },
            Err(e) => Err(e),
        }
    }

    /// Multiplies the diameter by a fixed-point number. A product that is
    /// not positive or is larger than `LIMIT` is refused, and the agent stays
    /// as it was.
    pub fn change_diameter(&mut self, multiplier: i64) -> (r: Result<(), ParameterError>)
        ensures
            match rescaled(old(self)@.diameter, multiplier as int) {
                Ok(v) => r is Ok && final(self)@ == (Agent { diameter: v, ..old(self)@ }),
                Err(e) => r == Err::<(), ParameterError>(e) && final(self)@ == old(self)@,
            },
            old(self)@.wf() ==> final(self)@.wf(),
    {
        match rescale(self.diameter, multiplier) {
            Ok(v) => {
                self.diameter = v;
                Ok(())
            },
            Err(e) => Err(e),
        }
    }

    /// Multiplies the speed limit by a fixed-point number. A product that is
    /// not positive or is larger than `LIMIT` is refused, and the agent stays
    /// as it was.
    pub fn change_max_speed(&mut self, multiplier: i64) -> (r: Result<(), ParameterError>)
        ensures
            match rescaled(old(self)@.max_speed, multiplier as int) {
                Ok(v) => r is Ok && final(self)@ == (Agent { max_speed: v, ..old(self)@ }),
                Err(e) => r == Err::<(), ParameterError>(e) && final(self)@ == old(self)@,
            },
            old(self)@.wf() ==> final(self)@.wf(),
    {
        match rescale(self.max_speed, multiplier) {
            Ok(v) => {
                self.max_speed = v;
                Ok(())
            },
            Err(e) => Err(e),
        }
    }

    /// Multiplies the steering limit by a fixed-point number. A product that is
    /// not positive or is larger than `LIMIT` is refused, and the agent stays
    /// as it was.
    pub fn change_max_force(&mut self, multiplier: i64) -> (r: Result<(), ParameterError>)
        ensures
            match rescaled(old(self)@.max_force, multiplier as int) {
                Ok(v) => r is Ok && final(self)@ == (Agent { max_force: v, ..old(self)@ }),
                Err(e) => r == Err::<(), ParameterError>(e) && final(self)@ == old(self)@,
            },
            old(self)@.wf() ==> final(self)@.wf(),
    {
        match rescale(self.max_force, multiplier) {
            Ok(v) => {
                self.max_force = v;
                Ok(())
            },
            Err(e) => Err(e),
        }
    }

    /// Multiplies the weight of the alignment rule by a fixed-point number. A product that is
    /// not positive or is larger than `LIMIT` is refused, and the agent stays
    /// as it was.
    pub fn change_alignment_modifier(&mut self, multiplier: i64) -> (r: Result<(), ParameterError>)
        ensures
            match rescaled(old(self)@.alignment_modifier, multiplier as int) {
                Ok(v) => r is Ok && final(self)@ == (Agent { alignment_modifier: v, ..old(self)@ }),
                Err(e) => r == Err::<(), ParameterError>(e) && final(self)@ == old(self)@,
            },
            old(self)@.wf() ==> final(self)@.wf(),
    {
        match rescale(self.alignment_modifier, multiplier) {
            Ok(v) => {
                self.alignment_modifier = v;
                Ok(())
            },
            Err(e) => Err(e),
        }
    }

    /// Multiplies the weight of the cohesion rule by a fixed-point number. A product that is
    /// not positive or is larger than `LIMIT` is refused, and the agent stays
    /// as it was.
    pub fn change_cohesion_modifier(&mut self, multiplier: i64) -> (r: Result<(), ParameterError>)
        ensures
            match rescaled(old(self)@.cohesion_modifier, multiplier as int) {
                Ok(v) => r is Ok && final(self)@ == (Agent { cohesion_modifier: v, ..old(self)@ }),
                Err(e) => r == Err::<(), ParameterError>(e) && final(self)@ == old(self)@,
            },
            old(self)@.wf() ==> final(self)@.wf(),
    {
        match rescale(self.cohesion_modifier, multiplier) {
            Ok(v) => {
                self.cohesion_modifier = v;
                Ok(())
            },
            Err(e) => Err(e),
        }
    }

    /// Multiplies the weight of the separation rule by a fixed-point number. A product that is
    /// not positive or is larger than `LIMIT` is refused, and the agent stays
    /// as it was.
    pub fn change_separation_modifier(&mut self, multiplier: i64) -> (r: Result<(), ParameterError>)
        ensures
            match rescaled(old(self)@.separation_modifier, multiplier as int) {
                Ok(v) => r is Ok && final(self)@ == (Agent { separation_modifier: v, ..old(self)@ }),
                Err(e) => r == Err::<(), ParameterError>(e) && final(self)@ == old(self)@,
            },
            old(self)@.wf() ==> final(self)@.wf(),
    {
        match rescale(self.separation_modifier, multiplier) {
            Ok(v) => {
                self.separation_modifier = v;
                Ok(())
            },
            Err(e) => Err(e),
        }
    }

    /// Multiplies one of the seven parameters by a fixed-point number. A
    /// product that is not positive or is larger than `LIMIT` is refused,
    /// and the agent stays as it was.
    pub fn change(&mut self, which: Parameter, multiplier: i64) -> (r: Result<(), ParameterError>)
        ensures
            match old(self)@.retuned(which, multiplier as int) {
                Ok(agent) => r is Ok && final(self)@ == agent,
                Err(e) => r == Err::<(), ParameterError>(e) && final(self)@ == old(self)@,
            },
            old(self)@.wf() ==> final(self)@.wf(),
    {
        match which {
            Parameter::PerceptionRadius => self.change_perception(multiplier),
            Parameter::Diameter => self.change_diameter(multiplier),
            Parameter::MaxSpeed => self.change_max_speed(multiplier),
            Parameter::MaxForce => self.change_max_force(multiplier),
            Parameter::Alignment => self.change_alignment_modifier(multiplier),
            Parameter::Cohesion => self.change_cohesion_modifier(multiplier),
            Parameter::Separation => self.change_separation_modifier(multiplier),
        }
    }

    /// Puts the agent at another position.
    pub fn change_position(&mut self, new_position: Vec2)
        ensures
            final(self)@ == (Agent { position: new_position@, ..old(self)@ }),
    {
        self.position = new_position;
    }

    /// Gives the agent another velocity.
    pub fn change_velocity(&mut self, new_velocity: Vec2)
        ensures
            final(self)@ == (Agent { velocity: new_velocity@, ..old(self)@ }),
    {
        self.velocity = new_velocity;
    }
}

impl Default for Boid {
    /// An agent in the middle, with the parameters that every agent starts
    /// with and a small random velocity, each coordinate at least `-DRIFT`
    /// and less than `DRIFT`.
    fn default() -> (boid: Self)
        ensures
            boid@ == Agent::fresh(Vector::zero(), boid@.velocity),
            -DRIFT <= boid@.velocity.x < DRIFT,
            -DRIFT <= boid@.velocity.y < DRIFT,
            boid@.wf(),
    {
        Boid {
            position: Vec2::zero(),
            velocity: random_heading(DRIFT),
            acceleration: Vec2::zero(),
            max_speed: DEFAULT_MAX_SPEED,
            max_force: DEFAULT_MAX_FORCE,
            diameter: DEFAULT_DIAMETER,
            perception_radius: DEFAULT_PERCEPTION_RADIUS,
            alignment_modifier: DEFAULT_ALIGNMENT,
            cohesion_modifier: DEFAULT_COHESION,
            separation_modifier: DEFAULT_SEPARATION,
        }
    }
}

} // verus!
