//! The population: an ordered collection of agents that is spawned, grown,
//! shrunk, tuned and stepped as a whole.

use crate::agent::{
    all_wf, lemma_flocked, lemma_retuned, Agent, Parameter, ParameterError, CRUISE_SPEED, DRIFT,
};
use crate::boid::{agents, Boid};
use crate::math::SCALE;
use crate::random::{random_heading, random_point};
use crate::rect::Rect;
use crate::vector::{Vec2, Vector};
use rayon::iter::{IndexedParallelIterator, IntoParallelRefMutIterator, ParallelIterator};
use vstd::prelude::*;

verus! {

/// The agents of a simulation, in their slots.
#[derive(Clone, Debug)]
pub struct Flock {
    boids: Vec<Boid>,
}

impl View for Flock {
    type V = Seq<Agent>;

    /// The agents that the flock holds, slot by slot.
    closed spec fn view(&self) -> Seq<Agent> {
        agents(self.boids@)
    }
}

/// The flock after one step: every slot holds the agent that was there,
/// stepped against the whole flock as it was before the step.
pub open spec fn stepped(flock: Seq<Agent>, boundary: Rect) -> Seq<Agent> {
    Seq::new(flock.len(), |i: int| flock[i].flocked(flock, i, boundary))
}

/// Why the first agent among the first `upto` that cannot take a multiplier
/// refuses it, if any of them does.
pub open spec fn refusal_among(
    flock: Seq<Agent>,
    which: Parameter,
    multiplier: int,
    upto: int,
) -> Option<ParameterError>
    decreases upto,
{
    if upto <= 0 {
        None
    } else {
        match refusal_among(flock, which, multiplier, upto - 1) {
            Some(e) => Some(e),
            None => match flock[upto - 1].retuned(which, multiplier) {
                Ok(_) => None,
                Err(e) => Some(e),
            },
        }
    }
}

/// Why the first agent that cannot take a multiplier refuses it, if any does.
pub open spec fn refusal(flock: Seq<Agent>, which: Parameter, multiplier: int) -> Option<
    ParameterError,
> {
    refusal_among(flock, which, multiplier, flock.len() as int)
}

/// A refusal among the first slots is the refusal of every longer stretch.
pub proof fn lemma_refusal_stays(
    flock: Seq<Agent>,
    which: Parameter,
    multiplier: int,
    upto: int,
    later: int,
)
    requires
        upto <= later,
        refusal_among(flock, which, multiplier, upto) is Some,
    ensures
        refusal_among(flock, which, multiplier, later) == refusal_among(
            flock,
            which,
            multiplier,
            upto,
        ),
    decreases later - upto,
{
    if upto < later {
        lemma_refusal_stays(flock, which, multiplier, upto, later - 1);
    }
}

/// The flock with one parameter of every agent multiplied by a fixed-point number.
pub open spec fn retuned(flock: Seq<Agent>, which: Parameter, multiplier: int) -> Seq<Agent> {
    Seq::new(flock.len(), |i: int| flock[i].retuned(which, multiplier).unwrap())
}

/// The flock after a request to multiply one parameter of every agent: all
/// agents take the multiplier, or the flock stays as it was.
pub open spec fn tuned(flock: Seq<Agent>, which: Parameter, multiplier: int) -> Seq<Agent> {
    if refusal(flock, which, multiplier) is None {
        retuned(flock, which, multiplier)
    } else {
        flock
    }
}

/// `flock` holds `size` new agents inside the boundary.
pub open spec fn spawned(flock: Seq<Agent>, boundary: Rect, size: int) -> bool {
    &&& flock.len() == size
    &&& forall|i: int| 0 <= i < size ==> (#[trigger] flock[i]).spawned(boundary)
}

/// `after` is `before` with one more agent at the end: a copy of the first
/// agent, or an agent with the starting parameters where `before` is empty,
/// in the middle and with a small velocity of its own, each coordinate at
/// least `-DRIFT` and less than `DRIFT`.
pub open spec fn grown(before: Seq<Agent>, after: Seq<Agent>) -> bool {
    &&& after.len() == before.len() + 1
    &&& after.drop_last() == before
    &&& -DRIFT <= after.last().velocity.x < DRIFT
    &&& -DRIFT <= after.last().velocity.y < DRIFT
    &&& after.last() == Agent::newcomer(
        if before.len() > 0 {
            before[0]
        } else {
            Agent::fresh(Vector::zero(), Vector::zero())
        },
        after.last().velocity,
    )
}

/// The flock without its last agent; an empty flock stays empty.
pub open spec fn shrunk(flock: Seq<Agent>) -> Seq<Agent> {
    if flock.len() > 0 {
        flock.drop_last()
    } else {
        flock
    }
}

/// `after` is `before` with every agent moved to some place inside the
/// boundary and nothing else changed.
pub open spec fn scattered(before: Seq<Agent>, after: Seq<Agent>, boundary: Rect) -> bool {
    &&& after.len() == before.len()
    &&& forall|i: int|
        0 <= i < before.len() ==> boundary.contains((#[trigger] after[i]).position) && after[i]
            == (Agent { position: after[i].position, ..before[i] })
}

/// No agent is faster than its speed limit.
pub open spec fn within_speed_limits(flock: Seq<Agent>) -> bool {
    forall|i: int|
        0 <= i < flock.len() ==> (#[trigger] flock[i]).velocity.length_sq() <= flock[i].max_speed
            * flock[i].max_speed
}

/// Every agent lies inside the boundary, but for those whose half diameter
/// is more than the boundary is wide or high.
pub open spec fn within_boundary(flock: Seq<Agent>, boundary: Rect) -> bool {
    forall|i: int|
        0 <= i < flock.len() && boundary.fits((#[trigger] flock[i]).diameter)
            ==> boundary.contains(flock[i].position)
}

/// What every agent of a flock is asked to do at one time.
enum Task<'a> {
    /// Take one step against a snapshot of the flock inside a boundary.
    Step(&'a [Boid], Rect),
    /// Multiply one parameter by a fixed-point number.
    Tune(Parameter, i64),
    /// Move to a random place inside a boundary.
    Scatter(Rect),
}

impl<'a> Task<'a> {
    /// The agent can take the task: it can be stepped, or it does not
    /// refuse the multiplier, or the boundary to move into is valid.
    spec fn fits(self, agent: Agent) -> bool {
        match self {
            Task::Step(snapshot, boundary) => agent.wf() && all_wf(agents(snapshot@))
                && boundary.wf(),
            Task::Tune(which, multiplier) => agent.retuned(which, multiplier as int) is Ok,
            Task::Scatter(boundary) => boundary.wf(),
        }
    }

    /// `after` is what the task makes of the agent `before` in slot `index`.
    spec fn done(self, before: Agent, index: int, after: Agent) -> bool {
        match self {
            Task::Step(snapshot, boundary) => after == before.flocked(
                agents(snapshot@),
                index,
                boundary,
            ),
            Task::Tune(which, multiplier) => before.retuned(which, multiplier as int) == Ok::<
                Agent,
                ParameterError,
            >(after),
            Task::Scatter(boundary) => boundary.contains(after.position) && after == (Agent {
                position: after.position,
                ..before
            }),
        }
    }
}

// Does a task to the agent in slot `index`.
fn perform(boid: &mut Boid, task: &Task, index: usize)
    requires
        task.fits(old(boid)@),
    ensures
        task.done(old(boid)@, index as int, final(boid)@),
{
    match task {
        Task::Step(snapshot, win_rect) => {
            boid.flock(snapshot, index, *win_rect);
        },
        Task::Tune(which, multiplier) => {
            let _ = boid.change(*which, *multiplier);
        },
        Task::Scatter(boundary_rect) => {
            boid.change_position(random_point(boundary_rect));
        },
    }
}

/// Does a task to every boid, in parallel: `rayon`'s `par_iter_mut` hands
/// out each slot of the vector exactly once, `enumerate` pairs it with its
/// index, and `for_each` runs the closure on every pair, so every slot ends
/// up as `perform` leaves it.
#[verifier::external_body]
fn par_each(boids: &mut Vec<Boid>, task: &Task)
    requires
        forall|i: int| 0 <= i < old(boids)@.len() ==> task.fits((#[trigger] old(boids)@[i])@),
    ensures
        final(boids)@.len() == old(boids)@.len(),
        forall|i: int|
            0 <= i < old(boids)@.len() ==> task.done(
                old(boids)@[i]@,
                i,
                (#[trigger] final(boids)@[i])@,
            ),
{
    boids.par_iter_mut().enumerate().for_each(|(i, boid)| perform(boid, task, i));
}

/// Where no agent among the first `upto` refuses a multiplier, each of them
/// takes it.
pub proof fn lemma_no_refusal(flock: Seq<Agent>, which: Parameter, multiplier: int, upto: int)
    requires
        refusal_among(flock, which, multiplier, upto) is None,
    ensures
        forall|j: int| 0 <= j < upto ==> (#[trigger] flock[j]).retuned(which, multiplier) is Ok,
    decreases upto,
{
    if upto > 0 {
        lemma_no_refusal(flock, which, multiplier, upto - 1);
    }
}

impl Flock {
    /// Every agent is in the state between two steps.
    pub open spec fn wf(&self) -> bool {
        all_wf(self@)
    }

    /// A flock of `flock_size` new agents, each at a random place inside the
    /// boundary and at cruise speed in a random direction.
    pub fn new_flock(boundary_rect: Rect, flock_size: usize) -> (flock: Flock)
        requires
            boundary_rect.wf(),
        ensures
            spawned(flock@, boundary_rect, flock_size as int),
            flock.wf(),
    {
        let mut flock: Vec<Boid> = Vec::new();
        for i in 0..flock_size
            invariant
                boundary_rect.wf(),
                flock@.len() == i,
                all_wf(agents(flock@)),
                forall|j: int| 0 <= j < i ==> (#[trigger] agents(flock@)[j]).spawned(boundary_rect),
        {
            let position: Vec2 = random_point(&boundary_rect);
            // Random, but clamped to the cruise speed
            let heading: Vec2 = random_heading(SCALE).clamp_length_max(CRUISE_SPEED);
            let boid: Boid = Boid::new(position, heading);
            let ghost before = flock@;
            flock.push(boid);
            assert forall|j: int| 0 <= j < i + 1 implies (#[trigger] agents(flock@)[j]).spawned(
                boundary_rect,
            ) && agents(flock@)[j].wf() by {
                if j < i {
                    assert(agents(flock@)[j] == agents(before)[j]);
                } else {
                    assert(agents(flock@)[j] == boid@);
                }
            }
        }
        Flock { boids: flock }
    }

    /// The flock that holds the given agents, slot by slot.
    pub fn from_boids(boids: Vec<Boid>) -> (flock: Flock)
        ensures
            flock@ == agents(boids@),
    {
        Flock { boids }
    }

    /// Whether every agent is in the state between two steps.
    pub fn is_valid(&self) -> (b: bool)
        ensures
            b == self.wf(),
    {
        let mut i: usize = 0;
        while i < self.boids.len()
            invariant
                i <= self.boids@.len(),
                forall|j: int| 0 <= j < i ==> (#[trigger] agents(self.boids@)[j]).wf(),
            decreases self.boids@.len() - i,
        {
            if !self.boids[i].is_valid() {
                assert(!agents(self.boids@)[i as int].wf());
                return false;
            }
            i = i + 1;
        }
        true
    }

    /// The number of agents.
    pub fn len(&self) -> (n: usize)
        ensures
            n == self@.len(),
    {
        self.boids.len()
    }

    /// Whether the flock has no agent.
    pub fn is_empty(&self) -> (b: bool)
        ensures
            b == (self@.len() == 0),
    {
        self.boids.len() == 0
    }

    /// The agents, slot by slot.
    pub fn boids(&self) -> (r: &[Boid])
        ensures
            agents(r@) == self@,
    {
        self.boids.as_slice()
    }

    /// The agent in the first slot, if there is one.
    pub fn first(&self) -> (r: Option<Boid>)
        ensures
            r is Some <==> self@.len() > 0,
            r is Some ==> r.unwrap()@ == self@[0],
    {
        if self.boids.len() == 0 {
            None
        } else {
            Some(self.boids[0])
        }
    }

    /// Adds an agent in the middle with a small random velocity: a copy of
    /// the first agent, or an agent with the starting parameters where the
    /// flock is empty.
    pub fn append(&mut self)
        ensures
            grown(old(self)@, final(self)@),
            old(self).wf() ==> final(self).wf(),
    {
        let ghost before = self.boids@;
        // Copy the first boid and add it, if there is a first boid
        let mut new_boid: Boid = Boid::default();
        if self.boids.len() > 0 {
            new_boid = self.boids[0];
            new_boid.change_position(Vec2::zero());
            new_boid.change_velocity(random_heading(DRIFT));
        }
        self.boids.push(new_boid);
        assert(agents(self.boids@).drop_last() =~= agents(before));
        assert(agents(self.boids@).last() == new_boid@);
        assert(old(self).wf() ==> all_wf(agents(self.boids@))) by {
            if old(self).wf() {
                assert forall|j: int| 0 <= j < self.boids@.len() implies (#[trigger] agents(
                    self.boids@,
                )[j]).wf() by {
                    if j < before.len() {
                        assert(agents(self.boids@)[j] == agents(before)[j]);
                    } else {
                        assert(agents(self.boids@)[j] == new_boid@);
                        assert(before.len() > 0 ==> agents(before)[0].wf());
                    }
                }
            }
        }
    }

    /// Removes the agent in the last slot and gives it back; nothing happens
    /// to an empty flock.
    pub fn remove_last(&mut self) -> (r: Option<Boid>)
        ensures
            final(self)@ == shrunk(old(self)@),
            r is Some <==> old(self)@.len() > 0,
            r is Some ==> r.unwrap()@ == old(self)@.last(),
            old(self).wf() ==> final(self).wf(),
    {
        let ghost before = self.boids@;
        let removed: Option<Boid> = self.boids.pop();
        assert(before.len() > 0 ==> agents(self.boids@) =~= agents(before).drop_last());
        assert(before.len() == 0 ==> agents(self.boids@) =~= agents(before));
        removed
    }

    /// Replaces the whole flock by `flock_size` new agents inside the boundary.
    pub fn reset(&mut self, boundary_rect: Rect, flock_size: usize)
        requires
            boundary_rect.wf(),
        ensures
            spawned(final(self)@, boundary_rect, flock_size as int),
            final(self).wf(),
    {
        *self = Flock::new_flock(boundary_rect, flock_size);
    }

    // Why the first agent that cannot take a multiplier refuses it, if any does.
    fn first_refusal(&self, which: Parameter, multiplier: i64) -> (r: Option<ParameterError>)
        ensures
            r == refusal(self@, which, multiplier as int),
    {
        let mut i: usize = 0;
        while i < self.boids.len()
            invariant
                i <= self.boids@.len(),
                refusal_among(self@, which, multiplier as int, i as int) is None,
            decreases self.boids@.len() - i,
        {
            let mut probe: Boid = self.boids[i];
            assert(probe@ == self@[i as int]);
            if let Err(e) = probe.change(which, multiplier) {
                proof {
                    lemma_refusal_stays(
                        self@,
                        which,
                        multiplier as int,
                        i + 1,
                        self@.len() as int,
                    );
                }
                return Some(e);
            }
            i = i + 1;
        }
        None
    }

    /// Multiplies one parameter of every agent by a fixed-point number. Where
    /// any agent refuses the product, the first refusal is returned and the
    /// whole flock stays as it was.
    pub fn scale(&mut self, which: Parameter, multiplier: i64) -> (r: Result<(), ParameterError>)
        ensures
            final(self)@ == tuned(old(self)@, which, multiplier as int),
            match refusal(old(self)@, which, multiplier as int) {
                None => r is Ok,
                Some(e) => r == Err::<(), ParameterError>(e),
            },
            old(self).wf() ==> final(self).wf(),
    {
        let ghost before = self@;
        if let Some(e) = self.first_refusal(which, multiplier) {
            return Err(e);
        }
        proof {
            lemma_no_refusal(before, which, multiplier as int, before.len() as int);
            assert forall|i: int| 0 <= i < self.boids@.len() implies (#[trigger] self.boids@[i])@.retuned(
                which,
                multiplier as int,
            ) is Ok by {
                assert(self.boids@[i]@ == before[i]);
            }
        }
        par_each(&mut self.boids, &Task::Tune(which, multiplier));
        proof {
            assert forall|i: int| 0 <= i < before.len() implies (#[trigger] self@[i])
                == before[i].retuned(which, multiplier as int).unwrap() && (before[i].wf()
                ==> self@[i].wf()) by {
                assert(self@[i] == self.boids@[i]@);
                lemma_retuned(before[i], which, multiplier as int);
            }
            assert(self@ =~= retuned(before, which, multiplier as int));
        }
        Ok(())
    }

    /// Puts every agent at a random place inside the boundary and leaves the
    /// rest of its state as it is.
    pub fn scatter(&mut self, boundary_rect: Rect)
        requires
            boundary_rect.wf(),
        ensures
            scattered(old(self)@, final(self)@, boundary_rect),
            old(self).wf() ==> final(self).wf(),
    {
        let ghost before = self@;
        par_each(&mut self.boids, &Task::Scatter(boundary_rect));
        proof {
            assert forall|i: int| 0 <= i < before.len() implies boundary_rect.contains(
                (#[trigger] self@[i]).position,
            ) && self@[i] == (Agent { position: self@[i].position, ..before[i] }) && (before[i].wf()
                ==> self@[i].wf()) by {
                assert(self@[i] == self.boids@[i]@);
            }
        }
    }

    /// One step of the whole flock: a snapshot is taken, every agent is
    /// stepped against the snapshot, independently of the others and in
    /// parallel, and takes the place that it had.
    pub fn step(&mut self, win_rect: Rect)
        requires
            old(self).wf(),
            win_rect.wf(),
        ensures
            final(self)@ == stepped(old(self)@, win_rect),
            final(self).wf(),
            within_speed_limits(final(self)@),
            within_boundary(final(self)@, win_rect),
    {
        let ghost before = self@;
        // A copy of the flock, so that no agent is read while it is written
        let snapshot: Vec<Boid> = self.boids.clone();
        assert(snapshot@ =~= self.boids@);
        assert forall|i: int| 0 <= i < self.boids@.len() implies (#[trigger] self.boids@[i])@.wf() by {
            assert(before[i].wf());
        }
        par_each(&mut self.boids, &Task::Step(snapshot.as_slice(), win_rect));
        proof {
            lemma_stepped(before, win_rect);
            assert forall|i: int| 0 <= i < before.len() implies (#[trigger] self@[i])
                == stepped(before, win_rect)[i] by {
                assert(self@[i] == self.boids@[i]@);
            }
            assert(self@ =~= stepped(before, win_rect));
        }
    }
}

/// A step keeps every agent in the state between two steps and in its slot,
/// leaves none faster than its speed limit, and leaves every agent inside
/// the boundary for which the boundary is at least half its diameter wide
/// and high.
pub proof fn lemma_stepped(flock: Seq<Agent>, boundary: Rect)
    requires
        all_wf(flock),
        boundary.wf(),
    ensures
        stepped(flock, boundary).len() == flock.len(),
        all_wf(stepped(flock, boundary)),
        within_speed_limits(stepped(flock, boundary)),
        within_boundary(stepped(flock, boundary), boundary),
{
    assert forall|i: int| 0 <= i < flock.len() implies {
        let after = #[trigger] stepped(flock, boundary)[i];
        &&& after.wf()
        &&& after.velocity.length_sq() <= after.max_speed * after.max_speed
        &&& boundary.fits(after.diameter) ==> boundary.contains(after.position)
    } by {
        assert(flock[i].wf());
        lemma_flocked(flock[i], flock, i, boundary);
    }
}

/// A step wraps every agent against the boundary that it is given, whatever
/// boundary the step before was given: after a step inside `first` and a
/// step inside `second`, every agent for which `second` is at least half its
/// diameter wide and high lies inside `second`.
pub proof fn lemma_step_follows_boundary(flock: Seq<Agent>, first: Rect, second: Rect)
    requires
        all_wf(flock),
        first.wf(),
        second.wf(),
    ensures
        within_boundary(stepped(stepped(flock, first), second), second),
{
    lemma_stepped(flock, first);
    lemma_stepped(stepped(flock, first), second);
}

} // verus!
