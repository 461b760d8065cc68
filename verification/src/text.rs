//! The numbers that the overlay of current values shows.

use crate::model::Model;
use vstd::prelude::*;

verus! {

/// The size of the flock and the parameters of its first agent.
#[derive(Clone, Copy, PartialEq, Eq, Structural, Debug)]
pub struct CurrentValues {
    pub boids: usize,
    pub perception_radius: i64,
    pub diameter: i64,
    pub max_speed: i64,
    pub max_force: i64,
    pub alignment_modifier: i64,
    pub cohesion_modifier: i64,
    pub separation_modifier: i64,
}

/// The size of the flock and the parameters of its first agent; none where
/// there are no agents.
pub fn current_values(model: &Model) -> (values: Option<CurrentValues>)
    ensures
        values is Some <==> model.flock@.len() > 0,
        values is Some ==> {
            let v = values.unwrap();
            let first = model.flock@[0];
            &&& v.boids == model.flock@.len()
            &&& v.perception_radius == first.perception_radius
            &&& v.diameter == first.diameter
            &&& v.max_speed == first.max_speed
            &&& v.max_force == first.max_force
            &&& v.alignment_modifier == first.alignment_modifier
            &&& v.cohesion_modifier == first.cohesion_modifier
            &&& v.separation_modifier == first.separation_modifier
        },
{
    match model.flock.first() {
        Some(first) => Some(
            CurrentValues {
                boids: model.flock.len(),
                perception_radius: first.get_perception(),
                diameter: first.get_diameter(),
                max_speed: first.get_max_speed(),
                max_force: first.get_max_force(),
                alignment_modifier: first.get_alignment_modifier(),
                cohesion_modifier: first.get_cohesion_modifier(),
                separation_modifier: first.get_separation_modifier(),
            },
        ),
        None => None,
    }
}

} // verus!
