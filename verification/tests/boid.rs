use boids::agent::{
    Parameter, ParameterError, CRUISE_SPEED, DEFAULT_ALIGNMENT, DEFAULT_COHESION,
    DEFAULT_DIAMETER, DEFAULT_MAX_FORCE, DEFAULT_MAX_SPEED, DEFAULT_PERCEPTION_RADIUS,
    DEFAULT_SEPARATION, DRIFT,
};
use boids::boid::{rescale, Boid};
use boids::color::Color;
use boids::math::LIMIT;
use boids::rect::Rect;
use boids::vector::Vec2;

fn boid_at(x: i64, y: i64, vx: i64, vy: i64) -> Boid {
    let mut boid = Boid::new(Vec2::new(x, y), Vec2::new(1, 0));
    boid.change_velocity(Vec2::new(vx, vy));
    boid
}

fn room() -> Rect {
    Rect::new(-8_000_000, 8_000_000, -6_000_000, 6_000_000).unwrap()
}

#[test]
fn new_boid_starts_with_the_starting_parameters() {
    let boid = Boid::new(Vec2::new(1_000_000, -2_000_000), Vec2::new(0, 3));
    assert_eq!(boid.position(), Vec2::new(1_000_000, -2_000_000));
    assert_eq!(boid.acceleration(), Vec2::zero());
    assert_eq!(boid.get_max_speed(), 75_000);
    assert_eq!(boid.get_max_force(), 500);
    assert_eq!(boid.get_diameter(), 300_000);
    assert_eq!(boid.get_perception(), 2_500_000);
    assert_eq!(boid.get_alignment_modifier(), 1_000_000);
    assert_eq!(boid.get_cohesion_modifier(), 1_000_000);
    assert_eq!(boid.get_separation_modifier(), 900_000);
    assert_eq!(boid.get_max_speed(), DEFAULT_MAX_SPEED);
    assert_eq!(boid.get_max_force(), DEFAULT_MAX_FORCE);
    assert_eq!(boid.get_diameter(), DEFAULT_DIAMETER);
    assert_eq!(boid.get_perception(), DEFAULT_PERCEPTION_RADIUS);
    assert_eq!(boid.get_alignment_modifier(), DEFAULT_ALIGNMENT);
    assert_eq!(boid.get_cohesion_modifier(), DEFAULT_COHESION);
    assert_eq!(boid.get_separation_modifier(), DEFAULT_SEPARATION);
}

#[test]
fn new_boid_moves_at_cruise_speed() {
    assert_eq!(CRUISE_SPEED, 75_000);
    assert_eq!(
        Boid::new(Vec2::zero(), Vec2::new(0, 3)).velocity(),
        Vec2::new(0, 75_000)
    );
    assert_eq!(
        Boid::new(Vec2::zero(), Vec2::new(-3_000_000, 4_000_000)).velocity(),
        Vec2::new(-45_000, 60_000)
    );
    assert_eq!(
        Boid::new(Vec2::zero(), Vec2::new(10, 0)).velocity(),
        Vec2::new(75_000, 0)
    );
}

#[test]
fn new_boid_without_a_direction_takes_the_default_heading() {
    let boid = Boid::new(Vec2::new(5, 5), Vec2::zero());
    assert_eq!(boid.velocity(), Vec2::new(75_000, 0));
}

#[test]
fn default_boid_sits_in_the_middle_and_drifts() {
    let mut i = 0;
    while i < 100 {
        let boid = Boid::default();
        assert_eq!(boid.position(), Vec2::zero());
        assert_eq!(boid.acceleration(), Vec2::zero());
        assert!(-DRIFT <= boid.velocity().x && boid.velocity().x < DRIFT);
        assert!(-DRIFT <= boid.velocity().y && boid.velocity().y < DRIFT);
        assert_eq!(boid.get_max_speed(), 75_000);
        assert_eq!(boid.get_max_force(), 500);
        assert_eq!(boid.get_diameter(), 300_000);
        assert_eq!(boid.get_perception(), 2_500_000);
        assert_eq!(boid.get_alignment_modifier(), 1_000_000);
        assert_eq!(boid.get_cohesion_modifier(), 1_000_000);
        assert_eq!(boid.get_separation_modifier(), 900_000);
        i += 1;
    }
}

#[test]
fn change_position_and_velocity_set_them() {
    let mut boid = Boid::new(Vec2::zero(), Vec2::new(1, 0));
    boid.change_position(Vec2::new(7, -9));
    boid.change_velocity(Vec2::new(-1, 2));
    assert_eq!(boid.position(), Vec2::new(7, -9));
    assert_eq!(boid.velocity(), Vec2::new(-1, 2));
    assert_eq!(boid.get_max_speed(), 75_000);
}

#[test]
fn rescale_multiplies_and_rounds_toward_zero() {
    assert_eq!(rescale(2_500_000, 990_000), Ok(2_475_000));
    assert_eq!(rescale(2_500_000, 1_010_000), Ok(2_525_000));
    assert_eq!(rescale(500, 1_010_000), Ok(505));
    assert_eq!(rescale(3, 500_000), Ok(1));
    assert_eq!(rescale(LIMIT, 1_000_000), Ok(LIMIT));
    assert_eq!(rescale(-3, -1_000_000), Ok(3));
}

#[test]
fn rescale_refuses_what_is_not_positive() {
    assert_eq!(rescale(500, 0), Err(ParameterError::NotPositive));
    assert_eq!(rescale(500, -1_000_000), Err(ParameterError::NotPositive));
    assert_eq!(rescale(1, 990_000), Err(ParameterError::NotPositive));
    assert_eq!(rescale(0, 1_010_000), Err(ParameterError::NotPositive));
    assert_eq!(rescale(-5, 1_000_000), Err(ParameterError::NotPositive));
    assert_eq!(rescale(i64::MAX, i64::MIN), Err(ParameterError::NotPositive));
}

#[test]
fn rescale_refuses_what_is_too_large() {
    assert_eq!(rescale(LIMIT, 1_000_001), Err(ParameterError::TooLarge));
    assert_eq!(rescale(2_500_000, 1_000_000_000_000), Err(ParameterError::TooLarge));
    assert_eq!(rescale(i64::MAX, i64::MAX), Err(ParameterError::TooLarge));
}

#[test]
fn each_parameter_is_multiplied_on_its_own() {
    let mut boid = Boid::new(Vec2::zero(), Vec2::new(1, 0));
    assert_eq!(boid.change_perception(990_000), Ok(()));
    assert_eq!(boid.get_perception(), 2_475_000);
    assert_eq!(boid.change_diameter(990_000), Ok(()));
    assert_eq!(boid.get_diameter(), 297_000);
    assert_eq!(boid.change_max_speed(1_010_000), Ok(()));
    assert_eq!(boid.get_max_speed(), 75_750);
    assert_eq!(boid.change_max_force(1_010_000), Ok(()));
    assert_eq!(boid.get_max_force(), 505);
    assert_eq!(boid.change_alignment_modifier(1_010_000), Ok(()));
    assert_eq!(boid.get_alignment_modifier(), 1_010_000);
    assert_eq!(boid.change_cohesion_modifier(990_000), Ok(()));
    assert_eq!(boid.get_cohesion_modifier(), 990_000);
    assert_eq!(boid.change_separation_modifier(990_000), Ok(()));
    assert_eq!(boid.get_separation_modifier(), 891_000);
    assert_eq!(boid.position(), Vec2::zero());
    assert_eq!(boid.velocity(), Vec2::new(75_000, 0));
}

#[test]
fn a_refused_multiplier_leaves_the_boid_as_it_was() {
    let fresh = Boid::new(Vec2::new(1, 2), Vec2::new(1, 0));
    let mut boid = fresh;
    assert_eq!(boid.change_perception(0), Err(ParameterError::NotPositive));
    assert_eq!(boid.change_diameter(-1_000_000), Err(ParameterError::NotPositive));
    assert_eq!(boid.change_max_speed(1), Err(ParameterError::NotPositive));
    assert_eq!(boid.change_max_force(1_999), Err(ParameterError::NotPositive));
    assert_eq!(boid.change_alignment_modifier(0), Err(ParameterError::NotPositive));
    assert_eq!(boid.change_cohesion_modifier(-1), Err(ParameterError::NotPositive));
    assert_eq!(boid.change_separation_modifier(1), Err(ParameterError::NotPositive));
    assert_eq!(boid.change_perception(i64::MAX), Err(ParameterError::TooLarge));
    assert_eq!(boid.change_diameter(i64::MAX), Err(ParameterError::TooLarge));
    assert_eq!(boid.change_max_speed(i64::MAX), Err(ParameterError::TooLarge));
    assert_eq!(boid.change_max_force(i64::MAX), Err(ParameterError::TooLarge));
    assert_eq!(boid.change_alignment_modifier(i64::MAX), Err(ParameterError::TooLarge));
    assert_eq!(boid.change_cohesion_modifier(i64::MAX), Err(ParameterError::TooLarge));
    assert_eq!(boid.change_separation_modifier(i64::MAX), Err(ParameterError::TooLarge));
    assert_eq!(boid, fresh);
}

#[test]
fn a_parameter_shrinks_until_the_next_step_would_lose_it() {
    let mut boid = Boid::new(Vec2::zero(), Vec2::new(1, 0));
    let mut steps = 0;
    while boid.change_max_force(500_000).is_ok() {
        assert!(boid.get_max_force() > 0);
        steps += 1;
    }
    assert_eq!(steps, 8);
    assert_eq!(boid.get_max_force(), 1);
    assert_eq!(boid.change_max_force(500_000), Err(ParameterError::NotPositive));
    assert_eq!(boid.get_max_force(), 1);
}

#[test]
fn change_picks_the_parameter_by_name() {
    let mut boid = Boid::new(Vec2::zero(), Vec2::new(1, 0));
    assert_eq!(boid.change(Parameter::PerceptionRadius, 2_000_000), Ok(()));
    assert_eq!(boid.change(Parameter::Diameter, 2_000_000), Ok(()));
    assert_eq!(boid.change(Parameter::MaxSpeed, 2_000_000), Ok(()));
    assert_eq!(boid.change(Parameter::MaxForce, 2_000_000), Ok(()));
    assert_eq!(boid.change(Parameter::Alignment, 3_000_000), Ok(()));
    assert_eq!(boid.change(Parameter::Cohesion, 4_000_000), Ok(()));
    assert_eq!(boid.change(Parameter::Separation, 5_000_000), Ok(()));
    assert_eq!(boid.get_perception(), 5_000_000);
    assert_eq!(boid.get_diameter(), 600_000);
    assert_eq!(boid.get_max_speed(), 150_000);
    assert_eq!(boid.get_max_force(), 1_000);
    assert_eq!(boid.get_alignment_modifier(), 3_000_000);
    assert_eq!(boid.get_cohesion_modifier(), 4_000_000);
    assert_eq!(boid.get_separation_modifier(), 4_500_000);
    assert_eq!(boid.change(Parameter::MaxForce, 0), Err(ParameterError::NotPositive));
    assert_eq!(boid.change(Parameter::MaxForce, i64::MAX), Err(ParameterError::TooLarge));
    assert_eq!(boid.get_max_force(), 1_000);
}

#[test]
fn sees_is_strict_at_the_perception_radius() {
    let me = boid_at(0, 0, 0, 0);
    assert!(me.sees(&boid_at(2_499_999, 0, 0, 0)));
    assert!(!me.sees(&boid_at(2_500_000, 0, 0, 0)));
    assert!(!me.sees(&boid_at(0, -2_500_000, 0, 0)));
    assert!(me.sees(&boid_at(1_500_000, -1_999_999, 0, 0)));
    assert!(!me.sees(&boid_at(1_500_000, -2_000_000, 0, 0)));
    assert!(me.sees(&me));
}

#[test]
fn two_agents_a_hundredth_apart_push_each_other_away() {
    let a = boid_at(0, 0, 0, 0);
    let b = boid_at(10_000, 0, 0, 0);
    assert_eq!(a.get_perception(), 2_500_000);
    let flock = [a, b];
    let push_a = a.separate(&flock, 0);
    let push_b = b.separate(&flock, 1);
    assert_eq!(push_a, Vec2::new(-500, 0));
    assert_eq!(push_b, Vec2::new(500, 0));
    assert!(push_a.length_squared() <= 500 * 500);
    assert!(push_b.length_squared() <= 500 * 500);
}

#[test]
fn two_moving_agents_a_hundredth_apart_push_each_other_away() {
    let a = boid_at(0, 0, 75_000, 0);
    let b = boid_at(6_000, 8_000, 0, 75_000);
    let flock = [a, b];
    let push_a = a.separate(&flock, 0);
    let push_b = b.separate(&flock, 1);
    assert_eq!(push_a, Vec2::new(-447, -223));
    assert_eq!(push_b, Vec2::new(474, -158));
    let away_from_b = a.position().minus(b.position());
    let away_from_a = b.position().minus(a.position());
    assert!(push_a.x * away_from_b.x + push_a.y * away_from_b.y > 0);
    assert!(push_b.x * away_from_a.x + push_b.y * away_from_a.y > 0);
    assert!(push_a.length_squared() <= 500 * 500);
    assert!(push_b.length_squared() <= 500 * 500);
}

#[test]
fn three_agents_with_one_velocity_are_already_aligned() {
    let mut flock = [
        boid_at(0, 0, 100_000, 0),
        boid_at(1_000_000, 0, 100_000, 0),
        boid_at(0, 1_000_000, 100_000, 0),
    ];
    let mut i = 0;
    while i < 3 {
        assert_eq!(flock[i].change_max_speed(2_000_000), Ok(()));
        assert_eq!(flock[i].change_max_speed(666_667), Ok(()));
        assert_eq!(flock[i].get_max_speed(), 100_000);
        i += 1;
    }
    let mut i = 0;
    while i < 3 {
        let other = flock[(i + 1) % 3];
        assert!(flock[i].sees(&other));
        assert_eq!(flock[i].align(&flock, i), Vec2::zero());
        i += 1;
    }
}

#[test]
fn agents_faster_than_their_speed_limit_are_slowed_by_alignment() {
    let flock = [
        boid_at(0, 0, 100_000, 0),
        boid_at(1_000_000, 0, 100_000, 0),
        boid_at(0, 1_000_000, 100_000, 0),
    ];
    let mut i = 0;
    while i < 3 {
        assert_eq!(flock[i].align(&flock, i), Vec2::new(-500, 0));
        i += 1;
    }
}

#[test]
fn an_agent_without_neighbours_gets_no_acceleration() {
    let me = boid_at(0, 0, 30_000, 40_000);
    let far = boid_at(2_500_000, 0, 0, 75_000);
    let farther = boid_at(-5_000_000, 5_000_000, 75_000, 0);
    let alone = [me];
    assert_eq!(me.align(&alone, 0), Vec2::zero());
    assert_eq!(me.cohere(&alone, 0), Vec2::zero());
    assert_eq!(me.separate(&alone, 0), Vec2::zero());
    assert_eq!(me.steering(&alone, 0), Vec2::zero());
    let apart = [far, me, farther];
    assert_eq!(me.align(&apart, 1), Vec2::zero());
    assert_eq!(me.cohere(&apart, 1), Vec2::zero());
    assert_eq!(me.separate(&apart, 1), Vec2::zero());
    assert_eq!(me.steering(&apart, 1), Vec2::zero());
    let nobody: [Boid; 0] = [];
    assert_eq!(me.align(&nobody, 0), Vec2::zero());
    assert_eq!(me.cohere(&nobody, 0), Vec2::zero());
    assert_eq!(me.separate(&nobody, 0), Vec2::zero());
    assert_eq!(me.steering(&nobody, 0), Vec2::zero());
}

#[test]
fn an_agent_is_left_out_by_its_slot_and_not_by_its_value() {
    let twin = boid_at(0, 0, 30_000, 40_000);
    let flock = [twin, twin];
    assert_eq!(flock[0], flock[1]);
    assert_eq!(twin.align(&flock, 0), Vec2::new(300, 400));
    assert_eq!(twin.align(&flock, 1), Vec2::new(300, 400));
    assert_eq!(twin.cohere(&flock, 0), Vec2::new(373, -332));
    assert_eq!(twin.separate(&flock, 0), Vec2::new(373, -332));
    // With no slot of its own in the snapshot, both twins are neighbours.
    assert_eq!(twin.align(&flock, 2), Vec2::new(300, 400));
}

#[test]
fn alignment_steers_toward_the_mean_velocity() {
    let me = boid_at(0, 0, 0, 75_000);
    let other = boid_at(1_000_000, 0, 75_000, 0);
    let flock = [me, other];
    assert_eq!(me.align(&flock, 0), Vec2::new(353, -353));
    let still = boid_at(0, 0, 0, 0);
    let inside = boid_at(2_499_999, 0, 75_000, 0);
    assert_eq!(still.align(&[still, inside], 0), Vec2::new(500, 0));
}

#[test]
fn alignment_is_zero_where_the_mean_velocity_is_zero() {
    let me = boid_at(0, 0, 10, 10);
    let east = boid_at(1_000, 0, 75_000, 0);
    let west = boid_at(0, 1_000, -75_000, 0);
    assert_eq!(me.align(&[me, east, west], 0), Vec2::zero());
}

#[test]
fn cohesion_steers_toward_the_mean_position() {
    let a = boid_at(0, 0, 0, 0);
    let b = boid_at(1_000_000, 0, 0, 0);
    let flock = [a, b];
    assert_eq!(a.cohere(&flock, 0), Vec2::new(500, 0));
    assert_eq!(b.cohere(&flock, 1), Vec2::new(-500, 0));
    let me = boid_at(0, 0, 0, 75_000);
    let other = boid_at(1_000_000, 0, 75_000, 0);
    assert_eq!(me.cohere(&[me, other], 0), Vec2::new(353, -353));
}

#[test]
fn separation_steers_away_from_the_neighbours() {
    let me = boid_at(0, 0, 0, 75_000);
    let other = boid_at(1_000_000, 0, 75_000, 0);
    assert_eq!(me.separate(&[me, other], 0), Vec2::new(-353, -353));
}

#[test]
fn an_agent_between_two_neighbours_falls_back_to_the_default_heading() {
    let me = boid_at(0, 0, 0, 0);
    let east = boid_at(1_000, 0, 0, 0);
    let west = boid_at(-1_000, 0, 0, 0);
    let flock = [me, east, west];
    assert_eq!(me.separate(&flock, 0), Vec2::new(500, 0));
    assert_eq!(me.cohere(&flock, 0), Vec2::new(500, 0));
}

#[test]
fn steering_adds_up_the_weighted_rules() {
    let me = boid_at(0, 0, 0, 75_000);
    let other = boid_at(1_000_000, 0, 75_000, 0);
    let flock = [me, other];
    assert_eq!(me.steering(&flock, 0), Vec2::new(389, -1_023));
    let mut heavy = me;
    assert_eq!(heavy.change_alignment_modifier(2_000_000), Ok(()));
    assert_eq!(heavy.change_cohesion_modifier(3_000_000), Ok(()));
    assert_eq!(heavy.change_separation_modifier(500_000), Ok(()));
    assert_eq!(
        heavy.steering(&flock, 0),
        Vec2::new(2 * 353 + 3 * 353 - 158, -2 * 353 - 3 * 353 - 158)
    );
}

#[test]
fn steering_is_the_same_whenever_it_is_asked_for() {
    let flock = [
        boid_at(0, 0, 75_000, 0),
        boid_at(1_000_000, 500_000, 0, 75_000),
        boid_at(-500_000, 250_000, -45_000, 60_000),
        boid_at(5_000_000, 5_000_000, 75_000, 0),
    ];
    let copy = flock;
    let expected = [
        Vec2::new(-851, 336),
        Vec2::new(554, -775),
        Vec2::new(687, -625),
        Vec2::new(0, 0),
    ];
    let mut round = 0;
    while round < 3 {
        let mut i = 4;
        while i > 0 {
            i -= 1;
            assert_eq!(flock[i].steering(&flock, i), expected[i]);
            assert_eq!(copy[i].steering(&copy, i), expected[i]);
        }
        round += 1;
    }
}

#[test]
fn the_three_rules_of_a_small_flock() {
    let flock = [
        boid_at(0, 0, 75_000, 0),
        boid_at(1_000_000, 500_000, 0, 75_000),
        boid_at(-500_000, 250_000, -45_000, 60_000),
        boid_at(5_000_000, 5_000_000, 75_000, 0),
    ];
    assert_eq!(flock[0].align(&flock, 0), Vec2::new(-405, 292));
    assert_eq!(flock[0].cohere(&flock, 0), Vec2::new(-235, 440));
    assert_eq!(flock[0].separate(&flock, 0), Vec2::new(-235, -440));
    assert_eq!(flock[1].align(&flock, 1), Vec2::new(486, -114));
    assert_eq!(flock[1].cohere(&flock, 1), Vec2::new(-298, -401));
    assert_eq!(flock[1].separate(&flock, 1), Vec2::new(407, -289));
    assert_eq!(flock[2].align(&flock, 2), Vec2::new(498, -35));
    assert_eq!(flock[2].cohere(&flock, 2), Vec2::new(447, -223));
    assert_eq!(flock[2].separate(&flock, 2), Vec2::new(-287, -408));
}

#[test]
fn a_step_moves_turns_and_spends_the_acceleration() {
    let before = [
        boid_at(0, 0, 75_000, 0),
        boid_at(1_000_000, 500_000, 0, 75_000),
        boid_at(-500_000, 250_000, -45_000, 60_000),
        boid_at(5_000_000, 5_000_000, 75_000, 0),
    ];
    let mut after = before;
    let mut i = 0;
    while i < 4 {
        after[i].flock(&before, i, room());
        assert_eq!(after[i].acceleration(), Vec2::zero());
        i += 1;
    }
    assert_eq!(after[0].position(), Vec2::new(75_000, 0));
    assert_eq!(after[0].velocity(), Vec2::new(74_149, 336));
    assert_eq!(after[1].position(), Vec2::new(1_000_000, 575_000));
    assert_eq!(after[1].velocity(), Vec2::new(554, 74_225));
    assert_eq!(after[2].position(), Vec2::new(-545_000, 310_000));
    assert_eq!(after[2].velocity(), Vec2::new(-44_313, 59_375));
    assert_eq!(after[3].position(), Vec2::new(5_075_000, 5_000_000));
    assert_eq!(after[3].velocity(), Vec2::new(75_000, 0));
}

#[test]
fn a_step_caps_the_speed_but_does_not_raise_it() {
    let mut fast = boid_at(0, 0, 1_000_000_000, 1_000_000_000);
    fast.flock(&[fast], 0, room());
    assert_eq!(fast.velocity(), Vec2::new(53_033, 53_033));
    assert!(fast.velocity().length_squared() <= 75_000 * 75_000);
    let mut slow = boid_at(0, 0, 3, -4);
    slow.flock(&[slow], 0, room());
    assert_eq!(slow.velocity(), Vec2::new(3, -4));
    assert_eq!(slow.position(), Vec2::new(3, -4));
}

#[test]
fn a_step_wraps_around_the_boundary_and_keeps_the_heading() {
    let mut boid = boid_at(7_800_000, 0, 75_000, 0);
    boid.flock(&[boid], 0, room());
    assert_eq!(boid.position(), Vec2::new(-7_850_000, 0));
    assert_eq!(boid.velocity(), Vec2::new(75_000, 0));
    let mut corner = boid_at(7_900_000, 5_900_000, 0, 0);
    corner.flock(&[corner], 0, room());
    assert_eq!(corner.position(), Vec2::new(-7_850_000, -5_850_000));
    let mut back = boid_at(-7_800_000, -5_800_000, -75_000, -75_000);
    back.flock(&[back], 0, room());
    assert_eq!(back.position(), Vec2::new(7_850_000, 5_850_000));
}

#[test]
fn a_step_leaves_an_agent_on_an_edge_inside_the_boundary() {
    let edges = [
        Vec2::new(-8_000_000, 0),
        Vec2::new(8_000_000, 0),
        Vec2::new(0, -6_000_000),
        Vec2::new(0, 6_000_000),
        Vec2::new(8_000_000, 6_000_000),
    ];
    let mut i = 0;
    while i < edges.len() {
        let mut boid = boid_at(edges[i].x, edges[i].y, 0, 0);
        boid.flock(&[boid], 0, room());
        assert!(room().holds(boid.position()));
        i += 1;
    }
}

#[test]
fn a_step_wraps_against_the_boundary_that_it_is_given() {
    let mut boid = boid_at(7_000_000, 5_000_000, 75_000, 0);
    boid.flock(&[boid], 0, room());
    assert_eq!(boid.position(), Vec2::new(7_075_000, 5_000_000));
    let small = Rect::new(-1_000_000, 1_000_000, -1_000_000, 1_000_000).unwrap();
    boid.flock(&[boid], 0, small);
    assert_eq!(boid.position(), Vec2::new(-850_000, -850_000));
    assert!(small.holds(boid.position()));
    boid.flock(&[boid], 0, room());
    assert_eq!(boid.position(), Vec2::new(-775_000, -850_000));
}

#[test]
fn the_colour_follows_speed_and_place() {
    let full = boid_at(0, 3_000_000, 75_000, 0);
    assert_eq!(
        full.color(room()),
        Some(Color::new(800_000, 500_000, 650_000, 1_000_000))
    );
    let boid = boid_at(4_000_000, -3_000_000, 30_000, 40_000);
    assert_eq!(
        boid.color(room()),
        Some(Color { r: 600_000, g: 650_000, b: 350_000, a: 1_000_000 })
    );
    let still = boid_at(-8_000_000, -6_000_000, 0, 0);
    assert_eq!(
        still.color(room()),
        Some(Color::new(200_000, 200_000, 200_000, 1_000_000))
    );
}

#[test]
fn there_is_no_colour_in_a_boundary_without_width_or_height() {
    let boid = boid_at(0, 0, 75_000, 0);
    assert_eq!(boid.color(Rect::new(0, 0, -1, 1).unwrap()), None);
    assert_eq!(boid.color(Rect::new(-1, 1, 5, 5).unwrap()), None);
    assert!(boid.color(Rect::new(-1, 1, -1, 1).unwrap()).is_some());
}

#[test]
fn a_new_boid_is_valid_and_one_out_of_range_is_not() {
    let boid = boid_at(0, 0, 75_000, 0);
    assert!(boid.is_valid());
    let mut far = boid;
    far.change_position(Vec2::new(2 * LIMIT, -2 * LIMIT));
    assert!(far.is_valid());
    far.change_position(Vec2::new(2 * LIMIT + 1, 0));
    assert!(!far.is_valid());
    let mut fast = boid;
    fast.change_velocity(Vec2::new(LIMIT, -LIMIT));
    assert!(fast.is_valid());
    fast.change_velocity(Vec2::new(0, -LIMIT - 1));
    assert!(!fast.is_valid());
    assert!(Boid::default().is_valid());
}

#[test]
fn update_integrates_without_steering() {
    let mut boid = boid_at(1_000_000, 2_000_000, 30_000, -40_000);
    boid.update(room());
    assert_eq!(boid.position(), Vec2::new(1_030_000, 1_960_000));
    assert_eq!(boid.velocity(), Vec2::new(30_000, -40_000));
    assert_eq!(boid.acceleration(), Vec2::zero());
    assert!(boid.is_valid());
    let mut edge = boid_at(7_850_000, -5_850_000, 1, -1);
    edge.update(room());
    assert_eq!(edge.position(), Vec2::new(-7_850_000, 5_850_000));
    assert_eq!(edge.velocity(), Vec2::new(1, -1));
}

#[test]
fn agents_with_one_perception_radius_see_each_other_or_not() {
    let a = boid_at(0, 0, 0, 0);
    let near = boid_at(-1_500_000, 1_999_999, 0, 0);
    let far = boid_at(-1_500_000, 2_000_000, 0, 0);
    assert!(a.sees(&near) && near.sees(&a));
    assert!(!a.sees(&far) && !far.sees(&a));
    let mut keen = far;
    keen.change_perception(1_010_000).unwrap();
    assert!(keen.sees(&a) && !a.sees(&keen));
}

#[test]
fn separation_heads_away_from_the_side_that_holds_the_neighbours() {
    let me = boid_at(0, 0, 0, 0);
    let left = boid_at(-1_000_000, -500_000, 0, 0);
    let below = boid_at(-200_000, -1_000_000, 0, 0);
    let push = me.separate(&[left, me, below], 1);
    assert_eq!(push, Vec2::new(294, 404));
    assert!(push.x >= 0 && push.y >= 0);
    let turned = boid_at(0, 0, 0, 0).separate(&[boid_at(1_000_000, 500_000, 0, 0), me], 1);
    assert!(turned.x <= 0 && turned.y <= 0);
}

#[test]
fn an_agent_that_flees_at_full_speed_is_steered_by_the_rounding_alone() {
    let me = boid_at(0, 0, 41_603, 62_403);
    let behind = boid_at(-200_000, -300_000, 0, 0);
    assert_eq!(me.separate(&[me, behind], 0), Vec2::new(-1, 0));
}
