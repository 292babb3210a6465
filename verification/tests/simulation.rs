use boids::flock::{AgentPlan, Config, Flock, HeadingPlan};
use boids::geometry::{Point, PI_FIXED, SCALE, TWO_PI_FIXED};
use boids::{Boid, Rgba};

/// A screen-unit (or radian) value in the library's fixed-point form.
fn fixed(v: f64) -> i64 {
    (v * SCALE as f64).round() as i64
}

fn back(v: i64) -> f64 {
    v as f64 / SCALE as f64
}

fn boid_at(x: f64, y: f64, heading: f64) -> Boid {
    Boid {
        position: Point {
            x: fixed(x),
            y: fixed(y),
        },
        heading: fixed(heading),
        speed: SCALE,
        color: Rgba {
            red: fixed(0.25),
            green: fixed(0.5),
            blue: fixed(0.75),
            alpha: SCALE,
        },
    }
}

/// The cosine and sine of each agent's heading, in fixed point: the answers
/// the planning step needs handed in.
fn trig_table(flock: &Flock) -> Vec<(i64, i64)> {
    let mut trig = Vec::new();
    for b in flock.boids.iter() {
        let h = back(b.heading);
        trig.push((fixed(h.cos()).clamp(-SCALE, SCALE), fixed(h.sin()).clamp(-SCALE, SCALE)));
    }
    trig
}

/// The bearing answers for a plan: the angle of each steering query's
/// (dx, dy), zero for entries that need none.
fn bearing_table(plan: &Vec<AgentPlan>) -> Vec<i64> {
    let mut bearings = Vec::new();
    for p in plan.iter() {
        match p.heading_plan {
            HeadingPlan::Steer { dx, dy } => {
                bearings.push(fixed((dy as f64).atan2(dx as f64)));
            }
            _ => bearings.push(0),
        }
    }
    bearings
}

/// One whole frame, the way the frame driver runs it: plan from the
/// snapshot, answer the trigonometry queries, commit.
fn run_frame(flock: &mut Flock) -> Vec<AgentPlan> {
    let trig = trig_table(flock);
    let plan = flock.update_plan(&trig);
    let bearings = bearing_table(&plan);
    flock.update_commit(&plan, &bearings);
    plan
}

fn small_config(population: usize) -> Config {
    let mut c = Config::standard();
    c.population = population;
    c
}

#[test]
fn standard_config_values() {
    let c = Config::standard();
    assert_eq!(c.width, fixed(800.0));
    assert_eq!(c.height, fixed(600.0));
    assert_eq!(c.buffer, fixed(15.0));
    assert_eq!(c.radius, fixed(30.0));
    assert_eq!(c.steer_divisor, 300);
    assert_eq!(c.spawn_margin, fixed(100.0));
    assert_eq!(c.population, 50);
}

#[test]
fn end_to_end_single_agent() {
    // One agent, heading 0, speed 1, position (400, 300), screen 800x600,
    // buffer 15: one update with no neighbors moves it to (399, 300) —
    // the projection subtracts cos(0) = 1 along x — and leaves heading 0.
    let f0 = Flock::new(small_config(1), vec![boid_at(400.0, 300.0, 0.0)]);
    let mut f = f0;
    let plan = run_frame(&mut f);
    assert_eq!(plan[0].candidate, Point { x: fixed(399.0), y: fixed(300.0) });
    assert!(matches!(plan[0].heading_plan, HeadingPlan::Drift));
    assert_eq!(f.boids[0].position, Point { x: fixed(399.0), y: fixed(300.0) });
    assert_eq!(f.boids[0].heading, 0);
}

#[test]
fn speed_and_color_never_change() {
    // Speed and color stay exactly what they were at construction, over
    // any number of updates.
    let agents = vec![
        boid_at(400.0, 300.0, 0.3),
        boid_at(410.0, 305.0, 2.0),
        boid_at(120.0, 500.0, 4.5),
        boid_at(20.0, 20.0, 1.0),
    ];
    let originals = agents.clone();
    let mut f = Flock::new(small_config(agents.len()), agents);
    for _ in 0..25 {
        run_frame(&mut f);
    }
    for (b, o) in f.boids.iter().zip(originals.iter()) {
        assert_eq!(b.speed, o.speed);
        assert_eq!(b.color, o.color);
    }
}

#[test]
fn interior_agent_steering_is_evaluated() {
    // An agent whose candidate stays strictly inside the buffered screen
    // takes no boundary branch: alone it drifts, heading untouched...
    let mut f = Flock::new(small_config(1), vec![boid_at(400.0, 300.0, 0.5)]);
    let plan = run_frame(&mut f);
    assert!(matches!(plan[0].heading_plan, HeadingPlan::Drift));
    assert_eq!(f.boids[0].heading, fixed(0.5));

    // ...and with a second agent within radius 30 its steering fires and
    // the heading moves.
    let mut g = Flock::new(
        small_config(2),
        vec![boid_at(400.0, 300.0, 0.5), boid_at(410.0, 300.0, 0.5)],
    );
    let plan = run_frame(&mut g);
    assert!(matches!(plan[0].heading_plan, HeadingPlan::Steer { .. }));
    assert_ne!(g.boids[0].heading, fixed(0.5));
}

#[test]
fn left_beats_top_when_both_violated() {
    // A candidate that violates the left and the top conditions at once
    // takes the left correction pi - h only; the top correction 2*pi - h
    // must not also fire in the same frame.
    let h = 1.0;
    let mut f = Flock::new(small_config(1), vec![boid_at(10.0, 10.0, h)]);
    let plan = run_frame(&mut f);
    match plan[0].heading_plan {
        HeadingPlan::Bounded { new_heading } => {
            assert_eq!(new_heading, PI_FIXED - fixed(h));
            assert_ne!(new_heading, TWO_PI_FIXED - fixed(h));
        }
        _ => panic!("expected a boundary correction"),
    }
    assert_eq!(f.boids[0].heading, PI_FIXED - fixed(h));
    // The committed position is still the tentative advance itself.
    assert_eq!(f.boids[0].position.y, fixed(10.0) - fixed(h.sin()));
}

#[test]
fn top_boundary_reflection() {
    let h = 1.3;
    let mut f = Flock::new(small_config(1), vec![boid_at(100.0, 10.0, h)]);
    let plan = run_frame(&mut f);
    match plan[0].heading_plan {
        HeadingPlan::Bounded { new_heading } => {
            assert_eq!(new_heading, TWO_PI_FIXED - fixed(h))
        }
        _ => panic!("expected a boundary correction"),
    }
}

#[test]
fn right_boundary_reflection() {
    // Heading pi: cos is -1, so the candidate moves +1 along x, past the
    // right buffer at 785.
    let h = std::f64::consts::PI;
    let mut f = Flock::new(small_config(1), vec![boid_at(784.5, 300.0, h)]);
    let plan = run_frame(&mut f);
    match plan[0].heading_plan {
        HeadingPlan::Bounded { new_heading } => assert_eq!(new_heading, PI_FIXED - fixed(h)),
        _ => panic!("expected a boundary correction"),
    }
}

#[test]
fn bottom_boundary_reflection() {
    // Heading -pi/2: sin is -1, the candidate moves +1 along y, past the
    // bottom buffer at 585.
    let h = -std::f64::consts::FRAC_PI_2;
    let mut f = Flock::new(small_config(1), vec![boid_at(400.0, 584.5, h)]);
    let plan = run_frame(&mut f);
    match plan[0].heading_plan {
        HeadingPlan::Bounded { new_heading } => assert_eq!(new_heading, -fixed(h)),
        _ => panic!("expected a boundary correction"),
    }
}

#[test]
fn coincident_agents_exclude_each_other() {
    // Two agents at the very same position are not neighbors of each
    // other — exclusion goes by position, not by index — so neither gets
    // a steering nudge and both headings stay frozen.
    let mut f = Flock::new(
        small_config(2),
        vec![boid_at(400.0, 300.0, 0.0), boid_at(400.0, 300.0, 1.0)],
    );
    let plan = run_frame(&mut f);
    assert!(matches!(plan[0].heading_plan, HeadingPlan::Drift));
    assert!(matches!(plan[1].heading_plan, HeadingPlan::Drift));
    assert_eq!(f.boids[0].heading, 0);
    assert_eq!(f.boids[1].heading, fixed(1.0));
}

#[test]
fn distance_exactly_radius_is_out_of_range() {
    // The neighbor test is strict: a pair exactly 30 units apart does not
    // count.
    let mut f = Flock::new(
        small_config(2),
        vec![boid_at(400.0, 300.0, 0.0), boid_at(430.0, 300.0, 0.0)],
    );
    let plan = run_frame(&mut f);
    assert!(matches!(plan[0].heading_plan, HeadingPlan::Drift));
}

#[test]
fn average_divides_by_total_count_not_neighbor_count() {
    // Agent 0 has exactly one neighbor (agent 1; agent 2 is far away),
    // yet the averaged position divides the sums by the total count 3.
    let f = Flock::new(
        small_config(3),
        vec![
            boid_at(400.0, 300.0, 0.0),
            boid_at(410.0, 300.0, 0.0),
            boid_at(600.0, 300.0, 0.0),
        ],
    );
    let trig = trig_table(&f);
    let plan = f.update_plan(&trig);
    match plan[0].heading_plan {
        HeadingPlan::Steer { dx, dy } => {
            // sum = (410, 300) over 3 agents: avg = (136.666666, 100).
            assert_eq!(dx, 410_000_000 / 3 - fixed(400.0));
            assert_eq!(dy, 300_000_000 / 3 - fixed(300.0));
            // Division by the neighbor count 1 would have given these:
            assert_ne!(dx, fixed(410.0) - fixed(400.0));
            assert_ne!(dy, fixed(300.0) - fixed(300.0));
        }
        _ => panic!("expected a steering plan"),
    }
}

#[test]
fn project_with_zero_distance_returns_the_point() {
    let p = Point { x: fixed(123.25), y: fixed(-77.5) };
    for angle in [0.0f64, 0.7, 2.9, -1.4] {
        let r = boids::geometry::project(p, fixed(angle.cos()), fixed(angle.sin()), 0);
        assert_eq!(r, p);
    }
}

#[test]
fn shape_vertices_of_eastward_agent() {
    // Heading 0: the perpendicular direction is pi/2 (cos 0, sin 1). The
    // wings sit 5 units below and above, the nose 15 units behind along
    // -cos convention, i.e. at x - 15.
    let b = boid_at(400.0, 300.0, 0.0);
    let (a, c, n) = b.shape_vertices(0, SCALE, SCALE, 0);
    assert_eq!(a, Point { x: fixed(400.0), y: fixed(295.0) });
    assert_eq!(c, Point { x: fixed(400.0), y: fixed(305.0) });
    assert_eq!(n, Point { x: fixed(385.0), y: fixed(300.0) });
}

#[test]
fn random_flock_spawns_inside_margins() {
    let cfg = Config::standard();
    let f = Flock::random(cfg);
    assert_eq!(f.boids.len(), 50);
    for b in f.boids.iter() {
        assert!(b.position.x >= cfg.spawn_margin && b.position.x <= cfg.width - cfg.spawn_margin);
        assert!(b.position.y >= cfg.spawn_margin && b.position.y <= cfg.height - cfg.spawn_margin);
        assert_eq!(b.speed, SCALE);
        assert_eq!(b.color.alpha, SCALE);
        assert!(b.color.red >= 0 && b.color.red <= SCALE);
        assert!(b.heading >= 0);
    }
}

#[test]
fn steering_nudge_is_a_three_hundredth() {
    // With one neighbor straight above and heading 0, the bearing of the
    // steering target is known, and the committed heading is exactly the
    // old heading plus (bearing - heading) / 300, truncated.
    let mut f = Flock::new(
        small_config(2),
        vec![boid_at(400.0, 300.0, 0.0), boid_at(400.0, 310.0, 0.0)],
    );
    let trig = trig_table(&f);
    let plan = f.update_plan(&trig);
    let (dx, dy) = match plan[0].heading_plan {
        HeadingPlan::Steer { dx, dy } => (dx, dy),
        _ => panic!("expected a steering plan"),
    };
    // avg = (400, 155): sums (400, 310) over 2 agents... dy is negative:
    // the averaging by total count pulls the target below the agent.
    assert_eq!(dx, 400_000_000 / 2 - fixed(400.0));
    assert_eq!(dy, 310_000_000 / 2 - fixed(300.0));
    let bearing = fixed((dy as f64).atan2(dx as f64));
    f.update_commit(&plan, &vec![bearing, 0]);
    assert_eq!(f.boids[0].heading, bearing / 300);
}

#[test]
fn degenerate_configurations_are_rejected() {
    assert!(Config::standard().check_valid());

    let mut zero_width = Config::standard();
    zero_width.width = 0;
    assert!(!zero_width.check_valid());

    let mut wide_margin = Config::standard();
    wide_margin.spawn_margin = wide_margin.width;
    assert!(!wide_margin.check_valid());

    let mut zero_divisor = Config::standard();
    zero_divisor.steer_divisor = 0;
    assert!(!zero_divisor.check_valid());
}
